//! The registration screen.
use vstd::prelude::*;
use vstd::string::*;
use crate::api::{answered_status, is_success, request, status_of, success_status, ApiRequest, Method, Payload, Reply};
use crate::router::Route;
use crate::screens::form::{empty_fields_message, CredentialsForm};
use crate::text::{decimal, is_blank, push_decimal, trimmed};
use crate::utils::joined;

verus! {

/// Credentials sent to register.
#[derive(Clone, PartialEq, Debug)]
pub struct RegisterRequest {
    pub username: String,
    pub password: String,
}

/// The path of the registration endpoint.
pub open spec fn register_path() -> Seq<char> {
    "api/v1/register"@
}

/// The message shown after a successful registration.
pub open spec fn register_success_message() -> Seq<char> {
    "Registration successful!"@
}

/// The message shown when registration fails, by the status the backend
/// answered with, if it answered.
pub open spec fn register_error_message(status: Option<u16>, built: bool) -> Seq<char> {
    if !built {
        "Failed to build the request"@
    } else {
        match status {
            Some(s) => "Registration failed, status: "@ + decimal(s as int),
            None => "Cannot connect to server"@,
        }
    }
}

/// State of the registration screen.
#[derive(Debug)]
pub struct RegisterScreen {
    pub origin: String,
    pub form: CredentialsForm,
}

impl RegisterScreen {
    /// An empty registration form for the backend at `origin`.
    pub fn new(origin: String) -> (r: RegisterScreen)
        ensures
            r.origin == origin,
            r.form.username@.len() == 0,
            r.form.password@.len() == 0,
            !r.form.loading,
            r.form.error is None,
            r.form.success is None,
    {
        RegisterScreen { origin, form: CredentialsForm::new() }
    }

    /// Submits the form: with a blank field nothing is sent; otherwise the
    /// trimmed credentials are posted to the registration endpoint, without
    /// a bearer token.
    pub fn submit(&mut self) -> (r: Option<ApiRequest>)
        ensures
            final(self).origin == old(self).origin,
            r is Some <==> !is_blank(old(self).form.username@) && !is_blank(old(self).form.password@),
            r is Some ==> {
                &&& r->0.method == Method::Post
                &&& r->0.url@ == joined(old(self).origin@, register_path())
                &&& r->0.authorization is None
                &&& match r->0.body {
                    Payload::Register(c) => c.username@ == trimmed(old(self).form.username@)
                        && c.password@ == trimmed(old(self).form.password@),
                    _ => false,
                }
                &&& final(self).form.loading
                &&& final(self).form.error is None
                &&& final(self).form.success is None
            },
            final(self).form.username == old(self).form.username,
            final(self).form.password == old(self).form.password,
            r is None ==> {
                &&& final(self).form.error is Some
                &&& final(self).form.error->0@ == empty_fields_message()
                &&& final(self).form.loading == old(self).form.loading
                &&& final(self).form.success is None
            },
    {
        match self.form.begin_submit() {
            None => None,
            Some((username, password)) => {
                let none: Option<String> = None;
                let body = Payload::Register(RegisterRequest { username, password });
                let req = request(Method::Post, self.origin.as_str(), "api/v1/register", &none, body);
                Some(req)
            },
        }
    }

    /// Takes the backend's reply to a registration: any 2xx status succeeds
    /// and the login screen is next; otherwise the form says why.
    pub fn on_reply(&mut self, reply: Reply<()>) -> (r: Option<Route>)
        ensures
            final(self).origin == old(self).origin,
            final(self).form.username == old(self).form.username,
            final(self).form.password == old(self).form.password,
            !final(self).form.loading,
            match answered_status(reply) {
                Some(s) if is_success(s) => {
                    &&& r == Some(Route::Login)
                    &&& final(self).form.error is None
                    &&& final(self).form.success is Some
                    &&& final(self).form.success->0@ == register_success_message()
                },
                _ => {
                    &&& r is None
                    &&& final(self).form.success is None
                    &&& final(self).form.error is Some
                    &&& final(self).form.error->0@ == register_error_message(
                        answered_status(reply),
                        !(reply is Unbuilt),
                    )
                },
            },
    {
        let built = !matches!(reply, Reply::Unbuilt);
        match status_of(&reply) {
            Some(s) => if success_status(s) {
                self.form.finish(None, Some(String::from_str("Registration successful!")));
                Some(Route::Login)
            } else {
                let mut m = String::from_str("Registration failed, status: ");
                push_decimal(&mut m, s as i64);
                self.form.finish(Some(m), None);
                None
            },
            None => {
                let m = if built {
                    String::from_str("Cannot connect to server")
                } else {
                    String::from_str("Failed to build the request")
                };
                self.form.finish(Some(m), None);
                None
            },
        }
    }
}

} // verus!
