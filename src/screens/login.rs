//! The login screen.
use vstd::prelude::*;
use vstd::string::*;
use crate::api::{classified, is_success, classify, request, ApiError, ApiRequest, Method, Payload, Reply};
use crate::router::Route;
use crate::screens::form::{empty_fields_message, CredentialsForm};
use crate::session::{authenticated, Session};
use crate::text::{decimal, push_decimal, trimmed, is_blank};
use crate::utils::joined;

verus! {

/// Credentials sent to log in.
#[derive(Clone, PartialEq, Debug)]
pub struct LoginRequest {
    pub username: String,
    pub password: String,
}

/// The backend's answer to a login.
#[derive(Clone, PartialEq, Debug)]
pub struct LoginResponse {
    pub token: String,
}

/// The path of the login endpoint.
pub open spec fn login_path() -> Seq<char> {
    "api/v1/login"@
}

/// The message shown after a successful login.
pub open spec fn login_success_message() -> Seq<char> {
    "Login successful!"@
}

/// The message shown for each way a login can fail.
pub open spec fn login_error_message(e: ApiError) -> Seq<char> {
    match e {
        ApiError::Build => "Error creating request"@,
        ApiError::Network => "Cannot connect to server"@,
        ApiError::Status(s) => if s == 401 {
            "Username or password is incorrect"@
        } else {
            "Login failed, status: "@ + decimal(s as int)
        },
        ApiError::Decode => "Cannot parse data from server"@,
    }
}

/// The message for a failed login.
pub fn login_error_text(e: ApiError) -> (r: String)
    ensures
        r@ == login_error_message(e),
{
    match e {
        ApiError::Build => String::from_str("Error creating request"),
        ApiError::Network => String::from_str("Cannot connect to server"),
        ApiError::Status(s) => if s == 401 {
            String::from_str("Username or password is incorrect")
        } else {
            let mut m = String::from_str("Login failed, status: ");
            push_decimal(&mut m, s as i64);
            m
        },
        ApiError::Decode => String::from_str("Cannot parse data from server"),
    }
}

/// The session token after a reply to a login: the returned token on
/// success, the earlier one otherwise.
pub open spec fn token_after_login(token: Option<String>, reply: Reply<LoginResponse>) -> Option<String> {
    match classified(reply) {
        Ok(resp) => Some(resp.token),
        Err(_) => token,
    }
}

/// A login that the backend accepts leaves the session logged in with the
/// returned token, whatever session came before; a session whose token was
/// cleared is logged out, whatever the network did.
pub proof fn lemma_login_then_logout(before: Session, status: u16, resp: LoginResponse)
    requires
        is_success(status),
    ensures
        authenticated(Session { token: token_after_login(before.token, Reply::Answered(status, Some(resp))) }),
        token_after_login(before.token, Reply::Answered(status, Some(resp))) == Some(resp.token),
        !authenticated(Session { token: None }),
{
}

/// State of the login screen.
#[derive(Debug)]
pub struct LoginScreen {
    pub origin: String,
    pub form: CredentialsForm,
}

impl LoginScreen {
    /// An empty login form for the backend at `origin`.
    pub fn new(origin: String) -> (r: LoginScreen)
        ensures
            r.origin == origin,
            r.form.username@.len() == 0,
            r.form.password@.len() == 0,
            !r.form.loading,
            r.form.error is None,
            r.form.success is None,
    {
        LoginScreen { origin, form: CredentialsForm::new() }
    }

    /// Submits the form: with a blank field nothing is sent; otherwise the
    /// trimmed credentials are posted to the login endpoint, without a
    /// bearer token.
    pub fn submit(&mut self) -> (r: Option<ApiRequest>)
        ensures
            final(self).origin == old(self).origin,
            r is Some <==> !is_blank(old(self).form.username@) && !is_blank(old(self).form.password@),
            r is Some ==> {
                &&& r->0.method == Method::Post
                &&& r->0.url@ == joined(old(self).origin@, login_path())
                &&& r->0.authorization is None
                &&& match r->0.body {
                    Payload::Login(c) => c.username@ == trimmed(old(self).form.username@)
                        && c.password@ == trimmed(old(self).form.password@),
                    _ => false,
                }
                &&& final(self).form.loading
                &&& final(self).form.error is None
                &&& final(self).form.success is None
            },
            final(self).form.username == old(self).form.username,
            final(self).form.password == old(self).form.password,
            r is None ==> {
                &&& final(self).form.error is Some
                &&& final(self).form.error->0@ == empty_fields_message()
                &&& final(self).form.loading == old(self).form.loading
                &&& final(self).form.success is None
            },
    {
        match self.form.begin_submit() {
            None => None,
            Some((username, password)) => {
                let none: Option<String> = None;
                let body = Payload::Login(LoginRequest { username, password });
                let req = request(Method::Post, self.origin.as_str(), "api/v1/login", &none, body);
                proof {
                    reveal_strlit("api/v1/login");
                }
                Some(req)
            },
        }
    }

    /// Takes the backend's reply to a login. On success the token becomes
    /// the session's and the todo list is next; on failure the session is
    /// left as it was and the form says why.
    pub fn on_reply(&mut self, session: &mut Session, reply: Reply<LoginResponse>) -> (r: Option<Route>)
        ensures
            final(self).origin == old(self).origin,
            final(self).form.username == old(self).form.username,
            final(self).form.password == old(self).form.password,
            !final(self).form.loading,
            final(session).token == token_after_login(old(session).token, reply),
            match classified(reply) {
                Ok(resp) => {
                    &&& final(session).token == Some(resp.token)
                    &&& r == Some(Route::Todo)
                    &&& final(self).form.error is None
                    &&& final(self).form.success is Some
                    &&& final(self).form.success->0@ == login_success_message()
                },
                Err(e) => {
                    &&& final(session).token == old(session).token
                    &&& r is None
                    &&& final(self).form.success is None
                    &&& final(self).form.error is Some
                    &&& final(self).form.error->0@ == login_error_message(e)
                },
            },
    {
        match classify(reply) {
            Ok(resp) => {
                session.set_token(resp.token);
                self.form.finish(None, Some(String::from_str("Login successful!")));
                Some(Route::Todo)
            },
            Err(e) => {
                self.form.finish(Some(login_error_text(e)), None);
                None
            },
        }
    }
}

} // verus!
