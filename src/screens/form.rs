//! The username and password form that login and registration share.
use vstd::prelude::*;
use vstd::string::*;
use crate::text::{is_blank, trim, trimmed};

verus! {

/// The message shown when a field is empty.
pub open spec fn empty_fields_message() -> Seq<char> {
    "Username and password must not be empty"@
}

/// Fields and status of a credentials form. At most one of `error` and
/// `success` is set once a submission has finished.
#[derive(Debug)]
pub struct CredentialsForm {
    pub username: String,
    pub password: String,
    pub loading: bool,
    pub error: Option<String>,
    pub success: Option<String>,
}

impl CredentialsForm {
    /// An empty form.
    pub fn new() -> (r: CredentialsForm)
        ensures
            r.username@.len() == 0,
            r.password@.len() == 0,
            !r.loading,
            r.error is None,
            r.success is None,
    {
        CredentialsForm {
            username: String::new(),
            password: String::new(),
            loading: false,
            error: None,
            success: None,
        }
    }

    /// Replaces the username; any error shown is dismissed.
    pub fn set_username(&mut self, value: String)
        ensures
            *final(self) == (CredentialsForm { username: value, error: None, ..*old(self) }),
    {
        self.username = value;
        self.error = None;
    }

    /// Replaces the password; any error shown is dismissed.
    pub fn set_password(&mut self, value: String)
        ensures
            *final(self) == (CredentialsForm { password: value, error: None, ..*old(self) }),
    {
        self.password = value;
        self.error = None;
    }

    /// Whether the submit control is enabled: nothing is in flight and
    /// neither field is blank.
    pub fn can_submit(&self) -> (r: bool)
        ensures
            r == (!self.loading && !is_blank(self.username@) && !is_blank(self.password@)),
    {
        let u = trim(self.username.as_str());
        let p = trim(self.password.as_str());
        !self.loading && u.unicode_len() > 0 && p.unicode_len() > 0
    }

    /// Starts a submission. With a blank field nothing is sent and the
    /// form shows why, and nothing else; otherwise the trimmed fields are handed out, the form
    /// is loading and its messages are cleared.
    pub fn begin_submit(&mut self) -> (r: Option<(String, String)>)
        ensures
            is_blank(old(self).username@) || is_blank(old(self).password@) ==> {
                &&& r is None
                &&& final(self).error is Some
                &&& final(self).error->0@ == empty_fields_message()
                &&& final(self).username == old(self).username
                &&& final(self).password == old(self).password
                &&& final(self).loading == old(self).loading
                &&& final(self).success is None
            },
            !is_blank(old(self).username@) && !is_blank(old(self).password@) ==> {
                &&& match r {
                    Some((u, p)) => u@ == trimmed(old(self).username@) && p@ == trimmed(
                        old(self).password@,
                    ),
                    None => false,
                }
                &&& final(self).username == old(self).username
                &&& final(self).password == old(self).password
                &&& final(self).loading
                &&& final(self).error is None
                &&& final(self).success is None
            },
    {
        let u = trim(self.username.as_str());
        let p = trim(self.password.as_str());
        if u.unicode_len() == 0 || p.unicode_len() == 0 {
            self.error = Some(String::from_str("Username and password must not be empty"));
            self.success = None;
            return None;
        }
        self.loading = true;
        self.error = None;
        self.success = None;
        Some((u, p))
    }

    /// Ends a submission with exactly one message.
    pub fn finish(&mut self, error: Option<String>, success: Option<String>)
        requires
            error is Some != success is Some,
        ensures
            *final(self) == (CredentialsForm { loading: false, error, success, ..*old(self) }),
    {
        self.loading = false;
        self.error = error;
        self.success = success;
    }
}

} // verus!
