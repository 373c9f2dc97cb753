//! The header: a button that reads "Login" or, when logged in, the
//! subject named in the session token, and that logs in or out.
use vstd::prelude::*;
use vstd::string::*;
use crate::router::Route;
use crate::session::{Session, StorageRead};

verus! {

/// The claims read from a session token for display. They are decoded
/// without checking the token's signature, so they only label the header
/// and decide nothing.
#[derive(Debug)]
pub struct Claims {
    pub sub: Option<String>,
}

/// Whether a read of durable storage found a token.
pub fn is_logged_in(stored: &StorageRead) -> (r: bool)
    ensures
        r == stored is Present,
{
    match stored {
        StorageRead::Present(_) => true,
        _ => false,
    }
}

/// Ends the session.
pub fn logout(session: &mut Session)
    ensures
        final(session).token is None,
{
    session.clear_token();
}

/// The header's button text.
pub open spec fn header_label(logged_in: bool, claims: Option<Claims>) -> Seq<char> {
    match claims {
        Some(c) => if logged_in && c.sub is Some {
            c.sub->0@
        } else {
            "Login"@
        },
        None => "Login"@,
    }
}

/// Header state: whether it shows the user as logged in. It is read from
/// the session once, when the header appears.
#[derive(Debug)]
pub struct Header {
    pub logged_in: bool,
}

impl Header {
    /// The header as it appears for `session`.
    pub fn mount(session: &Session) -> (r: Header)
        ensures
            r.logged_in == session.token is Some,
    {
        Header { logged_in: session.is_authenticated() }
    }

    /// The button text, from the claims of the session token if they could
    /// be read.
    pub fn label(&self, claims: &Option<Claims>) -> (r: String)
        ensures
            r@ == header_label(self.logged_in, *claims),
    {
        if self.logged_in {
            if let Some(c) = claims {
                if let Some(sub) = &c.sub {
                    return sub.clone();
                }
            }
        }
        String::from_str("Login")
    }

    /// A click on the button: when logged in it logs out; otherwise it goes
    /// to the login screen.
    pub fn on_click(&mut self, session: &mut Session) -> (r: Option<Route>)
        ensures
            old(self).logged_in ==> {
                &&& final(session).token is None
                &&& !final(self).logged_in
                &&& r is None
            },
            !old(self).logged_in ==> {
                &&& final(session).token == old(session).token
                &&& final(self).logged_in
                &&& r == Some(Route::Login)
            },
    {
        if self.logged_in {
            logout(session);
            self.logged_in = false;
            None
        } else {
            self.logged_in = true;
            Some(Route::Login)
        }
    }
}

} // verus!
