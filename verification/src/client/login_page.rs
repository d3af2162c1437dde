//! What the page that logs in and signs up asks for.

use vstd::prelude::*;

use crate::client::http::{SessionCookie, SessionCookieView};
use crate::schema::auth::{CreateAccount, Login, LoginReply};

verus! {

/// The endpoint that logs in.
pub const LOGIN: &'static str = "/auth/login";

/// The endpoint that signs up.
pub const CREATE_ACCOUNT: &'static str = "/auth/create-account";

/// What the client says when logging in failed.
pub const LOGIN_FAILED: &'static str = "Autentificare eșuată";

/// What the client says when signing up failed.
pub const SIGNUP_FAILED: &'static str = "Nu s-a putut creea contul";

/// The request to log in with what the entries hold.
pub fn login_request(email: String, password: String) -> (request: Login)
    ensures
        request == (Login { email, password }),
{
    Login { email, password }
}

/// The request to sign up with what the entries hold.
pub fn signup_request(name: String, email: String, password: String) -> (request: CreateAccount)
    ensures
        request == (CreateAccount { name, email, password }),
{
    CreateAccount { name, email, password }
}

/// The session that starts when the server has let the client in: under the
/// id and the kind that the server answered, with the password that was
/// entered.
pub fn session_after_login(reply: &LoginReply, password: String) -> (session: SessionCookie)
    ensures
        session@ == (SessionCookieView {
            id: reply.id,
            password: password@,
            user_type: reply.kind,
        }),
{
    SessionCookie::new(reply.id, password, reply.kind)
}

} // verus!
