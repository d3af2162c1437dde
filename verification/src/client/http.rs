//! What a client sends its requests to, and how it reads a reply.

use vstd::prelude::*;

use crate::schema::session::Cookie;

verus! {

/// Where the server listens.
pub const SERVER_URI: &'static str = "http://localhost:3000";

/// The member of an error reply that holds the server's message.
pub const ERROR_MEMBER: &'static str = "error";

/// The message shown for an error reply that carries none.
pub const UNKNOWN_ERROR: &'static str = "Unknown error";

/// From this status on a reply is an error.
pub const FIRST_ERROR_STATUS: u32 = 400;

/// The address of an endpoint: the server's, a slash unless the endpoint
/// brings its own, and the endpoint.
pub open spec fn uri_of(endpoint: Seq<char>) -> Seq<char> {
    if endpoint.len() > 0 && endpoint[0] == '/' {
        SERVER_URI@ + endpoint
    } else {
        SERVER_URI@ + seq!['/'] + endpoint
    }
}

/// The address of an endpoint.
pub fn endpoint_to_uri(endpoint: &str) -> (uri: String)
    ensures
        uri@ == uri_of(endpoint@),
{
    let mut uri = String::from_str(SERVER_URI);
    let has_slash = endpoint.unicode_len() > 0 && endpoint.get_char(0) == '/';
    if !has_slash {
        proof {
            reveal_strlit("/");
        }
        uri.append("/");
        assert("/"@ =~= seq!['/']);
    }
    uri.append(endpoint);
    uri
}

/// Who a client is logged in as: the credentials it sends with each request,
/// and the kind of account the server said it has.
#[derive(Debug, Clone, Default)]
pub struct SessionCookie {
    cookie: Cookie,
    user_type: i64,
}

/// What a [`SessionCookie`] is, as mathematics.
pub struct SessionCookieView {
    pub id: i64,
    pub password: Seq<char>,
    pub user_type: i64,
}

impl View for SessionCookie {
    type V = SessionCookieView;

    closed spec fn view(&self) -> SessionCookieView {
        SessionCookieView {
            id: self.cookie.id,
            password: self.cookie.password@,
            user_type: self.user_type,
        }
    }
}

impl SessionCookie {
    pub fn new(id: i64, password: String, user_type: i64) -> (session: SessionCookie)
        ensures
            session@ == (SessionCookieView { id, password: password@, user_type }),
    {
        SessionCookie { cookie: Cookie { id, password }, user_type }
    }

    /// The credentials to send with a request.
    pub fn cookie(&self) -> (cookie: &Cookie)
        ensures
            cookie.id == self@.id,
            cookie.password@ == self@.password,
    {
        &self.cookie
    }

    /// The kind of account.
    pub fn user_type(&self) -> (user_type: i64)
        ensures
            user_type == self@.user_type,
    {
        self.user_type
    }
}

/// What the client reads of the body of an error reply.
#[derive(Debug, Clone, PartialEq, Eq)]
pub enum ErrorBody {
    /// The body is a JSON object; `member` is the text of its message, where
    /// it has one.
    Object { member: Option<String> },
    /// The body is some other JSON value, which `text` spells out.
    Other { text: String },
}

/// What an [`ErrorBody`] is, as mathematics.
pub enum ErrorBodyView {
    Object { member: Option<Seq<char>> },
    Other { text: Seq<char> },
}

impl View for ErrorBody {
    type V = ErrorBodyView;

    open spec fn view(&self) -> ErrorBodyView {
        match self {
            ErrorBody::Object { member } => ErrorBodyView::Object {
                member: match member {
                    Some(text) => Some(text@),
                    None => None,
                },
            },
            ErrorBody::Other { text } => ErrorBodyView::Other { text: text@ },
        }
    }
}

/// What `serde_json` reads out of `bytes`: nothing where they are no JSON
/// value; for an object, the JSON text of its member `key`, where it has one;
/// for any other value, its JSON text.
pub uninterp spec fn error_body_of(bytes: Seq<u8>, key: Seq<char>) -> Option<ErrorBodyView>;

/// `serde_json::from_slice` to a `serde_json::Value`, then what the client
/// reads of it: through `as_object` and the object's `get(key)`, each value
/// written out with `to_string`. Where the bytes are no JSON value, the error
/// is what `serde_json` says of them, of which nothing is promised.
#[verifier::external_body]
pub(crate) fn read_error_body(bytes: &[u8], key: &str) -> (body: Result<ErrorBody, String>)
    ensures
        match body {
            Ok(read) => error_body_of(bytes@, key@) == Some(read@),
            Err(_) => error_body_of(bytes@, key@) is None,
        },
{
    let value: serde_json::Value = serde_json::from_slice(bytes).map_err(|e| e.to_string())?;
    Ok(
        match value.as_object() {
            Some(object) => ErrorBody::Object {
                member: object.get(key).map(|message| message.to_string()),
            },
            None => ErrorBody::Other { text: value.to_string() },
        },
    )
}

/// The message of an error reply: the object's message, a stand-in where the
/// object has none, or the whole body where it is no object.
pub open spec fn message_of(body: ErrorBodyView) -> Seq<char> {
    match body {
        ErrorBodyView::Object { member: Some(text) } => text,
        ErrorBodyView::Object { member: None } => UNKNOWN_ERROR@,
        ErrorBodyView::Other { text } => text,
    }
}

/// The message of an error reply.
pub fn api_error_message(body: ErrorBody) -> (msg: String)
    ensures
        msg@ == message_of(body@),
{
    match body {
        ErrorBody::Object { member: Some(text) } => text,
        ErrorBody::Object { member: None } => String::from_str(UNKNOWN_ERROR),
        ErrorBody::Other { text } => text,
    }
}

/// Why a request came to nothing.
#[derive(Debug, Clone, PartialEq, Eq)]
pub enum Error {
    /// The request did not get through; the text says why.
    Network(String),
    /// The server answered with an error.
    Api { status_code: u32, msg: String },
    /// The body of the reply could not be read; the text says why.
    Deserialization(String),
}

/// Whether a reply with this status is an error reply.
pub fn is_error_status(status_code: u32) -> (is_error: bool)
    ensures
        is_error == (status_code >= FIRST_ERROR_STATUS),
{
    status_code >= FIRST_ERROR_STATUS
}

/// What to make of an error reply whose body has been read.
pub fn api_error(status_code: u32, body: Result<ErrorBody, String>) -> (error: Error)
    ensures
        match body {
            Ok(read) => error matches Error::Api { status_code: code, msg } && code == status_code
                && msg@ == message_of(read@),
            Err(e) => error matches Error::Deserialization(cause) && cause@ == e@,
        },
{
    match body {
        Ok(read) => Error::Api { status_code, msg: api_error_message(read) },
        Err(e) => Error::Deserialization(e),
    }
}

/// Looks at a reply before its body is decoded: a status below 400 lets the
/// body through; from 400 on the body is read as an error reply, and the
/// error says what it held.
pub fn check_reply(status_code: u32, body: &[u8]) -> (verdict: Result<(), Error>)
    ensures
        status_code < FIRST_ERROR_STATUS ==> verdict is Ok,
        status_code >= FIRST_ERROR_STATUS ==> match error_body_of(body@, ERROR_MEMBER@) {
            Some(read) => verdict matches Err(Error::Api { status_code: code, msg }) && code
                == status_code && msg@ == message_of(read),
            None => verdict matches Err(Error::Deserialization(_)),
        },
{
    if is_error_status(status_code) {
        Err(api_error(status_code, read_error_body(body, ERROR_MEMBER)))
    } else {
        Ok(())
    }
}

} // verus!
