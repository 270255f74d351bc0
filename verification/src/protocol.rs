//! The request and response objects of the chat protocol.
//!
//! A request carries a `type` field (`"login"`, `"ping"` or `"message"`)
//! and, depending on the type, a `uname`, `token` or text field.  A field
//! is modelled as `Some(s)` when it is present and holds a string, and as
//! `None` when it is absent or holds a value of any other shape: the
//! dispatcher treats those two situations alike, answering `format`.

use vstd::prelude::*;

verus! {

/// The three request kinds the protocol knows; echoed in the `type`
/// field of a response.
#[derive(Clone, Copy, PartialEq, Eq, Debug)]
pub enum ReqKind {
    Login,
    Ping,
    Message,
}

/// The error vocabulary of the protocol, carried in the `err` field of a
/// failure response.  The literal strings are part of the wire format.
#[derive(Clone, Copy, PartialEq, Eq, Debug)]
pub enum ErrCode {
    Format,
    AlreadyExists,
    AuthenticationFailed,
    Unsupported,
    System,
}

/// A parsed inbound request: the four fields the dispatcher reads.
/// Each is `Some` exactly when the field is present as a string.
pub struct Request {
    pub rtype: Option<String>,
    pub uname: Option<String>,
    pub token: Option<String>,
    pub text: Option<String>,
}

/// The mathematical shape of a [`Request`].
#[verifier::ext_equal]
pub struct ReqView {
    pub rtype: Option<Seq<char>>,
    pub uname: Option<Seq<char>>,
    pub token: Option<Seq<char>>,
    pub text: Option<Seq<char>>,
}

pub open spec fn opt_str_view(o: Option<String>) -> Option<Seq<char>> {
    match o {
        Some(s) => Some(s@),
        None => None,
    }
}

impl View for Request {
    type V = ReqView;

    open spec fn view(&self) -> ReqView {
        ReqView {
            rtype: opt_str_view(self.rtype),
            uname: opt_str_view(self.uname),
            token: opt_str_view(self.token),
            text: opt_str_view(self.text),
        }
    }
}

/// An outbound response: `type` echoes the request kind where it was
/// readable, `ok` is the `status` field, `err` is present exactly on
/// failure, `token` on a successful login, and `messages` (the full log
/// snapshot, author/text pairs in insertion order) on every other
/// success and on a successful login.
#[derive(PartialEq, Debug)]
pub struct Response {
    pub rtype: Option<ReqKind>,
    pub ok: bool,
    pub err: Option<ErrCode>,
    pub token: Option<String>,
    pub messages: Option<Vec<(String, String)>>,
}

/// The mathematical shape of a [`Response`].
#[verifier::ext_equal]
pub struct RespView {
    pub rtype: Option<ReqKind>,
    pub ok: bool,
    pub err: Option<ErrCode>,
    pub token: Option<Seq<char>>,
    pub messages: Option<Seq<(Seq<char>, Seq<char>)>>,
}

impl View for Response {
    type V = RespView;

    open spec fn view(&self) -> RespView {
        RespView {
            rtype: self.rtype,
            ok: self.ok,
            err: self.err,
            token: opt_str_view(self.token),
            messages: match self.messages {
                Some(v) => Some(v.deep_view()),
                None => None,
            },
        }
    }
}

/// The wire word of each error code.
pub open spec fn err_word(e: ErrCode) -> Seq<char> {
    match e {
        ErrCode::Format => "format"@,
        ErrCode::AlreadyExists => "already_exists"@,
        ErrCode::AuthenticationFailed => "authentication_failed"@,
        ErrCode::Unsupported => "unsupported"@,
        ErrCode::System => "system"@,
    }
}

/// The wire word of each request kind.
pub open spec fn kind_word(k: ReqKind) -> Seq<char> {
    match k {
        ReqKind::Login => "login"@,
        ReqKind::Ping => "ping"@,
        ReqKind::Message => "message"@,
    }
}

/// A failure response of the given kind and error code.
pub open spec fn failure_view(k: Option<ReqKind>, e: ErrCode) -> RespView {
    RespView { rtype: k, ok: false, err: Some(e), token: None, messages: None }
}

/// The reply for a request whose shared state could not be safely
/// accessed — the transport answers with it when the store's lock is
/// poisoned.  The request fails with `system`; the process serves on.
pub fn system_failure() -> (r: Response)
    ensures
        r@ == failure_view(None, ErrCode::System),
{
    Response { rtype: None, ok: false, err: Some(ErrCode::System), token: None, messages: None }
}

} // verus!
