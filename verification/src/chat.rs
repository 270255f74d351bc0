//! The chat store and the protocol dispatcher.
//!
//! [`WsChat`] owns the set of registered usernames, the append-only
//! message log, and the shared signing secret.  The behaviour of every
//! request is pinned down by the spec functions [`spec_login`],
//! [`spec_ping`], [`spec_post`] and [`spec_dispatch`]: the executable
//! dispatcher is proved to return exactly what they say, for every
//! input.

use vstd::prelude::*;

use crate::jsonval::{read_request, req_of};
use crate::protocol::{failure_view, opt_str_view, ErrCode, ReqKind, ReqView, Request, Response, RespView};
use crate::token::{jwt_claims_of, sign_token, token_of, verify_token};

verus! {

broadcast use vstd::seq_lib::group_seq_lib_default;

/// The mathematical state of a chat store: which usernames are
/// registered, the messages posted so far (author/text pairs, oldest
/// first), and the signing secret.
#[verifier::ext_equal]
pub struct StoreView {
    pub users: Set<Seq<char>>,
    pub messages: Seq<(Seq<char>, Seq<char>)>,
    pub secret: Seq<char>,
}

/// The chat store: registered usernames, the ordered message log, and
/// the secret that credentials are signed with.
pub struct WsChat {
    users: Vec<String>,
    messages: Vec<(String, String)>,
    secret: String,
}

impl View for WsChat {
    type V = StoreView;

    closed spec fn view(&self) -> StoreView {
        StoreView {
            users: self.users.deep_view().to_set(),
            messages: self.messages.deep_view(),
            secret: self.secret@,
        }
    }
}

/// What a `login` request does: a missing or non-string `uname` is a
/// format error; a registered `uname` is refused with `already_exists`;
/// otherwise the username is recorded, a fresh credential bound to it is
/// minted, and the response carries the credential together with the
/// log snapshot at login time.
pub open spec fn spec_login(s: StoreView, uname: Option<Seq<char>>) -> (StoreView, RespView) {
    match uname {
        None => (s, failure_view(Some(ReqKind::Login), ErrCode::Format)),
        Some(u) => if s.users.contains(u) {
            (s, failure_view(Some(ReqKind::Login), ErrCode::AlreadyExists))
        } else {
            (
                StoreView { users: s.users.insert(u), ..s },
                RespView {
                    rtype: Some(ReqKind::Login),
                    ok: true,
                    err: None,
                    token: Some(token_of(u, s.secret)),
                    messages: Some(s.messages),
                },
            )
        },
    }
}

/// What a `ping` request does: a missing or non-string `token` is a
/// format error; a token whose claims do not verify is an
/// authentication failure; otherwise the full log snapshot is returned
/// and the store is left unchanged.
pub open spec fn spec_ping(s: StoreView, token: Option<Seq<char>>) -> RespView {
    match token {
        None => failure_view(Some(ReqKind::Ping), ErrCode::Format),
        Some(t) => match jwt_claims_of(t, s.secret) {
            None => failure_view(Some(ReqKind::Ping), ErrCode::AuthenticationFailed),
            Some(_) => RespView {
                rtype: Some(ReqKind::Ping),
                ok: true,
                err: None,
                token: None,
                messages: Some(s.messages),
            },
        },
    }
}

/// What a `message` request does: the token is checked as for `ping`;
/// then a missing or non-string text field is a format error; otherwise
/// the message is appended under the username the credential is bound
/// to, and the snapshot after the append is returned.
pub open spec fn spec_post(s: StoreView, token: Option<Seq<char>>, text: Option<Seq<char>>) -> (
    StoreView,
    RespView,
) {
    match token {
        None => (s, failure_view(Some(ReqKind::Message), ErrCode::Format)),
        Some(t) => match jwt_claims_of(t, s.secret) {
            None => (s, failure_view(Some(ReqKind::Message), ErrCode::AuthenticationFailed)),
            Some(u) => match text {
                None => (s, failure_view(Some(ReqKind::Message), ErrCode::Format)),
                Some(x) => (
                    StoreView { messages: s.messages.push((u, x)), ..s },
                    RespView {
                        rtype: Some(ReqKind::Message),
                        ok: true,
                        err: None,
                        token: None,
                        messages: Some(s.messages.push((u, x))),
                    },
                ),
            },
        },
    }
}

/// The whole protocol: an unreadable `type` field is a format error, an
/// unknown `type` value is unsupported, and the three known kinds are
/// routed to their own rules.
pub open spec fn spec_dispatch(s: StoreView, r: ReqView) -> (StoreView, RespView) {
    match r.rtype {
        None => (s, failure_view(None, ErrCode::Format)),
        Some(t) => if t == "login"@ {
            spec_login(s, r.uname)
        } else if t == "ping"@ {
            (s, spec_ping(s, r.token))
        } else if t == "message"@ {
            spec_post(s, r.token, r.text)
        } else {
            (s, failure_view(None, ErrCode::Unsupported))
        },
    }
}

impl WsChat {
    /// A fresh store with no registered user and an empty log.  The
    /// signing secret must be supplied and non-empty at start: an
    /// absent or empty secret is a configuration error of the process,
    /// to be refused before the store is built.
    pub fn new(secret: String) -> (c: WsChat)
        requires
            secret@.len() > 0,
        ensures
            c@ == (StoreView { users: Set::empty(), messages: Seq::empty(), secret: secret@ }),
    {
        let c = WsChat { users: Vec::new(), messages: Vec::new(), secret };
        proof {
            assert(c.users.deep_view().to_set() =~= Set::<Seq<char>>::empty());
            assert(c.messages.deep_view() =~= Seq::<(Seq<char>, Seq<char>)>::empty());
        }
        c
    }

    /// Whether `uname` is registered.
    fn has_user(&self, uname: &String) -> (b: bool)
        ensures
            b == self@.users.contains(uname@),
    {
        let mut i: usize = 0;
        while i < self.users.len()
            invariant
                i <= self.users.len(),
                forall|j: int| 0 <= j < i ==> self.users.deep_view()[j] != uname@,
            decreases self.users.len() - i,
        {
            if self.users[i] == *uname {
                assert(self.users.deep_view()[i as int] == uname@);
                assert(self.users.deep_view().contains(uname@));
                return true;
            }
            i += 1;
        }
        assert(forall|j: int|
            0 <= j < self.users.deep_view().len() ==> self.users.deep_view()[j] != uname@);
        assert(!self.users.deep_view().contains(uname@));
        false
    }

    /// A point-in-time copy of the message log, in insertion order.
    fn snapshot(&self) -> (r: Vec<(String, String)>)
        ensures
            r.deep_view() == self@.messages,
    {
        let mut r: Vec<(String, String)> = Vec::new();
        let mut i: usize = 0;
        while i < self.messages.len()
            invariant
                i <= self.messages.len(),
                r.len() == i,
                forall|j: int| 0 <= j < i ==> r@[j] == self.messages@[j],
            decreases self.messages.len() - i,
        {
            let pair = (self.messages[i].0.clone(), self.messages[i].1.clone());
            proof {
                assert(pair == self.messages@[i as int]);
            }
            r.push(pair);
            i += 1;
        }
        proof {
            assert(r@ =~= self.messages@);
            assert(r.deep_view() =~= self@.messages);
        }
        r
    }

    /// Registration: the `login` route, with the behaviour of
    /// [`spec_login`].  On success the minted credential carries the
    /// username as its claim.
    fn process_login(&mut self, uname: &Option<String>) -> (resp: Response)
        ensures
            final(self)@ == spec_login(old(self)@, opt_str_view(*uname)).0,
            resp@ == spec_login(old(self)@, opt_str_view(*uname)).1,
            (match opt_str_view(*uname) {
                Some(u) => !old(self)@.users.contains(u) ==> jwt_claims_of(
                    token_of(u, old(self)@.secret),
                    old(self)@.secret,
                ) == Some(u),
                None => true,
            }),
    {
        match uname {
            None => {
                Response {
                    rtype: Some(ReqKind::Login),
                    ok: false,
                    err: Some(ErrCode::Format),
                    token: None,
                    messages: None,
                }
            },
            Some(u) => {
                if self.has_user(u) {
                    Response {
                        rtype: Some(ReqKind::Login),
                        ok: false,
                        err: Some(ErrCode::AlreadyExists),
                        token: None,
                        messages: None,
                    }
                } else {
                    let tok = sign_token(u.as_str(), self.secret.as_str());
                    let msgs = self.snapshot();
                    self.users.push(u.clone());
                    proof {
                        old(self).users.deep_view().lemma_push_to_set_commute(u@);
                        assert(self.users.deep_view() =~= old(self).users.deep_view().push(u@));
                        assert(self@.users =~= old(self)@.users.insert(u@));
                        assert(self@ =~= spec_login(old(self)@, opt_str_view(*uname)).0);
                    }
                    Response {
                        rtype: Some(ReqKind::Login),
                        ok: true,
                        err: None,
                        token: Some(tok),
                        messages: Some(msgs),
                    }
                }
            },
        }
    }

    /// Polling: the `ping` route, with the behaviour of [`spec_ping`].
    /// The store is left as it was.
    fn process_ping(&self, token: &Option<String>) -> (resp: Response)
        ensures
            resp@ == spec_ping(self@, opt_str_view(*token)),
    {
        match token {
            None => {
                Response {
                    rtype: Some(ReqKind::Ping),
                    ok: false,
                    err: Some(ErrCode::Format),
                    token: None,
                    messages: None,
                }
            },
            Some(t) => {
                match verify_token(t.as_str(), self.secret.as_str()) {
                    None => Response {
                        rtype: Some(ReqKind::Ping),
                        ok: false,
                        err: Some(ErrCode::AuthenticationFailed),
                        token: None,
                        messages: None,
                    },
                    Some(_) => Response {
                        rtype: Some(ReqKind::Ping),
                        ok: true,
                        err: None,
                        token: None,
                        messages: Some(self.snapshot()),
                    },
                }
            },
        }
    }

    /// Posting: the `message` route, with the behaviour of
    /// [`spec_post`].  The message is appended under the username the
    /// credential resolves to, never under a caller-chosen name.
    fn process_message(&mut self, token: &Option<String>, text: &Option<String>) -> (resp:
        Response)
        ensures
            final(self)@ == spec_post(old(self)@, opt_str_view(*token), opt_str_view(*text)).0,
            resp@ == spec_post(old(self)@, opt_str_view(*token), opt_str_view(*text)).1,
    {
        match token {
            None => {
                Response {
                    rtype: Some(ReqKind::Message),
                    ok: false,
                    err: Some(ErrCode::Format),
                    token: None,
                    messages: None,
                }
            },
            Some(t) => {
                match verify_token(t.as_str(), self.secret.as_str()) {
                    None => Response {
                        rtype: Some(ReqKind::Message),
                        ok: false,
                        err: Some(ErrCode::AuthenticationFailed),
                        token: None,
                        messages: None,
                    },
                    Some(u) => match text {
                        None => Response {
                            rtype: Some(ReqKind::Message),
                            ok: false,
                            err: Some(ErrCode::Format),
                            token: None,
                            messages: None,
                        },
                        Some(x) => {
                            self.messages.push((u, x.clone()));
                            let msgs = self.snapshot();
                            proof {
                                assert(self.messages.deep_view() =~= old(self).messages.deep_view().push((u@, x@)));
                                assert(self@ =~= spec_post(
                                    old(self)@,
                                    opt_str_view(*token),
                                    opt_str_view(*text),
                                ).0);
                            }
                            Response {
                                rtype: Some(ReqKind::Message),
                                ok: true,
                                err: None,
                                token: None,
                                messages: Some(msgs),
                            }
                        },
                    },
                }
            },
        }
    }

    /// Routes a parsed request, with the behaviour of
    /// [`spec_dispatch`].  The last clause records that the credential
    /// minted by a successful registration verifies back to the
    /// registered username: this is what makes a fresh login token
    /// acceptable to later `ping` and `message` requests.
    pub fn dispatch_request(&mut self, r: &Request) -> (resp: Response)
        ensures
            final(self)@ == spec_dispatch(old(self)@, r@).0,
            resp@ == spec_dispatch(old(self)@, r@).1,
            (match (r@.rtype, r@.uname) {
                (Some(t), Some(u)) => t == "login"@ && !old(self)@.users.contains(u)
                    ==> jwt_claims_of(token_of(u, old(self)@.secret), old(self)@.secret) == Some(u),
                _ => true,
            }),
    {
        match &r.rtype {
            None => Response {
                rtype: None,
                ok: false,
                err: Some(ErrCode::Format),
                token: None,
                messages: None,
            },
            Some(t) => {
                if *t == String::from_str("login") {
                    self.process_login(&r.uname)
                } else if *t == String::from_str("ping") {
                    self.process_ping(&r.token)
                } else if *t == String::from_str("message") {
                    self.process_message(&r.token, &r.text)
                } else {
                    Response {
                        rtype: None,
                        ok: false,
                        err: Some(ErrCode::Unsupported),
                        token: None,
                        messages: None,
                    }
                }
            },
        }
    }

    /// Routes a raw request object: the four protocol fields are read
    /// off it — [`req_of`] states which request a given value yields —
    /// and dispatched, with the behaviour of [`spec_dispatch`] on that
    /// request.
    pub fn dispatch(&mut self, value: &serde_json::Value) -> (resp: Response)
        ensures
            final(self)@ == spec_dispatch(old(self)@, req_of(*value)).0,
            resp@ == spec_dispatch(old(self)@, req_of(*value)).1,
    {
        let req = read_request(value);
        self.dispatch_request(&req)
    }
}

} // verus!
