//! The laws of the protocol, proved once and for all over the spec
//! functions that the dispatcher's contracts are stated in.

use vstd::prelude::*;

use crate::chat::{spec_dispatch, spec_login, spec_ping, spec_post, StoreView};
use crate::protocol::{failure_view, ErrCode, ReqKind, ReqView};
use crate::token::{jwt_claims_of, token_of};

verus! {

broadcast use vstd::set::group_set_axioms;

/// The store that a sequence of requests, dispatched in order, leaves
/// behind.
pub open spec fn run_requests(s: StoreView, rs: Seq<ReqView>) -> StoreView
    decreases rs.len(),
{
    if rs.len() == 0 {
        s
    } else {
        run_requests(spec_dispatch(s, rs[0]).0, rs.drop_first())
    }
}

/// No request ever unregisters a user: the registered set only grows.
pub proof fn lemma_users_monotone(s: StoreView, r: ReqView)
    ensures
        s.users.subset_of(spec_dispatch(s, r).0.users),
{
}

/// No request ever changes the signing secret.
pub proof fn lemma_secret_stable(s: StoreView, r: ReqView)
    ensures
        spec_dispatch(s, r).0.secret == s.secret,
{
}

/// Registered users and the secret survive any run of requests.
pub proof fn lemma_store_stable_run(s: StoreView, rs: Seq<ReqView>)
    ensures
        s.users.subset_of(run_requests(s, rs).users),
        run_requests(s, rs).secret == s.secret,
    decreases rs.len(),
{
    if rs.len() > 0 {
        lemma_users_monotone(s, rs[0]);
        lemma_secret_stable(s, rs[0]);
        lemma_store_stable_run(spec_dispatch(s, rs[0]).0, rs.drop_first());
    }
}

/// Registration succeeds exactly when the name is still free; a
/// success records the name, a refusal answers `already_exists` and
/// changes nothing.
pub proof fn lemma_register_iff_free(s: StoreView, u: Seq<char>)
    ensures
        spec_login(s, Some(u)).1.ok <==> !s.users.contains(u),
        spec_login(s, Some(u)).1.ok ==> spec_login(s, Some(u)).0.users == s.users.insert(u),
        !spec_login(s, Some(u)).1.ok ==> spec_login(s, Some(u)) == (
            s,
            failure_view(Some(ReqKind::Login), ErrCode::AlreadyExists),
        ),
{
}

/// Uniqueness of registration: once a registration of `u` has
/// succeeded, every later registration of `u` — after any run of
/// further requests, from any connection — is refused with
/// `already_exists` and leaves the store unchanged.  So of any number
/// of registrations of the same name, serialized in whatever order the
/// store's lock admits them, exactly the first free one succeeds.
pub proof fn lemma_register_unique(s: StoreView, u: Seq<char>, rs: Seq<ReqView>)
    ensures
        spec_login(s, Some(u)).1.ok ==> spec_login(
            run_requests(spec_login(s, Some(u)).0, rs),
            Some(u),
        ) == (
            run_requests(spec_login(s, Some(u)).0, rs),
            failure_view(Some(ReqKind::Login), ErrCode::AlreadyExists),
        ),
{
    let (s1, r1) = spec_login(s, Some(u));
    if r1.ok {
        assert(s1.users.contains(u));
        lemma_store_stable_run(s1, rs);
        assert(run_requests(s1, rs).users.contains(u));
    }
}

/// Authentication: a poll is accepted exactly when the credential's
/// claims verify under the store's secret, and refused with
/// `authentication_failed` otherwise; a post is accepted only then.
pub proof fn lemma_auth_characterization(s: StoreView, t: Seq<char>, x: Option<Seq<char>>)
    ensures
        spec_ping(s, Some(t)).ok <==> jwt_claims_of(t, s.secret) is Some,
        jwt_claims_of(t, s.secret) is None ==> spec_ping(s, Some(t)) == failure_view(
            Some(ReqKind::Ping),
            ErrCode::AuthenticationFailed,
        ),
        spec_post(s, Some(t), x).1.ok ==> jwt_claims_of(t, s.secret) is Some,
        jwt_claims_of(t, s.secret) is None ==> spec_post(s, Some(t), x) == (
            s,
            failure_view(Some(ReqKind::Message), ErrCode::AuthenticationFailed),
        ),
{
}

/// A credential that resolves to the claim it was minted for — as
/// every credential handed out by a successful registration does, see
/// the last clause of `WsChat::dispatch_request` — is accepted by
/// polls and posts in every later store that keeps the secret.
pub proof fn lemma_registered_token_accepted(s0: StoreView, u: Seq<char>, s1: StoreView)
    ensures
        spec_login(s0, Some(u)).1.ok ==> spec_login(s0, Some(u)).1.token == Some(
            token_of(u, s0.secret),
        ),
        (jwt_claims_of(token_of(u, s0.secret), s0.secret) == Some(u) && s1.secret == s0.secret)
            ==> spec_ping(s1, Some(token_of(u, s0.secret))).ok,
{
}

/// The log is append-only: every request leaves the messages already
/// posted in place, in their order, as a prefix of the new log.
pub proof fn lemma_log_append_only(s: StoreView, r: ReqView)
    ensures
        s.messages.is_prefix_of(spec_dispatch(s, r).0.messages),
{
    assert(s.messages.is_prefix_of(s.messages)) by {
        assert(s.messages =~= s.messages.take(s.messages.len() as int));
    }
    let s2 = spec_dispatch(s, r).0;
    if s2.messages.len() > s.messages.len() {
        assert(s.messages =~= s2.messages.take(s.messages.len() as int));
    }
}

/// Append-only over a whole run: whatever requests follow, in
/// whatever order the store's lock serialized them, the messages once
/// posted stay, in the order they were appended.
pub proof fn lemma_log_append_only_run(s: StoreView, rs: Seq<ReqView>)
    ensures
        s.messages.is_prefix_of(run_requests(s, rs).messages),
    decreases rs.len(),
{
    if rs.len() == 0 {
        assert(s.messages =~= s.messages.take(s.messages.len() as int));
    } else {
        let s1 = spec_dispatch(s, rs[0]).0;
        lemma_log_append_only(s, rs[0]);
        lemma_log_append_only_run(s1, rs.drop_first());
        let s2 = run_requests(s1, rs.drop_first());
        assert(s.messages =~= s2.messages.take(s.messages.len() as int));
    }
}

/// A successful post appends exactly one message — the authenticated
/// author paired with the posted text — and the snapshot it answers
/// with is the whole new log, oldest message first.
pub proof fn lemma_post_appends(s: StoreView, t: Seq<char>, x: Seq<char>)
    ensures
        spec_post(s, Some(t), Some(x)).1.ok ==> {
            let u = jwt_claims_of(t, s.secret)->Some_0;
            &&& jwt_claims_of(t, s.secret) is Some
            &&& spec_post(s, Some(t), Some(x)).0.messages == s.messages.push((u, x))
            &&& spec_post(s, Some(t), Some(x)).1.messages == Some(s.messages.push((u, x)))
        },
{
}

/// Idempotent read: a poll never changes the store, so two polls with
/// the same request and no intervening change answer with identical
/// message sequences.
pub proof fn lemma_ping_idempotent(s: StoreView, r: ReqView)
    requires
        r.rtype == Some("ping"@),
    ensures
        spec_dispatch(s, r).0 == s,
        spec_dispatch(spec_dispatch(s, r).0, r).1 == spec_dispatch(s, r).1,
{
    reveal_strlit("ping");
    reveal_strlit("login");
    assert("ping"@.len() == 4);
    assert("login"@.len() == 5);
    assert("ping"@ != "login"@);
}

} // verus!
