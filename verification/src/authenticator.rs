//! The authenticator: how a unit comes by a client with a usable session.
//!
//! A persisted credential is preferred: it is loaded and restored, and only
//! where either fails does the authenticator fall back on an interactive
//! login. Whichever way the session came about, it is persisted again
//! before the client is handed on. Nothing is retried here.

use vstd::prelude::*;
use crate::outcome::{Cause, Notice};

verus! {

/// What the authenticator asks the caller to do, or how it ended.
#[derive(Clone, Copy, Debug, PartialEq, Eq)]
pub enum AuthOp {
    /// Build a client bound to the configured server.
    Connect,
    /// Load the persisted credential.
    LoadSession,
    /// Restore the loaded credential into the client.
    RestoreSession,
    /// Log in with the account and its secret.
    Login,
    /// Export the client's session and persist it.
    SaveSession,
    /// The client is ready for use.
    Ready,
    /// No usable client could be had.
    Fail(Cause),
}

/// The state of one authentication: the operation whose end is awaited, or
/// how the authentication ended.
#[derive(Clone, Copy, Debug, PartialEq, Eq)]
pub enum Auth {
    /// The client is being built.
    Connecting,
    /// The persisted credential is being loaded.
    Loading,
    /// The loaded credential is being restored.
    Restoring,
    /// The interactive login is under way.
    LoggingIn,
    /// The session is being persisted.
    Saving,
    /// The authentication ended with a usable client.
    Ready,
    /// The authentication ended without one.
    Failed(Cause),
}

/// The authenticator's answer to the end of one operation.
#[derive(Clone, Copy, Debug, PartialEq, Eq)]
pub struct AuthStep {
    pub next: Auth,
    pub notice: Option<Notice>,
    pub op: AuthOp,
}

/// The operation whose end is awaited in `state`, or the ending that
/// `state` stands for.
pub open spec fn pending(state: Auth) -> AuthOp {
    match state {
        Auth::Connecting => AuthOp::Connect,
        Auth::Loading => AuthOp::LoadSession,
        Auth::Restoring => AuthOp::RestoreSession,
        Auth::LoggingIn => AuthOp::Login,
        Auth::Saving => AuthOp::SaveSession,
        Auth::Ready => AuthOp::Ready,
        Auth::Failed(cause) => AuthOp::Fail(cause),
    }
}

/// The state that follows `state` when the awaited operation succeeded
/// (`ok`) or failed.
///
/// A client that cannot be built and a login that fails end the
/// authentication. A credential that cannot be loaded or restored leads to
/// the login. A session that cannot be persisted is still a session.
pub open spec fn successor(state: Auth, ok: bool) -> Auth {
    match state {
        Auth::Connecting => if ok { Auth::Loading } else { Auth::Failed(Cause::Connect) },
        Auth::Loading => if ok { Auth::Restoring } else { Auth::LoggingIn },
        Auth::Restoring => if ok { Auth::Saving } else { Auth::LoggingIn },
        Auth::LoggingIn => if ok { Auth::Saving } else { Auth::Failed(Cause::Login) },
        Auth::Saving => Auth::Ready,
        Auth::Ready => Auth::Ready,
        Auth::Failed(cause) => Auth::Failed(cause),
    }
}

/// The log line for the end of the operation awaited in `state`: the three
/// failures that the authenticator absorbs are logged, nothing else is.
pub open spec fn remark(state: Auth, ok: bool) -> Option<Notice> {
    if ok {
        None
    } else {
        match state {
            Auth::Loading => Some(Notice::SessionNotLoaded),
            Auth::Restoring => Some(Notice::SessionNotRestored),
            Auth::Saving => Some(Notice::SessionNotSaved),
            _ => None,
        }
    }
}

/// The authenticator's answer when, in `state`, the awaited operation ended.
pub open spec fn after_op(state: Auth, ok: bool) -> AuthStep {
    AuthStep {
        next: successor(state, ok),
        notice: remark(state, ok),
        op: pending(successor(state, ok)),
    }
}

/// What an authentication in `state` asks for, operation by operation, when
/// the operations end as `results` tell (`true` for a success). Nothing is
/// asked for once the authentication has ended.
pub open spec fn run(state: Auth, results: Seq<bool>) -> Seq<AuthOp>
    decreases results.len(),
{
    if results.len() == 0 || state is Ready || state is Failed {
        Seq::empty()
    } else {
        seq![after_op(state, results[0]).op] + run(
            after_op(state, results[0]).next,
            results.drop_first(),
        )
    }
}

/// Everything that an authentication asks for from its start, the building
/// of the client included.
pub open spec fn run_from_start(results: Seq<bool>) -> Seq<AuthOp> {
    seq![AuthOp::Connect] + run(Auth::Connecting, results)
}

impl Auth {
    /// Starts an authentication: the caller is to build the client.
    pub fn start() -> (state: Auth)
        ensures
            state == Auth::Connecting,
            pending(state) == AuthOp::Connect,
    {
        Auth::Connecting
    }

    /// Takes the end of the awaited operation and decides what follows.
    pub fn on_result(self, ok: bool) -> (step: AuthStep)
        ensures
            step == after_op(self, ok),
    {
        match self {
            Auth::Connecting => {
                if ok {
                    Auth::proceed(Auth::Loading, AuthOp::LoadSession, None)
                } else {
                    Auth::proceed(Auth::Failed(Cause::Connect), AuthOp::Fail(Cause::Connect), None)
                }
            },
            Auth::Loading => {
                if ok {
                    Auth::proceed(Auth::Restoring, AuthOp::RestoreSession, None)
                } else {
                    Auth::proceed(Auth::LoggingIn, AuthOp::Login, Some(Notice::SessionNotLoaded))
                }
            },
            Auth::Restoring => {
                if ok {
                    Auth::proceed(Auth::Saving, AuthOp::SaveSession, None)
                } else {
                    Auth::proceed(Auth::LoggingIn, AuthOp::Login, Some(Notice::SessionNotRestored))
                }
            },
            Auth::LoggingIn => {
                if ok {
                    Auth::proceed(Auth::Saving, AuthOp::SaveSession, None)
                } else {
                    Auth::proceed(Auth::Failed(Cause::Login), AuthOp::Fail(Cause::Login), None)
                }
            },
            Auth::Saving => {
                if ok {
                    Auth::proceed(Auth::Ready, AuthOp::Ready, None)
                } else {
                    Auth::proceed(Auth::Ready, AuthOp::Ready, Some(Notice::SessionNotSaved))
                }
            },
            Auth::Ready => Auth::proceed(Auth::Ready, AuthOp::Ready, None),
            Auth::Failed(cause) => Auth::proceed(Auth::Failed(cause), AuthOp::Fail(cause), None),
        }
    }

    fn proceed(next: Auth, op: AuthOp, notice: Option<Notice>) -> (step: AuthStep)
        ensures
            step == (AuthStep { next, notice, op }),
    {
        AuthStep { next, notice, op }
    }
}

/// Where the client is built and the persisted credential loads and is
/// restored, the authenticator never logs in: it persists the restored
/// session and is ready, whatever comes of the persisting.
pub proof fn law_restored_session_excludes_login(results: Seq<bool>)
    requires
        results.len() >= 3,
        results[0],
        results[1],
        results[2],
    ensures
        !run_from_start(results).contains(AuthOp::Login),
        results.len() >= 4 ==> run_from_start(results) == seq![
            AuthOp::Connect,
            AuthOp::LoadSession,
            AuthOp::RestoreSession,
            AuthOp::SaveSession,
            AuthOp::Ready,
        ],
{
    reveal_with_fuel(run, 6);
    let r1 = results.drop_first();
    let r2 = r1.drop_first();
    let r3 = r2.drop_first();
    assert(r1[0] == results[1]);
    assert(r2[0] == results[2]);
    let head = seq![
        AuthOp::Connect,
        AuthOp::LoadSession,
        AuthOp::RestoreSession,
        AuthOp::SaveSession,
    ];
    if results.len() >= 4 {
        assert(r3[0] == results[3]);
        assert(run_from_start(results) =~= head.push(AuthOp::Ready));
    } else {
        assert(r3.len() == 0);
        assert(run_from_start(results) =~= head);
    }
}

/// Where the client is built and the loaded credential fails to restore,
/// the authenticator falls through to the login at once. Where that login
/// succeeds it persists the new session before anything else and is then
/// ready; where it fails the authentication ends and nothing is persisted.
pub proof fn law_failed_restore_leads_to_login(results: Seq<bool>)
    requires
        results.len() >= 3,
        results[0],
        results[1],
        !results[2],
    ensures
        run_from_start(results).len() >= 4,
        run_from_start(results)[3] == AuthOp::Login,
        results.len() >= 4 && results[3] ==> run_from_start(results).len() >= 5
            && run_from_start(results)[4] == AuthOp::SaveSession,
        results.len() >= 5 && results[3] ==> run_from_start(results) == seq![
            AuthOp::Connect,
            AuthOp::LoadSession,
            AuthOp::RestoreSession,
            AuthOp::Login,
            AuthOp::SaveSession,
            AuthOp::Ready,
        ],
        results.len() >= 4 && !results[3] ==> run_from_start(results) == seq![
            AuthOp::Connect,
            AuthOp::LoadSession,
            AuthOp::RestoreSession,
            AuthOp::Login,
            AuthOp::Fail(Cause::Login),
        ],
{
    reveal_with_fuel(run, 7);
    let r1 = results.drop_first();
    let r2 = r1.drop_first();
    let r3 = r2.drop_first();
    let r4 = r3.drop_first();
    assert(r1[0] == results[1]);
    assert(r2[0] == results[2]);
    let head = seq![
        AuthOp::Connect,
        AuthOp::LoadSession,
        AuthOp::RestoreSession,
        AuthOp::Login,
    ];
    if results.len() >= 4 {
        assert(r3[0] == results[3]);
        if results[3] {
            if results.len() >= 5 {
                assert(r4[0] == results[4]);
                assert(run_from_start(results) =~= head.push(AuthOp::SaveSession).push(
                    AuthOp::Ready,
                ));
            } else {
                assert(run_from_start(results) =~= head.push(AuthOp::SaveSession));
            }
        } else {
            assert(run_from_start(results) =~= head.push(AuthOp::Fail(Cause::Login)));
        }
    } else {
        assert(run_from_start(results) =~= head);
    }
}

/// Where the client is built and the persisted credential cannot be
/// loaded, nothing is restored: the authenticator logs in instead.
pub proof fn law_missing_credential_leads_to_login(results: Seq<bool>)
    requires
        results.len() >= 2,
        results[0],
        !results[1],
    ensures
        !run_from_start(results).contains(AuthOp::RestoreSession),
        run_from_start(results).len() >= 3,
        run_from_start(results)[2] == AuthOp::Login,
{
    reveal_with_fuel(run, 6);
    let r1 = results.drop_first();
    let r2 = r1.drop_first();
    let r3 = r2.drop_first();
    assert(r1[0] == results[1]);
    let head = seq![AuthOp::Connect, AuthOp::LoadSession, AuthOp::Login];
    if results.len() >= 3 {
        assert(r2[0] == results[2]);
        if results[2] {
            if results.len() >= 4 {
                assert(r3[0] == results[3]);
                assert(run_from_start(results) =~= head.push(AuthOp::SaveSession).push(
                    AuthOp::Ready,
                ));
            } else {
                assert(run_from_start(results) =~= head.push(AuthOp::SaveSession));
            }
        } else {
            assert(run_from_start(results) =~= head.push(AuthOp::Fail(Cause::Login)));
        }
    } else {
        assert(run_from_start(results) =~= head);
    }
}

/// However the operations end, an authentication persists the session at
/// most once, and only directly after the restore or the login that
/// established it succeeded; it is ready only directly after that.
pub proof fn law_session_is_persisted_once(results: Seq<bool>, at: int)
    requires
        0 <= at < run_from_start(results).len(),
        run_from_start(results)[at] == AuthOp::SaveSession,
    ensures
        at >= 1,
        at <= results.len(),
        results[at - 1],
        run_from_start(results)[at - 1] == AuthOp::RestoreSession || run_from_start(results)[at
            - 1] == AuthOp::Login,
        forall|other: int|
            0 <= other < run_from_start(results).len() && run_from_start(results)[other]
                == AuthOp::SaveSession ==> other == at,
        forall|ready: int|
            0 <= ready < run_from_start(results).len() && run_from_start(results)[ready]
                == AuthOp::Ready ==> ready == at + 1,
{
    reveal_with_fuel(run, 7);
    let r1 = results.drop_first();
    let r2 = r1.drop_first();
    let r3 = r2.drop_first();
    let r4 = r3.drop_first();
    if results.len() >= 2 {
        assert(r1[0] == results[1]);
    }
    if results.len() >= 3 {
        assert(r2[0] == results[2]);
    }
    if results.len() >= 4 {
        assert(r3[0] == results[3]);
    }
    if results.len() >= 5 {
        assert(r4[0] == results[4]);
    }
}

} // verus!
