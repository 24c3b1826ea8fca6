//! The one-shot start of a wallet session: the sync engine and its relay
//! are started at most once, and a failed start can be retried.
use vstd::prelude::*;

verus! {

/// Where a session's start stands.
#[derive(Clone, Copy, Debug, PartialEq, Eq, Structural)]
pub enum InitState {
    NotStarted,
    Starting,
    Started,
}

/// The state after a call to initialize, and whether that call found the
/// session already initialized (`true`) or must start it (`false`).
pub open spec fn begin_next(s: InitState) -> (InitState, bool) {
    match s {
        InitState::NotStarted => (InitState::Starting, false),
        _ => (s, true),
    }
}

/// The state once a start attempt has ended: a failure rolls back so that
/// a later call may try again.
pub open spec fn finish_next(s: InitState, succeeded: bool) -> InitState {
    match s {
        InitState::Starting => if succeeded {
            InitState::Started
        } else {
            InitState::NotStarted
        },
        _ => s,
    }
}

/// The one-time flag of a session. Callers hold it under mutual exclusion.
pub struct SessionGuard {
    state: InitState,
}

impl View for SessionGuard {
    type V = InitState;

    closed spec fn view(&self) -> InitState {
        self.state
    }
}

impl SessionGuard {
    /// A guard of a session that has not been started.
    pub fn new() -> (r: Self)
        ensures
            r@ == InitState::NotStarted,
    {
        SessionGuard { state: InitState::NotStarted }
    }

    /// Claims the start. Returns `true` (already initialized, nothing to do)
    /// unless no start has happened or is under way; then it returns
    /// `false` and the caller starts the engine and the relay, and reports
    /// the outcome with [`SessionGuard::finish_initialize`].
    pub fn begin_initialize(&mut self) -> (already_initialized: bool)
        ensures
            (final(self)@, already_initialized) == begin_next(old(self)@),
    {
        match self.state {
            InitState::NotStarted => {
                self.state = InitState::Starting;
                false
            },
            _ => true,
        }
    }

    /// Records how the start claimed by `begin_initialize` ended.
    pub fn finish_initialize(&mut self, succeeded: bool)
        ensures
            final(self)@ == finish_next(old(self)@, succeeded),
    {
        if self.state == InitState::Starting {
            self.state = if succeeded {
                InitState::Started
            } else {
                InitState::NotStarted
            };
        }
    }

    /// Whether the session has been started.
    pub fn is_initialized(&self) -> (r: bool)
        ensures
            r == (self@ == InitState::Started),
    {
        self.state == InitState::Started
    }
}

/// Of two calls to initialize, the second made while the first one's start
/// is under way or after it succeeded, exactly one starts the engine: on a
/// fresh guard the first does, and the second reports that the session is
/// already initialized.
pub proof fn lemma_idempotent_start(s: InitState, first_finished: bool)
    ensures
        ({
            let (s1, first) = begin_next(s);
            let s2 = if first_finished {
                finish_next(s1, true)
            } else {
                s1
            };
            let (_, second) = begin_next(s2);
            &&& first || second
            &&& s == InitState::NotStarted ==> !first && second
        }),
{
}

/// A failed start leaves the session unstarted, so a retry starts it.
pub proof fn lemma_failed_start_rolls_back(s: InitState)
    requires
        s == InitState::NotStarted,
    ensures
        ({
            let (s1, first) = begin_next(s);
            let (_, retry) = begin_next(finish_next(s1, false));
            !first && !retry
        }),
{
}

} // verus!
