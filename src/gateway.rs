use vstd::prelude::*;

verus! {

/// A user record as stored in the database.
pub struct User {
    pub name: String,
}

/// Why fetching the users failed.
#[derive(Clone, Copy, Debug, PartialEq, Eq, Structural)]
pub enum DbError {
    ConnectFailed,
    AuthFailed,
    AuthTimeout,
    ScopeSelectFailed,
    QueryFailed,
}

/// Where a fetch stands: the step whose outcome it waits for, or done.
#[derive(Clone, Copy, Debug, PartialEq, Eq, Structural)]
pub enum Stage {
    Connecting,
    SigningIn,
    SelectingScope,
    Querying,
    Finished,
}

/// The outcome of the step that was last asked for.
pub enum Event {
    Connected,
    ConnectRefused,
    SignedIn,
    SignInRejected,
    SignInTimedOut,
    ScopeSelected,
    ScopeRefused,
    Fetched(Vec<User>),
    QueryRefused,
}

/// What the caller is to do next.
pub enum Action {
    Connect,
    SignIn,
    SelectScope,
    Query,
    Done(Result<Vec<User>, DbError>),
    Idle,
}

/// The decisions of one fetch of all users: connect, sign in within the time
/// bound, select the namespace and database, query. A failed step ends the fetch.
pub struct FetchUsers {
    pub stage: Stage,
}

/// The next stage and action, given the current stage and the outcome of its step.
pub open spec fn next(s: Stage, e: Event) -> (Stage, Action) {
    match s {
        Stage::Connecting => match e {
            Event::Connected => (Stage::SigningIn, Action::SignIn),
            _ => (Stage::Finished, Action::Done(Err(DbError::ConnectFailed))),
        },
        Stage::SigningIn => match e {
            Event::SignedIn => (Stage::SelectingScope, Action::SelectScope),
            Event::SignInTimedOut => (Stage::Finished, Action::Done(Err(DbError::AuthTimeout))),
            _ => (Stage::Finished, Action::Done(Err(DbError::AuthFailed))),
        },
        Stage::SelectingScope => match e {
            Event::ScopeSelected => (Stage::Querying, Action::Query),
            _ => (Stage::Finished, Action::Done(Err(DbError::ScopeSelectFailed))),
        },
        Stage::Querying => match e {
            Event::Fetched(users) => (Stage::Finished, Action::Done(Ok(users))),
            _ => (Stage::Finished, Action::Done(Err(DbError::QueryFailed))),
        },
        Stage::Finished => (Stage::Finished, Action::Idle),
    }
}

impl FetchUsers {
    /// Starts a fetch: the first thing to do is to connect.
    pub fn start() -> (r: (FetchUsers, Action))
        ensures
            r.0.stage == Stage::Connecting,
            r.1 is Connect,
    {
        (FetchUsers { stage: Stage::Connecting }, Action::Connect)
    }

    /// Takes the outcome of the step last asked for and says what to do next.
    pub fn advance(&mut self, e: Event) -> (r: Action)
        ensures
            (final(self).stage, r) == next(old(self).stage, e),
    {
        match self.stage {
            Stage::Connecting => match e {
                Event::Connected => {
                    self.stage = Stage::SigningIn;
                    Action::SignIn
                },
                _ => {
                    self.stage = Stage::Finished;
                    Action::Done(Err(DbError::ConnectFailed))
                },
            },
            Stage::SigningIn => match e {
                Event::SignedIn => {
                    self.stage = Stage::SelectingScope;
                    Action::SelectScope
                },
                Event::SignInTimedOut => {
                    self.stage = Stage::Finished;
                    Action::Done(Err(DbError::AuthTimeout))
                },
                _ => {
                    self.stage = Stage::Finished;
                    Action::Done(Err(DbError::AuthFailed))
                },
            },
            Stage::SelectingScope => match e {
                Event::ScopeSelected => {
                    self.stage = Stage::Querying;
                    Action::Query
                },
                _ => {
                    self.stage = Stage::Finished;
                    Action::Done(Err(DbError::ScopeSelectFailed))
                },
            },
            Stage::Querying => match e {
                Event::Fetched(users) => {
                    self.stage = Stage::Finished;
                    Action::Done(Ok(users))
                },
                _ => {
                    self.stage = Stage::Finished;
                    Action::Done(Err(DbError::QueryFailed))
                },
            },
            Stage::Finished => Action::Idle,
        }
    }
}

/// Steps are asked for in order only: sign-in only once connected, scope
/// selection only once signed in, the query only once the scope is selected;
/// after a fetch has finished nothing more is asked for.
pub proof fn lemma_steps_in_order(s: Stage, e: Event)
    ensures
        next(s, e).1 is SignIn ==> s == Stage::Connecting && e is Connected,
        next(s, e).1 is SelectScope ==> s == Stage::SigningIn && e is SignedIn,
        next(s, e).1 is Query ==> s == Stage::SelectingScope && e is ScopeSelected,
        next(s, e).1 is Connect ==> false,
        s == Stage::Finished ==> next(s, e) == (Stage::Finished, Action::Idle),
{
}

/// The step that a fetch in stage `s` waits for.
pub open spec fn pending(s: Stage) -> Action {
    match s {
        Stage::Connecting => Action::Connect,
        Stage::SigningIn => Action::SignIn,
        Stage::SelectingScope => Action::SelectScope,
        Stage::Querying => Action::Query,
        Stage::Finished => Action::Idle,
    }
}

/// The actions asked for from stage `s`, one for each outcome in `evs`.
pub open spec fn trace(s: Stage, evs: Seq<Event>) -> Seq<Action>
    decreases evs.len(),
{
    if evs.len() == 0 {
        seq![]
    } else {
        seq![next(s, evs[0]).1] + trace(next(s, evs[0]).0, evs.drop_first())
    }
}

/// Each action asked for follows only from the success of the step asked for
/// just before it.
pub open spec fn in_order(acts: Seq<Action>, evs: Seq<Event>, i: int) -> bool {
    &&& acts[i + 1] is SignIn ==> acts[i] is Connect && evs[i] is Connected
    &&& acts[i + 1] is SelectScope ==> acts[i] is SignIn && evs[i] is SignedIn
    &&& acts[i + 1] is Query ==> acts[i] is SelectScope && evs[i] is ScopeSelected
}

/// Over any run of outcomes, steps are asked for in order: sign-in only right
/// after a successful connect, scope selection only right after a successful
/// sign-in, the query only right after a successful scope selection.
pub proof fn lemma_trace_in_order(s: Stage, evs: Seq<Event>)
    ensures
        trace(s, evs).len() == evs.len(),
        forall|i: int|
            0 <= i < evs.len() ==> #[trigger] in_order(seq![pending(s)] + trace(s, evs), evs, i),
    decreases evs.len(),
{
    if evs.len() > 0 {
        let s1 = next(s, evs[0]).0;
        let rest = evs.drop_first();
        lemma_trace_in_order(s1, rest);
        let acts = seq![pending(s)] + trace(s, evs);
        let tail = seq![pending(s1)] + trace(s1, rest);
        assert(trace(s, evs) == seq![next(s, evs[0]).1] + trace(s1, rest));
        assert(acts.len() == evs.len() + 1);
        assert(tail.len() == evs.len());
        assert forall|i: int| 0 <= i < evs.len() implies #[trigger] in_order(acts, evs, i) by {
            if i > 0 {
                assert(in_order(tail, rest, i - 1));
                assert(acts[i + 1] == tail[i]);
                assert(evs[i] == rest[i - 1]);
                if i > 1 {
                    assert(acts[i] == tail[i - 1]);
                } else {
                    assert(acts[1] == next(s, evs[0]).1);
                }
            } else {
                assert(acts[1] == next(s, evs[0]).1);
                assert(acts[0] == pending(s));
            }
        }
    }
}

/// A sign-in that times out ends the fetch with `AuthTimeout`, a rejected one
/// with `AuthFailed`; the two differ, and neither goes on to scope selection.
pub proof fn lemma_sign_in_failures(e: Event)
    requires
        e is SignInTimedOut || e is SignInRejected,
    ensures
        next(Stage::SigningIn, e).0 == Stage::Finished,
        e is SignInTimedOut ==> next(Stage::SigningIn, e).1 == Action::Done(Err(DbError::AuthTimeout)),
        e is SignInRejected ==> next(Stage::SigningIn, e).1 == Action::Done(Err(DbError::AuthFailed)),
        DbError::AuthTimeout != DbError::AuthFailed,
{
}

} // verus!
