//! Polling: driving a resource from its first snapshot to a terminal one.
//!
//! The library decides; the caller fetches and waits. A session starts with
//! [`start`], and after each fetch [`step`] says from the state, the time
//! since the session's start and what the fetch returned, what the next
//! state is and what to do: fetch again after a delay, or stop.

use crate::wire::DecodeError;
use vstd::prelude::*;
use vstd::string::StringExecFns;

verus! {

/// Why a fetch gave no snapshot.
#[derive(Debug, Clone, PartialEq, Eq)]
pub enum Error {
    /// The resource was not found. Right after its creation a resource may
    /// not be visible yet, so this can pass.
    NotFound,
    /// The payload did not decode.
    Decoding(DecodeError),
    /// What the transport reported, in its own words.
    Transport(String),
}

impl Error {
    /// Whether fetching again can help: only where the resource was not
    /// found.
    pub open spec fn retryable(&self) -> bool {
        self is NotFound
    }

    /// Whether fetching again can help.
    pub fn is_retryable(&self) -> (r: bool)
        ensures
            r == self.retryable(),
    {
        match self {
            Error::NotFound => true,
            _ => false,
        }
    }

    /// What the error says.
    pub open spec fn described(&self) -> Seq<char> {
        match self {
            Error::NotFound => "Payment returned 404 while polling"@,
            Error::Decoding(_) => "Payload could not be decoded"@,
            Error::Transport(message) => message@,
        }
    }

    /// What the error says.
    pub fn to_string(&self) -> (s: String)
        ensures
            s@ == self.described(),
    {
        match self {
            Error::NotFound => String::from_str("Payment returned 404 while polling"),
            Error::Decoding(_) => String::from_str("Payload could not be decoded"),
            Error::Transport(message) => message.clone(),
        }
    }
}

/// A snapshot of a resource that is either still under way or has reached a
/// state that it will not leave.
pub trait IsInTerminalState {
    /// Whether the snapshot is in a state that it will not leave.
    spec fn terminal(&self) -> bool;

    /// Whether the snapshot is in a state that it will not leave.
    fn is_in_terminal_state(&self) -> (r: bool)
        ensures
            r == self.terminal(),
    ;
}

/// What a poll comes to, given what fetching the resource returned: the
/// snapshot, the error of the fetch, or, where nothing was found, the error
/// that says so.
pub open spec fn resolved<T>(fetched: Result<Option<T>, Error>) -> Result<T, Error> {
    match fetched {
        Ok(Some(snapshot)) => Ok(snapshot),
        Ok(None) => Err(Error::NotFound),
        Err(e) => Err(e),
    }
}

/// What a poll comes to, given what fetching the resource returned.
pub fn resolve<T>(fetched: Result<Option<T>, Error>) -> (r: Result<T, Error>)
    ensures
        r == resolved(fetched),
{
    match fetched {
        Ok(Some(snapshot)) => Ok(snapshot),
        Ok(None) => Err(Error::NotFound),
        Err(e) => Err(e),
    }
}

/// A resource that can be polled: it names what to fetch for its next
/// snapshot, and turns what was fetched into the outcome of the poll.
pub trait Pollable {
    /// The snapshots that polling gives.
    type Output: IsInTerminalState;

    /// The identifier of the resource to fetch.
    spec fn target(&self) -> Seq<char>;

    /// The identifier of the resource to fetch.
    fn poll_target(&self) -> (id: &str)
        ensures
            id@ == self.target(),
    ;

    /// The outcome of one poll, given what fetching the target returned. A
    /// resource that was not found gives [`Error::NotFound`], never a
    /// snapshot.
    fn poll_once(&self, fetched: Result<Option<Self::Output>, Error>) -> (r: Result<
        Self::Output,
        Error,
    >)
        ensures
            r == resolved(fetched),
    ;
}

/// How a session is to poll.
#[derive(Debug, Clone, Copy, PartialEq, Eq)]
pub struct PollConfig {
    /// Milliseconds to wait between two fetches.
    pub interval_ms: u64,
    /// Milliseconds from the session's start after which no fetch follows.
    pub max_wait_ms: u64,
    /// Whether a resource that was not found is fetched again.
    pub retry_not_found: bool,
}

impl Default for PollConfig {
    /// A fetch every second for a minute, fetching again what was not found.
    fn default() -> (config: PollConfig)
        ensures
            config == (PollConfig { interval_ms: 1_000, max_wait_ms: 60_000, retry_not_found: true }),
    {
        PollConfig { interval_ms: 1_000, max_wait_ms: 60_000, retry_not_found: true }
    }
}

/// How a session ended.
#[derive(Debug, Clone, PartialEq, Eq)]
pub enum PollOutcome<T> {
    /// With a terminal snapshot.
    Terminal(T),
    /// Out of time; `last` is the last snapshot that was seen.
    TimedOut { last: T },
    /// With an error.
    Failed(Error),
}

/// Where a session stands.
#[derive(Debug, Clone, PartialEq, Eq)]
pub enum PollState<T> {
    /// Under way; `last` is the last snapshot that was seen, if any was.
    Polling { last: Option<T> },
    /// Over.
    Done(PollOutcome<T>),
}

/// What the caller is to do next.
#[derive(Debug, Clone, Copy, PartialEq, Eq, Structural)]
pub enum PollAction {
    /// Wait for the delay, then fetch.
    Fetch { delay_ms: u64 },
    /// Nothing: the session is over.
    Stop,
}

/// The state and action with which a session starts: nothing seen, and a
/// fetch at once.
pub open spec fn started<T>() -> (PollState<T>, PollAction) {
    (PollState::Polling { last: None }, PollAction::Fetch { delay_ms: 0 })
}

/// Starts a session.
pub fn start<T>() -> (r: (PollState<T>, PollAction))
    ensures
        r == started::<T>(),
{
    (PollState::Polling { last: None }, PollAction::Fetch { delay_ms: 0 })
}

/// Whether an error is one after which the session fetches again.
pub open spec fn retried(config: PollConfig, e: Error) -> bool {
    config.retry_not_found && e.retryable()
}

/// The step of a session: from the state, the milliseconds since the
/// session's start and what the latest fetch returned, to the next state
/// and the action to take.
///
/// A session that is over stays as it is. A terminal snapshot ends the
/// session. Otherwise the session goes on while time is left, and ends
/// once `max_wait_ms` have passed: with the last snapshot seen, or, where
/// none was ever seen, with the error of the latest fetch. An error that is
/// not retried ends the session at once.
pub open spec fn next<T: IsInTerminalState>(
    config: PollConfig,
    state: PollState<T>,
    elapsed_ms: u64,
    fetched: Result<T, Error>,
) -> (PollState<T>, PollAction) {
    match state {
        PollState::Done(outcome) => (PollState::Done(outcome), PollAction::Stop),
        PollState::Polling { last } => match fetched {
            Ok(snapshot) => if snapshot.terminal() {
                (PollState::Done(PollOutcome::Terminal(snapshot)), PollAction::Stop)
            } else if elapsed_ms >= config.max_wait_ms {
                (PollState::Done(PollOutcome::TimedOut { last: snapshot }), PollAction::Stop)
            } else {
                (
                    PollState::Polling { last: Some(snapshot) },
                    PollAction::Fetch { delay_ms: config.interval_ms },
                )
            },
            Err(e) => if !retried(config, e) {
                (PollState::Done(PollOutcome::Failed(e)), PollAction::Stop)
            } else if elapsed_ms >= config.max_wait_ms {
                match last {
                    Some(snapshot) => (
                        PollState::Done(PollOutcome::TimedOut { last: snapshot }),
                        PollAction::Stop,
                    ),
                    None => (PollState::Done(PollOutcome::Failed(e)), PollAction::Stop),
                }
            } else {
                (PollState::Polling { last }, PollAction::Fetch { delay_ms: config.interval_ms })
            },
        },
    }
}

/// Takes a session one step further, after a fetch that returned `fetched`
/// when `elapsed_ms` milliseconds had passed since the session's start.
pub fn step<T: IsInTerminalState>(
    config: &PollConfig,
    state: PollState<T>,
    elapsed_ms: u64,
    fetched: Result<T, Error>,
) -> (r: (PollState<T>, PollAction))
    ensures
        r == next(*config, state, elapsed_ms, fetched),
        r.1 matches PollAction::Fetch { delay_ms } ==> {
            &&& r.0 is Polling
            &&& delay_ms == config.interval_ms
            &&& elapsed_ms < config.max_wait_ms
        },
        r.1 is Stop <==> r.0 is Done,
        state is Polling && elapsed_ms >= config.max_wait_ms ==> r.0 is Done,
{
    match state {
        PollState::Done(outcome) => (PollState::Done(outcome), PollAction::Stop),
        PollState::Polling { last } => match fetched {
            Ok(snapshot) => {
                if snapshot.is_in_terminal_state() {
                    (PollState::Done(PollOutcome::Terminal(snapshot)), PollAction::Stop)
                } else if elapsed_ms >= config.max_wait_ms {
                    (PollState::Done(PollOutcome::TimedOut { last: snapshot }), PollAction::Stop)
                } else {
                    (
                        PollState::Polling { last: Some(snapshot) },
                        PollAction::Fetch { delay_ms: config.interval_ms },
                    )
                }
            },
            Err(e) => {
                if !(config.retry_not_found && e.is_retryable()) {
                    (PollState::Done(PollOutcome::Failed(e)), PollAction::Stop)
                } else if elapsed_ms >= config.max_wait_ms {
                    match last {
                        Some(snapshot) => (
                            PollState::Done(PollOutcome::TimedOut { last: snapshot }),
                            PollAction::Stop,
                        ),
                        None => (PollState::Done(PollOutcome::Failed(e)), PollAction::Stop),
                    }
                } else {
                    (
                        PollState::Polling { last },
                        PollAction::Fetch { delay_ms: config.interval_ms },
                    )
                }
            },
        },
    }
}

/// What a fetch returned, with the milliseconds that had passed since the
/// session's start when it did.
#[derive(Debug, PartialEq, Eq)]
pub struct Observation<T> {
    pub elapsed_ms: u64,
    pub fetched: Result<T, Error>,
}

/// Where a session stands after the first `script.len()` fetches of a
/// session returned what `script` records, and how many fetches it made:
/// one for each observation, up to the one that ended it.
pub open spec fn run<T: IsInTerminalState>(
    config: PollConfig,
    script: Seq<Observation<T>>,
) -> (PollState<T>, nat)
    decreases script.len(),
{
    if script.len() == 0 {
        (started::<T>().0, 0)
    } else {
        let (state, fetches) = run(config, script.drop_last());
        if state is Done {
            (state, fetches)
        } else {
            (next(config, state, script.last().elapsed_ms, script.last().fetched).0, fetches + 1)
        }
    }
}

/// Replays a recorded session: steps through the observations in order
/// until the session is over or the record ends, and says where the
/// session then stands and how many of the observations it used.
pub fn replay<T: IsInTerminalState>(config: &PollConfig, script: Vec<Observation<T>>) -> (r: (
    PollState<T>,
    usize,
))
    ensures
        r.0 == run(*config, script@).0,
        r.1 == run(*config, script@).1,
{
    let ghost all = script@;
    let total: usize = script.len();
    let mut rest = script;
    let (mut state, _) = start::<T>();
    let mut fetches: usize = 0;
    proof {
        assert(all.take(0) =~= Seq::empty());
    }
    while rest.len() > 0
        invariant_except_break
            rest@ == all.skip(fetches as int),
            state is Polling,
        invariant
            fetches + rest.len() == all.len(),
            all.len() == total,
            (state, fetches as nat) == run(*config, all.take(fetches as int)),
        ensures
            state is Polling ==> fetches == all.len(),
            state is Done ==> run(*config, all) == run(*config, all.take(fetches as int)),
        decreases rest.len(),
    {
        let observation = rest.remove(0);
        proof {
            assert(observation == all[fetches as int]);
            assert(all.take(fetches + 1).drop_last() =~= all.take(fetches as int));
            assert(all.take(fetches + 1).last() == all[fetches as int]);
            assert(rest@ =~= all.skip(fetches + 1));
        }
        let (after, _) = step(config, state, observation.elapsed_ms, observation.fetched);
        state = after;
        fetches += 1;
        if let PollState::Done(_) = &state {
            proof {
                lemma_run_done(*config, all, fetches as int);
            }
            break ;
        }
    }
    proof {
        if state is Polling {
            assert(all.take(fetches as int) =~= all);
        }
    }
    (state, fetches)
}

/// A session that is over after its first `k` fetches stays as it is,
/// whatever is recorded after them: it makes no fetch more.
pub proof fn lemma_run_done<T: IsInTerminalState>(
    config: PollConfig,
    script: Seq<Observation<T>>,
    k: int,
)
    requires
        0 <= k <= script.len(),
        run(config, script.take(k)).0 is Done,
    ensures
        run(config, script) == run(config, script.take(k)),
    decreases script.len(),
{
    if k == script.len() {
        assert(script.take(k) =~= script);
    } else {
        assert(script.drop_last().take(k) =~= script.take(k));
        lemma_run_done(config, script.drop_last(), k);
    }
}

/// A session that has seen nothing but snapshots that are not terminal, each
/// in time, is still under way: it holds the last of them, and has made one
/// fetch for each.
pub proof fn lemma_run_under_way<T: IsInTerminalState>(
    config: PollConfig,
    script: Seq<Observation<T>>,
)
    requires
        forall|i: int|
            0 <= i < script.len() ==> {
                &&& (#[trigger] script[i]).fetched matches Ok(snapshot)
                &&& !snapshot.terminal()
                &&& script[i].elapsed_ms < config.max_wait_ms
            },
    ensures
        run(config, script).1 == script.len(),
        run(config, script).0 == (PollState::Polling {
            last: if script.len() == 0 {
                None
            } else {
                Some(script.last().fetched->Ok_0)
            },
        }),
    decreases script.len(),
{
    if script.len() > 0 {
        let front = script.drop_last();
        assert forall|i: int| 0 <= i < front.len() implies {
            &&& (#[trigger] front[i]).fetched matches Ok(snapshot)
            &&& !snapshot.terminal()
            &&& front[i].elapsed_ms < config.max_wait_ms
        } by {
            assert(front[i] == script[i]);
        }
        lemma_run_under_way(config, front);
        assert(script.last() == script[script.len() - 1]);
    }
}

/// Given fetches that return snapshots of which the last is terminal and
/// none before it, each of those in time, a session ends with exactly that
/// last snapshot, having made one fetch for each snapshot; whatever is
/// recorded after them, it makes no fetch more.
pub proof fn lemma_run_reaches_terminal<T: IsInTerminalState>(
    config: PollConfig,
    script: Seq<Observation<T>>,
    more: Seq<Observation<T>>,
)
    requires
        script.len() > 0,
        forall|i: int| 0 <= i < script.len() ==> (#[trigger] script[i]).fetched is Ok,
        forall|i: int|
            0 <= i < script.len() - 1 ==> {
                &&& !(#[trigger] script[i]).fetched->Ok_0.terminal()
                &&& script[i].elapsed_ms < config.max_wait_ms
            },
        script.last().fetched->Ok_0.terminal(),
    ensures
        run(config, script) == (
            PollState::Done(PollOutcome::Terminal(script.last().fetched->Ok_0)),
            script.len(),
        ),
        run(config, script + more) == run(config, script),
{
    let front = script.drop_last();
    assert forall|i: int| 0 <= i < front.len() implies {
        &&& (#[trigger] front[i]).fetched matches Ok(snapshot)
        &&& !snapshot.terminal()
        &&& front[i].elapsed_ms < config.max_wait_ms
    } by {
        assert(front[i] == script[i]);
    }
    lemma_run_under_way(config, front);
    assert(script.last() == script[script.len() - 1]);
    assert((script + more).take(script.len() as int) =~= script);
    lemma_run_done(config, script + more, script.len() as int);
}

/// Given fetches that return nothing but snapshots that are not terminal, a
/// session ends at the first fetch that returns once `max_wait_ms` have
/// passed, with the snapshot of that fetch as the last one seen, and makes
/// no fetch after it. Where the first fetch returns within an interval of
/// the start and each later one within an interval of the one before, the
/// session ends no later than `max_wait_ms` and an interval after its start.
pub proof fn lemma_run_times_out<T: IsInTerminalState>(
    config: PollConfig,
    script: Seq<Observation<T>>,
    k: int,
)
    requires
        0 <= k < script.len(),
        forall|i: int|
            0 <= i <= k ==> {
                &&& (#[trigger] script[i]).fetched matches Ok(snapshot)
                &&& !snapshot.terminal()
            },
        forall|i: int| 0 <= i < k ==> (#[trigger] script[i]).elapsed_ms < config.max_wait_ms,
        script[k].elapsed_ms >= config.max_wait_ms,
    ensures
        run(config, script) == (
            PollState::Done(PollOutcome::TimedOut { last: script[k].fetched->Ok_0 }),
            (k + 1) as nat,
        ),
        (script[0].elapsed_ms <= config.interval_ms && forall|i: int|
            0 < i <= k ==> (#[trigger] script[i]).elapsed_ms <= script[i - 1].elapsed_ms
                + config.interval_ms) ==> script[k].elapsed_ms <= config.max_wait_ms
            + config.interval_ms,
{
    let upto = script.take(k + 1);
    let front = upto.drop_last();
    assert forall|i: int| 0 <= i < front.len() implies {
        &&& (#[trigger] front[i]).fetched matches Ok(snapshot)
        &&& !snapshot.terminal()
        &&& front[i].elapsed_ms < config.max_wait_ms
    } by {
        assert(front[i] == script[i]);
    }
    lemma_run_under_way(config, front);
    assert(upto.last() == script[k]);
    lemma_run_done(config, script, k + 1);
    if k > 0 {
        assert(script[k - 1].elapsed_ms < config.max_wait_ms);
    }
}

} // verus!
