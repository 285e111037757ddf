//! The watch session: reacts to change notifications, one run at a time,
//! keeps the timing of the last run, and cleans up when interrupted.
use vstd::prelude::*;
use crate::file_type::{extension_spec, FileType};

verus! {

/// The kind of a change notification.
#[derive(Debug, Clone, Copy, PartialEq, Eq, Structural)]
pub enum ChangeKind {
    /// The file was created.
    Created,
    /// The file's content changed.
    DataModified,
    /// Anything else, such as a change of metadata.
    Other,
}

/// Where a session stands.
#[derive(Debug, Clone, Copy, PartialEq, Eq, Structural)]
pub enum WatchState {
    /// Waiting for a change.
    Idle,
    /// A run is in flight.
    Running,
    /// The session is over.
    Terminated,
}

/// What the caller reports to the session.
#[derive(Debug, Clone, Copy, PartialEq, Eq, Structural)]
pub enum SessionEvent {
    /// A change notification arrived.
    Changed(ChangeKind),
    /// The run finished with these timings, in nanoseconds.
    Completed { build_nanos: u64, run_nanos: u64 },
    /// The run was abandoned without an outcome.
    Skipped,
    /// The run failed; the flag says whether the error ends the session.
    Failed { ends_session: bool },
    /// The user interrupted the session.
    Interrupted,
}

/// The timing of a finished run, compared with the run before it.
#[derive(Debug, Clone, Copy, PartialEq, Eq, Structural)]
pub struct RunReport {
    pub build_nanos: u64,
    pub run_nanos: u64,
    /// Build and run time together.
    pub elapsed: u128,
    /// How far `elapsed` is from the previous run's.
    pub delta: u128,
    /// Whether this run took longer than the previous one.
    pub slower: bool,
}

/// What the caller is to do.
#[derive(Debug, Clone, Copy, PartialEq, Eq, Structural)]
pub enum SessionAction {
    /// Start a run of the watched file.
    StartRun,
    /// Show the timing of the run that finished.
    Report(RunReport),
    /// Nothing; wait for the next notification.
    Wait,
    /// Stop watching; remove the watched file if the flag is set.
    Cleanup { remove_file: bool },
}

/// The distance between the previous and the current elapsed time, and
/// whether the current run was slower.
pub open spec fn delta_spec(previous: u128, current: u128) -> (u128, bool) {
    if previous > current {
        ((previous - current) as u128, false)
    } else {
        ((current - previous) as u128, previous < current)
    }
}

/// Compares the elapsed time of a run with that of the run before it.
pub fn delta(previous: u128, current: u128) -> (r: (u128, bool))
    ensures
        r == delta_spec(previous, current),
        r.0 as int == if previous > current {
            previous - current
        } else {
            current - previous
        },
        r.1 == (previous < current),
{
    if previous > current {
        (previous - current, false)
    } else {
        (current - previous, previous < current)
    }
}

/// A session as the contracts see it.
pub struct SessionView {
    pub path: Seq<char>,
    pub owns_file: bool,
    pub runs: u64,
    pub last_elapsed: u128,
    pub state: WatchState,
}

/// The session's reaction to `ev` in state `s`: its next state and the
/// caller's action.
pub open spec fn session_next(s: SessionView, ev: SessionEvent) -> (SessionView, SessionAction) {
    match s.state {
        WatchState::Terminated => (s, SessionAction::Wait),
        WatchState::Idle => match ev {
            SessionEvent::Changed(ChangeKind::Created) | SessionEvent::Changed(
                ChangeKind::DataModified,
            ) => (SessionView { state: WatchState::Running, ..s }, SessionAction::StartRun),
            SessionEvent::Interrupted => (
                SessionView { state: WatchState::Terminated, ..s },
                SessionAction::Cleanup { remove_file: s.owns_file },
            ),
            _ => (s, SessionAction::Wait),
        },
        WatchState::Running => match ev {
            SessionEvent::Completed { build_nanos, run_nanos } => {
                let elapsed = (build_nanos + run_nanos) as u128;
                let (d, slower) = delta_spec(s.last_elapsed, elapsed);
                (
                    SessionView {
                        state: WatchState::Idle,
                        last_elapsed: elapsed,
                        runs: if s.runs < u64::MAX {
                            (s.runs + 1) as u64
                        } else {
                            s.runs
                        },
                        ..s
                    },
                    SessionAction::Report(
                        RunReport { build_nanos, run_nanos, elapsed, delta: d, slower },
                    ),
                )
            },
            SessionEvent::Skipped => (SessionView { state: WatchState::Idle, ..s }, SessionAction::Wait),
            SessionEvent::Failed { ends_session } => if ends_session {
                (
                    SessionView { state: WatchState::Terminated, ..s },
                    SessionAction::Cleanup { remove_file: s.owns_file },
                )
            } else {
                (SessionView { state: WatchState::Idle, ..s }, SessionAction::Wait)
            },
            SessionEvent::Interrupted => (
                SessionView { state: WatchState::Terminated, ..s },
                SessionAction::Cleanup { remove_file: s.owns_file },
            ),
            SessionEvent::Changed(_) => (s, SessionAction::Wait),
        },
    }
}

/// One run at a time: a run starts only from an idle session and leaves it
/// running; while it runs, change notifications start nothing, so two
/// notifications back to back start one run; and a running session becomes
/// idle again only on the run's outcome, its skip or its failure.
pub proof fn lemma_one_run_at_a_time(s: SessionView, ev: SessionEvent, k1: ChangeKind, k2: ChangeKind)
    ensures
        session_next(s, ev).1 == SessionAction::StartRun ==> s.state == WatchState::Idle
            && session_next(s, ev).0.state == WatchState::Running,
        s.state == WatchState::Running && ev is Changed ==> session_next(s, ev) == (
            s,
            SessionAction::Wait,
        ),
        s.state == WatchState::Running && session_next(s, ev).0.state == WatchState::Idle ==> (
        ev is Completed || ev is Skipped || ev is Failed),
        s.state == WatchState::Idle && k1 != ChangeKind::Other ==> ({
            let first = session_next(s, SessionEvent::Changed(k1));
            let second = session_next(first.0, SessionEvent::Changed(k2));
            first.1 == SessionAction::StartRun && second.1 == SessionAction::Wait && second.0
                == first.0
        }),
{
}

/// The session after reacting to each of `evs` in turn, from `s`.
pub open spec fn replay(s: SessionView, evs: Seq<SessionEvent>) -> SessionView
    decreases evs.len(),
{
    if evs.len() == 0 {
        s
    } else {
        session_next(replay(s, evs.drop_last()), evs.last()).0
    }
}

/// How many runs the session starts while reacting to `evs` from `s`.
pub open spec fn started(s: SessionView, evs: Seq<SessionEvent>) -> nat
    decreases evs.len(),
{
    if evs.len() == 0 {
        0
    } else {
        let before = replay(s, evs.drop_last());
        started(s, evs.drop_last()) + if session_next(before, evs.last()).1
            == SessionAction::StartRun {
            1nat
        } else {
            0nat
        }
    }
}

/// How many runs end while the session reacts to `evs` from `s`.
pub open spec fn settled(s: SessionView, evs: Seq<SessionEvent>) -> nat
    decreases evs.len(),
{
    if evs.len() == 0 {
        0
    } else {
        let before = replay(s, evs.drop_last());
        settled(s, evs.drop_last()) + if before.state == WatchState::Running && session_next(
            before,
            evs.last(),
        ).0.state != WatchState::Running {
            1nat
        } else {
            0nat
        }
    }
}

/// Runs never overlap: over any sequence of events from a session with no
/// run in flight, every run started but the one now in flight has ended
/// before the next one started.
pub proof fn lemma_runs_never_overlap(s: SessionView, evs: Seq<SessionEvent>)
    requires
        s.state != WatchState::Running,
    ensures
        started(s, evs) == settled(s, evs) + if replay(s, evs).state == WatchState::Running {
            1nat
        } else {
            0nat
        },
    decreases evs.len(),
{
    if evs.len() > 0 {
        lemma_runs_never_overlap(s, evs.drop_last());
    }
}

/// The session removes the watched file only if it created it, only on
/// termination, and at most once; it never changes which file it watches or
/// whether it owns it.
pub proof fn lemma_scratch_file_lifecycle(s: SessionView, ev: SessionEvent)
    ensures
        session_next(s, ev).0.owns_file == s.owns_file,
        session_next(s, ev).0.path == s.path,
        session_next(s, ev).1 matches SessionAction::Cleanup { remove_file } ==> remove_file
            == s.owns_file && s.state != WatchState::Terminated && session_next(s, ev).0.state
            == WatchState::Terminated,
        s.state != WatchState::Terminated && ev == SessionEvent::Interrupted ==> session_next(
            s,
            ev,
        ).1 == (SessionAction::Cleanup { remove_file: s.owns_file }),
        s.state == WatchState::Terminated ==> session_next(s, ev) == (s, SessionAction::Wait),
{
}

/// The state of one watch session.
pub struct Session {
    path: String,
    owns_file: bool,
    runs: u64,
    last_elapsed: u128,
    state: WatchState,
}

impl View for Session {
    type V = SessionView;

    closed spec fn view(&self) -> SessionView {
        SessionView {
            path: self.path@,
            owns_file: self.owns_file,
            runs: self.runs,
            last_elapsed: self.last_elapsed,
            state: self.state,
        }
    }
}

impl Session {
    /// A session that watches `path`; `owns_file` says that the session
    /// created the file and removes it at the end.
    pub fn new(path: String, owns_file: bool) -> (r: Self)
        ensures
            r@ == (SessionView {
                path: path@,
                owns_file,
                runs: 0,
                last_elapsed: 0,
                state: WatchState::Idle,
            }),
    {
        Session { path, owns_file, runs: 0, last_elapsed: 0, state: WatchState::Idle }
    }

    /// The watched path.
    pub fn path(&self) -> (r: &str)
        ensures
            r@ == self@.path,
    {
        self.path.as_str()
    }

    /// Whether the session created the watched file.
    pub fn owns_file(&self) -> (r: bool)
        ensures
            r == self@.owns_file,
    {
        self.owns_file
    }

    /// How many runs have finished.
    pub fn runs(&self) -> (r: u64)
        ensures
            r == self@.runs,
    {
        self.runs
    }

    /// The elapsed time of the last finished run, in nanoseconds.
    pub fn last_elapsed(&self) -> (r: u128)
        ensures
            r == self@.last_elapsed,
    {
        self.last_elapsed
    }

    /// Where the session stands.
    pub fn state(&self) -> (r: WatchState)
        ensures
            r == self@.state,
    {
        self.state
    }

    /// Reacts to `ev` and says what the caller is to do.
    pub fn handle(&mut self, ev: SessionEvent) -> (r: SessionAction)
        ensures
            (final(self)@, r) == session_next(old(self)@, ev),
    {
        match self.state {
            WatchState::Terminated => SessionAction::Wait,
            WatchState::Idle => match ev {
                SessionEvent::Changed(ChangeKind::Created)
                | SessionEvent::Changed(ChangeKind::DataModified) => {
                    self.state = WatchState::Running;
                    SessionAction::StartRun
                },
                SessionEvent::Interrupted => {
                    self.state = WatchState::Terminated;
                    SessionAction::Cleanup { remove_file: self.owns_file }
                },
                _ => SessionAction::Wait,
            },
            WatchState::Running => match ev {
                SessionEvent::Completed { build_nanos, run_nanos } => {
                    let elapsed = build_nanos as u128 + run_nanos as u128;
                    let (d, slower) = delta(self.last_elapsed, elapsed);
                    self.state = WatchState::Idle;
                    self.last_elapsed = elapsed;
                    if self.runs < u64::MAX {
                        self.runs = self.runs + 1;
                    }
                    SessionAction::Report(
                        RunReport { build_nanos, run_nanos, elapsed, delta: d, slower },
                    )
                },
                SessionEvent::Skipped => {
                    self.state = WatchState::Idle;
                    SessionAction::Wait
                },
                SessionEvent::Failed { ends_session } => {
                    if ends_session {
                        self.state = WatchState::Terminated;
                        SessionAction::Cleanup { remove_file: self.owns_file }
                    } else {
                        self.state = WatchState::Idle;
                        SessionAction::Wait
                    }
                },
                SessionEvent::Interrupted => {
                    self.state = WatchState::Terminated;
                    SessionAction::Cleanup { remove_file: self.owns_file }
                },
                SessionEvent::Changed(_) => SessionAction::Wait,
            },
        }
    }
}

/// The decimal digits of `n`.
pub open spec fn decimal_spec(n: nat) -> Seq<char>
    decreases n,
{
    if n < 10 {
        digit_spec(n)
    } else {
        decimal_spec(n / 10) + digit_spec(n % 10)
    }
}

/// The digit `d`, for `d < 10`.
pub open spec fn digit_spec(d: nat) -> Seq<char> {
    if d == 0 {
        "0"@
    } else if d == 1 {
        "1"@
    } else if d == 2 {
        "2"@
    } else if d == 3 {
        "3"@
    } else if d == 4 {
        "4"@
    } else if d == 5 {
        "5"@
    } else if d == 6 {
        "6"@
    } else if d == 7 {
        "7"@
    } else if d == 8 {
        "8"@
    } else {
        "9"@
    }
}

fn digit(d: u32) -> (r: &'static str)
    requires
        d < 10,
    ensures
        r@ == digit_spec(d as nat),
{
    match d {
        0 => "0",
        1 => "1",
        2 => "2",
        3 => "3",
        4 => "4",
        5 => "5",
        6 => "6",
        7 => "7",
        8 => "8",
        _ => "9",
    }
}

/// `n` in decimal.
pub fn decimal(n: u32) -> (r: String)
    ensures
        r@ == decimal_spec(n as nat),
{
    let mut m: u32 = n;
    let mut acc = String::new();
    assert(decimal_spec(n as nat) + acc@ =~= decimal_spec(n as nat));
    while m >= 10
        invariant
            decimal_spec(m as nat) + acc@ == decimal_spec(n as nat),
        decreases m,
    {
        let d = digit(m % 10);
        let ghost before = acc@;
        acc = String::from_str(d).concat(acc.as_str());
        proof {
            assert(decimal_spec(m as nat) == decimal_spec((m / 10) as nat) + digit_spec(
                (m % 10) as nat,
            ));
            assert(decimal_spec((m / 10) as nat) + acc@ =~= (decimal_spec((m / 10) as nat)
                + digit_spec((m % 10) as nat)) + before);
        }
        m = m / 10;
    }
    String::from_str(digit(m)).concat(acc.as_str())
}

/// The name of the scratch file of process `pid` for runtime `ft`:
/// `runner-<pid>.<ext>`.
pub open spec fn scratch_name_spec(pid: u32, ft: FileType) -> Seq<char> {
    "runner-"@ + decimal_spec(pid as nat) + "."@ + extension_spec(ft)
}

/// The name of the scratch file that process `pid` creates for runtime `ft`
/// in the temporary directory.
pub fn scratch_file_name(pid: u32, ft: FileType) -> (r: String)
    ensures
        r@ == scratch_name_spec(pid, ft),
{
    String::from_str("runner-").concat(decimal(pid).as_str()).concat(".").concat(
        ft.get_extension().as_str(),
    )
}

} // verus!
