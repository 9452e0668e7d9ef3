//! The watch session: one watcher's state and the state machine that turns
//! what the caller observed into notifications and the next command.
use vstd::prelude::*;
use vstd::string::{StrSliceExecFns, StringExecFns};
use vstd::utf8::encode_utf8;
use crate::fingerprint::{fingerprint_of, hash_content};

verus! {

/// Minimum time, in milliseconds, between two content notifications.
pub const DEBOUNCE_MS: u64 = 2000;

/// Pause, in milliseconds, before the path is looked up again.
pub const RETRY_MS: u64 = 5000;

/// Longest wait, in milliseconds, for a change signal before waiting anew.
pub const WAIT_MS: u64 = 3000;

/// Where a watch session stands.
#[derive(Clone, Copy, Debug, PartialEq, Eq, Structural)]
pub enum Phase {
    /// No log file located yet.
    Searching,
    /// Located; the first read is pending.
    Loading,
    /// The first content is handled; the change source is being armed.
    Arming,
    /// Armed, waiting for change signals.
    Watching,
    /// A change signal was accepted; a read is pending.
    Refreshing,
    /// The change source could not be armed. Terminal.
    Failed,
    /// The change source closed. Terminal.
    Aborted,
}

/// What the caller is to do next.
#[derive(Clone, Copy, Debug, PartialEq, Eq, Structural)]
pub enum Command {
    /// Look the log file up now.
    Resolve,
    /// Pause for `RETRY_MS`, then look the log file up.
    RetryLater,
    /// Read the file at the active path.
    Read,
    /// Arm the change source on the active path's directory.
    Arm,
    /// Wait up to `WAIT_MS` for the next change signal.
    Wait,
    /// The session is over.
    Stop,
}

/// A one-way notification for the consumer.
#[derive(Debug, PartialEq, Eq)]
pub enum Notice {
    /// The log file's path (`log-location`).
    Location(String),
    /// The log file's whole content (`log-update`).
    Content(String),
    /// A readable error description (`log-error`).
    Error(String),
}

/// The mathematical value of a notice.
pub enum NoticeView {
    Location(Seq<char>),
    Content(Seq<char>),
    Error(Seq<char>),
}

impl View for Notice {
    type V = NoticeView;

    open spec fn view(&self) -> NoticeView {
        match self {
            Notice::Location(p) => NoticeView::Location(p@),
            Notice::Content(c) => NoticeView::Content(c@),
            Notice::Error(m) => NoticeView::Error(m@),
        }
    }
}

/// What the caller observed, handed to the session.
#[derive(Debug, PartialEq, Eq)]
pub enum Event {
    /// The outcome of a lookup of the log file.
    Resolved(Option<String>),
    /// The outcome of a read of the file, and the time (in milliseconds of a
    /// monotonic clock) when it ended.
    ContentRead(Option<String>, u64),
    /// The outcome of arming the change source (`Err` holds its message).
    Armed(Result<(), String>),
    /// A change signal: whether it names the log file, and when it came.
    Change(bool, u64),
    /// The change source reported an error.
    SourceError,
    /// No signal came within the wait.
    Timeout,
    /// The change source closed.
    Closed,
}

/// The mathematical value of an event.
pub enum EventView {
    Resolved(Option<Seq<char>>),
    ContentRead(Option<Seq<char>>, u64),
    Armed(Result<(), Seq<char>>),
    Change(bool, u64),
    SourceError,
    Timeout,
    Closed,
}

/// The view of an optional string.
pub open spec fn opt_view(o: Option<String>) -> Option<Seq<char>> {
    match o {
        Some(s) => Some(s@),
        None => None,
    }
}

impl View for Event {
    type V = EventView;

    open spec fn view(&self) -> EventView {
        match self {
            Event::Resolved(p) => EventView::Resolved(opt_view(*p)),
            Event::ContentRead(c, t) => EventView::ContentRead(opt_view(*c), *t),
            Event::Armed(r) => EventView::Armed(
                match r {
                    Ok(_) => Ok(()),
                    Err(m) => Err(m@),
                },
            ),
            Event::Change(l, t) => EventView::Change(*l, *t),
            Event::SourceError => EventView::SourceError,
            Event::Timeout => EventView::Timeout,
            Event::Closed => EventView::Closed,
        }
    }
}

/// The mathematical value of a session.
pub struct SessionView {
    pub phase: Phase,
    pub path: Option<Seq<char>>,
    pub last_fingerprint: u64,
    pub last_emit: Option<u64>,
}

/// The outcome of one step: the notices to deliver, in order, and the next
/// command.
pub struct StepView {
    pub session: SessionView,
    pub notices: Seq<NoticeView>,
    pub command: Command,
}

/// The message of the notice sent while the log file cannot be found.
pub open spec fn not_found_message() -> Seq<char> {
    "Minecraft log file not found"@
}

/// The fingerprint of a text, from its characters.
pub open spec fn content_fingerprint(c: Seq<char>) -> u64 {
    fingerprint_of(encode_utf8(c))
}

/// Milliseconds from `since` to `now`; zero if the clock reads earlier.
pub open spec fn elapsed(since: u64, now: u64) -> u64 {
    if now >= since {
        (now - since) as u64
    } else {
        0
    }
}

/// Whether a change signal at `now` is acted on: it must name the log, and
/// the debounce window after the last delivery, if any, must have passed.
pub open spec fn accepts_change(s: SessionView, is_log: bool, now: u64) -> bool {
    is_log && match s.last_emit {
        Some(t) => elapsed(t, now) >= DEBOUNCE_MS,
        None => true,
    }
}

/// A step that delivers nothing and keeps the session as `s`.
pub open spec fn stay(s: SessionView, c: Command) -> StepView {
    StepView { session: s, notices: Seq::empty(), command: c }
}

/// The session `s` moved to phase `p`.
pub open spec fn in_phase(s: SessionView, p: Phase) -> SessionView {
    SessionView { phase: p, ..s }
}

/// One transition of the watch state machine.
pub open spec fn step_spec(s: SessionView, e: EventView) -> StepView {
    match s.phase {
        Phase::Searching => match e {
            EventView::Resolved(None) => StepView {
                session: s,
                notices: seq![NoticeView::Error(not_found_message())],
                command: Command::RetryLater,
            },
            EventView::Resolved(Some(p)) => StepView {
                session: SessionView { phase: Phase::Loading, path: Some(p), ..s },
                notices: seq![NoticeView::Location(p)],
                command: Command::Read,
            },
            _ => stay(s, Command::Resolve),
        },
        Phase::Loading => match e {
            EventView::ContentRead(Some(c), now) => StepView {
                session: SessionView {
                    phase: Phase::Arming,
                    last_fingerprint: content_fingerprint(c),
                    last_emit: Some(now),
                    ..s
                },
                notices: seq![NoticeView::Content(c)],
                command: Command::Arm,
            },
            EventView::ContentRead(None, _) => stay(in_phase(s, Phase::Arming), Command::Arm),
            _ => stay(s, Command::Read),
        },
        Phase::Arming => match e {
            EventView::Armed(Ok(_)) => stay(in_phase(s, Phase::Watching), Command::Wait),
            EventView::Armed(Err(m)) => StepView {
                session: in_phase(s, Phase::Failed),
                notices: seq![NoticeView::Error(m)],
                command: Command::Stop,
            },
            _ => stay(s, Command::Arm),
        },
        Phase::Watching => match e {
            EventView::Change(is_log, now) => if accepts_change(s, is_log, now) {
                stay(in_phase(s, Phase::Refreshing), Command::Read)
            } else {
                stay(s, Command::Wait)
            },
            EventView::Closed => stay(in_phase(s, Phase::Aborted), Command::Stop),
            _ => stay(s, Command::Wait),
        },
        Phase::Refreshing => match e {
            EventView::ContentRead(Some(c), now) => if content_fingerprint(c)
                != s.last_fingerprint {
                StepView {
                    session: SessionView {
                        phase: Phase::Watching,
                        last_fingerprint: content_fingerprint(c),
                        last_emit: Some(now),
                        ..s
                    },
                    notices: seq![NoticeView::Content(c)],
                    command: Command::Wait,
                }
            } else {
                stay(in_phase(s, Phase::Watching), Command::Wait)
            },
            EventView::ContentRead(None, _) => stay(in_phase(s, Phase::Watching), Command::Wait),
            _ => stay(s, Command::Read),
        },
        Phase::Failed | Phase::Aborted => stay(s, Command::Stop),
    }
}

/// A session past the search knows its path.
pub open spec fn session_wf(s: SessionView) -> bool {
    s.phase != Phase::Searching ==> s.path is Some
}

/// The views of a list of notices.
pub open spec fn notice_views(v: Seq<Notice>) -> Seq<NoticeView> {
    v.map_values(|n: Notice| n@)
}

/// The outcome of one step, as handed to the caller.
#[derive(Debug, PartialEq, Eq)]
pub struct Step {
    pub notices: Vec<Notice>,
    pub command: Command,
}

/// The state of one watch: the phase, the located path, the fingerprint of
/// the last content delivered, and when content was last delivered (`None`
/// before the first delivery).
pub struct WatchSession {
    phase: Phase,
    active_path: Option<String>,
    last_fingerprint: u64,
    last_emit: Option<u64>,
}

impl View for WatchSession {
    type V = SessionView;

    closed spec fn view(&self) -> SessionView {
        SessionView {
            phase: self.phase,
            path: opt_view(self.active_path),
            last_fingerprint: self.last_fingerprint,
            last_emit: self.last_emit,
        }
    }
}

fn copy_string(s: &String) -> (r: String)
    ensures
        r@ == s@,
{
    String::from_str(s.as_str())
}

impl WatchSession {
    /// Every session past the search knows its path.
    #[verifier::type_invariant]
    spec fn inv(&self) -> bool {
        session_wf(self@)
    }

    /// A session that has located nothing and delivered nothing.
    pub fn new() -> (r: WatchSession)
        ensures
            r@ == (SessionView {
                phase: Phase::Searching,
                path: None,
                last_fingerprint: 0,
                last_emit: None,
            }),
    {
        WatchSession { phase: Phase::Searching, active_path: None, last_fingerprint: 0, last_emit: None }
    }

    /// The command that starts a fresh session.
    pub fn first_command(&self) -> (r: Command)
        ensures
            r == Command::Resolve,
    {
        Command::Resolve
    }

    /// Where the session stands.
    pub fn phase(&self) -> (r: Phase)
        ensures
            r == self@.phase,
    {
        self.phase
    }

    /// The located log path, once there is one.
    pub fn active_path(&self) -> (r: Option<String>)
        ensures
            opt_view(r) == self@.path,
    {
        match &self.active_path {
            Some(p) => Some(copy_string(p)),
            None => None,
        }
    }

    /// The fingerprint of the last content delivered; zero before any.
    pub fn last_fingerprint(&self) -> (r: u64)
        ensures
            r == self@.last_fingerprint,
    {
        self.last_fingerprint
    }

    /// When content was last delivered; `None` before the first delivery.
    pub fn last_emit(&self) -> (r: Option<u64>)
        ensures
            r == self@.last_emit,
    {
        self.last_emit
    }

    /// Hands the session one observation; returns the notices to deliver, in
    /// order, and what to do next.
    pub fn step(&mut self, e: Event) -> (r: Step)
        ensures
            session_wf(final(self)@),
            final(self)@ == step_spec(old(self)@, e@).session,
            notice_views(r.notices@) == step_spec(old(self)@, e@).notices,
            r.command == step_spec(old(self)@, e@).command,
    {
        proof {
            use_type_invariant(&*self);
        }
        let ghost s0 = self@;
        let ghost ev = e@;
        let mut notices: Vec<Notice> = Vec::new();
        let command = match self.phase {
            Phase::Searching => match e {
                Event::Resolved(None) => {
                    notices.push(Notice::Error(String::from_str("Minecraft log file not found")));
                    Command::RetryLater
                },
                Event::Resolved(Some(p)) => {
                    self.active_path = Some(copy_string(&p));
                    self.phase = Phase::Loading;
                    notices.push(Notice::Location(p));
                    Command::Read
                },
                _ => Command::Resolve,
            },
            Phase::Loading => match e {
                Event::ContentRead(Some(c), now) => {
                    self.last_fingerprint = hash_content(c.as_str());
                    self.last_emit = Some(now);
                    self.phase = Phase::Arming;
                    notices.push(Notice::Content(c));
                    Command::Arm
                },
                Event::ContentRead(None, _) => {
                    self.phase = Phase::Arming;
                    Command::Arm
                },
                _ => Command::Read,
            },
            Phase::Arming => match e {
                Event::Armed(Ok(_)) => {
                    self.phase = Phase::Watching;
                    Command::Wait
                },
                Event::Armed(Err(m)) => {
                    self.phase = Phase::Failed;
                    notices.push(Notice::Error(m));
                    Command::Stop
                },
                _ => Command::Arm,
            },
            Phase::Watching => match e {
                Event::Change(is_log, now) => {
                    let open = match self.last_emit {
                        Some(t) => {
                            let waited = if now >= t {
                                now - t
                            } else {
                                0
                            };
                            waited >= DEBOUNCE_MS
                        },
                        None => true,
                    };
                    if is_log && open {
                        self.phase = Phase::Refreshing;
                        Command::Read
                    } else {
                        Command::Wait
                    }
                },
                Event::Closed => {
                    self.phase = Phase::Aborted;
                    Command::Stop
                },
                _ => Command::Wait,
            },
            Phase::Refreshing => match e {
                Event::ContentRead(Some(c), now) => {
                    let fp = hash_content(c.as_str());
                    self.phase = Phase::Watching;
                    if fp != self.last_fingerprint {
                        self.last_fingerprint = fp;
                        self.last_emit = Some(now);
                        notices.push(Notice::Content(c));
                    }
                    Command::Wait
                },
                Event::ContentRead(None, _) => {
                    self.phase = Phase::Watching;
                    Command::Wait
                },
                _ => Command::Read,
            },
            Phase::Failed | Phase::Aborted => Command::Stop,
        };
        proof {
            reveal_strlit("Minecraft log file not found");
            assert(notice_views(notices@) =~= step_spec(s0, ev).notices);
        }
        Step { notices, command }
    }
}

/// Debounce: after a delivery at time `T`, a change signal for the log that
/// comes before `T + DEBOUNCE_MS` changes nothing and leads to no read; one
/// that comes at or after it leads to a read, and content whose fingerprint
/// differs from the last delivered one is then delivered.
pub proof fn lemma_debounce(s: SessionView, t0: u64, early: u64, late: u64, c: Seq<char>, t: u64)
    requires
        s.phase == Phase::Watching,
        s.last_emit == Some(t0),
        t0 <= early < t0 + DEBOUNCE_MS,
        late >= t0 + DEBOUNCE_MS,
        content_fingerprint(c) != s.last_fingerprint,
    ensures
        step_spec(s, EventView::Change(true, early)) == stay(s, Command::Wait),
        step_spec(s, EventView::Change(true, late)).command == Command::Read,
        step_spec(s, EventView::Change(true, late)).notices.len() == 0,
        step_spec(
            step_spec(s, EventView::Change(true, late)).session,
            EventView::ContentRead(Some(c), t),
        ).notices == seq![NoticeView::Content(c)],
{
}

/// Dedup: once content has been read, reading the same content again after
/// the next change signal delivers nothing, however long after it comes.
pub proof fn lemma_dedup(s: SessionView, c: Seq<char>, t1: u64, signal: u64, t2: u64)
    requires
        s.phase == Phase::Refreshing,
    ensures
        ({
            let first = step_spec(s, EventView::ContentRead(Some(c), t1));
            let signalled = step_spec(first.session, EventView::Change(true, signal));
            &&& first.session.last_fingerprint == content_fingerprint(c)
            &&& step_spec(signalled.session, EventView::ContentRead(Some(c), t2)).notices.len()
                == 0
        }),
{
}

/// The session and the notices, in order, after a run of events.
pub open spec fn run_spec(s: SessionView, events: Seq<EventView>) -> (SessionView, Seq<NoticeView>)
    decreases events.len(),
{
    if events.len() == 0 {
        (s, Seq::empty())
    } else {
        let first = step_spec(s, events[0]);
        let rest = run_spec(first.session, events.drop_first());
        (rest.0, first.notices + rest.1)
    }
}

/// `k` lookups that found nothing.
pub open spec fn misses(k: nat) -> Seq<EventView> {
    Seq::new(k, |i: int| EventView::Resolved(None))
}

/// `k` reports that the log file cannot be found.
pub open spec fn miss_reports(k: nat) -> Seq<NoticeView> {
    Seq::new(k, |i: int| NoticeView::Error(not_found_message()))
}

/// While no log file exists, every lookup leaves the search as it was and
/// reports the miss: after `k` lookups the consumer has received exactly `k`
/// not-found errors and nothing else.
pub proof fn lemma_searching_while_missing(s: SessionView, k: nat)
    requires
        s.phase == Phase::Searching,
    ensures
        run_spec(s, misses(k)) == (s, miss_reports(k)),
    decreases k,
{
    if k > 0 {
        assert(misses(k).drop_first() =~= misses((k - 1) as nat));
        lemma_searching_while_missing(s, (k - 1) as nat);
        assert(miss_reports(k) =~= seq![NoticeView::Error(not_found_message())] + miss_reports(
            (k - 1) as nat,
        ));
    } else {
        assert(miss_reports(k) =~= Seq::<NoticeView>::empty());
    }
}

/// The events of a lookup that finds `p`, a first read of `c` that ends at
/// `t`, and a successful arming.
pub open spec fn found_events(p: Seq<char>, c: Seq<char>, t: u64) -> Seq<EventView> {
    seq![
        EventView::Resolved(Some(p)),
        EventView::ContentRead(Some(c), t),
        EventView::Armed(Ok(())),
    ]
}

/// Retry until found: after `k` missed lookups and one that finds `p`, the
/// consumer has received `k` not-found errors, then the location, then the
/// content first read there, undebounced; once armed, the session watches
/// `p` with the fingerprint of that content and its read time as the last
/// delivery.
pub proof fn lemma_retry_until_found(
    s: SessionView,
    k: nat,
    p: Seq<char>,
    c: Seq<char>,
    t: u64,
)
    requires
        s.phase == Phase::Searching,
    ensures
        run_spec(s, misses(k) + found_events(p, c, t)) == (
            SessionView {
                phase: Phase::Watching,
                path: Some(p),
                last_fingerprint: content_fingerprint(c),
                last_emit: Some(t),
            },
            miss_reports(k) + seq![NoticeView::Location(p), NoticeView::Content(c)],
        ),
    decreases k,
{
    let evs = misses(k) + found_events(p, c, t);
    if k > 0 {
        assert(evs[0] == EventView::Resolved(None));
        assert(evs.drop_first() =~= misses((k - 1) as nat) + found_events(p, c, t));
        lemma_retry_until_found(s, (k - 1) as nat, p, c, t);
        assert(miss_reports(k) =~= seq![NoticeView::Error(not_found_message())] + miss_reports(
            (k - 1) as nat,
        ));
        assert(miss_reports(k) + seq![NoticeView::Location(p), NoticeView::Content(c)]
            =~= seq![NoticeView::Error(not_found_message())] + (miss_reports((k - 1) as nat)
            + seq![NoticeView::Location(p), NoticeView::Content(c)]));
    } else {
        assert(evs =~= found_events(p, c, t));
        let s1 = step_spec(s, evs[0]).session;
        let s2 = step_spec(s1, evs[1]).session;
        let s3 = step_spec(s2, evs[2]).session;
        assert(evs.drop_first().drop_first().drop_first() =~= Seq::<EventView>::empty());
        assert(run_spec(s3, evs.drop_first().drop_first().drop_first()) == (s3, Seq::<
            NoticeView,
        >::empty()));
        assert(run_spec(s2, evs.drop_first().drop_first()).1 =~= Seq::<NoticeView>::empty());
        assert(run_spec(s1, evs.drop_first()).1 =~= seq![NoticeView::Content(c)]);
        assert(run_spec(s, evs).1 =~= seq![NoticeView::Location(p), NoticeView::Content(c)]);
        assert(miss_reports(k) + seq![NoticeView::Location(p), NoticeView::Content(c)]
            =~= seq![NoticeView::Location(p), NoticeView::Content(c)]);
    }
}

/// An update carries the whole new content: when the file that last held
/// `a` now holds `a + d`, with a different fingerprint, a read accepted
/// after a change signal delivers `a + d` itself, not the appended part.
pub proof fn lemma_update_is_full_content(
    s: SessionView,
    a: Seq<char>,
    d: Seq<char>,
    signal: u64,
    t: u64,
)
    requires
        s.phase == Phase::Watching,
        s.last_fingerprint == content_fingerprint(a),
        accepts_change(s, true, signal),
        content_fingerprint(a + d) != content_fingerprint(a),
    ensures
        ({
            let signalled = step_spec(s, EventView::Change(true, signal));
            let read = step_spec(signalled.session, EventView::ContentRead(Some(a + d), t));
            &&& signalled.command == Command::Read
            &&& read.notices == seq![NoticeView::Content(a + d)]
            &&& read.session.last_fingerprint == content_fingerprint(a + d)
            &&& read.session.last_emit == Some(t)
        }),
{
}

} // verus!
