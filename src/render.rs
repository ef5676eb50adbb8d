//! The render loop and its shutdown, as a state machine: the caller performs
//! each action that the machine asks for and reports what came of it.
use vstd::prelude::*;
use vstd::string::*;
use crate::relay::NotificationEvent;

verus! {

/// The base cadence: the pause after each metrics render, in milliseconds.
pub const CADENCE_MS: u64 = 1000;

/// Where the loop stands.
#[derive(Clone, Copy, Debug)]
pub enum Phase {
    /// Between two iterations: the relay is checked next.
    Resting,
    /// The relay has been asked for a notification.
    Polling,
    /// A notification is being shown; it holds the line that many milliseconds.
    Notifying(u64),
    /// The line holds a notification; the metrics are shown next.
    Holding,
    /// The metrics are being shown; the cadence pause comes next.
    Showing,
    /// The farewell line is being shown.
    Farewell,
    /// Nothing more is shown.
    Stopped,
}

/// A termination signal that the daemon listens for.
#[derive(Clone, Copy, Debug)]
pub enum SignalKind {
    Int,
    Term,
}

/// Why the daemon stops.
#[derive(Clone, Copy, Debug)]
pub enum StopReason {
    /// The process received a termination signal.
    Signal(SignalKind),
    /// The work of the loop came to an end by itself.
    Finished,
}

/// What the caller reports to the loop.
#[derive(Debug)]
pub enum Event {
    /// The last action was carried out (a line was shown, a pause ended).
    Done,
    /// The relay was checked, with what it held.
    Polled(Option<NotificationEvent>),
    /// The daemon is to stop.
    Stop(StopReason),
}

/// What the loop asks the caller to do.
#[derive(Debug, PartialEq, Eq)]
pub enum Action {
    /// Check the relay without waiting and report what it held.
    PollRelay,
    /// Show this notification line.
    ShowNotification(String),
    /// Read the metrics and show the status line made from them.
    ShowStatus,
    /// Pause for this many milliseconds.
    Sleep(u64),
    /// Show this farewell line.
    ShowFarewell(String),
    /// End the process.
    Exit,
}

/// An action as the contracts see it.
pub enum Step {
    Poll,
    Notify(Seq<char>),
    Status,
    Pause(nat),
    Farewell(Seq<char>),
    Quit,
}

impl View for Action {
    type V = Step;

    open spec fn view(&self) -> Step {
        match self {
            Action::PollRelay => Step::Poll,
            Action::ShowNotification(t) => Step::Notify(t@),
            Action::ShowStatus => Step::Status,
            Action::Sleep(ms) => Step::Pause(*ms as nat),
            Action::ShowFarewell(t) => Step::Farewell(t@),
            Action::Exit => Step::Quit,
        }
    }
}

/// The debug form of a string: quoted, with special characters escaped.
pub uninterp spec fn debug_text(s: Seq<char>) -> Seq<char>;

/// Relies on std's `Debug` for `str` (through `format!("{:#?}")`): the
/// summary quoted and escaped, a function of its characters alone.
#[verifier::external_body]
fn debug_quoted(s: &String) -> (r: String)
    ensures
        r@ == debug_text(s@),
{
    format!("{:#?}", s)
}

/// The farewell line for each way of stopping.
pub open spec fn farewell_text(r: StopReason) -> Seq<char> {
    match r {
        StopReason::Signal(SignalKind::Int) => "rust-dwm-status stopped with signal INT."@,
        StopReason::Signal(SignalKind::Term) => "rust-dwm-status stopped with signal TERM."@,
        StopReason::Finished => "rust-dwm-status: done."@,
    }
}

/// The farewell line for a way of stopping.
pub fn farewell(r: StopReason) -> (t: String)
    ensures
        t@ == farewell_text(r),
{
    match r {
        StopReason::Signal(SignalKind::Int) => String::from_str("rust-dwm-status stopped with signal INT."),
        StopReason::Signal(SignalKind::Term) => String::from_str("rust-dwm-status stopped with signal TERM."),
        StopReason::Finished => String::from_str("rust-dwm-status: done."),
    }
}

/// Whether the loop has begun to stop.
pub open spec fn stopping(p: Phase) -> bool {
    p is Farewell || p is Stopped
}

/// The loop's next phase and the action it asks for, on an event.
///
/// A stop event shows the farewell once, from any phase before it; after
/// that only `Quit` is asked for. A relay report in the polling phase shows
/// the notification it holds, or else the metrics. Every other event counts
/// as the end of the last action: the loop moves one step along its cycle.
pub open spec fn next(p: Phase, e: Event) -> (Phase, Step) {
    match e {
        Event::Stop(r) => if stopping(p) {
            (Phase::Stopped, Step::Quit)
        } else {
            (Phase::Farewell, Step::Farewell(farewell_text(r)))
        },
        Event::Polled(Some(n)) if p is Polling => (
            Phase::Notifying(n.hold_ms),
            Step::Notify(debug_text(n.summary@)),
        ),
        Event::Polled(None) if p is Polling => (Phase::Showing, Step::Status),
        _ => advance(p),
    }
}

/// One step along the cycle, at the end of the last action.
pub open spec fn advance(p: Phase) -> (Phase, Step) {
    match p {
        Phase::Resting => (Phase::Polling, Step::Poll),
        Phase::Polling => (Phase::Polling, Step::Poll),
        Phase::Notifying(h) => (Phase::Holding, Step::Pause(h as nat)),
        Phase::Holding => (Phase::Showing, Step::Status),
        Phase::Showing => (Phase::Resting, Step::Pause(CADENCE_MS as nat)),
        Phase::Farewell => (Phase::Stopped, Step::Quit),
        Phase::Stopped => (Phase::Stopped, Step::Quit),
    }
}

/// The actions that the loop asks for, from phase `p`, on a run of events.
pub open spec fn run(p: Phase, evs: Seq<Event>) -> Seq<Step>
    decreases evs.len(),
{
    if evs.len() == 0 {
        Seq::empty()
    } else {
        seq![next(p, evs[0]).1] + run(next(p, evs[0]).0, evs.drop_first())
    }
}

/// The render loop with its shutdown.
pub struct RenderLoop {
    pub phase: Phase,
}

impl RenderLoop {
    /// A loop between iterations: reporting `Done` starts it.
    pub fn new() -> (r: RenderLoop)
        ensures
            r.phase is Resting,
    {
        RenderLoop { phase: Phase::Resting }
    }

    /// Takes in an event and answers with the next action.
    pub fn step(&mut self, e: Event) -> (r: Action)
        ensures
            (final(self).phase, r@) == next(old(self).phase, e),
    {
        match e {
            Event::Stop(reason) => {
                match self.phase {
                    Phase::Farewell | Phase::Stopped => {
                        self.phase = Phase::Stopped;
                        Action::Exit
                    },
                    _ => {
                        self.phase = Phase::Farewell;
                        Action::ShowFarewell(farewell(reason))
                    },
                }
            },
            Event::Polled(Some(n)) if matches!(self.phase, Phase::Polling) => {
                self.phase = Phase::Notifying(n.hold_ms);
                Action::ShowNotification(debug_quoted(&n.summary))
            },
            Event::Polled(None) if matches!(self.phase, Phase::Polling) => {
                self.phase = Phase::Showing;
                Action::ShowStatus
            },
            _ => {
                match self.phase {
                    Phase::Resting | Phase::Polling => {
                        self.phase = Phase::Polling;
                        Action::PollRelay
                    },
                    Phase::Notifying(h) => {
                        self.phase = Phase::Holding;
                        Action::Sleep(h)
                    },
                    Phase::Holding => {
                        self.phase = Phase::Showing;
                        Action::ShowStatus
                    },
                    Phase::Showing => {
                        self.phase = Phase::Resting;
                        Action::Sleep(CADENCE_MS)
                    },
                    Phase::Farewell | Phase::Stopped => {
                        self.phase = Phase::Stopped;
                        Action::Exit
                    },
                }
            },
        }
    }
}

/// Whether a phase owes a metrics render before the relay is checked again.
pub open spec fn owes_status(p: Phase) -> bool {
    p is Notifying || p is Holding
}

proof fn lemma_stopping_quits(p: Phase, evs: Seq<Event>)
    requires
        stopping(p),
    ensures
        forall|j: int| 0 <= j < run(p, evs).len() ==> #[trigger] run(p, evs)[j] is Quit,
    decreases evs.len(),
{
    if evs.len() > 0 {
        let q = next(p, evs[0]).0;
        lemma_stopping_quits(q, evs.drop_first());
        assert forall|j: int| 0 <= j < run(p, evs).len() implies #[trigger] run(p, evs)[j] is Quit by {
            if j > 0 {
                assert(run(p, evs)[j] == run(q, evs.drop_first())[j - 1]);
            }
        }
    }
}

proof fn lemma_owed_status(p: Phase, evs: Seq<Event>, j: int)
    requires
        owes_status(p),
        0 <= j < run(p, evs).len(),
        run(p, evs)[j] is Poll,
    ensures
        exists|k: int| 0 <= k < j && #[trigger] run(p, evs)[k] is Status,
    decreases evs.len(),
{
    let (q, a) = next(p, evs[0]);
    let tail = run(q, evs.drop_first());
    assert(run(p, evs)[0] == a);
    if a is Status {
        assert(run(p, evs)[0] is Status);
    } else if stopping(q) {
        lemma_stopping_quits(q, evs.drop_first());
        assert(run(p, evs)[j] == tail[j - 1]);
    } else {
        assert(owes_status(q));
        assert(run(p, evs)[j] == tail[j - 1]);
        lemma_owed_status(q, evs.drop_first(), j - 1);
        let k = choose|k: int| 0 <= k < j - 1 && #[trigger] tail[k] is Status;
        assert(run(p, evs)[k + 1] == tail[k]);
    }
}

/// A notification render is always followed by a metrics render before the
/// relay is checked again: within an iteration the notification comes first
/// and the metrics after it, never the other way round, whatever events come.
pub proof fn notification_precedes_status(p: Phase, evs: Seq<Event>, i: int, j: int)
    requires
        0 <= i < j < run(p, evs).len(),
        run(p, evs)[i] is Notify,
        run(p, evs)[j] is Poll,
    ensures
        exists|k: int| i < k < j && #[trigger] run(p, evs)[k] is Status,
    decreases evs.len(),
{
    let (q, a) = next(p, evs[0]);
    let tail = run(q, evs.drop_first());
    assert(run(p, evs)[i] == tail[i - 1] || i == 0);
    assert(run(p, evs)[j] == tail[j - 1]);
    if i == 0 {
        assert(owes_status(q));
        lemma_owed_status(q, evs.drop_first(), j - 1);
        let k = choose|k: int| 0 <= k < j - 1 && #[trigger] tail[k] is Status;
        assert(run(p, evs)[k + 1] == tail[k]);
    } else {
        assert(run(p, evs)[i] == tail[i - 1]);
        notification_precedes_status(q, evs.drop_first(), i - 1, j - 1);
        let k = choose|k: int| i - 1 < k < j - 1 && #[trigger] tail[k] is Status;
        assert(run(p, evs)[k + 1] == tail[k]);
    }
}

/// `n` iterations in which the relay is found empty: each one checks the
/// relay, then reports the end of the metrics render and of the pause.
pub open spec fn idle_events(n: nat) -> Seq<Event>
    decreases n,
{
    if n == 0 {
        Seq::empty()
    } else {
        seq![Event::Polled(None), Event::Done, Event::Done] + idle_events((n - 1) as nat)
    }
}

/// One metrics render per iteration, each followed by the cadence pause.
pub open spec fn idle_steps(n: nat) -> Seq<Step>
    decreases n,
{
    if n == 0 {
        Seq::empty()
    } else {
        seq![Step::Status, Step::Pause(CADENCE_MS as nat), Step::Poll] + idle_steps((n - 1) as nat)
    }
}

/// While the relay stays empty for `n` iterations, the loop renders the
/// metrics exactly `n` times, once per iteration, with a pause of the full
/// cadence after each render before the relay is checked again.
pub proof fn idle_iterations_render_metrics(n: nat)
    ensures
        run(Phase::Polling, idle_events(n)) == idle_steps(n),
    decreases n,
{
    if n > 0 {
        let rest = idle_events((n - 1) as nat);
        let evs = idle_events(n);
        idle_iterations_render_metrics((n - 1) as nat);
        assert(evs[0] == Event::Polled(None));
        assert(evs.drop_first() =~= seq![Event::Done, Event::Done] + rest);
        assert(evs.drop_first().drop_first() =~= seq![Event::Done] + rest);
        assert(evs.drop_first().drop_first().drop_first() =~= rest);
        let d1 = evs.drop_first();
        let d2 = d1.drop_first();
        assert(d1[0] == Event::Done);
        assert(d2[0] == Event::Done);
        assert(run(Phase::Resting, d2) == seq![Step::Poll] + run(Phase::Polling, rest));
        assert(run(Phase::Showing, d1) == seq![Step::Pause(CADENCE_MS as nat)] + run(
            Phase::Resting,
            d2,
        ));
        assert(run(Phase::Polling, evs) == seq![Step::Status] + run(Phase::Showing, d1));
        assert(run(Phase::Polling, evs) =~= idle_steps(n));
    }
}

/// Once the loop shows a farewell it asks for nothing but the end of the
/// process: no farewell, notification or metrics render follows it.
pub proof fn farewell_is_last(p: Phase, evs: Seq<Event>, i: int, j: int)
    requires
        0 <= i < j < run(p, evs).len(),
        run(p, evs)[i] is Farewell,
    ensures
        run(p, evs)[j] is Quit,
    decreases evs.len(),
{
    let (q, a) = next(p, evs[0]);
    let tail = run(q, evs.drop_first());
    assert(run(p, evs)[j] == tail[j - 1]);
    if i == 0 {
        assert(stopping(q));
        lemma_stopping_quits(q, evs.drop_first());
    } else {
        assert(run(p, evs)[i] == tail[i - 1]);
        farewell_is_last(q, evs.drop_first(), i - 1, j - 1);
    }
}

/// A stop observed by a running loop shows exactly one farewell, naming the
/// reason, at once; every later action is the end of the process.
pub proof fn stop_shows_one_farewell(p: Phase, r: StopReason, evs: Seq<Event>)
    requires
        !stopping(p),
    ensures
        run(p, seq![Event::Stop(r)] + evs)[0] == Step::Farewell(farewell_text(r)),
        forall|j: int|
            1 <= j < run(p, seq![Event::Stop(r)] + evs).len() ==> #[trigger] run(
                p,
                seq![Event::Stop(r)] + evs,
            )[j] is Quit,
{
    let all = seq![Event::Stop(r)] + evs;
    assert(all[0] == Event::Stop(r));
    assert(all.drop_first() =~= evs);
    lemma_stopping_quits(Phase::Farewell, evs);
    assert forall|j: int| 1 <= j < run(p, all).len() implies #[trigger] run(p, all)[j] is Quit by {
        assert(run(p, all)[j] == run(Phase::Farewell, evs)[j - 1]);
    }
}

} // verus!
