use vstd::prelude::*;
use crate::events::{EventClass, RawChangeEvent, triggers_render};
use crate::render::{
    ReadError, RenderResult, markdown_html, read_failure_message, read_result_view, render_read,
};

verus! {

/// How many updates may wait for a slow viewer before the session itself
/// has to wait.
pub const DELIVERY_CAPACITY: usize = 30;

/// The file one session watches, and whether raw HTML in it is trusted.
pub struct WatchTarget {
    pub path: String,
    pub trusted: bool,
}

/// Where a session stands. `Starting` waits for its event source; `Reading`
/// and `Delivering` are the read and the hand-over of one update, the first
/// one or one caused by a change; `Watching` waits for the next change.
#[derive(Clone, Copy, PartialEq, Eq, Structural, Debug)]
pub enum Phase {
    Starting,
    Reading,
    Delivering,
    Watching,
    Terminated,
}

/// What happened since the last step of a session.
pub enum SessionInput {
    /// The event source is running.
    SourceStarted,
    /// The event source could not start, or died.
    SourceFailed(String),
    /// The event source has no more events.
    SourceClosed,
    /// The event source reported a change.
    Change(RawChangeEvent),
    /// A read asked for has finished, after its retries.
    ReadDone(Result<String, ReadError>),
    /// The last update was taken by the delivery channel.
    Pushed,
    /// The viewer has gone away: the delivery channel is closed.
    PushFailed,
}

/// What the caller does next for a session.
pub enum SessionAction {
    /// Read this file, retrying as `ResilientReader` says.
    Read(String),
    /// Hand this update to the delivery channel, waiting for room.
    Push(RenderResult),
    /// Wait for the next event from the event source.
    AwaitChange,
    /// The input did not fit the session's state: nothing to do.
    Ignore,
    /// The session is over; the message says why when an error ended it.
    Stop(Option<String>),
}

/// The path whose contents an accepted change is read from: the first path
/// the event names, or the watched path when it names none.
pub open spec fn change_path(t: WatchTarget, e: RawChangeEvent) -> String {
    if e.paths.len() > 0 {
        e.paths@[0]
    } else {
        t.path
    }
}

/// The phase after `p` once input `i` is taken.
pub open spec fn next_phase(p: Phase, i: SessionInput) -> Phase {
    if p == Phase::Terminated {
        Phase::Terminated
    } else {
        match i {
            SessionInput::SourceFailed(_) | SessionInput::SourceClosed => Phase::Terminated,
            SessionInput::SourceStarted => if p == Phase::Starting { Phase::Reading } else { p },
            SessionInput::Change(e) => if p == Phase::Watching && triggers_render(e.class) {
                Phase::Reading
            } else {
                p
            },
            SessionInput::ReadDone(_) => if p == Phase::Reading { Phase::Delivering } else { p },
            SessionInput::Pushed => if p == Phase::Delivering { Phase::Watching } else { p },
            SessionInput::PushFailed => if p == Phase::Delivering { Phase::Terminated } else { p },
        }
    }
}

/// `a` is the action a session on target `t` in phase `p` takes on input `i`.
pub open spec fn session_answer(t: WatchTarget, p: Phase, i: SessionInput, a: SessionAction) -> bool {
    if p == Phase::Terminated {
        a == SessionAction::Stop(None)
    } else {
        match i {
            SessionInput::SourceFailed(m) => a == SessionAction::Stop(Some(m)),
            SessionInput::SourceClosed => a == SessionAction::Stop(None),
            SessionInput::SourceStarted => if p == Phase::Starting {
                a == SessionAction::Read(t.path)
            } else {
                a == SessionAction::Ignore
            },
            SessionInput::Change(e) => if p == Phase::Watching {
                if triggers_render(e.class) {
                    a == SessionAction::Read(change_path(t, e))
                } else {
                    a == SessionAction::AwaitChange
                }
            } else {
                a == SessionAction::Ignore
            },
            SessionInput::ReadDone(r) => if p == Phase::Reading {
                &&& a is Push
                &&& a->Push_0@ == read_result_view(r, t.trusted)
            } else {
                a == SessionAction::Ignore
            },
            SessionInput::Pushed => if p == Phase::Delivering {
                a == SessionAction::AwaitChange
            } else {
                a == SessionAction::Ignore
            },
            SessionInput::PushFailed => if p == Phase::Delivering {
                a == SessionAction::Stop(None)
            } else {
                a == SessionAction::Ignore
            },
        }
    }
}

/// One watch session: the decisions that turn change notifications into an
/// ordered stream of updates for one viewer.
pub struct WatchSession {
    pub target: WatchTarget,
    pub phase: Phase,
}

impl WatchSession {
    pub fn new(target: WatchTarget) -> (s: WatchSession)
        ensures
            s.target == target,
            s.phase == Phase::Starting,
    {
        WatchSession { target, phase: Phase::Starting }
    }

    pub fn phase(&self) -> (p: Phase)
        ensures
            p == self.phase,
    {
        self.phase
    }

    pub fn is_terminated(&self) -> (r: bool)
        ensures
            r == (self.phase == Phase::Terminated),
    {
        self.phase == Phase::Terminated
    }

    /// Takes one input and says what to do next.
    pub fn step(&mut self, input: SessionInput) -> (a: SessionAction)
        ensures
            final(self).target == old(self).target,
            final(self).phase == next_phase(old(self).phase, input),
            session_answer(old(self).target, old(self).phase, input, a),
    {
        if self.phase == Phase::Terminated {
            return SessionAction::Stop(None);
        }
        match input {
            SessionInput::SourceFailed(m) => {
                self.phase = Phase::Terminated;
                SessionAction::Stop(Some(m))
            },
            SessionInput::SourceClosed => {
                self.phase = Phase::Terminated;
                SessionAction::Stop(None)
            },
            SessionInput::SourceStarted => {
                if self.phase == Phase::Starting {
                    self.phase = Phase::Reading;
                    SessionAction::Read(self.target.path.clone())
                } else {
                    SessionAction::Ignore
                }
            },
            SessionInput::Change(e) => {
                if self.phase == Phase::Watching {
                    if e.accepted() {
                        self.phase = Phase::Reading;
                        if e.paths.len() > 0 {
                            SessionAction::Read(e.paths[0].clone())
                        } else {
                            SessionAction::Read(self.target.path.clone())
                        }
                    } else {
                        SessionAction::AwaitChange
                    }
                } else {
                    SessionAction::Ignore
                }
            },
            SessionInput::ReadDone(r) => {
                if self.phase == Phase::Reading {
                    self.phase = Phase::Delivering;
                    SessionAction::Push(render_read(r, self.target.trusted))
                } else {
                    SessionAction::Ignore
                }
            },
            SessionInput::Pushed => {
                if self.phase == Phase::Delivering {
                    self.phase = Phase::Watching;
                    SessionAction::AwaitChange
                } else {
                    SessionAction::Ignore
                }
            },
            SessionInput::PushFailed => {
                if self.phase == Phase::Delivering {
                    self.phase = Phase::Terminated;
                    SessionAction::Stop(None)
                } else {
                    SessionAction::Ignore
                }
            },
        }
    }
}

/// The `i`-th input of a session whose viewer takes every update at once:
/// the source starts, then each accepted change of `events` follows; every
/// read asked for gives the next entry of `reads`.
pub open spec fn delivery_script(
    events: Seq<RawChangeEvent>,
    reads: Seq<Result<String, ReadError>>,
    i: int,
) -> SessionInput {
    let k = i / 3;
    if i % 3 == 0 {
        if k == 0 {
            SessionInput::SourceStarted
        } else {
            SessionInput::Change(events[k - 1])
        }
    } else if i % 3 == 1 {
        SessionInput::ReadDone(reads[k])
    } else {
        SessionInput::Pushed
    }
}

/// Step `i` of a run: the phase after it and the action taken follow from
/// the phase before it and the `i`-th input of `delivery_script`.
pub open spec fn delivery_step(
    t: WatchTarget,
    events: Seq<RawChangeEvent>,
    reads: Seq<Result<String, ReadError>>,
    phases: Seq<Phase>,
    actions: Seq<SessionAction>,
    i: int,
) -> bool {
    &&& phases[i + 1] == next_phase(phases[i], delivery_script(events, reads, i))
    &&& session_answer(t, phases[i], delivery_script(events, reads, i), actions[i])
}

/// `phases` and `actions` are what a session on `t`, started afresh, goes
/// through on the inputs of `delivery_script`.
pub open spec fn delivery_run(
    t: WatchTarget,
    events: Seq<RawChangeEvent>,
    reads: Seq<Result<String, ReadError>>,
    phases: Seq<Phase>,
    actions: Seq<SessionAction>,
) -> bool {
    &&& actions.len() == 3 * reads.len()
    &&& phases.len() == actions.len() + 1
    &&& phases[0] == Phase::Starting
    &&& forall|i: int|
        0 <= i < actions.len() ==> #[trigger] delivery_step(t, events, reads, phases, actions, i)
}

proof fn lemma_delivery_cycle(
    t: WatchTarget,
    events: Seq<RawChangeEvent>,
    reads: Seq<Result<String, ReadError>>,
    phases: Seq<Phase>,
    actions: Seq<SessionAction>,
    k: int,
)
    requires
        reads.len() == events.len() + 1,
        forall|j: int| 0 <= j < events.len() ==> triggers_render(#[trigger] events[j].class),
        delivery_run(t, events, reads, phases, actions),
        0 <= k <= reads.len(),
    ensures
        phases[3 * k] == (if k == 0 { Phase::Starting } else { Phase::Watching }),
    decreases k,
{
    if k > 0 {
        let i = 3 * (k - 1);
        lemma_delivery_cycle(t, events, reads, phases, actions, k - 1);
        assert(i / 3 == k - 1 && i % 3 == 0);
        assert((i + 1) / 3 == k - 1 && (i + 1) % 3 == 1);
        assert((i + 2) / 3 == k - 1 && (i + 2) % 3 == 2);
        assert(delivery_step(t, events, reads, phases, actions, i));
        assert(delivery_step(t, events, reads, phases, actions, i + 1));
        assert(delivery_step(t, events, reads, phases, actions, i + 2));
    }
}

/// A session that starts and then sees `n` accepted changes, with a viewer
/// that takes each update, delivers `n + 1` updates: first the initial read,
/// then one per change, in the order the changes came. Nothing else is
/// delivered, and the session is left watching.
pub proof fn lemma_ordered_delivery(
    t: WatchTarget,
    events: Seq<RawChangeEvent>,
    reads: Seq<Result<String, ReadError>>,
    phases: Seq<Phase>,
    actions: Seq<SessionAction>,
)
    requires
        reads.len() == events.len() + 1,
        forall|j: int| 0 <= j < events.len() ==> triggers_render(#[trigger] events[j].class),
        delivery_run(t, events, reads, phases, actions),
    ensures
        forall|k: int|
            0 <= k < reads.len() ==> {
                &&& #[trigger] actions[3 * k + 1] is Push
                &&& actions[3 * k + 1]->Push_0@ == read_result_view(reads[k], t.trusted)
            },
        forall|i: int| 0 <= i < actions.len() && i % 3 != 1 ==> !(#[trigger] actions[i] is Push),
        phases[actions.len() as int] == Phase::Watching,
{
    assert forall|k: int| 0 <= k < reads.len() implies {
        &&& #[trigger] actions[3 * k + 1] is Push
        &&& actions[3 * k + 1]->Push_0@ == read_result_view(reads[k], t.trusted)
    } by {
        let i = 3 * k;
        lemma_delivery_cycle(t, events, reads, phases, actions, k);
        assert(i / 3 == k && i % 3 == 0);
        assert((i + 1) / 3 == k && (i + 1) % 3 == 1);
        assert(delivery_step(t, events, reads, phases, actions, i));
        assert(delivery_step(t, events, reads, phases, actions, i + 1));
    }
    assert forall|i: int| 0 <= i < actions.len() && i % 3 != 1 implies !(#[trigger] actions[i] is Push) by {
        let k = i / 3;
        lemma_delivery_cycle(t, events, reads, phases, actions, k);
        assert(delivery_step(t, events, reads, phases, actions, i));
        if i % 3 == 2 {
            assert(delivery_step(t, events, reads, phases, actions, i - 2));
            assert(delivery_step(t, events, reads, phases, actions, i - 1));
        }
    }
    let n = reads.len() as int;
    lemma_delivery_cycle(t, events, reads, phases, actions, n);
}

/// A read that failed on every attempt does not end the session: the viewer
/// is handed a failure naming the file and the last cause, and the session
/// goes on to deliver it.
pub proof fn lemma_read_failure_delivered(t: WatchTarget, e: ReadError, a: SessionAction)
    requires
        session_answer(t, Phase::Reading, SessionInput::ReadDone(Err(e)), a),
    ensures
        a is Push,
        a->Push_0@ == Err::<Seq<char>, Seq<char>>(read_failure_message(e.path@, e.cause@)),
        next_phase(Phase::Reading, SessionInput::ReadDone(Err(e))) == Phase::Delivering,
{
}

/// While watching, an access or a bare rename asks for no read and delivers
/// nothing; a change of contents asks for a read, and the text read is then
/// delivered rendered.
pub proof fn lemma_change_filter(
    t: WatchTarget,
    e: RawChangeEvent,
    text: String,
    a1: SessionAction,
    a2: SessionAction,
)
    requires
        session_answer(t, Phase::Watching, SessionInput::Change(e), a1),
        session_answer(
            t,
            next_phase(Phase::Watching, SessionInput::Change(e)),
            SessionInput::ReadDone(Ok(text)),
            a2,
        ),
    ensures
        e.class == EventClass::Access || e.class == EventClass::Rename ==> {
            &&& a1 == SessionAction::AwaitChange
            &&& next_phase(Phase::Watching, SessionInput::Change(e)) == Phase::Watching
        },
        e.class == EventClass::DataModify ==> {
            &&& a1 == SessionAction::Read(change_path(t, e))
            &&& a2 is Push
            &&& a2->Push_0@ == markdown_html(text@, t.trusted)
        },
{
}

} // verus!
