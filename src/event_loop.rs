//! The decisions of the I/O loop. The loop that blocks on the process runs
//! outside; it hands each event here and performs the action it gets back.
use vstd::prelude::*;

use crate::channel::Command;
use crate::grid::GridModel;

verus! {

/// Where the loop stands: it runs, drains after a shutdown, or has stopped.
#[derive(Clone, Copy, Debug, PartialEq, Eq, Structural)]
pub enum Phase {
    Running,
    Draining,
    Stopped,
}

/// What happened on the loop's side since the last decision.
pub enum LoopEvent {
    /// Bytes read from the process.
    Read(Vec<u8>),
    /// A read or write failed without the terminal going away.
    TransientError,
    /// The process closed its end: it has exited. The loop drains what is
    /// still to be read before it stops.
    Closed,
    /// The terminal's descriptor failed for good.
    Fatal,
    /// Nothing more is waiting to be read.
    Drained,
    /// A command taken from the channel.
    Command(Command),
}

/// What the outer loop is to do next.
pub enum LoopAction {
    Idle,
    /// Write these bytes to the process.
    Write(Vec<u8>),
    /// Tell the process's terminal its new size; the grid already has it.
    ResizePty { columns: u16, rows: u16 },
    /// Stop: report the process as exited and end the loop.
    Exit,
}

/// The phase after one event.
pub open spec fn next_phase(p: Phase, e: LoopEvent) -> Phase {
    match p {
        Phase::Running => match e {
            LoopEvent::Fatal => Phase::Stopped,
            LoopEvent::Closed | LoopEvent::Command(Command::Shutdown) => Phase::Draining,
            _ => Phase::Running,
        },
        Phase::Draining => match e {
            LoopEvent::Closed | LoopEvent::Fatal | LoopEvent::Drained => Phase::Stopped,
            _ => Phase::Draining,
        },
        Phase::Stopped => Phase::Stopped,
    }
}

/// The bytes an event carries from the process.
pub open spec fn read_bytes(e: LoopEvent) -> Seq<u8> {
    match e {
        LoopEvent::Read(b) => b@,
        _ => Seq::empty(),
    }
}

/// The bytes one event feeds to the grid in phase `p`.
pub open spec fn applied_by(p: Phase, e: LoopEvent) -> Seq<u8> {
    if p == Phase::Stopped {
        Seq::empty()
    } else {
        read_bytes(e)
    }
}

/// The bytes one event sends to the process in phase `p`.
pub open spec fn written_by(p: Phase, e: LoopEvent) -> Seq<u8> {
    match (p, e) {
        (Phase::Running, LoopEvent::Command(Command::Input(b))) => b@,
        _ => Seq::empty(),
    }
}

/// The bytes an action writes to the process.
pub open spec fn action_bytes(a: LoopAction) -> Seq<u8> {
    match a {
        LoopAction::Write(b) => b@,
        _ => Seq::empty(),
    }
}

/// The action owed for one event in phase `p`, told apart by its kind; the
/// bytes of a write are given by `written_by`.
pub open spec fn action_fits(p: Phase, e: LoopEvent, a: LoopAction) -> bool {
    match (p, e) {
        (Phase::Running, LoopEvent::Command(Command::Input(_))) => a is Write,
        (Phase::Running, LoopEvent::Command(Command::Resize { columns, rows })) =>
            if columns >= 2 && rows >= 1 {
                a == (LoopAction::ResizePty { columns, rows })
            } else {
                a is Idle
            },
        _ => if p != Phase::Stopped && next_phase(p, e) == Phase::Stopped {
            a is Exit
        } else {
            a is Idle
        },
    }
}

/// Whether one event in phase `p` touches the grid: bytes read before the
/// loop stops, or a resize taken while it runs.
pub open spec fn changes_grid(p: Phase, e: LoopEvent) -> bool {
    match (p, e) {
        (Phase::Stopped, _) => false,
        (_, LoopEvent::Read(_)) => true,
        (Phase::Running, LoopEvent::Command(Command::Resize { columns, rows })) =>
            columns >= 2 && rows >= 1,
        _ => false,
    }
}

/// The grid's size after one event in phase `p`, from size `(w, h)`.
pub open spec fn size_after(p: Phase, e: LoopEvent, w: nat, h: nat) -> (nat, nat) {
    match (p, e) {
        (Phase::Running, LoopEvent::Command(Command::Resize { columns, rows })) =>
            if columns >= 2 && rows >= 1 {
                (columns as nat, rows as nat)
            } else {
                (w, h)
            },
        _ => (w, h),
    }
}

/// The phase after a run of events.
pub open spec fn phase_after(p: Phase, evs: Seq<LoopEvent>) -> Phase
    decreases evs.len(),
{
    if evs.len() == 0 {
        p
    } else {
        next_phase(phase_after(p, evs.drop_last()), evs.last())
    }
}

/// The bytes a run of events feeds to the grid.
pub open spec fn applied(p: Phase, evs: Seq<LoopEvent>) -> Seq<u8>
    decreases evs.len(),
{
    if evs.len() == 0 {
        Seq::empty()
    } else {
        applied(p, evs.drop_last()) + applied_by(phase_after(p, evs.drop_last()), evs.last())
    }
}

/// The bytes a run of events sends to the process.
pub open spec fn written(p: Phase, evs: Seq<LoopEvent>) -> Seq<u8>
    decreases evs.len(),
{
    if evs.len() == 0 {
        Seq::empty()
    } else {
        written(p, evs.drop_last()) + written_by(phase_after(p, evs.drop_last()), evs.last())
    }
}

/// The bytes carried by a run of events, in order.
pub open spec fn reads(evs: Seq<LoopEvent>) -> Seq<u8>
    decreases evs.len(),
{
    if evs.len() == 0 {
        Seq::empty()
    } else {
        reads(evs.drop_last()) + read_bytes(evs.last())
    }
}

/// The events that arrive before the loop has stopped.
pub open spec fn live(p: Phase, evs: Seq<LoopEvent>) -> Seq<LoopEvent>
    decreases evs.len(),
{
    if evs.len() == 0 {
        Seq::empty()
    } else if phase_after(p, evs.drop_last()) == Phase::Stopped {
        live(p, evs.drop_last())
    } else {
        live(p, evs.drop_last()).push(evs.last())
    }
}

/// The bytes a run of actions writes to the process.
pub open spec fn actions_written(acts: Seq<LoopAction>) -> Seq<u8>
    decreases acts.len(),
{
    if acts.len() == 0 {
        Seq::empty()
    } else {
        actions_written(acts.drop_last()) + action_bytes(acts.last())
    }
}

/// Every byte read from the process reaches the grid, once, in the order
/// read, up to the moment the loop stops; a run in which the loop never
/// stops applies exactly the concatenation of everything read.
pub proof fn lemma_reads_applied_in_order(p: Phase, evs: Seq<LoopEvent>)
    ensures
        applied(p, evs) == reads(live(p, evs)),
        phase_after(p, evs) != Phase::Stopped ==> live(p, evs) == evs,
        phase_after(p, evs) != Phase::Stopped ==> applied(p, evs) == reads(evs),
    decreases evs.len(),
{
    if evs.len() > 0 {
        let init = evs.drop_last();
        lemma_reads_applied_in_order(p, init);
        let q = phase_after(p, init);
        if q != Phase::Stopped {
            let l = live(p, init);
            assert(l.push(evs.last()).drop_last() =~= l);
            assert(init.push(evs.last()) =~= evs);
        }
    } else {
        assert(live(p, evs) =~= evs);
    }
}

/// Whether an event hands the loop input to write.
pub open spec fn carries_input(e: LoopEvent) -> bool {
    match e {
        LoopEvent::Command(Command::Input(_)) => true,
        _ => false,
    }
}

/// Events that hand the loop no input make it write nothing, in any phase:
/// with the waiting input dropped when a shutdown is queued, nothing is
/// written once the shutdown was sent.
pub proof fn lemma_no_input_no_writes(p: Phase, evs: Seq<LoopEvent>)
    requires
        forall|i: int| 0 <= i < evs.len() ==> !carries_input(#[trigger] evs[i]),
    ensures
        written(p, evs) == Seq::<u8>::empty(),
    decreases evs.len(),
{
    if evs.len() > 0 {
        let init = evs.drop_last();
        assert forall|i: int| 0 <= i < init.len() implies !carries_input(#[trigger] init[i]) by {
            assert(init[i] == evs[i]);
        }
        lemma_no_input_no_writes(p, init);
        assert(!carries_input(evs[evs.len() - 1]));
        assert(written(p, evs) =~= Seq::<u8>::empty());
    }
}

/// Once a shutdown has been taken, nothing more is written to the process,
/// the loop never runs again, and every byte still read is applied until it
/// stops.
pub proof fn lemma_shutdown_drains(p: Phase, evs: Seq<LoopEvent>)
    requires
        p == Phase::Draining || p == Phase::Stopped,
    ensures
        next_phase(Phase::Running, LoopEvent::Command(Command::Shutdown)) == Phase::Draining,
        written(p, evs) == Seq::<u8>::empty(),
        phase_after(p, evs) != Phase::Running,
        applied(p, evs) == reads(live(p, evs)),
    decreases evs.len(),
{
    lemma_reads_applied_in_order(p, evs);
    if evs.len() > 0 {
        lemma_shutdown_drains(p, evs.drop_last());
        assert(written(p, evs) =~= Seq::<u8>::empty());
    }
}

/// The loop's decision state.
pub struct IoEventLoop {
    phase: Phase,
}

impl IoEventLoop {
    /// The current phase.
    pub closed spec fn phase_spec(&self) -> Phase {
        self.phase
    }

    /// A loop that runs.
    pub fn new() -> (r: IoEventLoop)
        ensures
            r.phase_spec() == Phase::Running,
    {
        IoEventLoop { phase: Phase::Running }
    }

    /// The current phase.
    pub fn phase(&self) -> (r: Phase)
        ensures
            r == self.phase_spec(),
    {
        self.phase
    }

    /// Decides on one event. Bytes read are applied to the grid in every
    /// phase but `Stopped`; input is written only while running; a resize
    /// changes the grid before the action that resizes the process's
    /// terminal is handed out.
    pub fn handle(&mut self, grid: &mut GridModel, ev: LoopEvent) -> (a: LoopAction)
        requires
            old(grid).wf(),
        ensures
            final(grid).wf(),
            final(self).phase_spec() == next_phase(old(self).phase_spec(), ev),
            final(grid).fed() == old(grid).fed() + applied_by(old(self).phase_spec(), ev),
            (final(grid).width(), final(grid).height()) == size_after(
                old(self).phase_spec(),
                ev,
                old(grid).width(),
                old(grid).height(),
            ),
            action_fits(old(self).phase_spec(), ev, a),
            action_bytes(a) == written_by(old(self).phase_spec(), ev),
            old(self).phase_spec() != Phase::Stopped && ev is Read ==> final(grid).contents()
                == old(grid).contents_after(read_bytes(ev)),
            !changes_grid(old(self).phase_spec(), ev) ==> *final(grid) == *old(grid),
    {
        let p = self.phase;
        let ghost e = ev;
        let next = match p {
            Phase::Running => match &ev {
                LoopEvent::Fatal => Phase::Stopped,
                LoopEvent::Closed | LoopEvent::Command(Command::Shutdown) => Phase::Draining,
                _ => Phase::Running,
            },
            Phase::Draining => match &ev {
                LoopEvent::Closed | LoopEvent::Fatal | LoopEvent::Drained => Phase::Stopped,
                _ => Phase::Draining,
            },
            Phase::Stopped => Phase::Stopped,
        };
        assert(next == next_phase(p, e));
        self.phase = next;
        if p == Phase::Stopped {
            return LoopAction::Idle;
        }
        let stopping = next == Phase::Stopped;
        match ev {
            LoopEvent::Read(b) => {
                grid.apply(b.as_slice());
                LoopAction::Idle
            },
            LoopEvent::Command(Command::Input(b)) => {
                if p == Phase::Running {
                    LoopAction::Write(b)
                } else {
                    LoopAction::Idle
                }
            },
            LoopEvent::Command(Command::Resize { columns, rows }) => {
                if p == Phase::Running && columns >= 2 && rows >= 1 {
                    grid.resize(columns, rows);
                    LoopAction::ResizePty { columns, rows }
                } else {
                    LoopAction::Idle
                }
            },
            _ => {
                if stopping {
                    LoopAction::Exit
                } else {
                    LoopAction::Idle
                }
            },
        }
    }

    /// Decides on a run of events in order, handing back one action per
    /// event.
    pub fn run(&mut self, grid: &mut GridModel, events: Vec<LoopEvent>) -> (acts: Vec<LoopAction>)
        requires
            old(grid).wf(),
        ensures
            final(grid).wf(),
            final(self).phase_spec() == phase_after(old(self).phase_spec(), events@),
            final(grid).fed() == old(grid).fed() + applied(old(self).phase_spec(), events@),
            acts@.len() == events@.len(),
            forall|k: int|
                0 <= k < events@.len() ==> action_fits(
                    phase_after(old(self).phase_spec(), events@.take(k)),
                    events@[k],
                    #[trigger] acts@[k],
                ),
            actions_written(acts@) == written(old(self).phase_spec(), events@),
    {
        let ghost start_phase = self.phase;
        let ghost evs = events@;
        let ghost fed0 = grid.fed();
        let n = events.len();
        let mut rest = events;
        let mut acts: Vec<LoopAction> = Vec::new();
        let mut i: usize = 0;
        while i < n
            invariant
                grid.wf(),
                evs.len() == n,
                0 <= i <= n,
                rest@ == evs.subrange(i as int, n as int),
                acts@.len() == i,
                forall|k: int|
                    0 <= k < i ==> action_fits(
                        phase_after(start_phase, evs.take(k)),
                        evs[k],
                        #[trigger] acts@[k],
                    ),
                self.phase == phase_after(start_phase, evs.take(i as int)),
                grid.fed() == fed0 + applied(start_phase, evs.take(i as int)),
                actions_written(acts@) == written(start_phase, evs.take(i as int)),
            decreases n - i,
        {
            let ev = rest.remove(0);
            let ghost before = acts@;
            let ghost ph = self.phase;
            let a = self.handle(grid, ev);
            acts.push(a);
            proof {
                assert(evs.take(i as int + 1).drop_last() =~= evs.take(i as int));
                assert(evs.take(i as int + 1).last() == ev);
                assert(acts@.drop_last() =~= before);
                assert(ev == evs[i as int]);
                assert forall|k: int| 0 <= k < i + 1 implies action_fits(
                    phase_after(start_phase, evs.take(k)),
                    evs[k],
                    #[trigger] acts@[k],
                ) by {
                    if k < i {
                        assert(acts@[k] == before[k]);
                    } else {
                        assert(acts@[k] == a);
                        assert(ph == phase_after(start_phase, evs.take(k)));
                    }
                }
                assert(fed0 + applied(start_phase, evs.take(i as int + 1)) =~= grid.fed());
                assert(actions_written(acts@) =~= written(start_phase, evs.take(i as int + 1)));
            }
            i = i + 1;
        }
        assert(evs.take(n as int) =~= evs);
        acts
    }
}

} // verus!
