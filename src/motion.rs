//! The closed-loop controller that pulses the desk towards its setpoint.

use vstd::prelude::*;

use crate::codec::MotionDirection;

verus! {

/// Distance, in millimetres, within which the desk counts as at its target.
pub const MARGIN_MM: u32 = 10;

/// Where a control run stands.
#[derive(Clone, Copy, Debug, PartialEq, Eq, Structural)]
pub enum MotionPhase {
    /// Waiting for the first height reading.
    Idle,
    /// The first reading was already within the margin: nothing to do.
    Converged,
    /// A movement pulse has been handed out and is being written.
    Sending,
    /// Waiting for the height reading that follows a pulse.
    Measuring,
    /// Waiting out the settle delay after a pulse.
    Settling,
    /// The stop command has been handed out and is being written.
    Stopping,
    /// Waiting for the final height reading.
    Reporting,
    /// The run is over after moving the desk.
    Stopped,
}

/// What the controller asks its driver to do next.
#[derive(Clone, Copy, Debug, PartialEq, Eq, Structural)]
pub enum MotionAction {
    /// Read the telemetry endpoint and answer with `MotionEvent::Height`.
    ReadHeight,
    /// Write the command of this direction and answer with `MotionEvent::Done`.
    Send(MotionDirection),
    /// Wait out the settle delay and answer with `MotionEvent::Done`.
    Settle,
    /// The run is over.
    Finish,
}

/// What the driver reports back after performing an action.
#[derive(Clone, Copy, Debug, PartialEq, Eq, Structural)]
pub enum MotionEvent {
    /// A height reading, in millimetres (0 where the read failed).
    Height(u32),
    /// A write or a settle delay has completed.
    Done,
}

/// The closed-loop controller that moves the desk towards a setpoint.
#[derive(Clone, Copy, Debug)]
pub struct MotionController {
    pub target: u32,
    pub phase: MotionPhase,
    /// The first height reading of the run.
    pub initial: u32,
    /// The direction of every pulse of the run, chosen once.
    pub direction: MotionDirection,
    /// The last height reading.
    pub current: u32,
    /// The distance covered by the most recent pulse.
    pub progress: u32,
    /// The height reported at the end of the run.
    pub final_height: u32,
}

pub open spec fn abs_diff(a: u32, b: u32) -> u32 {
    if a < b { (b - a) as u32 } else { (a - b) as u32 }
}

/// The direction of a run that starts at `initial`.
pub open spec fn direction_for(initial: u32, target: u32) -> MotionDirection {
    if initial < target { MotionDirection::Up } else { MotionDirection::Down }
}

/// The loop guard: the position projected one more step of the same size
/// ahead has not yet reached the target.
pub open spec fn keeps_moving(dir: MotionDirection, current: u32, progress: u32, target: u32) -> bool {
    match dir {
        MotionDirection::Up => current + progress < target,
        MotionDirection::Down => current - progress > target,
        MotionDirection::Stop => false,
    }
}

pub open spec fn spec_new(target: u32) -> MotionController {
    MotionController {
        target,
        phase: MotionPhase::Idle,
        initial: 0,
        direction: MotionDirection::Stop,
        current: 0,
        progress: 0,
        final_height: 0,
    }
}

/// The transition of the controller on one event. An event that does not
/// answer the pending action leaves the controller as it is.
pub open spec fn spec_step(s: MotionController, ev: MotionEvent) -> MotionController {
    match (s.phase, ev) {
        (MotionPhase::Idle, MotionEvent::Height(h)) => {
            if abs_diff(h, s.target) < MARGIN_MM {
                MotionController {
                    phase: MotionPhase::Converged,
                    initial: h,
                    current: h,
                    final_height: h,
                    ..s
                }
            } else {
                let dir = direction_for(h, s.target);
                MotionController {
                    phase: if keeps_moving(dir, h, 0, s.target) {
                        MotionPhase::Sending
                    } else {
                        MotionPhase::Stopping
                    },
                    initial: h,
                    direction: dir,
                    current: h,
                    progress: 0,
                    ..s
                }
            }
        },
        (MotionPhase::Sending, MotionEvent::Done) => MotionController {
            phase: MotionPhase::Measuring,
            ..s
        },
        (MotionPhase::Measuring, MotionEvent::Height(h)) => MotionController {
            phase: MotionPhase::Settling,
            current: h,
            progress: abs_diff(h, s.current),
            ..s
        },
        (MotionPhase::Settling, MotionEvent::Done) => MotionController {
            phase: if keeps_moving(s.direction, s.current, s.progress, s.target) {
                MotionPhase::Sending
            } else {
                MotionPhase::Stopping
            },
            ..s
        },
        (MotionPhase::Stopping, MotionEvent::Done) => MotionController {
            phase: MotionPhase::Reporting,
            ..s
        },
        (MotionPhase::Reporting, MotionEvent::Height(h)) => MotionController {
            phase: MotionPhase::Stopped,
            final_height: h,
            ..s
        },
        _ => s,
    }
}

impl MotionController {
    /// The action that the controller waits to see performed.
    pub open spec fn spec_pending(self) -> MotionAction {
        match self.phase {
            MotionPhase::Idle => MotionAction::ReadHeight,
            MotionPhase::Converged => MotionAction::Finish,
            MotionPhase::Sending => MotionAction::Send(self.direction),
            MotionPhase::Measuring => MotionAction::ReadHeight,
            MotionPhase::Settling => MotionAction::Settle,
            MotionPhase::Stopping => MotionAction::Send(MotionDirection::Stop),
            MotionPhase::Reporting => MotionAction::ReadHeight,
            MotionPhase::Stopped => MotionAction::Finish,
        }
    }

    /// A controller for a run towards `target`; its first action reads the height.
    pub fn new(target: u32) -> (c: Self)
        ensures
            c == spec_new(target),
    {
        MotionController {
            target,
            phase: MotionPhase::Idle,
            initial: 0,
            direction: MotionDirection::Stop,
            current: 0,
            progress: 0,
            final_height: 0,
        }
    }

    pub fn pending(&self) -> (a: MotionAction)
        ensures
            a == self.spec_pending(),
    {
        match self.phase {
            MotionPhase::Idle => MotionAction::ReadHeight,
            MotionPhase::Converged => MotionAction::Finish,
            MotionPhase::Sending => MotionAction::Send(self.direction),
            MotionPhase::Measuring => MotionAction::ReadHeight,
            MotionPhase::Settling => MotionAction::Settle,
            MotionPhase::Stopping => MotionAction::Send(MotionDirection::Stop),
            MotionPhase::Reporting => MotionAction::ReadHeight,
            MotionPhase::Stopped => MotionAction::Finish,
        }
    }

    /// Takes the outcome of the pending action and returns the next one.
    pub fn step(&mut self, ev: MotionEvent) -> (a: MotionAction)
        ensures
            *final(self) == spec_step(*old(self), ev),
            a == final(self).spec_pending(),
    {
        match (self.phase, ev) {
            (MotionPhase::Idle, MotionEvent::Height(h)) => {
                self.initial = h;
                self.current = h;
                if distance(h, self.target) < MARGIN_MM {
                    self.phase = MotionPhase::Converged;
                    self.final_height = h;
                } else {
                    let dir = if h < self.target {
                        MotionDirection::Up
                    } else {
                        MotionDirection::Down
                    };
                    self.direction = dir;
                    self.progress = 0;
                    self.phase = if should_continue(dir, h, 0, self.target) {
                        MotionPhase::Sending
                    } else {
                        MotionPhase::Stopping
                    };
                }
            },
            (MotionPhase::Sending, MotionEvent::Done) => {
                self.phase = MotionPhase::Measuring;
            },
            (MotionPhase::Measuring, MotionEvent::Height(h)) => {
                self.progress = distance(h, self.current);
                self.current = h;
                self.phase = MotionPhase::Settling;
            },
            (MotionPhase::Settling, MotionEvent::Done) => {
                self.phase = if should_continue(self.direction, self.current, self.progress, self.target) {
                    MotionPhase::Sending
                } else {
                    MotionPhase::Stopping
                };
            },
            (MotionPhase::Stopping, MotionEvent::Done) => {
                self.phase = MotionPhase::Reporting;
            },
            (MotionPhase::Reporting, MotionEvent::Height(h)) => {
                self.final_height = h;
                self.phase = MotionPhase::Stopped;
            },
            _ => {},
        }
        self.pending()
    }
}

/// The distance between two heights.
pub fn distance(a: u32, b: u32) -> (r: u32)
    ensures
        r == abs_diff(a, b),
{
    if a < b { b - a } else { a - b }
}

/// Evaluates the loop guard without overflow.
pub fn should_continue(dir: MotionDirection, current: u32, progress: u32, target: u32) -> (r: bool)
    ensures
        r == keeps_moving(dir, current, progress, target),
{
    match dir {
        MotionDirection::Up => (current as u64) + (progress as u64) < target as u64,
        MotionDirection::Down => (current as u64) > (target as u64) + (progress as u64),
        MotionDirection::Stop => false,
    }
}

/// The controller after a sequence of events, and the actions it returned.
pub open spec fn run(s: MotionController, evs: Seq<MotionEvent>) -> (MotionController, Seq<MotionAction>)
    decreases evs.len(),
{
    if evs.len() == 0 {
        (s, Seq::empty())
    } else {
        let s1 = spec_step(s, evs[0]);
        let rest = run(s1, evs.subrange(1, evs.len() as int));
        (rest.0, seq![s1.spec_pending()] + rest.1)
    }
}

/// Whether an event is the outcome of an action.
pub open spec fn answers(a: MotionAction, ev: MotionEvent) -> bool {
    match a {
        MotionAction::ReadHeight => ev is Height,
        MotionAction::Send(_) => ev is Done,
        MotionAction::Settle => ev is Done,
        MotionAction::Finish => true,
    }
}

/// Whether each event answers the action pending when it comes in.
pub open spec fn well_driven(s: MotionController, evs: Seq<MotionEvent>) -> bool
    decreases evs.len(),
{
    evs.len() == 0 || (answers(s.spec_pending(), evs[0]) && well_driven(
        spec_step(s, evs[0]),
        evs.subrange(1, evs.len() as int),
    ))
}

pub open spec fn is_movement(a: MotionAction) -> bool {
    a is Send && a->Send_0 != MotionDirection::Stop
}

/// The number of stop commands in a sequence of actions.
pub open spec fn stop_count(acts: Seq<MotionAction>) -> nat
    decreases acts.len(),
{
    if acts.len() == 0 {
        0
    } else {
        (if acts[0] == MotionAction::Send(MotionDirection::Stop) { 1nat } else { 0nat })
            + stop_count(acts.subrange(1, acts.len() as int))
    }
}

pub open spec fn has_moved(p: MotionPhase) -> bool {
    p != MotionPhase::Idle && p != MotionPhase::Converged
}

/// Whether the stop command has been handed out.
pub open spec fn stop_issued(p: MotionPhase) -> nat {
    if p == MotionPhase::Stopping || p == MotionPhase::Reporting || p == MotionPhase::Stopped {
        1
    } else {
        0
    }
}

/// What every reachable controller satisfies.
pub open spec fn wf(s: MotionController) -> bool {
    &&& has_moved(s.phase) ==> s.direction == direction_for(s.initial, s.target) && abs_diff(
        s.initial,
        s.target,
    ) >= MARGIN_MM
    &&& s.phase == MotionPhase::Converged ==> abs_diff(s.initial, s.target) < MARGIN_MM
}

proof fn lemma_run_keeps_course(s: MotionController, evs: Seq<MotionEvent>)
    requires
        wf(s),
    ensures
        ({
            let (f, acts) = run(s, evs);
            &&& wf(f)
            &&& f.target == s.target
            &&& s.phase != MotionPhase::Idle ==> f.initial == s.initial && f.direction
                == s.direction
            &&& has_moved(s.phase) ==> has_moved(f.phase)
            &&& forall|i: int| 0 <= i < acts.len() && is_movement(#[trigger] acts[i]) ==> has_moved(
                f.phase,
            ) && acts[i] == MotionAction::Send(f.direction)
        }),
    decreases evs.len(),
{
    if evs.len() > 0 {
        let s1 = spec_step(s, evs[0]);
        let tail = evs.subrange(1, evs.len() as int);
        lemma_run_keeps_course(s1, tail);
        let (f, acts) = run(s, evs);
        assert forall|i: int| 0 <= i < acts.len() && is_movement(#[trigger] acts[i]) implies has_moved(
            f.phase,
        ) && acts[i] == MotionAction::Send(f.direction) by {
            if i > 0 {
                assert(acts[i] == run(s1, tail).1[i - 1]);
            }
        }
    }
}

/// The direction never changes within a run: where the first reading is below
/// the target every movement command is Up, where it is above, Down.
pub proof fn lemma_direction_never_changes(target: u32, evs: Seq<MotionEvent>)
    ensures
        ({
            let (f, acts) = run(spec_new(target), evs);
            forall|i: int|
                0 <= i < acts.len() && is_movement(#[trigger] acts[i]) ==> {
                    &&& f.initial < target ==> acts[i] == MotionAction::Send(MotionDirection::Up)
                    &&& f.initial > target ==> acts[i] == MotionAction::Send(
                        MotionDirection::Down,
                    )
                }
        }),
{
    lemma_run_keeps_course(spec_new(target), evs);
}

proof fn lemma_converged_stays(s: MotionController, evs: Seq<MotionEvent>)
    requires
        s.phase == MotionPhase::Converged,
    ensures
        run(s, evs).0 == s,
        forall|i: int| 0 <= i < run(s, evs).1.len() ==> #[trigger] run(s, evs).1[i]
            == MotionAction::Finish,
    decreases evs.len(),
{
    if evs.len() > 0 {
        lemma_converged_stays(s, evs.subrange(1, evs.len() as int));
    }
}

/// A run whose first reading is within the margin of the target converges at
/// once: it issues no command at all, and reports that first reading.
pub proof fn lemma_within_margin_no_motion(target: u32, h0: u32, evs: Seq<MotionEvent>)
    requires
        abs_diff(h0, target) < MARGIN_MM,
    ensures
        ({
            let (f, acts) = run(spec_new(target), seq![MotionEvent::Height(h0)] + evs);
            &&& f.phase == MotionPhase::Converged
            &&& f.final_height == h0
            &&& forall|i: int| 0 <= i < acts.len() ==> #[trigger] acts[i] == MotionAction::Finish
        }),
{
    let all = seq![MotionEvent::Height(h0)] + evs;
    let s1 = spec_step(spec_new(target), all[0]);
    assert(all.subrange(1, all.len() as int) =~= evs);
    lemma_converged_stays(s1, evs);
    let acts = run(spec_new(target), all).1;
    assert forall|i: int| 0 <= i < acts.len() implies #[trigger] acts[i] == MotionAction::Finish by {
        if i > 0 {
            assert(acts[i] == run(s1, evs).1[i - 1]);
        }
    }
}

proof fn lemma_stop_count(s: MotionController, evs: Seq<MotionEvent>)
    requires
        well_driven(s, evs),
    ensures
        stop_issued(s.phase) + stop_count(run(s, evs).1) == stop_issued(run(s, evs).0.phase),
    decreases evs.len(),
{
    if evs.len() > 0 {
        let s1 = spec_step(s, evs[0]);
        let tail = evs.subrange(1, evs.len() as int);
        lemma_stop_count(s1, tail);
        let acts = run(s, evs).1;
        assert(acts.subrange(1, acts.len() as int) =~= run(s1, tail).1);
    }
}

/// In a run whose driver answers each action, the stop command is sent at most
/// once, and exactly once in a run that has ended after moving the desk.
pub proof fn lemma_single_stop(target: u32, evs: Seq<MotionEvent>)
    requires
        well_driven(spec_new(target), evs),
    ensures
        stop_count(run(spec_new(target), evs).1) <= 1,
        run(spec_new(target), evs).0.phase == MotionPhase::Stopped ==> stop_count(
            run(spec_new(target), evs).1,
        ) == 1,
{
    lemma_stop_count(spec_new(target), evs);
}

/// Once the guard fails after a settle, the next command is the stop command,
/// and the reading that answers it is the reported final height.
pub proof fn lemma_stops_when_guard_fails(s: MotionController, h: u32)
    requires
        s.phase == MotionPhase::Settling,
        !keeps_moving(s.direction, s.current, s.progress, s.target),
    ensures
        ({
            let (f, acts) = run(
                s,
                seq![MotionEvent::Done, MotionEvent::Done, MotionEvent::Height(h)],
            );
            &&& acts[0] == MotionAction::Send(MotionDirection::Stop)
            &&& acts[1] == MotionAction::ReadHeight
            &&& acts[2] == MotionAction::Finish
            &&& f.phase == MotionPhase::Stopped
            &&& f.final_height == h
        }),
{
    let evs = seq![MotionEvent::Done, MotionEvent::Done, MotionEvent::Height(h)];
    let s1 = spec_step(s, evs[0]);
    let s2 = spec_step(s1, evs[1]);
    let t1 = evs.subrange(1, 3);
    let t2 = t1.subrange(1, 2);
    let t3 = t2.subrange(1, 1);
    assert(t1 =~= seq![MotionEvent::Done, MotionEvent::Height(h)]);
    assert(t2 =~= seq![MotionEvent::Height(h)]);
    assert(t3.len() == 0);
    reveal_with_fuel(run, 4);
}

} // verus!
