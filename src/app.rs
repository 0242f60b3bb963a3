use vstd::prelude::*;
use crate::liveness::{
    LOOP_DELAY_MS, SLICE_MS, Step, lemma_waits_compose, paced, sliced, sliced_wait, total_sleep,
};
use crate::touch::{TouchEvent, TouchPoint};

verus! {

/// The screen that the application shows; exactly one at a time.
#[derive(Debug, Clone, Copy, PartialEq, Eq, Structural)]
pub enum AppState {
    Launcher,
    Settings,
    Battery,
}

/// The transition table: only a press moves the application, and only inside
/// a region of the current screen.
pub open spec fn transition(state: AppState, event: Option<TouchPoint>) -> AppState {
    match event {
        None => state,
        Some(p) => if p.event != TouchEvent::Press {
            state
        } else {
            match state {
                AppState::Launcher => if p.in_button1() {
                    AppState::Settings
                } else if p.in_button2() {
                    AppState::Battery
                } else {
                    AppState::Launcher
                },
                AppState::Settings | AppState::Battery => if p.in_back() {
                    AppState::Launcher
                } else {
                    state
                },
            }
        },
    }
}

/// The state after one polled touch (or none).
pub fn next_state(state: AppState, event: Option<TouchPoint>) -> (r: AppState)
    ensures
        r == transition(state, event),
        event is None ==> r == state,
{
    match event {
        None => state,
        Some(p) => {
            if p.event != TouchEvent::Press {
                state
            } else {
                match state {
                    AppState::Launcher => {
                        if p.on_button1() {
                            AppState::Settings
                        } else if p.on_button2() {
                            AppState::Battery
                        } else {
                            AppState::Launcher
                        }
                    },
                    AppState::Settings | AppState::Battery => {
                        if p.on_back() {
                            AppState::Launcher
                        } else {
                            state
                        }
                    },
                }
            }
        },
    }
}

/// The work of one pass before its closing wait: renew; draw the time and the
/// charge, renewing after each; poll the touch controller; redraw the screen.
pub open spec fn pass_work() -> Seq<Step> {
    seq![
        Step::Renew,
        Step::DrawClock,
        Step::Renew,
        Step::DrawBattery,
        Step::Renew,
        Step::PollTouch,
        Step::Renew,
        Step::ClearScreen,
        Step::Renew,
        Step::DrawBody,
        Step::Renew,
    ]
}

/// One pass of the application loop, in order: the work of the pass, then the
/// loop delay as a sliced wait. It opens with a renewal and keeps the cadence
/// throughout, so passes can follow one another forever.
pub fn iteration_plan() -> (plan: Vec<Step>)
    ensures
        plan@ == pass_work() + sliced(LOOP_DELAY_MS as nat, SLICE_MS as nat),
        plan@[0] == Step::Renew,
        paced(plan@, SLICE_MS),
        total_sleep(plan@) == LOOP_DELAY_MS,
{
    let mut plan: Vec<Step> = vec![
        Step::Renew,
        Step::DrawClock,
        Step::Renew,
        Step::DrawBattery,
        Step::Renew,
        Step::PollTouch,
        Step::Renew,
        Step::ClearScreen,
        Step::Renew,
        Step::DrawBody,
        Step::Renew,
    ];
    let mut wait = sliced_wait(LOOP_DELAY_MS, SLICE_MS);
    let ghost work = plan@;
    let ghost tail = wait@;
    assert(work == pass_work());
    assert(paced(work, SLICE_MS)) by {
        assert forall|i: int|
            #![trigger work[i]]
            0 <= i < work.len() && work[i] != Step::Renew implies {
                &&& i + 1 < work.len()
                &&& work[i + 1] == Step::Renew
                &&& crate::liveness::fits(work[i], SLICE_MS)
            } by {
            assert(i % 2 == 1);
        }
    }
    assert(total_sleep(work) == 0) by {
        reveal_with_fuel(total_sleep, 12);
    }
    plan.append(&mut wait);
    proof {
        lemma_waits_compose(work, tail, SLICE_MS);
    }
    plan
}

/// What the loop does when a step fails.
#[derive(Debug, Clone, Copy, PartialEq, Eq, Structural)]
pub enum FaultAction {
    /// Abandon the rest of the pass; the next pass opens with a renewal.
    EndPass,
    /// Stop: the supervisor's deadline can no longer be renewed, and the
    /// device will be reset whatever the loop does.
    Halt,
}

/// A failed renewal is fatal; any other failed step (a bus fault, a draw
/// fault) ends the pass, so that later steps never work on stale state, and
/// the loop goes on with the next pass.
pub fn on_fault(step: Step) -> (a: FaultAction)
    ensures
        step == Step::Renew ==> a == FaultAction::Halt,
        step != Step::Renew ==> a == FaultAction::EndPass,
{
    match step {
        Step::Renew => FaultAction::Halt,
        _ => FaultAction::EndPass,
    }
}

} // verus!
