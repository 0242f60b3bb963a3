use twatch_core::app::{iteration_plan, next_state, on_fault, AppState, FaultAction};
use twatch_core::liveness::Step;
use twatch_core::touch::{TouchEvent, TouchPoint};

fn touch(event: TouchEvent, x: u16, y: u16) -> Option<TouchPoint> {
    Some(TouchPoint { x, y, event })
}

#[test]
fn launcher_press_in_region_a_opens_settings() {
    assert_eq!(next_state(AppState::Launcher, touch(TouchEvent::Press, 50, 50)), AppState::Settings);
}

#[test]
fn launcher_press_in_region_b_opens_battery() {
    assert_eq!(next_state(AppState::Launcher, touch(TouchEvent::Press, 200, 50)), AppState::Battery);
}

#[test]
fn launcher_press_elsewhere_stays() {
    assert_eq!(next_state(AppState::Launcher, touch(TouchEvent::Press, 120, 50)), AppState::Launcher);
    assert_eq!(next_state(AppState::Launcher, touch(TouchEvent::Press, 50, 220)), AppState::Launcher);
}

#[test]
fn back_press_returns_to_launcher() {
    assert_eq!(next_state(AppState::Settings, touch(TouchEvent::Press, 10, 220)), AppState::Launcher);
    assert_eq!(next_state(AppState::Battery, touch(TouchEvent::Press, 120, 201)), AppState::Launcher);
    assert_eq!(next_state(AppState::Settings, touch(TouchEvent::Press, 50, 50)), AppState::Settings);
    assert_eq!(next_state(AppState::Battery, touch(TouchEvent::Press, 10, 200)), AppState::Battery);
}

#[test]
fn no_event_keeps_every_state() {
    for s in [AppState::Launcher, AppState::Settings, AppState::Battery] {
        assert_eq!(next_state(s, None), s);
    }
}

#[test]
fn release_and_move_do_not_transition() {
    assert_eq!(next_state(AppState::Launcher, touch(TouchEvent::Release, 50, 50)), AppState::Launcher);
    assert_eq!(next_state(AppState::Settings, touch(TouchEvent::Move, 10, 220)), AppState::Settings);
}

#[test]
fn end_to_end_touch_sequence() {
    let mut s = AppState::Launcher;
    for e in [touch(TouchEvent::Press, 50, 50), touch(TouchEvent::Release, 50, 50)] {
        s = next_state(s, e);
    }
    assert_eq!(s, AppState::Settings);
    s = next_state(s, touch(TouchEvent::Press, 10, 220));
    assert_eq!(s, AppState::Launcher);
}

#[test]
fn iteration_plan_renews_around_every_step() {
    let plan = iteration_plan();
    assert_eq!(
        plan,
        vec![
            Step::Renew,
            Step::DrawClock,
            Step::Renew,
            Step::DrawBattery,
            Step::Renew,
            Step::PollTouch,
            Step::Renew,
            Step::ClearScreen,
            Step::Renew,
            Step::DrawBody,
            Step::Renew,
            Step::Sleep(10),
            Step::Renew,
            Step::Sleep(10),
            Step::Renew,
        ]
    );
}

#[test]
fn failed_renewal_halts_other_faults_end_the_pass() {
    assert_eq!(on_fault(Step::Renew), FaultAction::Halt);
    assert_eq!(on_fault(Step::DrawClock), FaultAction::EndPass);
    assert_eq!(on_fault(Step::DrawBattery), FaultAction::EndPass);
    assert_eq!(on_fault(Step::PollTouch), FaultAction::EndPass);
    assert_eq!(on_fault(Step::ClearScreen), FaultAction::EndPass);
    assert_eq!(on_fault(Step::DrawBody), FaultAction::EndPass);
    assert_eq!(on_fault(Step::Sleep(10)), FaultAction::EndPass);
}
