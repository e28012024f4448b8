use vectoria::animation::AnimationState;
use vectoria::scheduler::Action;
use vectoria::scheduler::Command;
use vectoria::scheduler::FrameScheduler;
use vectoria::scheduler::PlatformEvent;
use vectoria::scheduler::SchedulerState;
use vectoria::scheduler::dispatch;

fn scheduler_with(t0: i64, step: i64, bump: i64) -> FrameScheduler {
    let anim = AnimationState::new(t0, -500_000, 500_000);
    FrameScheduler::new(17_000_000, 17_000_000, anim, step, bump)
}

#[test]
fn advance_wraps_past_the_upper_bound() {
    // t = 0.498, step 0.005: the sum 0.503 exceeds 0.5, so t wraps to -0.5.
    let mut anim = AnimationState::new(498_000, -500_000, 500_000);
    anim.advance(5_000);
    assert_eq!(anim.t, -500_000);
}

#[test]
fn advance_reaching_the_bound_exactly_does_not_wrap() {
    let mut anim = AnimationState::new(498_000, -500_000, 500_000);
    anim.advance(2_000);
    assert_eq!(anim.t, 500_000);
}

#[test]
fn advance_keeps_the_parameter_in_range_over_long_runs() {
    let mut anim = AnimationState::new(0, -500_000, 500_000);
    let mut k: i64 = 0;
    for _ in 0..5_000 {
        anim.advance(1_700 + (k % 13) * 57);
        assert!(anim.lower <= anim.t && anim.t <= anim.upper);
        k += 1;
    }
}

#[test]
fn bump_may_leave_the_range_and_the_next_advance_wraps() {
    let mut anim = AnimationState::new(490_000, -500_000, 500_000);
    anim.bump(50_000);
    assert_eq!(anim.t, 540_000);
    anim.advance(2_000);
    assert_eq!(anim.t, -500_000);
}

#[test]
fn dispatch_classifies_the_event_kinds() {
    assert_eq!(dispatch(PlatformEvent::CloseRequested), Command::Close);
    assert_eq!(dispatch(PlatformEvent::FocusChanged(true)), Command::FocusGained);
    assert_eq!(dispatch(PlatformEvent::FocusChanged(false)), Command::Ignore);
    assert_eq!(dispatch(PlatformEvent::ResumeTimeReached), Command::RenderTick);
    assert_eq!(dispatch(PlatformEvent::Init), Command::RenderTick);
    assert_eq!(dispatch(PlatformEvent::Other), Command::Ignore);
}

#[test]
fn close_terminates_and_schedules_nothing_further() {
    let mut driver = scheduler_with(0, 2_000, 50_000);
    let wake_before = driver.timing.next_wake_nanos;
    let action = driver.handle_command(Command::Close, 40_000_000);
    assert_eq!(action, Action::Exit);
    assert_eq!(driver.state, SchedulerState::Terminating);
    assert!(driver.is_terminating());
    // No wake was recomputed by the close, and none is after it.
    assert_eq!(driver.timing.next_wake_nanos, wake_before);
    let action = driver.handle_command(Command::RenderTick, 80_000_000);
    assert_eq!(action, Action::Exit);
    assert_eq!(driver.timing.next_wake_nanos, wake_before);
    assert_eq!(driver.anim.t, 0);
}

#[test]
fn focus_gain_bumps_without_terminating() {
    let mut driver = scheduler_with(0, 2_000, 50_000);
    let action = driver.handle_command(Command::FocusGained, 5_000_000);
    assert_eq!(action, Action::Wait);
    assert_eq!(driver.state, SchedulerState::Running);
    assert_eq!(driver.anim.t, 50_000);
}

#[test]
fn every_tick_schedules_the_next_wake_in_the_future() {
    let mut driver = scheduler_with(0, 2_000, 50_000);
    let mut now: u64 = 1;
    for cmd in [
        Command::RenderTick,
        Command::Ignore,
        Command::FocusGained,
        Command::RenderTick,
        Command::Ignore,
    ] {
        let action = driver.handle_command(cmd, now);
        assert!(action != Action::Exit);
        assert_eq!(driver.timing.next_wake_nanos, now + 17_000_000);
        assert!(driver.timing.next_wake_nanos > now);
        now = driver.timing.next_wake_nanos;
    }
}

#[test]
fn render_ticks_advance_the_animation() {
    let mut driver = scheduler_with(499_000, 2_000, 50_000);
    let action = driver.handle_command(Command::RenderTick, 1_000);
    assert_eq!(action, Action::Render);
    // 0.499 + 0.002 exceeds 0.5: wraps to the lower bound.
    assert_eq!(driver.anim.t, -500_000);
    let action = driver.handle_event(PlatformEvent::ResumeTimeReached, 18_000_000);
    assert_eq!(action, Action::Render);
    assert_eq!(driver.anim.t, -498_000);
}

#[test]
fn unrecognized_events_change_nothing_but_the_wake() {
    let mut driver = scheduler_with(123_000, 2_000, 50_000);
    let action = driver.handle_event(PlatformEvent::Other, 9_000_000);
    assert_eq!(action, Action::Wait);
    assert_eq!(driver.state, SchedulerState::Running);
    assert_eq!(driver.anim.t, 123_000);
    assert_eq!(driver.timing.next_wake_nanos, 26_000_000);
}

#[test]
fn losing_focus_is_ignored() {
    let mut driver = scheduler_with(0, 2_000, 50_000);
    let action = driver.handle_event(PlatformEvent::FocusChanged(false), 1_000);
    assert_eq!(action, Action::Wait);
    assert_eq!(driver.anim.t, 0);
}
