use orbit_scene::pacing::{event_handle, frame_control, set_wait, Control, LoopEvent, WakeCause, WindowAction, FRAME_INTERVAL_NANOS};

#[test]
fn close_request_exits() {
    assert_eq!(frame_control(LoopEvent::Window(WindowAction::CloseRequested), 1_000), Control::Exit);
}

#[test]
fn other_events_wait_one_frame() {
    let now = 5_000_000_000u64;
    let want = Control::WaitUntil(now + 16_666_667);
    assert_eq!(frame_control(LoopEvent::Window(WindowAction::Other), now), want);
    assert_eq!(frame_control(LoopEvent::NewEvents(WakeCause::Init), now), want);
    assert_eq!(frame_control(LoopEvent::NewEvents(WakeCause::ResumeTimeReached), now), want);
    assert_eq!(frame_control(LoopEvent::NewEvents(WakeCause::Other), now), want);
    assert_eq!(frame_control(LoopEvent::Other, now), want);
    assert_eq!(FRAME_INTERVAL_NANOS, 16_666_667);
}

#[test]
fn set_wait_schedules_from_now() {
    let mut cf = Control::Exit;
    set_wait(&mut cf, 40, 60);
    assert_eq!(cf, Control::WaitUntil(100));
}

#[test]
fn event_handle_keeps_the_decision_unless_closing() {
    let mut cf = Control::WaitUntil(7);
    event_handle(LoopEvent::NewEvents(WakeCause::Init), &mut cf);
    assert_eq!(cf, Control::WaitUntil(7));
    event_handle(LoopEvent::Window(WindowAction::CloseRequested), &mut cf);
    assert_eq!(cf, Control::Exit);
    event_handle(LoopEvent::Other, &mut cf);
    assert_eq!(cf, Control::Exit);
}
