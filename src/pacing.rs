//! What the render loop decides on each wake-up: when to wake next, and
//! whether to stop.
//!
//! Time is counted in nanoseconds from a fixed start chosen by the caller.
use vstd::prelude::*;

verus! {

/// One frame at 60 Hz, in nanoseconds.
pub const FRAME_INTERVAL_NANOS: u64 = 16_666_667;

/// An event that the window delivers to the loop, reduced to what the loop reads.
#[derive(Clone, Copy, Debug, PartialEq, Eq, Structural)]
pub enum WindowAction {
    CloseRequested,
    Other,
}

/// Why the loop woke up.
#[derive(Clone, Copy, Debug, PartialEq, Eq, Structural)]
pub enum WakeCause {
    ResumeTimeReached,
    Init,
    Other,
}

#[derive(Clone, Copy, Debug, PartialEq, Eq, Structural)]
pub enum LoopEvent {
    Window(WindowAction),
    NewEvents(WakeCause),
    Other,
}

/// What the loop does once the current event is handled.
#[derive(Clone, Copy, Debug, PartialEq, Eq, Structural)]
pub enum Control {
    /// Sleep until the given instant, in nanoseconds.
    WaitUntil(u64),
    /// Leave the loop.
    Exit,
}

pub open spec fn is_close_request(ev: LoopEvent) -> bool {
    ev == LoopEvent::Window(WindowAction::CloseRequested)
}

/// Schedules the next wake-up `nanos` after `now_nanos`.
pub fn set_wait(cf: &mut Control, now_nanos: u64, nanos: u64)
    requires
        now_nanos + nanos <= u64::MAX,
    ensures
        *final(cf) == Control::WaitUntil((now_nanos + nanos) as u64),
{
    *cf = Control::WaitUntil(now_nanos + nanos);
}

/// A close request makes the loop exit; every other event leaves the
/// decision as it was.
pub fn event_handle(ev: LoopEvent, cf: &mut Control)
    ensures
        *final(cf) == if is_close_request(ev) { Control::Exit } else { *old(cf) },
{
    match ev {
        LoopEvent::Window(action) => match action {
            WindowAction::CloseRequested => {
                *cf = Control::Exit;
            },
            WindowAction::Other => {},
        },
        LoopEvent::NewEvents(_) => {},
        LoopEvent::Other => {},
    }
}

/// The decision of one loop iteration at `now_nanos`: exit on a close
/// request, else wait one frame interval.
pub fn frame_control(ev: LoopEvent, now_nanos: u64) -> (r: Control)
    requires
        now_nanos + FRAME_INTERVAL_NANOS <= u64::MAX,
    ensures
        r == if is_close_request(ev) {
            Control::Exit
        } else {
            Control::WaitUntil((now_nanos + FRAME_INTERVAL_NANOS) as u64)
        },
{
    let mut cf = Control::Exit;
    set_wait(&mut cf, now_nanos, FRAME_INTERVAL_NANOS);
    event_handle(ev, &mut cf);
    cf
}

} // verus!
