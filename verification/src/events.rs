use vstd::prelude::*;

verus! {

/// The key identities the default event policy tells apart: the recognized
/// termination key and everything else.
#[derive(Clone, Copy, Debug)]
pub enum KeyCode {
    Escape,
    Other,
}

/// A window event, reduced to the distinctions the loop's decisions read:
/// a close request, a key press, or anything else.
#[derive(Clone, Copy, Debug)]
pub enum WindowEventKind {
    CloseRequested,
    KeyboardInput { keycode: Option<KeyCode> },
    Other,
}

/// Why the host event loop woke and delivered a fresh batch of events:
/// loop start-up, the requested wake-up time having been reached, or any
/// other cause.
#[derive(Clone, Copy, Debug)]
pub enum StartCauseKind {
    Init,
    ResumeTimeReached,
    Other,
}

/// One event delivered by the host event loop, reduced to what the harness
/// decides on: a new-events notification with its cause, a window event, or
/// anything else.
#[derive(Clone, Copy, Debug)]
pub enum EventKind {
    NewEvents(StartCauseKind),
    Window(WindowEventKind),
    Other,
}

/// What the harness asks the host event loop to do next: poll, wait for
/// input, wait until a monotonic instant (in nanoseconds), or terminate.
#[derive(Clone, Copy, Debug, PartialEq, Eq, Structural)]
pub enum ControlFlow {
    Poll,
    Wait,
    WaitUntil(u64),
    Exit,
}

/// Whether the default event policy terminates the loop on this event:
/// exactly a window-close request or an Escape key press.
pub open spec fn requests_exit(e: EventKind) -> bool {
    ||| e matches EventKind::Window(WindowEventKind::CloseRequested)
    ||| e matches EventKind::Window(
        WindowEventKind::KeyboardInput { keycode: Some(KeyCode::Escape) },
    )
}

/// Whether this event is the scheduler's cue to run a tick: the loop's very
/// first batch of events, or a wake-up whose requested resume time has been
/// reached. Every other event is handed to the application's event handler.
pub open spec fn is_tick(e: EventKind) -> bool {
    ||| e matches EventKind::NewEvents(StartCauseKind::Init)
    ||| e matches EventKind::NewEvents(StartCauseKind::ResumeTimeReached)
}

/// The default event policy: on a window-close request or an Escape key
/// press, raise the termination signal; ignore every other event, leaving
/// the control flow untouched.
pub fn default_process_event(event: &EventKind, control_flow: &mut ControlFlow)
    ensures
        requests_exit(*event) ==> *final(control_flow) == ControlFlow::Exit,
        !requests_exit(*event) ==> *final(control_flow) == *old(control_flow),
{
    match event {
        EventKind::Window(w) => match w {
            WindowEventKind::CloseRequested => {
                *control_flow = ControlFlow::Exit;
            },
            WindowEventKind::KeyboardInput { keycode } => match keycode {
                Some(k) => match k {
                    KeyCode::Escape => {
                        *control_flow = ControlFlow::Exit;
                    },
                    KeyCode::Other => {},
                },
                None => {},
            },
            WindowEventKind::Other => {},
        },
        _ => {},
    }
}

} // verus!
