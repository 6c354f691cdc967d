use vstd::prelude::*;

use crate::events::{is_tick, requests_exit, ControlFlow, EventKind, StartCauseKind};
use crate::timing::{tick_post, FrameTiming};

verus! {

/// What the host loop must do after the harness has handled one event:
/// produce and render one frame with the reported elapsed time, or hand the
/// event to the application's event handler.
#[derive(Clone, Copy, Debug, PartialEq, Eq, Structural)]
pub enum StepAction {
    RenderFrame { dt_ns: u64 },
    ForwardEvent,
}

/// One iteration of the run loop's dispatch, at monotonic instant `now_ns`.
/// On a tick cue it runs the scheduler tick — the elapsed time goes to the
/// frame producer, the requested wake-up becomes the loop's wait-until
/// control flow — and asks the host to render. On any other event it leaves
/// the timing state and control flow untouched and asks the host to forward
/// the event to the application's handler.
pub fn scheduler_step(
    timing: &mut FrameTiming,
    event: &EventKind,
    now_ns: u64,
    control_flow: &mut ControlFlow,
) -> (r: StepAction)
    requires
        is_tick(*event) ==> old(timing).prev_frame_ns <= now_ns,
        is_tick(*event) ==> now_ns + old(timing).interval_ns <= u64::MAX,
    ensures
        is_tick(*event) ==> {
            &&& r == (StepAction::RenderFrame {
                dt_ns: (now_ns - old(timing).prev_frame_ns) as u64,
            })
            &&& tick_post(
                *old(timing),
                *final(timing),
                now_ns,
                (now_ns - old(timing).prev_frame_ns) as u64,
                (now_ns + old(timing).interval_ns) as u64,
            )
            &&& *final(control_flow) == ControlFlow::WaitUntil(
                (now_ns + old(timing).interval_ns) as u64,
            )
        },
        !is_tick(*event) ==> {
            &&& r == StepAction::ForwardEvent
            &&& *final(timing) == *old(timing)
            &&& *final(control_flow) == *old(control_flow)
        },
{
    let run_tick = match event {
        EventKind::NewEvents(cause) => match cause {
            StartCauseKind::Init => true,
            StartCauseKind::ResumeTimeReached => true,
            StartCauseKind::Other => false,
        },
        _ => false,
    };
    if run_tick {
        let (dt_ns, wake_ns) = timing.tick(now_ns);
        *control_flow = ControlFlow::WaitUntil(wake_ns);
        StepAction::RenderFrame { dt_ns }
    } else {
        StepAction::ForwardEvent
    }
}

/// How many frames a run of the loop draws, for a given sequence of
/// delivered events, starting with the termination signal already raised or
/// not. This models the host loop's contract: the signal is observed at
/// each iteration boundary and ends the run; otherwise a tick cue draws one
/// frame and requests the next wake-up, and any other event goes through
/// the default event policy, which raises the signal exactly on a close
/// request or an Escape press.
pub open spec fn draws_in_run(exiting: bool, events: Seq<EventKind>) -> nat
    decreases events.len(),
{
    if exiting || events.len() == 0 {
        0
    } else {
        let head = events[0];
        (if is_tick(head) {
            1nat
        } else {
            0nat
        }) + draws_in_run(!is_tick(head) && requests_exit(head), events.drop_first())
    }
}

/// Once the loop observes the termination signal, it draws nothing more,
/// whatever events would still arrive.
pub proof fn lemma_exiting_draws_nothing(events: Seq<EventKind>)
    ensures
        draws_in_run(true, events) == 0,
{
}

/// A close request (or an Escape press) delivered through the default event
/// policy raises the termination signal on that very event, and the run
/// draws no frame after it: every frame the run draws was drawn strictly
/// before the first such event.
pub proof fn lemma_no_draws_after_exit_request(events: Seq<EventKind>, i: int)
    requires
        0 <= i < events.len(),
        requests_exit(events[i]),
    ensures
        draws_in_run(false, events) == draws_in_run(false, events.take(i + 1)),
    decreases i,
{
    let taken = events.take(i + 1);
    assert(taken.len() == i + 1);
    assert(taken[0] == events[0]);
    let head = events[0];
    if requests_exit(head) {
        assert(!is_tick(head));
        lemma_exiting_draws_nothing(events.drop_first());
        lemma_exiting_draws_nothing(taken.drop_first());
        assert(draws_in_run(false, events) == 0);
        assert(draws_in_run(false, taken) == 0);
    } else {
        let tail = events.drop_first();
        assert(i >= 1);
        assert(tail[i - 1] == events[i]);
        lemma_no_draws_after_exit_request(tail, i - 1);
        assert(taken.drop_first() =~= tail.take(i));
        if is_tick(head) {
            assert(draws_in_run(false, events) == 1 + draws_in_run(false, tail));
            assert(draws_in_run(false, taken) == 1 + draws_in_run(false, tail.take(i)));
        } else {
            assert(draws_in_run(false, events) == draws_in_run(false, tail));
            assert(draws_in_run(false, taken) == draws_in_run(false, tail.take(i)));
        }
    }
}

} // verus!
