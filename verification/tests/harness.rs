use shapr_glium::config::AppConfig;
use shapr_glium::encoding::rgb_texel_count;
use shapr_glium::events::{
    default_process_event, ControlFlow, EventKind, KeyCode, StartCauseKind, WindowEventKind,
};
use shapr_glium::scheduler::{scheduler_step, StepAction};
use shapr_glium::timing::{frame_interval_ns, FrameTiming, NS_PER_S};

#[test]
fn it_works() {
    assert_eq!(2 + 2, 4);
}

#[test]
fn default_config_values() {
    let c = AppConfig::default();
    assert_eq!(c.fps, 60);
    assert_eq!(c.resolution, [800, 800]);
    assert_eq!(c.title, "Shapr-Glium App");
}

#[test]
fn config_query_is_idempotent() {
    let a = AppConfig::default();
    let b = AppConfig::default();
    assert_eq!(a.fps, b.fps);
    assert_eq!(a.resolution, b.resolution);
    assert_eq!(a.title, b.title);
}

#[test]
fn builder_order_independent_for_title() {
    let a = AppConfig::new_with_title("A");
    let b = AppConfig::default().title("A");
    assert_eq!(a.fps, b.fps);
    assert_eq!(a.resolution, b.resolution);
    assert_eq!(a.title, b.title);
    assert_eq!(a.fps, 60);
    assert_eq!(a.resolution, [800, 800]);
    assert_eq!(a.title, "A");
}

#[test]
fn title_setter_replaces_only_title() {
    let c = AppConfig::default().title("first").title("second");
    assert_eq!(c.fps, 60);
    assert_eq!(c.resolution, [800, 800]);
    assert_eq!(c.title, "second");
}

#[test]
fn frame_interval_for_sixty_fps() {
    // 1/60 s is 16_666_666.6... ns; the interval rounds up, never under
    // the frame budget.
    assert_eq!(frame_interval_ns(60), 16_666_667);
    assert_eq!(frame_interval_ns(1), NS_PER_S);
    // A rate that divides the second exactly needs no rounding.
    assert_eq!(frame_interval_ns(8), 125_000_000);
    // A rate above one tick per nanosecond rounds up to a single nanosecond.
    assert_eq!(frame_interval_ns(2_000_000_000), 1);
}

#[test]
fn tick_reports_measured_elapsed_time() {
    let mut t = FrameTiming::new(0, 60);
    let (dt1, wake1) = t.tick(1_000_000);
    assert_eq!(dt1, 1_000_000);
    assert_eq!(wake1, 1_000_000 + 16_666_667);
    // The second tick's dt is the wall-clock delta between the two `now`
    // samples, not the nominal interval.
    let (dt2, wake2) = t.tick(21_000_000);
    assert_eq!(dt2, 20_000_000);
    assert_eq!(wake2, 21_000_000 + 16_666_667);
}

#[test]
fn wake_up_never_earlier_than_now_plus_interval() {
    let fps: u64 = 144;
    let interval = frame_interval_ns(fps);
    let mut t = FrameTiming::new(5_000, fps);
    let now: u64 = 9_000_000;
    let (_dt, wake) = t.tick(now);
    assert!(wake >= now + interval);
    // The exact law, scaled by fps: the wake-up is no earlier than
    // now + 1/fps seconds.
    assert!(u128::from(wake) * u128::from(fps) >= u128::from(now) * u128::from(fps) + 1_000_000_000);
}

#[test]
fn close_request_sets_exit_once() {
    let mut cf = ControlFlow::Wait;
    let close = EventKind::Window(WindowEventKind::CloseRequested);
    default_process_event(&close, &mut cf);
    assert_eq!(cf, ControlFlow::Exit);
    // Delivering the same event again leaves the signal as it is.
    default_process_event(&close, &mut cf);
    assert_eq!(cf, ControlFlow::Exit);
}

#[test]
fn escape_key_sets_exit() {
    let mut cf = ControlFlow::WaitUntil(123);
    let esc = EventKind::Window(WindowEventKind::KeyboardInput {
        keycode: Some(KeyCode::Escape),
    });
    default_process_event(&esc, &mut cf);
    assert_eq!(cf, ControlFlow::Exit);
}

#[test]
fn other_keys_and_events_are_ignored() {
    let mut cf = ControlFlow::Wait;
    let other_key = EventKind::Window(WindowEventKind::KeyboardInput {
        keycode: Some(KeyCode::Other),
    });
    default_process_event(&other_key, &mut cf);
    assert_eq!(cf, ControlFlow::Wait);

    let no_key = EventKind::Window(WindowEventKind::KeyboardInput { keycode: None });
    default_process_event(&no_key, &mut cf);
    assert_eq!(cf, ControlFlow::Wait);

    let window_other = EventKind::Window(WindowEventKind::Other);
    default_process_event(&window_other, &mut cf);
    assert_eq!(cf, ControlFlow::Wait);

    let unrelated = EventKind::Other;
    default_process_event(&unrelated, &mut cf);
    assert_eq!(cf, ControlFlow::Wait);
}

#[test]
fn tick_cue_renders_and_requests_next_wake() {
    let mut t = FrameTiming::new(0, 60);
    let mut cf = ControlFlow::Wait;
    let init = EventKind::NewEvents(StartCauseKind::Init);
    let action = scheduler_step(&mut t, &init, 2_000_000, &mut cf);
    assert_eq!(action, StepAction::RenderFrame { dt_ns: 2_000_000 });
    assert_eq!(cf, ControlFlow::WaitUntil(2_000_000 + 16_666_667));
    assert_eq!(t.prev_frame_ns, 2_000_000);

    let resumed = EventKind::NewEvents(StartCauseKind::ResumeTimeReached);
    let action = scheduler_step(&mut t, &resumed, 30_000_000, &mut cf);
    assert_eq!(action, StepAction::RenderFrame { dt_ns: 28_000_000 });
    assert_eq!(cf, ControlFlow::WaitUntil(30_000_000 + 16_666_667));
}

#[test]
fn non_tick_events_are_forwarded_untouched() {
    let mut t = FrameTiming::new(7, 60);
    let mut cf = ControlFlow::WaitUntil(99);
    let other_cause = EventKind::NewEvents(StartCauseKind::Other);
    let action = scheduler_step(&mut t, &other_cause, 50_000_000, &mut cf);
    assert_eq!(action, StepAction::ForwardEvent);
    assert_eq!(cf, ControlFlow::WaitUntil(99));
    assert_eq!(t.prev_frame_ns, 7);

    let window = EventKind::Window(WindowEventKind::CloseRequested);
    let action = scheduler_step(&mut t, &window, 60_000_000, &mut cf);
    assert_eq!(action, StepAction::ForwardEvent);
    assert_eq!(t.prev_frame_ns, 7);
}

#[test]
fn texel_count_accepts_multiples_of_three() {
    // The degenerate encoding: zero floats is zero texels, still valid.
    assert_eq!(rgb_texel_count(0), Some(0));
    assert_eq!(rgb_texel_count(3), Some(1));
    assert_eq!(rgb_texel_count(6), Some(2));
    assert_eq!(rgb_texel_count(300), Some(100));
}

#[test]
fn texel_count_rejects_malformed_lengths() {
    assert_eq!(rgb_texel_count(1), None);
    assert_eq!(rgb_texel_count(2), None);
    assert_eq!(rgb_texel_count(7), None);
}
