use overlay_capture::capture::{CaptureFlow, CaptureRegion, ClientRect, Cmd};
use overlay_capture::host::{Action, Controller, Event, HOTKEY_ID, TIMER_ID};
use overlay_capture::host::{WINDOW_HEIGHT, WINDOW_WIDTH, WINDOW_X, WINDOW_Y};

#[test]
fn startup_is_transparent_and_idle() {
    // scenario: window just created at (200,200) sized (500,500); no hotkey
    // pressed yet, so the decay counter is zero and only the color key
    // makes the window transparent
    assert_eq!((WINDOW_X, WINDOW_Y), (200, 200));
    assert_eq!((WINDOW_WIDTH, WINDOW_HEIGHT), (500, 500));
    let mut c = Controller::new();
    assert_eq!(c.fade.decay, 0);
    assert_eq!(c.alpha, 255);
    assert!(!c.terminated);
    let a: Action = c.handle_event(Event::Timer { id: TIMER_ID }, false);
    assert_eq!(a, Action::PassThrough);
    assert_eq!(c.fade.decay, 0);
}

#[test]
fn first_hotkey_while_unfocused_only_requests_focus() {
    let mut c = Controller::new();
    let before: Controller = c;
    let a: Action = c.handle_event(Event::Hotkey { id: HOTKEY_ID }, false);
    assert_eq!(a, Action::RequestFocus);
    assert_eq!(c, before);
}

#[test]
fn second_hotkey_while_focused_captures_and_flashes() {
    let mut c = Controller::new();
    let a: Action = c.handle_event(Event::Hotkey { id: HOTKEY_ID }, true);
    assert_eq!(a, Action::Capture);

    // the shell now runs the capture against the current client rectangle
    let rect = ClientRect { left: 0, top: 0, right: WINDOW_WIDTH, bottom: WINDOW_HEIGHT };
    let (mut flow, mut cmd) = CaptureFlow::start(WINDOW_X, WINDOW_Y, rect);
    let mut captured: bool = false;
    let mut copied_region: Option<CaptureRegion> = None;
    loop {
        if let Cmd::CopyPixels { region } = cmd {
            copied_region = Some(region);
        }
        if let Cmd::Finished { captured: done } = cmd {
            captured = done;
            break;
        }
        cmd = flow.advance(true);
    }
    assert_eq!(
        copied_region,
        Some(CaptureRegion { x: 200, y: 200, width: 500, height: 500 })
    );
    assert!(captured);

    c.capture_finished(captured);
    assert_eq!(c.fade.decay, 255);
    let tick: Action = c.handle_event(Event::Timer { id: TIMER_ID }, true);
    assert_eq!(tick, Action::ApplyAlpha { alpha: 255 });
}

#[test]
fn failed_capture_gives_no_flash() {
    let mut c = Controller::new();
    let a: Action = c.handle_event(Event::Hotkey { id: HOTKEY_ID }, true);
    assert_eq!(a, Action::Capture);
    c.capture_finished(false);
    assert_eq!(c.fade.decay, 0);
    let tick: Action = c.handle_event(Event::Timer { id: TIMER_ID }, true);
    assert_eq!(tick, Action::PassThrough);
}

#[test]
fn successful_capture_rearms_from_any_decay() {
    let mut c = Controller::new();
    c.capture_finished(true);
    c.handle_event(Event::Timer { id: TIMER_ID }, true);
    c.handle_event(Event::Timer { id: TIMER_ID }, true);
    assert_eq!(c.fade.decay, 215);
    c.capture_finished(true);
    assert_eq!(c.fade.decay, 255);
}

#[test]
fn timer_ticks_trace_the_triangular_fade() {
    let mut c = Controller::new();
    c.capture_finished(true);
    let expected_alphas: Vec<u8> =
        vec![255, 215, 175, 135, 95, 55, 15, 25, 65, 105, 145, 185, 225];
    let mut i: usize = 0;
    while i < expected_alphas.len() {
        let a: Action = c.handle_event(Event::Timer { id: TIMER_ID }, true);
        assert_eq!(a, Action::ApplyAlpha { alpha: expected_alphas[i] });
        i += 1;
    }
    assert_eq!(c.fade.decay, 0);
    // every later tick is a no-op: no transparency update, no decrement,
    // and the last applied alpha stays in effect
    let before: Controller = c;
    let a: Action = c.handle_event(Event::Timer { id: TIMER_ID }, true);
    assert_eq!(a, Action::PassThrough);
    assert_eq!(c, before);
    assert_eq!(c.alpha, 225);
}

#[test]
fn unrecognized_events_pass_through() {
    let mut c = Controller::new();
    let before: Controller = c;
    assert_eq!(c.handle_event(Event::Timer { id: 1 }, true), Action::PassThrough);
    assert_eq!(c.handle_event(Event::Hotkey { id: 7 }, true), Action::PassThrough);
    assert_eq!(c.handle_event(Event::Other, true), Action::PassThrough);
    assert_eq!(c, before);
}

#[test]
fn destroy_event_terminates() {
    let mut c = Controller::new();
    c.capture_finished(true);
    let a: Action = c.handle_event(Event::Destroy, true);
    assert_eq!(a, Action::Quit);
    assert!(c.terminated);
}
