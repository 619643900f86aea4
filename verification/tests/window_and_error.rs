use titan_core::error::Error;
use titan_core::window::{exit_after_render, loop_response, LoopEvent, LoopResponse, Size, WindowInput};

#[test]
fn size_new_keeps_dimensions() {
    let size = Size::new(800, 600);
    assert_eq!(size.width, 800);
    assert_eq!(size.height, 600);
}

#[test]
fn size_default_is_zero() {
    let size = Size::default();
    assert_eq!(size, Size::new(0, 0));
}

#[test]
fn size_round_trip_through_array() {
    let size = Size::from([1280u32, 720u32]);
    assert_eq!(size, Size::new(1280, 720));
    let array: [u32; 2] = size.into();
    assert_eq!(array, [1280, 720]);
}

#[test]
fn size_round_trip_through_tuple() {
    let size = Size::from((3u32, 4u32));
    assert_eq!(size, Size::new(3, 4));
    let tuple: (u32, u32) = size.into();
    assert_eq!(tuple, (3, 4));
}

#[test]
fn error_with_source_is_shown_with_it() {
    let error = Error::new(String::from("device creation failure"), String::from("out of memory"));
    assert_eq!(error.to_string(), "device creation failure (out of memory)");
    assert_eq!(error.source().map(|s| s.as_str()), Some("out of memory"));
}

#[test]
fn error_from_message_has_no_source() {
    let error = Error::from("no suitable physical device were found");
    assert_eq!(error.to_string(), "no suitable physical device were found");
    assert!(error.source().is_none());
    let error = Error::from(String::from("plain"));
    assert_eq!(error.to_string(), "plain");
    let error = Error::from_message(String::new());
    assert_eq!(error.to_string(), "");
}

#[test]
fn loop_passes_creation_resize_and_end_to_game() {
    let idle = LoopResponse { event: None, exit: false, render: false, shut_down: false };
    assert_eq!(
        loop_response(WindowInput::Init),
        LoopResponse { event: Some(LoopEvent::Created), ..idle }
    );
    assert_eq!(
        loop_response(WindowInput::Resized { ours: true, width: 640, height: 480 }),
        LoopResponse { event: Some(LoopEvent::Resized(Size::new(640, 480))), ..idle }
    );
    assert_eq!(loop_response(WindowInput::Resized { ours: false, width: 640, height: 480 }), idle);
    assert_eq!(
        loop_response(WindowInput::LoopDestroyed),
        LoopResponse { event: Some(LoopEvent::Destroyed), shut_down: true, ..idle }
    );
}

#[test]
fn loop_exits_on_close_of_own_window_only() {
    assert!(loop_response(WindowInput::CloseRequested { ours: true }).exit);
    assert!(!loop_response(WindowInput::CloseRequested { ours: false }).exit);
    assert!(loop_response(WindowInput::MainEventsCleared).render);
    let other = loop_response(WindowInput::OtherStart);
    assert_eq!(other, loop_response(WindowInput::Other));
    assert_eq!(other, loop_response(WindowInput::OtherWindowEvent));
    assert!(exit_after_render(true));
    assert!(!exit_after_render(false));
}

#[test]
fn loop_run_creates_first_and_destroys_last() {
    let inputs = [
        WindowInput::Init,
        WindowInput::Resized { ours: true, width: 800, height: 600 },
        WindowInput::MainEventsCleared,
        WindowInput::CloseRequested { ours: true },
        WindowInput::LoopDestroyed,
    ];
    let responses: Vec<LoopResponse> = inputs.iter().map(|input| loop_response(*input)).collect();
    let events: Vec<LoopEvent> = responses.iter().filter_map(|r| r.event).collect();
    assert_eq!(events.first(), Some(&LoopEvent::Created));
    assert_eq!(events.last(), Some(&LoopEvent::Destroyed));
    assert_eq!(events.iter().filter(|e| **e == LoopEvent::Created).count(), 1);
    assert_eq!(events.iter().filter(|e| **e == LoopEvent::Destroyed).count(), 1);
    let shut: Vec<bool> = responses.iter().map(|r| r.shut_down).collect();
    assert_eq!(shut, vec![false, false, false, false, true]);
}
