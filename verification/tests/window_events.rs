use ac_mini_model_viewer::app::{window_event_response, window_settings, EventResponse, WindowEventKind};

#[test]
fn close_request_clears_and_exits() {
    assert_eq!(window_event_response(WindowEventKind::CloseRequested), EventResponse::ClearAndExit);
}

#[test]
fn redraw_request_draws_and_asks_again() {
    assert_eq!(window_event_response(WindowEventKind::RedrawRequested), EventResponse::DrawAndRequestRedraw);
}

#[test]
fn resize_follows_the_window() {
    assert_eq!(window_event_response(WindowEventKind::Resized), EventResponse::ResizeToWindow);
}

#[test]
fn only_escape_exits_among_keys() {
    assert_eq!(window_event_response(WindowEventKind::KeyboardInput { escape: true }), EventResponse::Exit);
    assert_eq!(window_event_response(WindowEventKind::KeyboardInput { escape: false }), EventResponse::Ignore);
    assert_eq!(window_event_response(WindowEventKind::Other), EventResponse::Ignore);
}

#[test]
fn window_is_titled_and_sized() {
    let w = window_settings();
    assert_eq!(w.title, "AC Mini Model Viewer");
    assert_eq!((w.width, w.height), (800, 600));
}
