//! The application's decisions: the window it opens and what it does on each
//! window event. The event loop that delivers the events, the window and the
//! graphics backend that carry out the response belong to the program.

use vstd::prelude::*;

verus! {

/// A window event, as far as the application tells events apart.
#[derive(Clone, Copy, Debug, PartialEq, Eq, Structural)]
pub enum WindowEventKind {
    CloseRequested,
    RedrawRequested,
    Resized,
    /// A key event; `escape` says whether the physical key is Escape.
    KeyboardInput { escape: bool },
    Other,
}

/// What the application does in response to a window event.
#[derive(Clone, Copy, Debug, PartialEq, Eq, Structural)]
pub enum EventResponse {
    /// Release the graphics resources, then leave the event loop.
    ClearAndExit,
    /// Draw a frame, then ask the window for the next redraw.
    DrawAndRequestRedraw,
    /// Resize the graphics to the window's current inner size.
    ResizeToWindow,
    /// Leave the event loop.
    Exit,
    /// Nothing.
    Ignore,
}

/// The window the application opens.
pub struct WindowSettings {
    pub title: String,
    pub width: u32,
    pub height: u32,
}

/// The response to `event`.
pub open spec fn response_to(event: WindowEventKind) -> EventResponse {
    match event {
        WindowEventKind::CloseRequested => EventResponse::ClearAndExit,
        WindowEventKind::RedrawRequested => EventResponse::DrawAndRequestRedraw,
        WindowEventKind::Resized => EventResponse::ResizeToWindow,
        WindowEventKind::KeyboardInput { escape } => if escape {
            EventResponse::Exit
        } else {
            EventResponse::Ignore
        },
        WindowEventKind::Other => EventResponse::Ignore,
    }
}

/// Whether a response ends the application.
pub open spec fn ends_application(response: EventResponse) -> bool {
    response == EventResponse::ClearAndExit || response == EventResponse::Exit
}

/// What the application does on `event`: a close request releases the
/// graphics and exits, a redraw request draws and asks for the next redraw, a
/// resize resizes the graphics, Escape exits, anything else is ignored.
pub fn window_event_response(event: WindowEventKind) -> (r: EventResponse)
    ensures
        r == response_to(event),
        event == WindowEventKind::CloseRequested ==> r == EventResponse::ClearAndExit,
        event == WindowEventKind::RedrawRequested ==> r == EventResponse::DrawAndRequestRedraw,
        event == WindowEventKind::Resized ==> r == EventResponse::ResizeToWindow,
        event == (WindowEventKind::KeyboardInput { escape: true }) ==> r == EventResponse::Exit,
        event == (WindowEventKind::KeyboardInput { escape: false }) ==> r == EventResponse::Ignore,
        event == WindowEventKind::Other ==> r == EventResponse::Ignore,
{
    match event {
        WindowEventKind::CloseRequested => EventResponse::ClearAndExit,
        WindowEventKind::RedrawRequested => EventResponse::DrawAndRequestRedraw,
        WindowEventKind::Resized => EventResponse::ResizeToWindow,
        WindowEventKind::KeyboardInput { escape } => {
            if escape {
                EventResponse::Exit
            } else {
                EventResponse::Ignore
            }
        },
        WindowEventKind::Other => EventResponse::Ignore,
    }
}

/// The window the application opens when it resumes: titled
/// `AC Mini Model Viewer`, 800 by 600 pixels.
pub fn window_settings() -> (w: WindowSettings)
    ensures
        w.title@ == "AC Mini Model Viewer"@,
        w.width == 800,
        w.height == 600,
{
    WindowSettings { title: String::from_str("AC Mini Model Viewer"), width: 800, height: 600 }
}

/// Only a close request and the Escape key end the application, and only a
/// close request releases the graphics first.
pub proof fn lemma_only_close_and_escape_end(event: WindowEventKind)
    ensures
        ends_application(response_to(event)) <==> (event == WindowEventKind::CloseRequested
            || event == (WindowEventKind::KeyboardInput { escape: true })),
        response_to(event) == EventResponse::ClearAndExit <==> event == WindowEventKind::CloseRequested,
{
}

} // verus!
