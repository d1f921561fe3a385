use vstd::prelude::*;

verus! {

/// An event sent to the application's event loop from another thread.
#[derive(Debug, Clone, Copy, PartialEq, Eq, Structural)]
pub enum AppEvent {
    /// A video command waits in the queue.
    VideoCommandQueued,
}

/// The window events that the application reacts to.
#[derive(Debug, Clone, Copy, PartialEq, Eq, Structural)]
pub enum WindowInput {
    CloseRequested,
    Resized { width: u32, height: u32 },
    RedrawRequested,
    Other,
}

/// What wakes the event loop up.
#[derive(Debug, Clone, Copy, PartialEq, Eq, Structural)]
pub enum LoopEvent {
    Window(WindowInput),
    User(AppEvent),
    AboutToWait,
}

/// What the event loop does in answer: leave the loop, run the queued video
/// commands (when video runs), and ask the window (when there is one) to
/// redraw.
#[derive(Debug, Clone, Copy, PartialEq, Eq, Structural)]
pub struct LoopActions {
    pub exit: bool,
    pub drain_commands: bool,
    pub request_redraw: bool,
}

/// What the event loop does for `event`: a close request exits; a resize to
/// a non-empty size runs the queued commands and redraws; a redraw request
/// or the loop going idle runs the queued commands; a queued command runs
/// the queue and redraws.
pub fn loop_actions(event: LoopEvent) -> (a: LoopActions)
    ensures
        a == (match event {
            LoopEvent::Window(WindowInput::CloseRequested) => LoopActions { exit: true, drain_commands: false, request_redraw: false },
            LoopEvent::Window(WindowInput::Resized { width, height }) => {
                let visible = width > 0 && height > 0;
                LoopActions { exit: false, drain_commands: visible, request_redraw: visible }
            },
            LoopEvent::Window(WindowInput::RedrawRequested) => LoopActions { exit: false, drain_commands: true, request_redraw: false },
            LoopEvent::Window(WindowInput::Other) => LoopActions { exit: false, drain_commands: false, request_redraw: false },
            LoopEvent::User(AppEvent::VideoCommandQueued) => LoopActions { exit: false, drain_commands: true, request_redraw: true },
            LoopEvent::AboutToWait => LoopActions { exit: false, drain_commands: true, request_redraw: false },
        }),
{
    match event {
        LoopEvent::Window(WindowInput::CloseRequested) => LoopActions { exit: true, drain_commands: false, request_redraw: false },
        LoopEvent::Window(WindowInput::Resized { width, height }) => {
            let visible = width > 0 && height > 0;
            LoopActions { exit: false, drain_commands: visible, request_redraw: visible }
        },
        LoopEvent::Window(WindowInput::RedrawRequested) => LoopActions { exit: false, drain_commands: true, request_redraw: false },
        LoopEvent::Window(WindowInput::Other) => LoopActions { exit: false, drain_commands: false, request_redraw: false },
        LoopEvent::User(AppEvent::VideoCommandQueued) => LoopActions { exit: false, drain_commands: true, request_redraw: true },
        LoopEvent::AboutToWait => LoopActions { exit: false, drain_commands: true, request_redraw: false },
    }
}

} // verus!
