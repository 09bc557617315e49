//! The render loop's event decisions and the surface configuration.
//!
//! The window system delivers a stream of events; the loop decides for
//! each one whether to render, request a redraw, resize the swap chain,
//! forward the event to the scene, or leave the loop.  Those decisions
//! are pure and live here; performing them is the host's business.

use vstd::prelude::*;

verus! {

/// A window event, reduced to what the loop distinguishes.
#[derive(Clone, Copy, PartialEq, Eq, Structural, Debug)]
pub enum WindowEventKind {
    /// The window was asked to close.
    CloseRequested,
    /// The escape key went down.
    EscapePressed,
    /// The window was resized.
    Resized { width: u32, height: u32 },
    /// The scale factor changed, with the new inner size.
    ScaleFactorChanged { width: u32, height: u32 },
    /// Anything else.
    Other,
}

/// An event-loop event, reduced to what the loop distinguishes.
#[derive(Clone, Copy, PartialEq, Eq, Structural, Debug)]
pub enum LoopEvent {
    /// The window should be redrawn now.
    RedrawRequested,
    /// All pending events were handled.
    MainEventsCleared,
    /// A window event; `main_window` says whether it belongs to the
    /// loop's own window.
    Window { event: WindowEventKind, main_window: bool },
    /// Anything else.
    Other,
}

/// What the render loop does with one event.
#[derive(Clone, Copy, PartialEq, Eq, Structural, Debug)]
pub enum LoopAction {
    /// Render a frame.
    Render,
    /// Ask the window for a redraw.
    RequestRedraw,
    /// Leave the event loop.
    Exit,
    /// Resize the swap chain to the given size.
    Resize { width: u32, height: u32 },
    /// Hand the event to the scene (camera and friends).
    Forward,
    /// Do nothing.
    Ignore,
}

/// Decides what the render loop does with one event: redraw requests
/// render, an idle loop asks for the next redraw, closing the window or
/// pressing escape leaves the loop, size changes resize the swap chain,
/// and every other event of the loop's own window goes to the scene.
/// Events of other windows are ignored.
pub fn loop_action(event: LoopEvent) -> (action: LoopAction)
    ensures
        action == match event {
            LoopEvent::RedrawRequested => LoopAction::Render,
            LoopEvent::MainEventsCleared => LoopAction::RequestRedraw,
            LoopEvent::Window { event: w, main_window } => {
                if !main_window {
                    LoopAction::Ignore
                } else {
                    match w {
                        WindowEventKind::CloseRequested => LoopAction::Exit,
                        WindowEventKind::EscapePressed => LoopAction::Exit,
                        WindowEventKind::Resized { width, height } => LoopAction::Resize {
                            width,
                            height,
                        },
                        WindowEventKind::ScaleFactorChanged { width, height } => LoopAction::Resize {
                            width,
                            height,
                        },
                        WindowEventKind::Other => LoopAction::Forward,
                    }
                }
            },
            LoopEvent::Other => LoopAction::Ignore,
        },
{
    match event {
        LoopEvent::RedrawRequested => LoopAction::Render,
        LoopEvent::MainEventsCleared => LoopAction::RequestRedraw,
        LoopEvent::Window { event: w, main_window } => {
            if !main_window {
                LoopAction::Ignore
            } else {
                match w {
                    WindowEventKind::CloseRequested => LoopAction::Exit,
                    WindowEventKind::EscapePressed => LoopAction::Exit,
                    WindowEventKind::Resized { width, height } => LoopAction::Resize {
                        width,
                        height,
                    },
                    WindowEventKind::ScaleFactorChanged { width, height } => LoopAction::Resize {
                        width,
                        height,
                    },
                    WindowEventKind::Other => LoopAction::Forward,
                }
            }
        },
        LoopEvent::Other => LoopAction::Ignore,
    }
}

/// The swap-chain surface configuration the renderer keeps between
/// frames.
#[derive(Clone, Copy, PartialEq, Eq, Structural, Debug)]
pub struct SurfaceConfig {
    pub width: u32,
    pub height: u32,
}

impl SurfaceConfig {
    /// Adopts a new window size; the host then rebuilds the swap chain
    /// from this configuration.
    pub fn resize(&mut self, width: u32, height: u32)
        ensures
            final(self).width == width,
            final(self).height == height,
    {
        self.width = width;
        self.height = height;
    }
}

} // verus!
