//! Decisions of the surrounding event loop.
//!
//! The windowing layer delivers signals; this module decides what the
//! loop does with each one. The loop itself, the window and the native
//! calls live outside the library.

use vstd::prelude::*;

verus! {

/// A signal delivered by the windowing layer.
#[derive(Clone, Copy, Debug, PartialEq, Eq, Structural)]
pub enum WindowSignal {
    /// The event loop has started.
    Started,
    /// The window was resized to the given pixel dimensions; zero
    /// dimensions signal a minimized or hidden window.
    Resized { width: u32, height: u32 },
    /// The user asked to close the window.
    CloseRequested,
    /// All pending events were processed; a frame may be rendered. The
    /// dimensions are the window's current inner size.
    RedrawReady { width: u32, height: u32 },
    /// The event loop is shutting down.
    Destroyed,
}

/// What the loop does in response to a signal.
#[derive(Clone, Copy, Debug, PartialEq, Eq, Structural)]
pub enum LoopAction {
    /// Notify the embedder that the window was created and show it.
    ShowWindow,
    /// Rebuild the swapchain-dependent objects, then notify the embedder
    /// of the new size.
    RebuildAndNotify { width: u32, height: u32 },
    /// The window is minimized: no rebuild, and no size is forwarded to
    /// the pipeline objects — the embedder is told the zero size only.
    NotifyMinimized,
    /// Stop the loop.
    Exit,
    /// Render one frame.
    Render,
    /// Do nothing this iteration.
    Skip,
    /// Notify the embedder and drop the renderer.
    NotifyDestroyed,
}

/// The decision table of the loop: a resize with a zero dimension is a
/// no-op for the swapchain and is not forwarded as a resize; rendering
/// is skipped while the window has no area; closing exits.
pub open spec fn spec_handle_event(event: WindowSignal) -> LoopAction {
    match event {
        WindowSignal::Started => LoopAction::ShowWindow,
        WindowSignal::Resized { width, height } => {
            if width == 0 || height == 0 {
                LoopAction::NotifyMinimized
            } else {
                LoopAction::RebuildAndNotify { width, height }
            }
        },
        WindowSignal::CloseRequested => LoopAction::Exit,
        WindowSignal::RedrawReady { width, height } => {
            if width == 0 || height == 0 {
                LoopAction::Skip
            } else {
                LoopAction::Render
            }
        },
        WindowSignal::Destroyed => LoopAction::NotifyDestroyed,
    }
}

/// Decides what the loop does with one signal.
pub fn handle_event(event: WindowSignal) -> (action: LoopAction)
    ensures
        action == spec_handle_event(event),
        forall|w: u32, h: u32|
            event == (WindowSignal::Resized { width: w, height: h }) && (w == 0 || h == 0)
                ==> action == LoopAction::NotifyMinimized,
{
    match event {
        WindowSignal::Started => LoopAction::ShowWindow,
        WindowSignal::Resized { width, height } => {
            if width == 0 || height == 0 {
                LoopAction::NotifyMinimized
            } else {
                LoopAction::RebuildAndNotify { width, height }
            }
        },
        WindowSignal::CloseRequested => LoopAction::Exit,
        WindowSignal::RedrawReady { width, height } => {
            if width == 0 || height == 0 {
                LoopAction::Skip
            } else {
                LoopAction::Render
            }
        },
        WindowSignal::Destroyed => LoopAction::NotifyDestroyed,
    }
}

} // verus!
