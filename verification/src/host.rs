//! The application host's reaction to event-loop events: when it opens its
//! window and renderer, when it renders, resizes or exits, and what a
//! failure does. The event loop itself performs the actions and reports
//! their outcomes back as events.

use vstd::prelude::*;
use crate::extent::RenderExtent;

verus! {

/// What the host holds between events.
#[derive(Clone, Copy, Debug, PartialEq, Eq, Structural)]
pub struct HostState {
    /// The main window and its renderer exist.
    pub window_open: bool,
    /// An operation failed; the host has asked the event loop to exit and
    /// reports the failure when it does.
    pub failed: bool,
}

/// An event the event loop hands to the host, or the outcome of an action
/// the host asked for.
#[derive(Clone, Copy, Debug, PartialEq, Eq, Structural)]
pub enum HostEvent {
    /// The application became active.
    Resumed,
    /// The main window was created, or could not be.
    WindowCreated { ok: bool },
    /// The renderer for the new window was created, or could not be.
    RendererCreated { ok: bool },
    /// A window asked to close; `main_window` says whether it is the host's.
    CloseRequested { main_window: bool },
    /// A window was resized to `extent`.
    Resized { main_window: bool, extent: RenderExtent },
    /// A window asked to be redrawn.
    RedrawRequested { main_window: bool },
    /// A requested frame was prepared and rendered, or failed.
    FrameRendered { ok: bool },
    /// A requested renderer resize succeeded or failed.
    RendererResized { ok: bool },
    /// Any other window event.
    OtherWindowEvent,
}

/// What the host asks the event loop to do.
#[derive(Clone, Copy, Debug, PartialEq, Eq, Structural)]
pub enum HostAction {
    /// Nothing.
    Nothing,
    /// Create the main window.
    CreateWindow,
    /// Create a renderer for the window just created.
    CreateRenderer,
    /// Keep the window and renderer and ask for a redraw.
    RequestRedraw,
    /// Prepare and render one frame.
    RenderFrame,
    /// Resize the renderer to the extent.
    ResizeRenderer(RenderExtent),
    /// Leave the event loop.
    Exit,
    /// Keep the failure just reported and leave the event loop.
    FailAndExit,
}

/// The host's reaction to one event.
pub open spec fn spec_host_step(state: HostState, event: HostEvent) -> (HostState, HostAction) {
    let fail = (HostState { failed: true, ..state }, HostAction::FailAndExit);
    match event {
        HostEvent::Resumed => if state.window_open {
            (state, HostAction::Nothing)
        } else {
            (state, HostAction::CreateWindow)
        },
        HostEvent::WindowCreated { ok } => if ok {
            (state, HostAction::CreateRenderer)
        } else {
            fail
        },
        HostEvent::RendererCreated { ok } => if ok {
            (HostState { window_open: true, ..state }, HostAction::RequestRedraw)
        } else {
            fail
        },
        HostEvent::CloseRequested { main_window } => if main_window && state.window_open {
            (state, HostAction::Exit)
        } else {
            (state, HostAction::Nothing)
        },
        HostEvent::Resized { main_window, extent } => if main_window && state.window_open {
            (state, HostAction::ResizeRenderer(extent))
        } else {
            (state, HostAction::Nothing)
        },
        HostEvent::RedrawRequested { main_window } => if main_window && state.window_open {
            (state, HostAction::RenderFrame)
        } else {
            (state, HostAction::Nothing)
        },
        HostEvent::FrameRendered { ok } => if ok {
            (state, HostAction::RequestRedraw)
        } else {
            fail
        },
        HostEvent::RendererResized { ok } => if ok {
            (state, HostAction::Nothing)
        } else {
            fail
        },
        HostEvent::OtherWindowEvent => (state, HostAction::Nothing),
    }
}

/// A host that has not opened its window yet and has not failed.
pub fn initial_host_state() -> (state: HostState)
    ensures
        state == (HostState { window_open: false, failed: false }),
{
    HostState { window_open: false, failed: false }
}

/// Decides the host's reaction to one event.
pub fn host_step(state: HostState, event: HostEvent) -> (step: (HostState, HostAction))
    ensures
        step == spec_host_step(state, event),
{
    match event {
        HostEvent::Resumed => if state.window_open {
            (state, HostAction::Nothing)
        } else {
            (state, HostAction::CreateWindow)
        },
        HostEvent::WindowCreated { ok } => if ok {
            (state, HostAction::CreateRenderer)
        } else {
            (HostState { failed: true, ..state }, HostAction::FailAndExit)
        },
        HostEvent::RendererCreated { ok } => if ok {
            (HostState { window_open: true, ..state }, HostAction::RequestRedraw)
        } else {
            (HostState { failed: true, ..state }, HostAction::FailAndExit)
        },
        HostEvent::CloseRequested { main_window } => if main_window && state.window_open {
            (state, HostAction::Exit)
        } else {
            (state, HostAction::Nothing)
        },
        HostEvent::Resized { main_window, extent } => if main_window && state.window_open {
            (state, HostAction::ResizeRenderer(extent))
        } else {
            (state, HostAction::Nothing)
        },
        HostEvent::RedrawRequested { main_window } => if main_window && state.window_open {
            (state, HostAction::RenderFrame)
        } else {
            (state, HostAction::Nothing)
        },
        HostEvent::FrameRendered { ok } => if ok {
            (state, HostAction::RequestRedraw)
        } else {
            (HostState { failed: true, ..state }, HostAction::FailAndExit)
        },
        HostEvent::RendererResized { ok } => if ok {
            (state, HostAction::Nothing)
        } else {
            (HostState { failed: true, ..state }, HostAction::FailAndExit)
        },
        HostEvent::OtherWindowEvent => (state, HostAction::Nothing),
    }
}

/// Whether an event concerns a window other than the host's.
pub open spec fn spec_foreign_window_event(event: HostEvent) -> bool {
    match event {
        HostEvent::CloseRequested { main_window } => !main_window,
        HostEvent::Resized { main_window, .. } => !main_window,
        HostEvent::RedrawRequested { main_window } => !main_window,
        HostEvent::OtherWindowEvent => true,
        _ => false,
    }
}

/// Events for other windows change nothing and ask for nothing.
pub proof fn lemma_foreign_events_ignored(state: HostState, event: HostEvent)
    requires
        spec_foreign_window_event(event),
    ensures
        spec_host_step(state, event) == (state, HostAction::Nothing),
{
}

/// Once the window is open, resuming again neither reopens it nor changes
/// the host.
pub proof fn lemma_resume_opens_once(state: HostState)
    requires
        state.window_open,
    ensures
        spec_host_step(state, HostEvent::Resumed) == (state, HostAction::Nothing),
{
}

/// A failed host stays failed whatever happens next, and every reported
/// failure makes the host exit.
pub proof fn lemma_failure_is_kept(state: HostState, event: HostEvent)
    ensures
        state.failed ==> spec_host_step(state, event).0.failed,
        spec_host_step(state, event).1 == HostAction::FailAndExit ==> spec_host_step(
            state,
            event,
        ).0.failed,
{
}

/// Nothing is rendered or resized before the renderer exists.
pub proof fn lemma_no_rendering_before_window(state: HostState, event: HostEvent)
    requires
        !state.window_open,
    ensures
        spec_host_step(state, event).1 != HostAction::RenderFrame,
        !(spec_host_step(state, event).1 is ResizeRenderer),
{
}

} // verus!
