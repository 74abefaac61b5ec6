//! The decisions of the event loop. The host delivers each event to
//! [`handle_event`], performs the [`Action`] it gets back, and reports the
//! outcome of a frame it was asked to render to [`handle_render_result`].

use vstd::prelude::*;
use crate::event::ElementState;
use crate::event::Event;
use crate::event::KeyboardInput;
use crate::event::VirtualKeyCode;
use crate::event::WindowEvent;
use crate::state::State;
use crate::state::StateView;
use crate::state::lemma_resize_to_own_size;
use crate::surface::PhysicalSize;
use crate::surface::RenderPass;
use crate::surface::SwapChainDescriptor;
use crate::surface::SwapChainError;

verus! {

/// What the host has to do after an event was handled.
#[derive(Clone, Copy, Debug, PartialEq, Eq, Structural)]
pub enum Action {
    /// Nothing: wait for the next event.
    Wait,
    /// Leave the event loop.
    Exit,
    /// Create the swap chain again, from this configuration.
    RecreateSwapChain(SwapChainDescriptor),
    /// Acquire the next frame, record this pass, submit it, and report the
    /// outcome to [`handle_render_result`].
    Render(RenderPass),
    /// Ask the window system for a redraw.
    RequestRedraw,
    /// Log the error; the frame is dropped.
    Report(SwapChainError),
}

/// State and action after the window took on `size`.
pub open spec fn resize_step(s: StateView, size: PhysicalSize) -> (StateView, Action) {
    (
        s.resize(size),
        if size.is_degenerate() {
            Action::Wait
        } else {
            Action::RecreateSwapChain(s.resize(size).sc_desc)
        },
    )
}

/// State and action after an event of the own window that the render state
/// did not consume.
pub open spec fn window_step(s: StateView, event: WindowEvent) -> (StateView, Action) {
    match event {
        WindowEvent::CloseRequested => (s, Action::Exit),
        WindowEvent::KeyboardInput { input } => (
            s,
            if input.is_escape_press() {
                Action::Exit
            } else {
                Action::Wait
            },
        ),
        WindowEvent::Resized(size) => resize_step(s, size),
        WindowEvent::ScaleFactorChanged { new_inner_size } => resize_step(s, new_inner_size),
        _ => (s, Action::Wait),
    }
}

/// State and action after any event but a click.
pub open spec fn step(s: StateView, event: Event) -> (StateView, Action) {
    match event {
        Event::WindowEvent { own_window, event } => if own_window {
            window_step(s, event)
        } else {
            (s, Action::Wait)
        },
        Event::RedrawRequested => (s, Action::Render(s.render())),
        Event::MainEventsCleared => (s, Action::RequestRedraw),
        Event::Other => (s, Action::Wait),
    }
}

/// State and action after the host tried to render a frame. A lost swap
/// chain is created again at the current size, running out of memory ends
/// the loop, and any other error is reported and costs the frame.
pub open spec fn render_result_step(s: StateView, result: Result<(), SwapChainError>) -> (
    StateView,
    Action,
) {
    match result {
        Ok(_) => (s, Action::Wait),
        Err(SwapChainError::Lost) => resize_step(s, s.size),
        Err(SwapChainError::OutOfMemory) => (s, Action::Exit),
        Err(e) => (s, Action::Report(e)),
    }
}

/// Takes over a new size of the window and asks for a new swap chain where
/// the size has an area.
fn resized(state: &mut State, size: PhysicalSize) -> (action: Action)
    ensures
        (final(state)@, action) == resize_step(old(state)@, size),
        final(state)@.wf(),
{
    match state.resize(size) {
        Some(sc_desc) => Action::RecreateSwapChain(sc_desc),
        None => Action::Wait,
    }
}

/// Handles one event of the host's loop. The render state is offered every
/// event of its own window first; a click is consumed and gives the frames a
/// new random colour. Of the events it leaves, a close request and a press of
/// escape end the loop, and a change of size is taken over. A redraw request
/// runs the per-frame logic and asks for a frame; once all events are
/// delivered, a redraw is requested.
pub fn handle_event(state: &mut State, event: &Event) -> (action: Action)
    ensures
        final(state)@.wf(),
        !event.is_click() ==> (final(state)@, action) == step(old(state)@, *event),
        event.is_click() ==> action == Action::Wait,
        event.is_click() ==> final(state)@ == old(state)@.with_clear_colour(
            final(state)@.clear_colour,
        ),
        event.is_click() ==> final(state)@.clear_colour.is_opaque_sample(),
{
    proof {
        use_type_invariant(&*state);
    }
    match event {
        Event::WindowEvent { own_window: true, event } => {
            if state.input(event) {
                Action::Wait
            } else {
                match event {
                    WindowEvent::CloseRequested => Action::Exit,
                    WindowEvent::KeyboardInput {
                        input: KeyboardInput {
                            state: ElementState::Pressed,
                            virtual_keycode: Some(VirtualKeyCode::Escape),
                        },
                    } => Action::Exit,
                    WindowEvent::Resized(size) => resized(state, *size),
                    WindowEvent::ScaleFactorChanged { new_inner_size } => resized(
                        state,
                        *new_inner_size,
                    ),
                    _ => Action::Wait,
                }
            }
        },
        Event::RedrawRequested => {
            state.update();
            Action::Render(state.render())
        },
        Event::MainEventsCleared => Action::RequestRedraw,
        _ => Action::Wait,
    }
}

/// Decides what follows the host's attempt to render a frame.
pub fn handle_render_result(state: &mut State, result: Result<(), SwapChainError>) -> (action:
    Action)
    ensures
        (final(state)@, action) == render_result_step(old(state)@, result),
        final(state)@.wf(),
{
    proof {
        use_type_invariant(&*state);
    }
    match result {
        Ok(_) => Action::Wait,
        Err(SwapChainError::Lost) => {
            let size = state.size();
            resized(state, size)
        },
        Err(SwapChainError::OutOfMemory) => Action::Exit,
        Err(e) => Action::Report(e),
    }
}

/// A lost swap chain does not end the loop: the state is resized to the size
/// it has, which leaves a well-formed state as it is, and the swap chain is
/// asked for again wherever that size has an area.
pub proof fn lemma_lost_swap_chain_is_recreated(s: StateView)
    requires
        s.wf(),
    ensures
        render_result_step(s, Err(SwapChainError::Lost)).0 == s.resize(s.size),
        render_result_step(s, Err(SwapChainError::Lost)).0 == s,
        render_result_step(s, Err(SwapChainError::Lost)).1 != Action::Exit,
        !s.size.is_degenerate() ==> render_result_step(s, Err(SwapChainError::Lost)).1
            == Action::RecreateSwapChain(s.sc_desc),
{
    lemma_resize_to_own_size(s);
}

/// Running out of memory ends the loop and leaves the state as it is.
pub proof fn lemma_out_of_memory_exits(s: StateView)
    ensures
        render_result_step(s, Err(SwapChainError::OutOfMemory)) == (s, Action::Exit),
{
}

} // verus!
