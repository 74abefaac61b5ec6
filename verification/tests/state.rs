use render_state::colour::{Colour, ONE};
use render_state::event::{ElementState, KeyboardInput, MouseButton, VirtualKeyCode, WindowEvent};
use render_state::state::State;
use render_state::surface::{
    PhysicalSize, PresentMode, RenderPass, SwapChainDescriptor, TextureFormat,
};

const LEFT_PRESS: WindowEvent =
    WindowEvent::MouseInput { state: ElementState::Pressed, button: MouseButton::Left };

fn size(width: u32, height: u32) -> PhysicalSize {
    PhysicalSize { width, height }
}

fn descriptor(width: u32, height: u32) -> SwapChainDescriptor {
    SwapChainDescriptor {
        format: TextureFormat::Bgra8UnormSrgb,
        width,
        height,
        present_mode: PresentMode::Immediate,
    }
}

fn not_left_presses() -> Vec<WindowEvent> {
    vec![
        WindowEvent::MouseInput { state: ElementState::Released, button: MouseButton::Left },
        WindowEvent::MouseInput { state: ElementState::Pressed, button: MouseButton::Right },
        WindowEvent::MouseInput { state: ElementState::Pressed, button: MouseButton::Middle },
        WindowEvent::MouseInput { state: ElementState::Pressed, button: MouseButton::Other(0) },
        WindowEvent::MouseInput { state: ElementState::Released, button: MouseButton::Other(7) },
        WindowEvent::Resized(size(10, 20)),
        WindowEvent::ScaleFactorChanged { new_inner_size: size(30, 40) },
        WindowEvent::CloseRequested,
        WindowEvent::KeyboardInput {
            input: KeyboardInput {
                state: ElementState::Pressed,
                virtual_keycode: Some(VirtualKeyCode::Escape),
            },
        },
        WindowEvent::KeyboardInput {
            input: KeyboardInput { state: ElementState::Released, virtual_keycode: None },
        },
        WindowEvent::Other,
    ]
}

#[test]
fn new_state_has_window_size_and_matching_swap_chain() {
    let state = State::new(size(800, 600));
    assert_eq!(state.size(), size(800, 600));
    assert_eq!(state.sc_desc(), descriptor(800, 600));
    assert_eq!(state.clear_colour(), Colour { r: 0, g: 0, b: 0, a: 0 });
}

#[test]
fn new_state_of_a_window_without_area() {
    let state = State::new(size(0, 0));
    assert_eq!(state.size(), size(0, 0));
    assert_eq!(state.sc_desc(), descriptor(0, 0));
}

#[test]
fn fresh_state_renders_transparent_black() {
    for (w, h) in [(800, 600), (1, 1), (0, 0), (u32::MAX, u32::MAX)] {
        let state = State::new(size(w, h));
        assert_eq!(
            state.render(),
            RenderPass { clear_colour: Colour { r: 0, g: 0, b: 0, a: 0 }, store: true }
        );
    }
}

#[test]
fn left_press_is_consumed_and_sets_an_opaque_colour() {
    let mut state = State::new(size(800, 600));
    for _ in 0..200 {
        assert!(state.input(&LEFT_PRESS));
        let c = state.clear_colour();
        assert!(c.r < ONE);
        assert!(c.g < ONE);
        assert!(c.b < ONE);
        assert_eq!(c.a, ONE);
        for channel in [c.r, c.g, c.b] {
            let unit = channel as f64 / ONE as f64;
            assert!((0.0..1.0).contains(&unit));
        }
        assert_eq!(c.a as f64 / ONE as f64, 1.0);
    }
}

#[test]
fn left_press_leaves_size_and_swap_chain() {
    let mut state = State::new(size(800, 600));
    assert!(state.input(&LEFT_PRESS));
    assert_eq!(state.size(), size(800, 600));
    assert_eq!(state.sc_desc(), descriptor(800, 600));
}

#[test]
fn left_presses_draw_fresh_colours() {
    let mut state = State::new(size(800, 600));
    let mut seen = Vec::new();
    for _ in 0..16 {
        assert!(state.input(&LEFT_PRESS));
        seen.push(state.clear_colour());
    }
    assert!(seen.iter().any(|c| *c != seen[0]));
    assert!(seen.iter().any(|c| c.r != c.g || c.g != c.b));
}

#[test]
fn other_events_are_not_consumed_on_a_fresh_state() {
    for event in not_left_presses() {
        let mut state = State::new(size(800, 600));
        assert!(!state.input(&event));
        assert_eq!(state.clear_colour(), Colour { r: 0, g: 0, b: 0, a: 0 });
        assert_eq!(state.size(), size(800, 600));
        assert_eq!(state.sc_desc(), descriptor(800, 600));
    }
}

#[test]
fn other_events_leave_a_clicked_colour() {
    let mut state = State::new(size(800, 600));
    assert!(state.input(&LEFT_PRESS));
    let colour = state.clear_colour();
    for event in not_left_presses() {
        assert!(!state.input(&event));
        assert_eq!(state.clear_colour(), colour);
        assert_eq!(state.size(), size(800, 600));
        assert_eq!(state.sc_desc(), descriptor(800, 600));
    }
}

#[test]
fn resize_updates_size_and_swap_chain() {
    let mut state = State::new(size(800, 600));
    assert_eq!(state.resize(size(400, 300)), Some(descriptor(400, 300)));
    assert_eq!(state.size(), size(400, 300));
    assert_eq!(state.sc_desc(), descriptor(400, 300));
}

#[test]
fn last_resize_wins() {
    let mut state = State::new(size(800, 600));
    let sizes = [(1, 1), (1920, 1080), (640, 480), (u32::MAX, 1), (1, u32::MAX), (1024, 768)];
    for (w, h) in sizes {
        assert_eq!(state.resize(size(w, h)), Some(descriptor(w, h)));
        assert_eq!(state.size(), size(w, h));
        assert_eq!(state.sc_desc().width, w);
        assert_eq!(state.sc_desc().height, h);
    }
    assert_eq!(state.size(), size(1024, 768));
    assert_eq!(state.sc_desc(), descriptor(1024, 768));
}

#[test]
fn resize_without_area_is_ignored() {
    for (w, h) in [(0, 0), (0, 300), (400, 0)] {
        let mut state = State::new(size(800, 600));
        assert_eq!(state.resize(size(w, h)), None);
        assert_eq!(state.size(), size(800, 600));
        assert_eq!(state.sc_desc(), descriptor(800, 600));
    }
}

#[test]
fn resize_to_own_size_changes_nothing() {
    let mut state = State::new(size(800, 600));
    assert_eq!(state.resize(size(800, 600)), Some(descriptor(800, 600)));
    assert_eq!(state.size(), size(800, 600));
    assert_eq!(state.sc_desc(), descriptor(800, 600));
}

#[test]
fn update_changes_nothing() {
    let mut state = State::new(size(800, 600));
    assert!(state.input(&LEFT_PRESS));
    let colour = state.clear_colour();
    state.update();
    assert_eq!(state.size(), size(800, 600));
    assert_eq!(state.sc_desc(), descriptor(800, 600));
    assert_eq!(state.clear_colour(), colour);
}

#[test]
fn render_clears_to_the_stored_colour() {
    let mut state = State::new(size(800, 600));
    assert!(state.input(&LEFT_PRESS));
    let colour = state.clear_colour();
    assert_eq!(state.render(), RenderPass { clear_colour: colour, store: true });
    assert_eq!(state.clear_colour(), colour);
}

#[test]
fn click_then_resize_keeps_the_colour() {
    let mut state = State::new(size(800, 600));
    assert_eq!(state.sc_desc(), descriptor(800, 600));
    assert!(state.input(&LEFT_PRESS));
    let colour = state.clear_colour();
    assert_ne!(colour, Colour { r: 0, g: 0, b: 0, a: 0 });
    assert_eq!(state.resize(size(400, 300)), Some(descriptor(400, 300)));
    assert_eq!(state.sc_desc().width, 400);
    assert_eq!(state.sc_desc().height, 300);
    assert_eq!(state.size(), size(400, 300));
    assert_eq!(state.clear_colour(), colour);
    assert_eq!(state.render().clear_colour, colour);
}
