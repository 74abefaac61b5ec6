//! The render state: the size of the window, the configuration of the swap
//! chain that presents to it, and the colour its frames are cleared to.

use vstd::prelude::*;
use crate::colour::Colour;
use crate::event::WindowEvent;
use crate::event::ElementState;
use crate::event::MouseButton;
use crate::random::next_word;
use crate::surface::PhysicalSize;
use crate::surface::PresentMode;
use crate::surface::RenderPass;
use crate::surface::SwapChainDescriptor;
use crate::surface::TextureFormat;

verus! {

/// The mathematical model of a [`State`].
pub struct StateView {
    /// The last known size of the window.
    pub size: PhysicalSize,
    /// The configuration of the current swap chain.
    pub sc_desc: SwapChainDescriptor,
    /// The colour frames are cleared to.
    pub clear_colour: Colour,
}

impl StateView {
    /// The swap chain has the size of the window, and the clear colour is a
    /// colour.
    pub open spec fn wf(self) -> bool {
        &&& self.sc_desc.covers(self.size)
        &&& self.clear_colour.wf()
    }

    /// The state of a window of the given size that was never clicked.
    pub open spec fn init(size: PhysicalSize) -> StateView {
        StateView {
            size,
            sc_desc: SwapChainDescriptor {
                format: TextureFormat::Bgra8UnormSrgb,
                width: size.width,
                height: size.height,
                present_mode: PresentMode::Immediate,
            },
            clear_colour: Colour { r: 0, g: 0, b: 0, a: 0 },
        }
    }

    /// The state after the window took on `new_size`. A size without area
    /// changes nothing.
    pub open spec fn resize(self, new_size: PhysicalSize) -> StateView {
        if new_size.is_degenerate() {
            self
        } else {
            StateView {
                size: new_size,
                sc_desc: self.sc_desc.resized(new_size),
                clear_colour: self.clear_colour,
            }
        }
    }

    /// The state after the window took on each of `sizes` in turn.
    pub open spec fn resize_all(self, sizes: Seq<PhysicalSize>) -> StateView
        decreases sizes.len(),
    {
        if sizes.len() == 0 {
            self
        } else {
            self.resize_all(sizes.drop_last()).resize(sizes.last())
        }
    }

    /// The state with another clear colour.
    pub open spec fn with_clear_colour(self, colour: Colour) -> StateView {
        StateView { size: self.size, sc_desc: self.sc_desc, clear_colour: colour }
    }

    /// The pass that draws a frame of this state.
    pub open spec fn render(self) -> RenderPass {
        RenderPass { clear_colour: self.clear_colour, store: true }
    }
}

/// What is known of a window and of the swap chain that presents to it.
pub struct State {
    size: PhysicalSize,
    sc_desc: SwapChainDescriptor,
    clear_colour: Colour,
}

impl View for State {
    type V = StateView;

    closed spec fn view(&self) -> StateView {
        StateView { size: self.size, sc_desc: self.sc_desc, clear_colour: self.clear_colour }
    }
}

impl State {
    /// Holds of every render state: its model is well formed.
    #[verifier::type_invariant]
    pub open spec fn inv(self) -> bool {
        self@.wf()
    }

    /// The state of a freshly opened window of the given size: a swap chain
    /// of that size, presenting immediately, and transparent black as the
    /// clear colour.
    pub fn new(size: PhysicalSize) -> (state: State)
        ensures
            state@ == StateView::init(size),
            state@.wf(),
    {
        State {
            size,
            sc_desc: SwapChainDescriptor {
                format: TextureFormat::Bgra8UnormSrgb,
                width: size.width,
                height: size.height,
                present_mode: PresentMode::Immediate,
            },
            clear_colour: Colour::transparent_black(),
        }
    }

    /// The last known size of the window.
    pub fn size(&self) -> (size: PhysicalSize)
        ensures
            size == self@.size,
    {
        self.size
    }

    /// The configuration of the current swap chain. Its width and height are
    /// those of the window.
    pub fn sc_desc(&self) -> (sc_desc: SwapChainDescriptor)
        ensures
            sc_desc == self@.sc_desc,
            sc_desc.covers(self@.size),
    {
        proof {
            use_type_invariant(self);
        }
        self.sc_desc
    }

    /// The colour frames are cleared to.
    pub fn clear_colour(&self) -> (colour: Colour)
        ensures
            colour == self@.clear_colour,
            colour.wf(),
    {
        proof {
            use_type_invariant(self);
        }
        self.clear_colour
    }

    /// Takes over the new size of the window. Where the size has an area, the
    /// swap chain has to be created again, from the configuration that is
    /// returned. A size without area is ignored.
    pub fn resize(&mut self, new_size: PhysicalSize) -> (recreate: Option<SwapChainDescriptor>)
        ensures
            final(self)@ == old(self)@.resize(new_size),
            final(self)@.wf(),
            recreate == if new_size.is_degenerate() {
                None
            } else {
                Some(final(self)@.sc_desc)
            },
    {
        proof {
            use_type_invariant(&*self);
        }
        if new_size.is_degenerate() {
            None
        } else {
            let sc_desc = SwapChainDescriptor {
                format: self.sc_desc.format,
                width: new_size.width,
                height: new_size.height,
                present_mode: self.sc_desc.present_mode,
            };
            *self = State { size: new_size, sc_desc, clear_colour: self.clear_colour };
            Some(sc_desc)
        }
    }

    /// Offers a window event to the render state, and tells whether the state
    /// consumed it. Only a press of the left mouse button is consumed: it
    /// replaces the clear colour by a random opaque one.
    pub fn input(&mut self, event: &WindowEvent) -> (consumed: bool)
        ensures
            consumed == event.is_left_press(),
            !consumed ==> final(self)@ == old(self)@,
            consumed ==> final(self)@ == old(self)@.with_clear_colour(final(self)@.clear_colour),
            consumed ==> final(self)@.clear_colour.is_opaque_sample(),
            final(self)@.wf(),
    {
        proof {
            use_type_invariant(&*self);
        }
        match event {
            WindowEvent::MouseInput { state: ElementState::Pressed, button: MouseButton::Left } => {
                self.clear_colour = Self::random_colour();
                true
            },
            _ => false,
        }
    }

    /// Per-frame logic that runs before a frame is drawn. There is none.
    pub fn update(&mut self)
        ensures
            final(self)@ == old(self)@,
    {
    }

    /// The pass that draws the next frame: it clears the frame to the clear
    /// colour and stores the result.
    pub fn render(&self) -> (pass: RenderPass)
        ensures
            pass == self@.render(),
    {
        RenderPass { clear_colour: self.clear_colour, store: true }
    }

    /// Draws a random opaque colour: one word of the thread's generator for
    /// each of red, green and blue, in that order.
    fn random_colour() -> (colour: Colour)
        ensures
            colour.is_opaque_sample(),
            colour.wf(),
    {
        let mut rng = rand::thread_rng();
        let r: u64 = next_word(&mut rng);
        let g: u64 = next_word(&mut rng);
        let b: u64 = next_word(&mut rng);
        Colour::from_words(r, g, b)
    }
}

/// After any run of resizes that ends in a size with an area, the window
/// size and the width and height of the swap chain are those of the last
/// resize.
pub proof fn lemma_last_resize_wins(s: StateView, sizes: Seq<PhysicalSize>)
    requires
        sizes.len() > 0,
        !sizes.last().is_degenerate(),
    ensures
        s.resize_all(sizes).size == sizes.last(),
        s.resize_all(sizes).sc_desc.width == sizes.last().width,
        s.resize_all(sizes).sc_desc.height == sizes.last().height,
{
}

/// No run of resizes breaks a well-formed state, and none touches the clear
/// colour, the format or the present mode.
pub proof fn lemma_resize_all_preserves(s: StateView, sizes: Seq<PhysicalSize>)
    requires
        s.wf(),
    ensures
        s.resize_all(sizes).wf(),
        s.resize_all(sizes).clear_colour == s.clear_colour,
        s.resize_all(sizes).sc_desc.format == s.sc_desc.format,
        s.resize_all(sizes).sc_desc.present_mode == s.sc_desc.present_mode,
    decreases sizes.len(),
{
    if sizes.len() > 0 {
        lemma_resize_all_preserves(s, sizes.drop_last());
    }
}

/// Resizing a well-formed state to the size it already has changes nothing.
pub proof fn lemma_resize_to_own_size(s: StateView)
    requires
        s.wf(),
    ensures
        s.resize(s.size) == s,
{
}

/// A window that was never clicked is well formed, and its frames are cleared
/// to transparent black, whatever its size.
pub proof fn lemma_fresh_state_renders_transparent_black(size: PhysicalSize)
    ensures
        StateView::init(size).wf(),
        StateView::init(size).render().clear_colour.is_transparent_black(),
{
}

} // verus!
