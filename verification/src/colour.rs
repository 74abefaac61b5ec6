//! Clear colours with channels held as exact binary fractions.

use vstd::prelude::*;

verus! {

/// The numerator that stands for a channel value of exactly one: two to the
/// power of 53, so that every channel is a double without rounding.
pub const ONE: u64 = 0x20_0000_0000_0000;

/// A colour of four channels. Each field is the numerator of a fraction whose
/// denominator is [`ONE`], so `r == ONE / 2` is half-intensity red.
#[derive(Clone, Copy, Debug, PartialEq, Eq, Structural)]
pub struct Colour {
    pub r: u64,
    pub g: u64,
    pub b: u64,
    pub a: u64,
}

/// The channel that a uniformly random 64-bit word stands for: its upper 53
/// bits, read as a fraction of [`ONE`].
pub open spec fn channel_of(word: u64) -> u64 {
    word >> 11
}

impl Colour {
    /// Every channel lies in the closed unit interval.
    pub open spec fn wf(self) -> bool {
        &&& self.r <= ONE
        &&& self.g <= ONE
        &&& self.b <= ONE
        &&& self.a <= ONE
    }

    /// All four channels are zero.
    pub open spec fn is_transparent_black(self) -> bool {
        self == (Colour { r: 0, g: 0, b: 0, a: 0 })
    }

    /// The colour channels lie in the half-open unit interval and alpha is one.
    pub open spec fn is_opaque_sample(self) -> bool {
        &&& self.r < ONE
        &&& self.g < ONE
        &&& self.b < ONE
        &&& self.a == ONE
    }

    /// The opaque colour that three random words stand for.
    pub open spec fn spec_from_words(r: u64, g: u64, b: u64) -> Colour {
        Colour { r: channel_of(r), g: channel_of(g), b: channel_of(b), a: ONE }
    }

    /// Transparent black, the colour of a window that was never clicked.
    pub fn transparent_black() -> (colour: Colour)
        ensures
            colour.is_transparent_black(),
            colour.wf(),
    {
        Colour { r: 0, g: 0, b: 0, a: 0 }
    }

    /// Builds an opaque colour from three 64-bit words, one per colour
    /// channel. Where the words are uniformly random, each channel is uniform
    /// over the multiples of `1 / ONE` in `[0, 1)`.
    pub fn from_words(r: u64, g: u64, b: u64) -> (colour: Colour)
        ensures
            colour == Colour::spec_from_words(r, g, b),
            colour.is_opaque_sample(),
            colour.wf(),
    {
        proof {
            lemma_channel_below_one(r);
            lemma_channel_below_one(g);
            lemma_channel_below_one(b);
        }
        Colour { r: r >> 11, g: g >> 11, b: b >> 11, a: ONE }
    }
}

/// The channel of any word is strictly below one.
pub proof fn lemma_channel_below_one(word: u64)
    ensures
        channel_of(word) < ONE,
{
    assert(word >> 11 < 0x20_0000_0000_0000u64) by (bit_vector);
}

} // verus!
