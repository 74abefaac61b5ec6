use render_state::colour::{Colour, ONE};

fn unit(channel: u64) -> f64 {
    channel as f64 / ONE as f64
}

#[test]
fn one_is_two_to_the_53() {
    assert_eq!(ONE, 1u64 << 53);
    assert_eq!(ONE, 9_007_199_254_740_992);
}

#[test]
fn transparent_black_is_all_zero() {
    let c = Colour::transparent_black();
    assert_eq!(c, Colour { r: 0, g: 0, b: 0, a: 0 });
    assert_eq!((unit(c.r), unit(c.g), unit(c.b), unit(c.a)), (0.0, 0.0, 0.0, 0.0));
}

#[test]
fn from_words_keeps_the_upper_53_bits() {
    let c = Colour::from_words(u64::MAX, 0, 1 << 11);
    assert_eq!(c, Colour { r: ONE - 1, g: 0, b: 1, a: ONE });
}

#[test]
fn from_words_drops_the_lower_11_bits() {
    let c = Colour::from_words(0x7ff, 0x800, 0xfff);
    assert_eq!(c, Colour { r: 0, g: 1, b: 1, a: ONE });
}

#[test]
fn from_words_half_and_quarter() {
    let c = Colour::from_words(1 << 63, 1 << 62, 3 << 62);
    assert_eq!(c, Colour { r: ONE / 2, g: ONE / 4, b: ONE / 4 * 3, a: ONE });
    assert_eq!((unit(c.r), unit(c.g), unit(c.b), unit(c.a)), (0.5, 0.25, 0.75, 1.0));
}

#[test]
fn from_words_does_not_mix_channels() {
    let c = Colour::from_words(1 << 11, 2 << 11, 3 << 11);
    assert_eq!((c.r, c.g, c.b, c.a), (1, 2, 3, ONE));
}

#[test]
fn largest_channel_is_below_one_as_a_double() {
    let c = Colour::from_words(u64::MAX, u64::MAX, u64::MAX);
    assert!(unit(c.r) < 1.0);
    assert_eq!(unit(c.r), 1.0 - f64::EPSILON / 2.0);
    assert_eq!(unit(c.a), 1.0);
}
