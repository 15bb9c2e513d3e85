//! The output driver: derives a 4-bit pattern from the state machine's
//! value and turns each bit into the electrical level of an active-low LED
//! pin. Bit `i` of the pattern maps to LED `i`; the inversion for the
//! active-low wiring happens here and nowhere else.

use vstd::prelude::*;

verus! {

/// Number of LED output pins in the bank.
pub const LED_COUNT: usize = 4;

/// The low 4 bits of `value`: what the LED bank displays, pre-inversion.
pub open spec fn spec_pattern(value: u32) -> u32 {
    value & 0xf
}

/// Bit `i` of `pattern`: whether LED `i` is lit.
pub open spec fn spec_bit(pattern: u32, i: u32) -> bool {
    pattern >> i & 1 == 1
}

/// The electrical level driven onto pin `i` for `value`: the pattern bit,
/// inverted for the active-low wiring (a lit LED is a low pin).
pub open spec fn spec_pin_level(value: u32, i: u32) -> bool {
    !spec_bit(spec_pattern(value), i)
}

/// The 4-bit LED pattern for a state value.
pub fn led_pattern(value: u32) -> (p: u32)
    ensures
        p == spec_pattern(value),
{
    value & 0xf
}

/// Whether LED `i` is lit under `pattern`.
pub fn led_lit(pattern: u32, i: u32) -> (b: bool)
    requires
        i < 4,
    ensures
        b == spec_bit(pattern, i),
{
    pattern >> i & 1 == 1
}

/// The inversion applied at the driver boundary: an active-low pin is driven
/// low exactly when the LED must be on.
pub fn drive_level(lit: bool) -> (level: bool)
    ensures
        level == !lit,
{
    !lit
}

/// The four pin levels for a state value, index `i` holding pin `i`'s level.
pub fn pin_levels(value: u32) -> (levels: Vec<bool>)
    ensures
        levels@.len() == LED_COUNT,
        forall|i: u32| i < 4 ==> levels@[i as int] == spec_pin_level(value, i),
{
    let pattern = led_pattern(value);
    let mut levels: Vec<bool> = Vec::new();
    levels.push(drive_level(led_lit(pattern, 0)));
    levels.push(drive_level(led_lit(pattern, 1)));
    levels.push(drive_level(led_lit(pattern, 2)));
    levels.push(drive_level(led_lit(pattern, 3)));
    assert forall|i: u32| i < 4 implies levels@[i as int] == spec_pin_level(value, i) by {
        assert(levels@ == seq![
            !spec_bit(spec_pattern(value), 0),
            !spec_bit(spec_pattern(value), 1),
            !spec_bit(spec_pattern(value), 2),
            !spec_bit(spec_pattern(value), 3),
        ]);
    }
    levels
}

/// LED pattern round trip: for every counter value the derived 4-bit pattern
/// equals `value % 16` (so it is exactly `value` for counts below 16), and
/// each pin level, being the inverted pattern bit, recovers that bit when
/// inverted again.
pub proof fn lemma_pattern_round_trip(value: u32)
    ensures
        spec_pattern(value) == value % 16,
        value <= 15 ==> spec_pattern(value) == value,
        forall|i: u32| i < 4 ==> !spec_pin_level(value, i) == spec_bit(spec_pattern(value), i),
{
    assert(value & 0xf == value % 16) by (bit_vector);
}

} // verus!
