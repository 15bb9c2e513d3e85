use led_counter::output::{drive_level, led_lit, led_pattern, pin_levels};

#[test]
fn pattern_is_low_four_bits() {
    // For every counter value the 4-bit pattern equals count & 0b1111.
    let mut count: u32 = 0;
    while count <= 32 {
        assert_eq!(led_pattern(count), count & 0b1111);
        count = count + 1;
    }
    assert_eq!(led_pattern(0), 0);
    assert_eq!(led_pattern(3), 3);
    assert_eq!(led_pattern(15), 15);
    assert_eq!(led_pattern(16), 0);
    assert_eq!(led_pattern(19), 3);
    assert_eq!(led_pattern(32), 0);
}

#[test]
fn bits_map_to_leds() {
    // Bit i of the pattern is LED i: 3 lights the two low LEDs.
    assert!(led_lit(3, 0));
    assert!(led_lit(3, 1));
    assert!(!led_lit(3, 2));
    assert!(!led_lit(3, 3));
    assert!(led_lit(8, 3));
    assert!(!led_lit(8, 0));
}

#[test]
fn active_low_inversion_round_trip() {
    // Each bit, once inverted for the active-low wiring, matches !bit.
    assert_eq!(drive_level(true), false);
    assert_eq!(drive_level(false), true);
    let mut count: u32 = 0;
    while count <= 32 {
        let levels = pin_levels(count);
        assert_eq!(levels.len(), 4);
        let mut i: u32 = 0;
        while i < 4 {
            let bit = (led_pattern(count) >> i) & 1 == 1;
            assert_eq!(levels[i as usize], !bit);
            i = i + 1;
        }
        count = count + 1;
    }
}

#[test]
fn levels_for_three_post_inversion() {
    // Value 3: the two low pins are driven low (LEDs lit), the high two high.
    let levels = pin_levels(3);
    assert_eq!(levels, vec![false, false, true, true]);
}
