use lc3_emulator::numbers::{decimal_to_twos_complement, sign_extend, twos_complement_to_decimal};

#[test]
fn test_decimal_to_twos_complement() {
    let cases: [(i16, u16); 6] = [
        (i16::MIN, 0b1000_0000_0000_0000),
        (i16::MIN + 1, 0b1000_0000_0000_0001),
        (0, 0b0000_0000_0000_0000),
        (1, 0b0000_0000_0000_0001),
        (i16::MAX - 1, 0b0111_1111_1111_1110),
        (i16::MAX, 0b0111_1111_1111_1111),
    ];
    for (input, expected) in cases {
        assert_eq!(decimal_to_twos_complement(input), expected);
    }
}

#[test]
fn test_twos_complement_to_decimal() {
    let cases: [(u16, i16); 6] = [
        (0b1000_0000_0000_0000, i16::MIN),
        (0b1000_0000_0000_0001, i16::MIN + 1),
        (0b0000_0000_0000_0000, 0),
        (1, 0b0000_0000_0000_0001),
        (0b0111_1111_1111_1110, i16::MAX - 1),
        (0b0111_1111_1111_1111, i16::MAX),
    ];
    for (input, expected) in cases {
        assert_eq!(twos_complement_to_decimal(input), expected);
    }
}

#[test]
fn round_trip_holds_for_every_word() {
    for v in 0..=u16::MAX {
        assert_eq!(decimal_to_twos_complement(twos_complement_to_decimal(v)), v);
    }
    for d in i16::MIN..=i16::MAX {
        assert_eq!(twos_complement_to_decimal(decimal_to_twos_complement(d)), d);
    }
}

#[test]
fn sign_extend_repeats_the_top_bit_of_the_field() {
    assert_eq!(sign_extend(0b0_1110, 5), 14);
    assert_eq!(sign_extend(0b1_1110, 5), 0xFFFE);
    assert_eq!(sign_extend(0b10_0000, 6), 0xFFE0);
    assert_eq!(sign_extend(0b0_0101_0101, 9), 0x55);
    assert_eq!(sign_extend(0b1_0000_0000, 9), 0xFF00);
    assert_eq!(sign_extend(1, 1), 0xFFFF);
    assert_eq!(sign_extend(0x4000, 15), 0xC000);
    assert_eq!(sign_extend(0x3FFF, 15), 0x3FFF);
}

#[test]
fn sign_extend_looks_only_at_the_top_bit_of_the_field() {
    // bit 1 is set: ones are ORed in above the field
    assert_eq!(sign_extend(0b111, 2), 0xFFFF);
    assert_eq!(sign_extend(0b1_0010, 2), 0xFFFE);
    // bit 1 is clear: the word stays as it is, whatever stands above
    assert_eq!(sign_extend(0b101, 2), 0b101);
    assert_eq!(sign_extend(0xFFE1, 5), 0xFFE1);
}
