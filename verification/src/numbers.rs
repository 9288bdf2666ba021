//! Two's complement on 16-bit words.
use vstd::prelude::*;

verus! {

/// The signed number that a 16-bit pattern stands for: patterns from `0x8000`
/// on count downwards from `-1` at `0xFFFF`.
pub open spec fn decimal_of(bin_rep: u16) -> i16 {
    if bin_rep >= 0x8000 {
        (bin_rep - 0x1_0000) as i16
    } else {
        bin_rep as i16
    }
}

/// The 16-bit pattern that stands for a signed number.
pub open spec fn bits_of(decimal: i16) -> u16 {
    if decimal < 0 {
        (decimal + 0x1_0000) as u16
    } else {
        decimal as u16
    }
}

/// `2^n` for the widths that occur in a 16-bit word, `n` from 0 to 16.
pub open spec fn two_to(n: u8) -> u32 {
    if n == 0 {
        1
    } else if n == 1 {
        2
    } else if n == 2 {
        4
    } else if n == 3 {
        8
    } else if n == 4 {
        16
    } else if n == 5 {
        32
    } else if n == 6 {
        64
    } else if n == 7 {
        128
    } else if n == 8 {
        256
    } else if n == 9 {
        512
    } else if n == 10 {
        1024
    } else if n == 11 {
        2048
    } else if n == 12 {
        4096
    } else if n == 13 {
        8192
    } else if n == 14 {
        16384
    } else if n == 15 {
        32768
    } else {
        65536
    }
}

/// `word / 2^n`: the word without its low `n` bits, `n` from 0 to 16.
pub open spec fn shifted_down(word: u16, n: u8) -> u16 {
    if n == 0 {
        word
    } else if n == 1 {
        word / 2
    } else if n == 2 {
        word / 4
    } else if n == 3 {
        word / 8
    } else if n == 4 {
        word / 16
    } else if n == 5 {
        word / 32
    } else if n == 6 {
        word / 64
    } else if n == 7 {
        word / 128
    } else if n == 8 {
        word / 256
    } else if n == 9 {
        word / 512
    } else if n == 10 {
        word / 1024
    } else if n == 11 {
        word / 2048
    } else if n == 12 {
        word / 4096
    } else if n == 13 {
        word / 8192
    } else if n == 14 {
        word / 16384
    } else if n == 15 {
        word / 32768
    } else {
        0
    }
}

/// `word % 2^n`: the low `n` bits of the word, `n` from 0 to 16.
pub open spec fn low_bits(word: u16, n: u8) -> u16 {
    if n == 0 {
        0
    } else if n == 1 {
        word % 2
    } else if n == 2 {
        word % 4
    } else if n == 3 {
        word % 8
    } else if n == 4 {
        word % 16
    } else if n == 5 {
        word % 32
    } else if n == 6 {
        word % 64
    } else if n == 7 {
        word % 128
    } else if n == 8 {
        word % 256
    } else if n == 9 {
        word % 512
    } else if n == 10 {
        word % 1024
    } else if n == 11 {
        word % 2048
    } else if n == 12 {
        word % 4096
    } else if n == 13 {
        word % 8192
    } else if n == 14 {
        word % 16384
    } else if n == 15 {
        word % 32768
    } else {
        word
    }
}

/// Whether bit `index` of `bits` is set.
pub open spec fn bit_is_set(bits: u16, index: u8) -> bool
    recommends
        index <= 15,
{
    shifted_down(bits, index) % 2 == 1
}

/// The sign extension of the field in the low `valid_bits` bits of `bits`:
/// where the field's top bit, bit `valid_bits - 1`, is set, all bits above
/// the field are set as well; where it is not, the word is left as it is.
pub open spec fn sign_extended(bits: u16, valid_bits: u8) -> u16
    recommends
        1 <= valid_bits <= 15,
{
    if bit_is_set(bits, (valid_bits - 1) as u8) {
        (low_bits(bits, valid_bits) + 0x1_0000 - two_to(valid_bits)) as u16
    } else {
        bits
    }
}

/// What shifting a word and setting the bits above bit `n` compute, in
/// arithmetic.
pub proof fn lemma_sign_extension_bits(bits: u16, n: u8)
    by (bit_vector)
    requires
        1 <= n <= 15,
    ensures
        2 <= two_to(n) <= 0x8000,
        1 <= two_to((n - 1) as u8) <= 0x4000,
        ((bits >> ((n - 1) as u16)) & 1u16 == 1u16) <==> shifted_down(bits, (n - 1) as u8) % 2
            == 1,
        (bits | (0xFFFFu16 << (n as u16))) as u32 == (low_bits(bits, n) as u32) + 0x1_0000
            - two_to(n),
        (shifted_down(bits, (n - 1) as u8) % 2 == 1) <==> low_bits(bits, n) as u32 >= two_to(
            (n - 1) as u8,
        ),
        (low_bits(bits, n) as u32) < two_to(n),
        (bits as u32) < two_to(n) ==> low_bits(bits, n) == bits,
{
}

#[verifier::when_used_as_spec(decimal_of)]
pub fn twos_complement_to_decimal(bin_rep: u16) -> (decimal: i16)
    ensures
        decimal == decimal_of(bin_rep),
{
    let is_negative = (bin_rep >> 15) & 1 == 1;
    assert(((bin_rep >> 15) & 1 == 1) <==> bin_rep >= 0x8000) by (bit_vector);
    if is_negative {
        let low: u16 = bin_rep & 0x7FFF;
        assert(bin_rep >= 0x8000 ==> (bin_rep & 0x7FFF) == bin_rep - 0x8000) by (bit_vector);
        let res: i32 = low as i32 - 0x8000;
        res as i16
    } else {
        bin_rep as i16
    }
}

#[verifier::when_used_as_spec(bits_of)]
pub fn decimal_to_twos_complement(decimal: i16) -> (bin_rep: u16)
    ensures
        bin_rep == bits_of(decimal),
{
    if decimal >= 0 {
        decimal as u16
    } else {
        let abs_val: u16 = (-(decimal as i32)) as u16;
        assert(1 <= abs_val <= 0x8000 ==> (!abs_val).wrapping_add(1) == 0x1_0000 - abs_val)
            by (bit_vector);
        (!abs_val).wrapping_add(1)
    }
}

/// Sign extension: widens the two's complement number in the low `valid_bits`
/// bits of `bits` to sixteen bits. Where the number's top bit is set, a mask
/// of ones above the number is ORed in; where it is not, `bits` is returned
/// as it is.
#[verifier::when_used_as_spec(sign_extended)]
pub fn sign_extend(bits: u16, valid_bits: u8) -> (extended: u16)
    requires
        1 <= valid_bits <= 15,
    ensures
        extended == sign_extended(bits, valid_bits),
{
    let width: u16 = valid_bits as u16;
    let most_significant_bit: u16 = (bits >> (width - 1)) & 1;
    proof {
        lemma_sign_extension_bits(bits, valid_bits);
    }
    if most_significant_bit == 1 {
        // negative: 1-extend
        bits | (0xFFFFu16 << width)
    } else {
        // positive, already 0-extended
        bits
    }
}

/// Converting a 16-bit pattern to the number it stands for and back gives the
/// pattern again.
pub proof fn lemma_round_trip_of_bits(bin_rep: u16)
    ensures
        decimal_to_twos_complement(twos_complement_to_decimal(bin_rep)) == bin_rep,
{
}

/// Converting a signed 16-bit number to its pattern and back gives the number
/// again.
pub proof fn lemma_round_trip_of_decimal(decimal: i16)
    ensures
        twos_complement_to_decimal(decimal_to_twos_complement(decimal)) == decimal,
{
}

/// A sign-extended field stands for the same number as the field read in
/// two's complement of its own width: the field's value, less `2^valid_bits`
/// where its top bit is set, which it is from `2^(valid_bits - 1)` on.
pub proof fn lemma_sign_extended_value(bits: u16, valid_bits: u8)
    requires
        1 <= valid_bits <= 15,
        bits < two_to(valid_bits),
    ensures
        decimal_of(sign_extended(bits, valid_bits)) == if bits >= two_to(
            (valid_bits - 1) as u8,
        ) {
            bits - two_to(valid_bits)
        } else {
            bits as int
        },
{
    lemma_sign_extension_bits(bits, valid_bits);
}

} // verus!
