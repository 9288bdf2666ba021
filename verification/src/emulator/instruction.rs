//! The bit fields of an instruction word.
use crate::numbers;
use crate::numbers::{bit_is_set, decimal_of, low_bits, shifted_down, sign_extended, two_to};
use vstd::prelude::*;

verus! {

/// One LC-3 instruction word, laid out as `OOOO_DDD_P_PPPP_PPPP`: the opcode in
/// the top four bits, then fields whose meaning depends on the opcode.
#[derive(Copy, Clone, Debug, PartialEq, Eq)]
pub struct Instruction(u16);

impl View for Instruction {
    type V = u16;

    /// The instruction word.
    closed spec fn view(&self) -> u16 {
        self.0
    }
}

/// Bits `from` to `to` of `word`, both counted from bit 0 and included, moved
/// down so that bit `from` becomes bit 0: `(word / 2^from) % 2^(to - from + 1)`.
pub open spec fn bit_range(word: u16, from: u8, to: u8) -> u16
    recommends
        from <= to <= 15,
{
    low_bits(shifted_down(word, from), (to - from + 1) as u8)
}

/// The opcode of an instruction word: bits 15 to 12.
pub open spec fn op_code_of(word: u16) -> u8 {
    bit_range(word, 12, 15) as u8
}

/// The destination register of an instruction word: bits 11 to 9.
pub open spec fn dr_of(word: u16) -> u8 {
    bit_range(word, 9, 11) as u8
}

/// The first source register, or the base register, of an instruction word:
/// bits 8 to 6.
pub open spec fn sr1_of(word: u16) -> u8 {
    bit_range(word, 6, 8) as u8
}

/// The second source register of an instruction word: bits 2 to 0.
pub open spec fn sr2_of(word: u16) -> u8 {
    bit_range(word, 0, 2) as u8
}

/// Whether an instruction word carries an immediate operand: bit 5.
pub open spec fn is_immediate_word(word: u16) -> bool {
    bit_is_set(word, 5)
}

/// The immediate operand of an instruction word: bits 4 to 0, sign-extended.
pub open spec fn immediate_of(word: u16) -> u16 {
    sign_extended(bit_range(word, 0, 4), 5)
}

/// The offset in the low `len` bits of an instruction word, as a number.
pub open spec fn offset_of(word: u16, len: u8) -> i16
    recommends
        1 <= len <= 15,
{
    decimal_of(sign_extended(bit_range(word, 0, (len - 1) as u8), len))
}

/// What shifting a word down and masking it compute, in arithmetic.
pub proof fn lemma_bit_range_bits(word: u16, from: u8, width: u8)
    by (bit_vector)
    requires
        from <= 15,
        1 <= width <= 16,
        from + width <= 16,
    ensures
        2 <= (1u32 << (width as u32)) <= 0x1_0000,
        ((word >> (from as u16)) as u32) & (((1u32 << (width as u32)) - 1) as u32) == low_bits(
            shifted_down(word, from),
            width,
        ) as u32,
        (low_bits(shifted_down(word, from), width) as u32) < two_to(width),
        (low_bits(word, width) as u32) < two_to(width),
{
}

impl Instruction {
    /// The instruction that `bits` encodes.
    pub fn from_bits(bits: u16) -> (instruction: Self)
        ensures
            instruction@ == bits,
    {
        Self(bits)
    }

    /// The value of bits `from` to `to` of the word, `to` included.
    pub fn get_bit_range(self, from: u8, to: u8) -> (value: u16)
        requires
            from <= to <= 15,
        ensures
            value == bit_range(self@, from, to),
            value < two_to((to - from + 1) as u8),
    {
        let width: u32 = (to - from + 1) as u32;
        proof {
            lemma_bit_range_bits(self.0, from, (to - from + 1) as u8);
        }
        let keep: u32 = (1u32 << width) - 1;
        let value: u32 = ((self.0 >> from) as u32) & keep;
        value as u16
    }

    /// The value of bits `from` to `to` as a byte. The value has to fit: a
    /// range of at most eight bits always does.
    pub fn get_bit_range_u8(self, from: u8, to: u8, _expect: &str) -> (value: u8)
        requires
            from <= to <= 15,
            bit_range(self@, from, to) <= u8::MAX,
        ensures
            value == bit_range(self@, from, to),
    {
        self.get_bit_range(from, to) as u8
    }

    /// Whether bit `index` is set.
    pub fn get_bit(self, index: u8) -> (set: bool)
        requires
            index <= 15,
        ensures
            set == bit_is_set(self@, index),
    {
        self.get_bit_range(index, index) == 1
    }

    /// The opcode: bits 15 to 12.
    #[verifier::when_used_as_spec(spec_op_code)]
    pub fn op_code(self) -> (code: u8)
        ensures
            code == self.spec_op_code(),
            code <= 15,
    {
        self.get_bit_range_u8(12, 15, "Error parsing op_code")
    }

    /// The number of the destination register (for stores, of the register
    /// that is stored): bits 11 to 9.
    #[verifier::when_used_as_spec(spec_dr_number)]
    pub fn dr_number(self) -> (number: u8)
        ensures
            number == self.spec_dr_number(),
            number <= 7,
    {
        self.get_bit_range_u8(9, 11, "Error parsing dr")
    }

    /// The number of the first source register, which is also the base
    /// register of jumps and of register-relative loads and stores: bits 8 to 6.
    #[verifier::when_used_as_spec(spec_sr1_number)]
    pub fn sr1_number(self) -> (number: u8)
        ensures
            number == self.spec_sr1_number(),
            number <= 7,
    {
        self.get_bit_range_u8(6, 8, "Error parsing sr1")
    }

    /// The number of the second source register: bits 2 to 0.
    #[verifier::when_used_as_spec(spec_sr2_number)]
    pub fn sr2_number(self) -> (number: u8)
        ensures
            number == self.spec_sr2_number(),
            number <= 7,
    {
        self.get_bit_range_u8(0, 2, "Error parsing sr2")
    }

    /// Whether the second operand is the immediate in the word: bit 5.
    #[verifier::when_used_as_spec(spec_is_immediate)]
    pub fn is_immediate(self) -> (immediate: bool)
        ensures
            immediate == self.spec_is_immediate(),
    {
        self.get_bit_range(5, 5) == 1
    }

    /// The immediate operand: bits 4 to 0, sign-extended to a word.
    #[verifier::when_used_as_spec(spec_get_immediate)]
    pub fn get_immediate(self) -> (immediate: u16)
        ensures
            immediate == self.spec_get_immediate(),
    {
        Self::sign_extend(self.get_bit_range(0, 4), 5)
    }

    /// The offset in the low `len` bits of the word, read as a two's
    /// complement number of that width: from `-2^(len-1)` to `2^(len-1) - 1`.
    #[verifier::when_used_as_spec(spec_pc_offset)]
    pub fn pc_offset(self, len: u8) -> (offset: i16)
        requires
            1 <= len <= 15,
        ensures
            offset == self.spec_pc_offset(len),
            -(two_to((len - 1) as u8) as int) <= offset < two_to((len - 1) as u8),
    {
        let field: u16 = self.get_bit_range(0, len - 1);
        let bin_rep: u16 = Self::sign_extend(field, len);
        proof {
            numbers::lemma_sign_extended_value(field, len);
            lemma_bit_range_bits(self.0, 0, len);
        }
        numbers::twos_complement_to_decimal(bin_rep)
    }

    /// Sign extension of the low `valid_bits` bits of `bits`.
    pub fn sign_extend(bits: u16, valid_bits: u8) -> (extended: u16)
        requires
            1 <= valid_bits <= 15,
        ensures
            extended == sign_extended(bits, valid_bits),
    {
        numbers::sign_extend(bits, valid_bits)
    }

    pub open spec fn spec_op_code(self) -> u8 {
        op_code_of(self@)
    }

    pub open spec fn spec_dr_number(self) -> u8 {
        dr_of(self@)
    }

    pub open spec fn spec_sr1_number(self) -> u8 {
        sr1_of(self@)
    }

    pub open spec fn spec_sr2_number(self) -> u8 {
        sr2_of(self@)
    }

    pub open spec fn spec_is_immediate(self) -> bool {
        is_immediate_word(self@)
    }

    pub open spec fn spec_get_immediate(self) -> u16 {
        immediate_of(self@)
    }

    pub open spec fn spec_pc_offset(self, len: u8) -> i16
        recommends
            1 <= len <= 15,
    {
        offset_of(self@, len)
    }
}

impl From<u16> for Instruction {
    /// The instruction that `bits` encodes.
    fn from(bits: u16) -> (instruction: Self)
        ensures
            instruction@ == bits,
    {
        Self(bits)
    }
}

impl vstd::std_specs::convert::FromSpecImpl<u16> for Instruction {
    open spec fn obeys_from_spec() -> bool {
        true
    }

    closed spec fn from_spec(bits: u16) -> Self {
        Instruction(bits)
    }
}

/// A bit range holds exactly the bits from `from` to `to`, moved down to
/// bit 0: it is the word divided by `2^from`, without what lies above its
/// `to - from + 1` bits, and so it is below `2^(to - from + 1)`.
pub proof fn lemma_bit_range_is_quotient_remainder(word: u16, from: u8, to: u8)
    by (bit_vector)
    requires
        from <= to <= 15,
    ensures
        bit_range(word, from, to) as u32 == ((word as u32) / two_to(from)) % two_to(
            (to - from + 1) as u8,
        ),
        (bit_range(word, from, to) as u32) < two_to((to - from + 1) as u8),
{
}

} // verus!
