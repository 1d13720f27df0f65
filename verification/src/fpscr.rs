use vstd::prelude::*;
use vstd::string::StringExecFns;
use vstd::std_specs::convert::TryFromSpecImpl;
use crate::error::FpscrError;
use crate::laws::{lemma_mask_tests_bit, lemma_names};
use crate::layout::{
    bit_is_set, bit_name, definition, is_reserved, lemma_report_step, lines_of, report_lines,
    set_bits_below, BitDefinition, FPSCR_NBITS,
};

verus! {

/// The index of a bit of the register: a number from 0 to 63.
#[derive(Clone, Copy, Debug, PartialEq, Eq, Structural)]
pub struct BitNumber(u8);

impl View for BitNumber {
    type V = u8;

    closed spec fn view(&self) -> u8 {
        self.0
    }
}

impl BitNumber {
    #[verifier::type_invariant]
    spec fn in_range(self) -> bool {
        self.0 < FPSCR_NBITS
    }

    /// Checks that `bit_number` is the index of a bit of the register.
    pub fn new(bit_number: u8) -> (checked: Result<Self, FpscrError>)
        ensures
            bit_number < FPSCR_NBITS ==> checked is Ok && checked->Ok_0@ == bit_number,
            bit_number >= FPSCR_NBITS ==> checked == Err::<Self, FpscrError>(
                FpscrError::BitOutOfRange,
            ),
    {
        if bit_number > 63 {
            Err(FpscrError::BitOutOfRange)
        } else {
            Ok(BitNumber(bit_number))
        }
    }

    /// The index as a plain number.
    pub fn number(self) -> (number: u8)
        ensures
            number == self@,
            number < FPSCR_NBITS,
    {
        proof {
            use_type_invariant(self);
        }
        self.0
    }
}

impl TryFrom<u8> for BitNumber {
    type Error = FpscrError;

    /// The checked conversion of a plain number: see [`BitNumber::new`].
    fn try_from(value: u8) -> (checked: Result<Self, FpscrError>)
        ensures
            value < FPSCR_NBITS ==> checked is Ok && checked->Ok_0@ == value,
            value >= FPSCR_NBITS ==> checked == Err::<Self, FpscrError>(FpscrError::BitOutOfRange),
    {
        BitNumber::new(value)
    }
}

impl TryFromSpecImpl<u8> for BitNumber {
    open spec fn obeys_try_from_spec() -> bool {
        true
    }

    closed spec fn try_from_spec(value: u8) -> Result<Self, FpscrError> {
        if value < FPSCR_NBITS {
            Ok(BitNumber(value))
        } else {
            Err(FpscrError::BitOutOfRange)
        }
    }
}

/// One entry of the table of bit definitions.
pub struct FpscrBit {
    name: String,
    reserved: bool,
}

impl View for FpscrBit {
    type V = BitDefinition;

    closed spec fn view(&self) -> BitDefinition {
        BitDefinition { name: self.name@, reserved: self.reserved }
    }
}

impl FpscrBit {
    /// The entry of a reserved bit, under the label `"Reserved"`.
    pub fn reserved() -> (bit: Self)
        ensures
            bit@ == (BitDefinition { name: "Reserved"@, reserved: true }),
    {
        FpscrBit { name: "Reserved".to_owned(), reserved: true }
    }

    /// The entry of a bit that the architecture calls `name`.
    pub fn new(name: &str) -> (bit: Self)
        ensures
            bit@ == (BitDefinition { name: name@, reserved: false }),
    {
        FpscrBit { name: name.to_owned(), reserved: false }
    }

    /// A placeholder entry: reserved, and without a label.
    pub fn dummy() -> (bit: Self)
        ensures
            bit@ == (BitDefinition { name: Seq::<char>::empty(), reserved: true }),
    {
        FpscrBit { name: String::new(), reserved: true }
    }

    /// The label of the bit.
    pub fn name(&self) -> (name: &str)
        ensures
            name@ == self@.name,
    {
        self.name.as_str()
    }

    /// Whether the bit is reserved.
    pub fn is_reserved(&self) -> (reserved: bool)
        ensures
            reserved == self@.reserved,
    {
        self.reserved
    }
}

/// A register value together with the table of bit definitions. Its view is
/// the register value.
pub struct Fpscr {
    value: u64,
    bits: Vec<FpscrBit>,
}

impl View for Fpscr {
    type V = u64;

    closed spec fn view(&self) -> u64 {
        self.value
    }
}

impl Fpscr {
    /// The table holds, for each bit of the register, what the architecture
    /// defines for it.
    #[verifier::type_invariant]
    spec fn holds_the_definitions(&self) -> bool {
        &&& self.bits@.len() == FPSCR_NBITS
        &&& forall|bit: u8|
            bit < FPSCR_NBITS ==> (#[trigger] self.bits@[bit as int])@ == definition(bit)
    }

    /// The decoder of the register value `value`. Every 64-bit pattern is a
    /// register value.
    pub fn new(value: u64) -> (flags: Self)
        ensures
            flags@ == value,
    {
        let mut bits: Vec<FpscrBit> = Vec::with_capacity(64);
        let mut bit: u8 = 0;
        while bit < 32
            invariant
                bit <= 32,
                bits@.len() == bit,
                forall|b: u8| b < bit ==> (#[trigger] bits@[b as int])@ == definition(b),
            decreases 32 - bit,
        {
            bits.push(FpscrBit::reserved());
            bit += 1;
        }
        bits.push(FpscrBit::new("FX"));
        bits.push(FpscrBit::new("FEX"));
        bits.push(FpscrBit::new("VX"));
        bits.push(FpscrBit::new("OX"));
        bits.push(FpscrBit::new("UX"));
        bits.push(FpscrBit::new("ZX"));
        bits.push(FpscrBit::new("XX"));
        bits.push(FpscrBit::new("VXSNAN"));
        bits.push(FpscrBit::new("VXSISI"));
        bits.push(FpscrBit::new("VXIDI"));
        bits.push(FpscrBit::new("VXZDZ"));
        bits.push(FpscrBit::new("VXIMZ"));
        bits.push(FpscrBit::new("VXVC"));
        bits.push(FpscrBit::new("FR"));
        bits.push(FpscrBit::new("FI"));
        bits.push(FpscrBit::new("FPRF:C"));
        bits.push(FpscrBit::new("FPRF:FPCC:FL"));
        bits.push(FpscrBit::new("FPRF:FPCC:FG"));
        bits.push(FpscrBit::new("FPRF:FPCC:FE"));
        bits.push(FpscrBit::new("FPRF:FPCC:FU"));
        bits.push(FpscrBit::reserved());
        bits.push(FpscrBit::new("VXSOFT"));
        bits.push(FpscrBit::new("VXSQRT"));
        bits.push(FpscrBit::new("VXCVI"));
        bits.push(FpscrBit::new("VE"));
        bits.push(FpscrBit::new("OE"));
        bits.push(FpscrBit::new("UE"));
        bits.push(FpscrBit::new("ZE"));
        bits.push(FpscrBit::new("XE"));
        bits.push(FpscrBit::new("NI"));
        bits.push(FpscrBit::new("RN0"));
        bits.push(FpscrBit::new("RN1"));
        Fpscr { value, bits }
    }

    /// Whether bit `bit` is asserted in the register value.
    pub fn is_set(&self, bit: BitNumber) -> (set: bool)
        ensures
            set == bit_is_set(self@, bit@),
            set == ((self@ & (1u64 << (63 - bit@) as u8)) != 0),
    {
        Self::is_bit_set(self.value, bit)
    }

    /// The label of bit `bit`: its architectural name, or `"Reserved"` for a
    /// reserved bit. No bit goes without a label.
    pub fn get_name(&self, bit: BitNumber) -> (name: String)
        ensures
            name@ == bit_name(bit@),
            name@.len() > 0,
            is_reserved(bit@) <==> name@ == "Reserved"@,
    {
        let number = bit.number();
        proof {
            use_type_invariant(self);
            lemma_names(number);
        }
        self.bits[number as usize].name.clone()
    }

    /// The report on the register value: for each asserted bit, by ascending
    /// bit index, the line `<name>: Set`.
    pub fn report(&self) -> (lines: Vec<String>)
        ensures
            lines.deep_view() == report_lines(self@),
    {
        let mut lines: Vec<String> = Vec::new();
        let mut bit_number: i8 = 0;
        while bit_number < FPSCR_NBITS
            invariant
                0 <= bit_number <= FPSCR_NBITS,
                lines.deep_view() == lines_of(set_bits_below(self@, bit_number as nat)),
            decreases FPSCR_NBITS - bit_number,
        {
            let bit = BitNumber(bit_number as u8);
            if self.is_set(bit) {
                let mut line = self.get_name(bit);
                line.append(": Set");
                lines.push(line);
            }
            proof {
                lemma_report_step(self@, bit_number as u8);
            }
            bit_number += 1;
        }
        lines
    }

    fn is_bit_set(value: u64, bit: BitNumber) -> (set: bool)
        ensures
            set == bit_is_set(value, bit@),
            set == ((value & (1u64 << (63 - bit@) as u8)) != 0),
    {
        let number = bit.number();
        proof {
            lemma_mask_tests_bit(value, number);
        }
        (value & (1u64 << (63 - number))) != 0
    }
}

} // verus!
