use vstd::prelude::*;

verus! {

/// Number of bits in the register.
pub const FPSCR_NBITS: i8 = 64;

/// Whether bit `bit` of `value` is asserted. Bit 0 is the most significant bit
/// of the value and bit 63 the least significant one.
pub open spec fn bit_is_set(value: u64, bit: u8) -> bool {
    (value >> (63 - bit) as u64) & 1 == 1
}

/// Whether the architecture leaves bit `bit` without a meaning of its own.
pub open spec fn is_reserved(bit: u8) -> bool {
    bit <= 31 || bit == 52
}

/// The label of bit `bit`: its architectural name, or `"Reserved"`.
pub open spec fn bit_name(bit: u8) -> Seq<char> {
    match bit {
        32 => "FX"@,
        33 => "FEX"@,
        34 => "VX"@,
        35 => "OX"@,
        36 => "UX"@,
        37 => "ZX"@,
        38 => "XX"@,
        39 => "VXSNAN"@,
        40 => "VXSISI"@,
        41 => "VXIDI"@,
        42 => "VXZDZ"@,
        43 => "VXIMZ"@,
        44 => "VXVC"@,
        45 => "FR"@,
        46 => "FI"@,
        47 => "FPRF:C"@,
        48 => "FPRF:FPCC:FL"@,
        49 => "FPRF:FPCC:FG"@,
        50 => "FPRF:FPCC:FE"@,
        51 => "FPRF:FPCC:FU"@,
        53 => "VXSOFT"@,
        54 => "VXSQRT"@,
        55 => "VXCVI"@,
        56 => "VE"@,
        57 => "OE"@,
        58 => "UE"@,
        59 => "ZE"@,
        60 => "XE"@,
        61 => "NI"@,
        62 => "RN0"@,
        63 => "RN1"@,
        _ => "Reserved"@,
    }
}

/// What the architecture defines for one bit position: its label, and whether
/// the position is reserved.
pub struct BitDefinition {
    pub name: Seq<char>,
    pub reserved: bool,
}

/// The definition of bit `bit`.
pub open spec fn definition(bit: u8) -> BitDefinition {
    BitDefinition { name: bit_name(bit), reserved: is_reserved(bit) }
}

/// The bit indices `0`, `1`, ... up to but without `limit`.
pub open spec fn bit_numbers(limit: nat) -> Seq<u8> {
    Seq::new(limit, |i: int| i as u8)
}

/// The indices below `limit` of the bits asserted in `value`, in ascending
/// order.
pub open spec fn set_bits_below(value: u64, limit: nat) -> Seq<u8> {
    bit_numbers(limit).filter(|bit: u8| bit_is_set(value, bit))
}

/// The indices of the bits asserted in `value`, in ascending order.
pub open spec fn set_bits(value: u64) -> Seq<u8> {
    set_bits_below(value, FPSCR_NBITS as nat)
}

/// The line that reports bit `bit` as asserted.
pub open spec fn report_line(bit: u8) -> Seq<char> {
    bit_name(bit) + ": Set"@
}

/// One report line for each of `bits`, in the same order.
pub open spec fn lines_of(bits: Seq<u8>) -> Seq<Seq<char>> {
    bits.map_values(|bit: u8| report_line(bit))
}

/// The report on `value`: one line for each asserted bit, by ascending bit
/// index, and nothing for the other bits.
pub open spec fn report_lines(value: u64) -> Seq<Seq<char>> {
    lines_of(set_bits(value))
}

/// Looking at one more bit adds its index and its line if the bit is asserted,
/// and nothing otherwise.
pub proof fn lemma_report_step(value: u64, bit: u8)
    requires
        bit < FPSCR_NBITS,
    ensures
        bit_is_set(value, bit) ==> set_bits_below(value, (bit + 1) as nat) == set_bits_below(
            value,
            bit as nat,
        ).push(bit),
        bit_is_set(value, bit) ==> lines_of(set_bits_below(value, (bit + 1) as nat)) == lines_of(
            set_bits_below(value, bit as nat),
        ).push(report_line(bit)),
        !bit_is_set(value, bit) ==> set_bits_below(value, (bit + 1) as nat) == set_bits_below(
            value,
            bit as nat,
        ),
{
    let asserted = |bit: u8| bit_is_set(value, bit);
    assert(bit_numbers((bit + 1) as nat) =~= bit_numbers(bit as nat).push(bit));
    bit_numbers(bit as nat).lemma_filter_push(bit, asserted);
    if bit_is_set(value, bit) {
        assert(lines_of(set_bits_below(value, bit as nat).push(bit)) =~= lines_of(
            set_bits_below(value, bit as nat),
        ).push(report_line(bit)));
    }
}

} // verus!
