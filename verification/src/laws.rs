use vstd::prelude::*;
use crate::parse::{hex_digit, hex_value, is_hex_number, register_value, without_prefix};
use crate::layout::{
    bit_is_set, bit_name, is_reserved, lemma_report_step, report_line, report_lines,
    set_bits, set_bits_below, FPSCR_NBITS,
};

verus! {

/// A bit is asserted exactly when the value has a bit in common with the mask
/// that holds that one bit: the test by mask and the test by shift agree.
pub proof fn lemma_mask_tests_bit(value: u64, bit: u8)
    requires
        bit < FPSCR_NBITS,
    ensures
        (value & (1u64 << (63 - bit) as u8)) != 0 <==> bit_is_set(value, bit),
{
    let shift = (63 - bit) as u8;
    assert((value & (1u64 << shift)) != 0 <==> (value >> shift as u64) & 1 == 1) by (bit_vector)
        requires
            shift <= 63,
    ;
}

/// How long each label is.
proof fn lemma_label_lengths()
    ensures
        "Reserved"@.len() == 8,
        "FX"@.len() == 2,
        "FEX"@.len() == 3,
        "VX"@.len() == 2,
        "OX"@.len() == 2,
        "UX"@.len() == 2,
        "ZX"@.len() == 2,
        "XX"@.len() == 2,
        "VXSNAN"@.len() == 6,
        "VXSISI"@.len() == 6,
        "VXIDI"@.len() == 5,
        "VXZDZ"@.len() == 5,
        "VXIMZ"@.len() == 5,
        "VXVC"@.len() == 4,
        "FR"@.len() == 2,
        "FI"@.len() == 2,
        "FPRF:C"@.len() == 6,
        "FPRF:FPCC:FL"@.len() == 12,
        "FPRF:FPCC:FG"@.len() == 12,
        "FPRF:FPCC:FE"@.len() == 12,
        "FPRF:FPCC:FU"@.len() == 12,
        "VXSOFT"@.len() == 6,
        "VXSQRT"@.len() == 6,
        "VXCVI"@.len() == 5,
        "VE"@.len() == 2,
        "OE"@.len() == 2,
        "UE"@.len() == 2,
        "ZE"@.len() == 2,
        "XE"@.len() == 2,
        "NI"@.len() == 2,
        "RN0"@.len() == 3,
        "RN1"@.len() == 3,
{
    reveal_strlit("Reserved");
    reveal_strlit("FX");
    reveal_strlit("FEX");
    reveal_strlit("VX");
    reveal_strlit("OX");
    reveal_strlit("UX");
    reveal_strlit("ZX");
    reveal_strlit("XX");
    reveal_strlit("VXSNAN");
    reveal_strlit("VXSISI");
    reveal_strlit("VXIDI");
    reveal_strlit("VXZDZ");
    reveal_strlit("VXIMZ");
    reveal_strlit("VXVC");
    reveal_strlit("FR");
    reveal_strlit("FI");
    reveal_strlit("FPRF:C");
    reveal_strlit("FPRF:FPCC:FL");
    reveal_strlit("FPRF:FPCC:FG");
    reveal_strlit("FPRF:FPCC:FE");
    reveal_strlit("FPRF:FPCC:FU");
    reveal_strlit("VXSOFT");
    reveal_strlit("VXSQRT");
    reveal_strlit("VXCVI");
    reveal_strlit("VE");
    reveal_strlit("OE");
    reveal_strlit("UE");
    reveal_strlit("ZE");
    reveal_strlit("XE");
    reveal_strlit("NI");
    reveal_strlit("RN0");
    reveal_strlit("RN1");
}

/// Every bit of the register has a label that is not empty, and the label is
/// `"Reserved"` exactly for the reserved bits.
pub proof fn lemma_names(bit: u8)
    requires
        bit < FPSCR_NBITS,
    ensures
        bit_name(bit).len() > 0,
        is_reserved(bit) <==> bit_name(bit) == "Reserved"@,
{
    lemma_label_lengths();
}

/// A reserved bit never goes by the name of a bit that the architecture
/// defines.
pub proof fn lemma_reserved_bits_have_no_name(reserved: u8, defined: u8)
    requires
        reserved < FPSCR_NBITS,
        defined < FPSCR_NBITS,
        is_reserved(reserved),
        !is_reserved(defined),
    ensures
        bit_name(reserved) != bit_name(defined),
{
    lemma_names(reserved);
    lemma_names(defined);
}

/// Below any limit, the asserted bits are listed by strictly ascending index,
/// each asserted bit below the limit is listed, and nothing else is.
pub proof fn lemma_set_bits_below(value: u64, limit: u8)
    requires
        limit <= FPSCR_NBITS,
    ensures
        forall|i: int, j: int|
            0 <= i < j < set_bits_below(value, limit as nat).len() ==> set_bits_below(
                value,
                limit as nat,
            )[i] < set_bits_below(value, limit as nat)[j],
        forall|bit: u8|
            set_bits_below(value, limit as nat).contains(bit) <==> bit < limit && bit_is_set(
                value,
                bit,
            ),
    decreases limit,
{
    let listed = set_bits_below(value, limit as nat);
    if limit == 0 {
        reveal(Seq::filter);
    } else {
        let last = (limit - 1) as u8;
        let before = set_bits_below(value, last as nat);
        lemma_set_bits_below(value, last);
        lemma_report_step(value, last);
        assert forall|bit: u8| listed.contains(bit) <==> bit < limit && bit_is_set(
            value,
            bit,
        ) by {
            if bit_is_set(value, last) {
                assert(listed[listed.len() - 1] == last);
                if before.contains(bit) {
                    let k = choose|k: int| 0 <= k < before.len() && before[k] == bit;
                    assert(listed[k] == bit);
                }
            }
        }
    }
}

/// The report lists the asserted bits by strictly ascending bit index: line
/// `k` is the line of the `k`-th asserted bit, every asserted bit has its
/// line, and no other bit has one.
pub proof fn lemma_report_is_ascending(value: u64)
    ensures
        report_lines(value).len() == set_bits(value).len(),
        forall|k: int|
            0 <= k < set_bits(value).len() ==> report_lines(value)[k] == report_line(
                set_bits(value)[k],
            ),
        forall|i: int, j: int|
            0 <= i < j < set_bits(value).len() ==> set_bits(value)[i] < set_bits(value)[j],
        forall|bit: u8|
            set_bits(value).contains(bit) <==> bit < FPSCR_NBITS && bit_is_set(value, bit),
{
    lemma_set_bits_below(value, FPSCR_NBITS as u8);
}

/// The register value zero has no asserted bit, and its report is empty.
pub proof fn lemma_zero_reports_nothing()
    ensures
        forall|bit: u8| bit < FPSCR_NBITS ==> !bit_is_set(0, bit),
        set_bits(0) == Seq::<u8>::empty(),
        report_lines(0) == Seq::<Seq<char>>::empty(),
{
    assert forall|bit: u8| bit < FPSCR_NBITS implies !bit_is_set(0, bit) by {
        assert((0u64 >> (63 - bit) as u64) & 1 == 0) by (bit_vector)
            requires
                bit < 64,
        ;
    }
    lemma_set_bits_below(0, FPSCR_NBITS as u8);
    if set_bits(0).len() > 0 {
        assert(set_bits(0).contains(set_bits(0)[0]));
    }
}

/// The prefix `0x` is optional: text that does not begin with `0x` denotes
/// with the prefix what it denotes without it.
pub proof fn lemma_prefix_is_optional(text: Seq<char>)
    requires
        without_prefix(text) == text,
    ensures
        register_value("0x"@ + text) == register_value(text),
{
    reveal_strlit("0x");
    assert(("0x"@ + text).skip(2) =~= text);
}

/// A zero in front of a number leaves its value as it is.
pub proof fn lemma_leading_zero(digits: Seq<char>)
    ensures
        hex_value(seq!['0'] + digits) == hex_value(digits),
    decreases digits.len(),
{
    let padded = seq!['0'] + digits;
    if digits.len() == 0 {
        assert(padded.drop_last() =~= digits);
    } else {
        lemma_leading_zero(digits.drop_last());
        assert(padded.drop_last() =~= seq!['0'] + digits.drop_last());
    }
}

/// Padding with zeros is optional: a hexadecimal number denotes with a zero in
/// front of it the register value that it denotes without one.
pub proof fn lemma_zero_padding_is_optional(digits: Seq<char>)
    requires
        is_hex_number(digits),
    ensures
        register_value(seq!['0'] + digits) == register_value(digits),
{
    let padded = seq!['0'] + digits;
    lemma_leading_zero(digits);
    assert(is_hex_number(padded));
}

} // verus!
