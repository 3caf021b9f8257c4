//! Debug-render flags.
//!
//! The engine's debug-render categories form a `u32` bitmask. This module
//! enumerates the defined single-bit flags in ascending bit order as checkbox
//! rows, and sets or clears exactly one bit when a checkbox is toggled.

use vstd::prelude::*;

verus! {

/// Whether bit `b` is set in `m`.
pub open spec fn bit_set(m: u32, b: u32) -> bool {
    m & (1u32 << b) != 0u32
}

/// The bitmask of the engine's defined debug-render flags: one single-bit
/// flag for each bit position 0 through 10.
pub open spec fn defined_flag_bits() -> u32 {
    0x7ffu32
}

/// The checkbox label of the defined flag with the given single-bit mask,
/// as the engine's flag type formats it.
pub uninterp spec fn flag_label_of(mask: u32) -> Seq<char>;

/// One checkbox row of the debug-render panel: a defined single-bit flag,
/// whether the bit is currently set, and the flag's symbolic name.
pub struct FlagRow {
    pub bit: u32,
    pub enabled: bool,
    pub label: String,
}

/// Relies on `rapier3d::pipeline::DebugRenderMode::all` and `bits`: the union
/// of the flags defined there, `1 << 0` through `1 << 10`.
#[verifier::external_body]
pub(crate) fn debug_render_all_bits() -> (r: u32)
    ensures
        r == defined_flag_bits(),
{
    rapier3d::pipeline::DebugRenderMode::all().bits()
}

/// Relies on `rapier3d::pipeline::DebugRenderMode::from_bits_truncate` and its
/// `Debug` formatting: the text depends on the mask bits alone.
#[verifier::external_body]
pub(crate) fn flag_label(mask: u32) -> (r: String)
    ensures
        r@ == flag_label_of(mask),
{
    format!("{:?}", rapier3d::pipeline::DebugRenderMode::from_bits_truncate(mask))
}

/// Whether `rows` presents exactly the single-bit flags of `all_bits`, in
/// ascending bit order, each checked exactly when its bit is set in `mode`
/// and labeled with the flag's name.
pub open spec fn flag_rows_match(rows: Seq<FlagRow>, all_bits: u32, mode: u32) -> bool {
    &&& forall|i: int|
        0 <= i < rows.len() ==> {
            let row = #[trigger] rows[i];
            &&& row.bit < 32
            &&& bit_set(all_bits, row.bit)
            &&& row.enabled == bit_set(mode, row.bit)
            &&& row.label@ == flag_label_of(1u32 << row.bit)
        }
    &&& forall|b: u32|
        b < 32 && #[trigger] bit_set(all_bits, b) ==> exists|i: int|
            0 <= i < rows.len() && rows[i].bit == b
    &&& forall|i: int, j: int| 0 <= i < j < rows.len() ==> rows[i].bit < rows[j].bit
}

/// One checkbox row for every single-bit flag set in `all_bits`, ascending,
/// checked exactly where `mode` has the bit set.
pub fn flag_rows(all_bits: u32, mode: u32) -> (rows: Vec<FlagRow>)
    ensures
        flag_rows_match(rows@, all_bits, mode),
{
    let mut rows: Vec<FlagRow> = Vec::new();
    let mut b: u32 = 0;
    while b < 32
        invariant
            b <= 32,
            forall|i: int|
                0 <= i < rows@.len() ==> {
                    let row = #[trigger] rows@[i];
                    &&& row.bit < b
                    &&& bit_set(all_bits, row.bit)
                    &&& row.enabled == bit_set(mode, row.bit)
                    &&& row.label@ == flag_label_of(1u32 << row.bit)
                },
            forall|bb: u32|
                bb < b && #[trigger] bit_set(all_bits, bb) ==> exists|i: int|
                    0 <= i < rows@.len() && rows@[i].bit == bb,
            forall|i: int, j: int| 0 <= i < j < rows@.len() ==> rows@[i].bit < rows@[j].bit,
        decreases 32 - b,
    {
        if all_bits & (1u32 << b) != 0u32 {
            let ghost pre = rows@;
            let label = flag_label(1u32 << b);
            let enabled = mode & (1u32 << b) != 0u32;
            rows.push(FlagRow { bit: b, enabled, label });
            proof {
                assert forall|bb: u32|
                    bb < b + 1 && #[trigger] bit_set(all_bits, bb) implies exists|i: int|
                        0 <= i < rows@.len() && rows@[i].bit == bb by {
                    if bb == b {
                        assert(0 <= rows@.len() - 1 < rows@.len() && rows@[rows@.len() - 1].bit
                            == bb);
                    } else {
                        let i = choose|i: int| 0 <= i < pre.len() && pre[i].bit == bb;
                        assert(rows@[i] == pre[i]);
                        assert(0 <= i < rows@.len() && rows@[i].bit == bb);
                    }
                }
            }
        } else {
            proof {
                assert(!bit_set(all_bits, b));
                assert forall|bb: u32|
                    bb < b + 1 && #[trigger] bit_set(all_bits, bb) implies exists|i: int|
                        0 <= i < rows@.len() && rows@[i].bit == bb by {
                    assert(bb != b);
                }
            }
        }
        b = b + 1;
    }
    rows
}

/// Set (or clear) exactly the given bit of `mode`, leaving every other bit
/// as it was.
pub fn apply_flag_toggle(mode: u32, bit: u32, enabled: bool) -> (r: u32)
    requires
        bit < 32,
    ensures
        bit_set(r, bit) == enabled,
        forall|j: u32| j < 32 && j != bit ==> bit_set(r, j) == bit_set(mode, j),
{
    if enabled {
        let r = mode | (1u32 << bit);
        proof {
            assert(bit_set(r, bit)) by (bit_vector)
                requires
                    r == mode | (1u32 << bit) && bit < 32,
            ;
            assert(forall|j: u32| j < 32 && j != bit ==> bit_set(r, j) == bit_set(mode, j))
                by (bit_vector)
                requires
                    r == mode | (1u32 << bit) && bit < 32,
            ;
        }
        r
    } else {
        let r = mode & !(1u32 << bit);
        proof {
            assert(!bit_set(r, bit)) by (bit_vector)
                requires
                    r == mode & !(1u32 << bit) && bit < 32,
            ;
            assert(forall|j: u32| j < 32 && j != bit ==> bit_set(r, j) == bit_set(mode, j))
                by (bit_vector)
                requires
                    r == mode & !(1u32 << bit) && bit < 32,
            ;
        }
        r
    }
}

} // verus!
