//! The PowerMate input event record and its size.
//!
//! One event is a timestamp in seconds and microseconds, an event type, a
//! code and a value, held in that order as two 64-bit integers, two 16-bit
//! integers and one 32-bit integer. The record is laid out by the C rule so
//! that it matches, byte for byte, what the device interface hands over.

use crate::layout::{
    fields_end, is_aligned, layout_size, members_of, record_align, record_size, round_up,
    FieldLayout, LayoutError, Member,
};
use vstd::layout::align_of;
use vstd::prelude::*;

verus! {

/// The record's members, in declaration order, on a platform that aligns
/// its 64-bit, 16-bit and 32-bit integers to `a64`, `a16` and `a32` bytes.
pub open spec fn members_aligned(a64: nat, a16: nat, a32: nat) -> Seq<Member> {
    seq![
        Member { size: 8, align: a64 },
        Member { size: 8, align: a64 },
        Member { size: 2, align: a16 },
        Member { size: 2, align: a16 },
        Member { size: 4, align: a32 },
    ]
}

/// The record's members as this platform lays them out: seconds,
/// microseconds, event type, code, value.
pub open spec fn members() -> Seq<Member> {
    seq![
        Member::of::<i64>(),
        Member::of::<i64>(),
        Member::of::<u16>(),
        Member::of::<u16>(),
        Member::of::<u32>(),
    ]
}

/// The size of the record in bytes on this platform.
pub open spec fn size() -> nat {
    record_size(members())
}

/// `align` is an alignment that a scalar of `width` bytes can have: a
/// positive divisor of the width.
pub open spec fn is_alignment_of(align: nat, width: nat) -> bool {
    align > 0 && width % align == 0
}

/// A multiple of the width sits at a multiple of every alignment that the
/// width can have.
proof fn lemma_multiple_is_aligned(count: nat, width: nat, align: nat)
    requires
        is_alignment_of(align, width),
    ensures
        is_aligned(count * width, align),
        round_up(count * width, align) == count * width,
{
    let q = width as int / align as int;
    vstd::arithmetic::div_mod::lemma_fundamental_div_mod(width as int, align as int);
    assert(count * width == (count * q) * align) by (nonlinear_arith)
        requires
            width == align * q,
    ;
    vstd::arithmetic::div_mod::lemma_mod_multiples_basic(count * q, align as int);
}

/// Whatever alignments the platform picks for the three integer widths,
/// the record is 24 bytes: the members follow one another without padding
/// and none is needed after the last.
pub proof fn lemma_size_under_any_alignment(a64: nat, a16: nat, a32: nat)
    requires
        is_alignment_of(a64, 8),
        is_alignment_of(a16, 2),
        is_alignment_of(a32, 4),
    ensures
        fields_end(members_aligned(a64, a16, a32)) == 8 + 8 + 2 + 2 + 4,
        record_size(members_aligned(a64, a16, a32)) == 24,
{
    let m5 = members_aligned(a64, a16, a32);
    let m4 = m5.drop_last();
    let m3 = m4.drop_last();
    let m2 = m3.drop_last();
    let m1 = m2.drop_last();
    let m0 = m1.drop_last();
    assert(m0.len() == 0);
    assert(fields_end(m0) == 0);
    assert(record_align(m0) == 1);

    lemma_multiple_is_aligned(0, 8, a64);
    assert(fields_end(m1) == 8);
    lemma_multiple_is_aligned(1, 8, a64);
    assert(fields_end(m2) == 16);
    lemma_multiple_is_aligned(8, 2, a16);
    assert(fields_end(m3) == 18);
    lemma_multiple_is_aligned(9, 2, a16);
    assert(fields_end(m4) == 20);
    lemma_multiple_is_aligned(5, 4, a32);
    assert(fields_end(m5) == 24);

    assert(record_align(m1) == a64);
    assert(record_align(m2) == a64);
    assert(record_align(m3) == if a16 > a64 { a16 } else { a64 });
    assert(record_align(m4) == record_align(m3));
    let a = record_align(m5);
    assert(a == a64 || a == a16 || a == a32);
    lemma_multiple_is_aligned(3, 8, a64);
    lemma_multiple_is_aligned(12, 2, a16);
    lemma_multiple_is_aligned(6, 4, a32);
}

/// On this platform the record is 24 bytes.
pub proof fn lemma_platform_size()
    ensures
        members() == members_aligned(align_of::<i64>(), align_of::<u16>(), align_of::<u32>()),
        size() == 24,
{
    broadcast use vstd::layout::group_layout_axioms;
    assert(members() =~= members_aligned(align_of::<i64>(), align_of::<u16>(), align_of::<u32>()));
    lemma_size_under_any_alignment(align_of::<i64>(), align_of::<u16>(), align_of::<u32>());
}

/// What `struct_size` replies: success, with the size of the record.
pub open spec fn is_size_reply(reply: Result<usize, LayoutError>) -> bool {
    reply matches Ok(n) && n == size()
}

/// The size in bytes of the input event record, as the C layout rule gives
/// it for the sizes and alignments that the compiler reports for the
/// members' types. It always succeeds, and the size is 24.
pub fn struct_size() -> (reply: Result<usize, LayoutError>)
    ensures
        is_size_reply(reply),
        reply == Ok::<usize, LayoutError>(24),
{
    let fields = [
        FieldLayout::of::<i64>(),
        FieldLayout::of::<i64>(),
        FieldLayout::of::<u16>(),
        FieldLayout::of::<u16>(),
        FieldLayout::of::<u32>(),
    ];
    proof {
        assert(members_of(fields@) =~= members());
        lemma_platform_size();
    }
    layout_size(&fields)
}

/// Two replies of `struct_size` are one and the same.
pub proof fn lemma_reply_is_unique(
    first: Result<usize, LayoutError>,
    second: Result<usize, LayoutError>,
)
    requires
        is_size_reply(first),
        is_size_reply(second),
    ensures
        first == second,
{
}

} // verus!
