//! The C layout rule for records.
//!
//! A record's members are placed in declaration order. Each member starts at
//! the first offset, at or after the end of the one before it, that is a
//! multiple of its alignment. The record is aligned like its most aligned
//! member, and its size is the end of the last member rounded up to that
//! alignment.

use vstd::prelude::*;

verus! {

/// A member of a record as the layout rule sees it: how many bytes it
/// occupies and to what multiple its offset is held.
pub struct Member {
    pub size: nat,
    pub align: nat,
}

/// Size and alignment of one field, in bytes.
#[derive(Clone, Copy, Debug, PartialEq, Eq)]
pub struct FieldLayout {
    pub size: usize,
    pub align: usize,
}

impl Member {
    /// The member that a value of type `T` makes on this platform.
    pub open spec fn of<T>() -> Member {
        Member { size: vstd::layout::size_of::<T>(), align: vstd::layout::align_of::<T>() }
    }
}

impl FieldLayout {
    /// The size and alignment that the compiler gives to `T`.
    pub fn of<T>() -> (field: FieldLayout)
        ensures
            field@ == Member::of::<T>(),
    {
        FieldLayout { size: core::mem::size_of::<T>(), align: core::mem::align_of::<T>() }
    }
}

impl View for FieldLayout {
    type V = Member;

    open spec fn view(&self) -> Member {
        Member { size: self.size as nat, align: self.align as nat }
    }
}

/// Why a record has no size that this library can report.
#[derive(Clone, Copy, Debug, PartialEq, Eq)]
pub enum LayoutError {
    /// Some member has alignment zero: no offset is a multiple of it in the
    /// sense the rule needs.
    ZeroAlignment,
    /// The size does not fit in `usize`.
    Overflow,
}

/// The members that a list of fields stands for.
pub open spec fn members_of(fields: Seq<FieldLayout>) -> Seq<Member> {
    fields.map_values(|f: FieldLayout| f@)
}

/// Every member has a positive alignment.
pub open spec fn well_formed(members: Seq<Member>) -> bool {
    forall|i: int| 0 <= i < members.len() ==> (#[trigger] members[i]).align > 0
}

/// `offset` is a multiple of `align`.
pub open spec fn is_aligned(offset: nat, align: nat) -> bool
    recommends
        align > 0,
{
    offset % align == 0
}

/// The least multiple of `align` that is not below `offset`.
pub open spec fn round_up(offset: nat, align: nat) -> nat
    recommends
        align > 0,
{
    if offset % align == 0 {
        offset
    } else {
        (offset + align - offset % align) as nat
    }
}

/// The offset just past the last member, before any trailing padding.
pub open spec fn fields_end(members: Seq<Member>) -> nat
    decreases members.len(),
{
    if members.len() == 0 {
        0
    } else {
        round_up(fields_end(members.drop_last()), members.last().align) + members.last().size
    }
}

/// The alignment of the record: that of its most aligned member, and 1 for
/// a record without members.
pub open spec fn record_align(members: Seq<Member>) -> nat
    decreases members.len(),
{
    if members.len() == 0 {
        1
    } else if members.last().align > record_align(members.drop_last()) {
        members.last().align
    } else {
        record_align(members.drop_last())
    }
}

/// The size of the record, trailing padding included.
pub open spec fn record_size(members: Seq<Member>) -> nat {
    round_up(fields_end(members), record_align(members))
}

/// `round_up` yields a multiple of the alignment, reached with less than
/// one alignment of padding, and no smaller multiple is at or above the
/// offset.
pub proof fn lemma_round_up_least_multiple(offset: nat, align: nat)
    requires
        align > 0,
    ensures
        is_aligned(round_up(offset, align), align),
        offset <= round_up(offset, align) < offset + align,
        forall|m: nat| #[trigger]
            is_aligned(m, align) && offset <= m ==> round_up(offset, align) <= m,
{
    let r = round_up(offset, align);
    let q = offset as int / align as int;
    let rem = offset % align;
    vstd::arithmetic::div_mod::lemma_fundamental_div_mod(offset as int, align as int);
    if rem != 0 {
        assert(r == align * (q + 1)) by (nonlinear_arith)
            requires
                r == offset + align - rem,
                offset == align * q + rem,
        ;
        vstd::arithmetic::div_mod::lemma_mod_multiples_basic(q + 1, align as int);
        assert((align * (q + 1)) % (align as int) == 0) by (nonlinear_arith)
            requires
                ((q + 1) * align) % (align as int) == 0,
        ;
    }
    assert forall|m: nat| #[trigger] is_aligned(m, align) && offset <= m implies r <= m by {
        if m < r {
            // A multiple strictly between two neighbouring multiples.
            let k = m as int / align as int;
            vstd::arithmetic::div_mod::lemma_fundamental_div_mod(m as int, align as int);
            assert(false) by (nonlinear_arith)
                requires
                    align > 0,
                    0 < rem < align,
                    offset == align * q + rem,
                    m == align * k,
                    offset <= m < offset + align - rem,
            ;
        }
    }
}

/// Rounds `offset` up to the next multiple of `align`.
///
/// Fails with `ZeroAlignment` exactly when `align` is zero, and with
/// `Overflow` exactly when `align` is positive and the multiple exceeds
/// `usize::MAX`.
pub fn align_up(offset: usize, align: usize) -> (r: Result<usize, LayoutError>)
    ensures
        r is Ok <==> align > 0 && round_up(offset as nat, align as nat) <= usize::MAX,
        r matches Ok(n) ==> n == round_up(offset as nat, align as nat),
        r matches Err(e) ==> (e is ZeroAlignment <==> align == 0),
{
    if align == 0 {
        return Err(LayoutError::ZeroAlignment);
    }
    let rem: usize = offset % align;
    if rem == 0 {
        Ok(offset)
    } else {
        match offset.checked_add(align - rem) {
            Some(n) => Ok(n),
            None => Err(LayoutError::Overflow),
        }
    }
}

/// Members never move the end backwards: the end of any leading part of a
/// record is at most the end of the whole.
pub proof fn lemma_fields_end_of_prefix(members: Seq<Member>, n: int)
    requires
        well_formed(members),
        0 <= n <= members.len(),
    ensures
        fields_end(members.take(n)) <= fields_end(members),
    decreases members.len(),
{
    if n == members.len() {
        assert(members.take(n) =~= members);
    } else {
        let front = members.drop_last();
        assert(front.take(n) =~= members.take(n));
        lemma_fields_end_of_prefix(front, n);
        lemma_round_up_least_multiple(fields_end(front), members.last().align);
    }
}

/// The alignment of a record is positive.
pub proof fn lemma_record_align_positive(members: Seq<Member>)
    ensures
        record_align(members) > 0,
    decreases members.len(),
{
    if members.len() > 0 {
        lemma_record_align_positive(members.drop_last());
    }
}

/// The size of the record with the given fields, by the C layout rule.
///
/// Fails with `ZeroAlignment` exactly when some field has alignment zero,
/// and with `Overflow` exactly when every alignment is positive and the
/// size exceeds `usize::MAX`.
pub fn layout_size(fields: &[FieldLayout]) -> (r: Result<usize, LayoutError>)
    ensures
        r is Ok <==> well_formed(members_of(fields@)) && record_size(members_of(fields@))
            <= usize::MAX,
        r matches Ok(n) ==> n == record_size(members_of(fields@)),
        r matches Err(e) ==> (e is ZeroAlignment <==> !well_formed(members_of(fields@))),
{
    let ghost members = members_of(fields@);
    let mut k: usize = 0;
    while k < fields.len()
        invariant
            k <= fields.len(),
            members == members_of(fields@),
            forall|j: int| 0 <= j < k ==> (#[trigger] members[j]).align > 0,
        decreases fields.len() - k,
    {
        if fields[k].align == 0 {
            assert(members[k as int].align == 0);
            return Err(LayoutError::ZeroAlignment);
        }
        k += 1;
    }
    assert(well_formed(members));

    let mut end: usize = 0;
    let mut align: usize = 1;
    let mut i: usize = 0;
    assert(members.take(0) =~= Seq::<Member>::empty());
    proof {
        lemma_record_align_positive(members);
    }
    while i < fields.len()
        invariant
            i <= fields.len(),
            members == members_of(fields@),
            well_formed(members),
            end == fields_end(members.take(i as int)),
            align == record_align(members.take(i as int)),
            align > 0,
        decreases fields.len() - i,
    {
        let field = fields[i];
        proof {
            let next = members.take(i + 1);
            assert(next.drop_last() =~= members.take(i as int));
            assert(next.last() == field@);
            lemma_fields_end_of_prefix(members, i + 1);
            lemma_round_up_least_multiple(fields_end(members), record_align(members));
        }
        let start = match align_up(end, field.align) {
            Ok(start) => start,
            Err(_) => {
                return Err(LayoutError::Overflow);
            },
        };
        end = match start.checked_add(field.size) {
            Some(end) => end,
            None => {
                return Err(LayoutError::Overflow);
            },
        };
        if field.align > align {
            align = field.align;
        }
        i += 1;
    }
    assert(members.take(i as int) =~= members);
    match align_up(end, align) {
        Ok(size) => Ok(size),
        Err(_) => Err(LayoutError::Overflow),
    }
}

} // verus!
