//! Request flags: the metadata categories a caller may ask for per result
//! row, and their reduction to the engine's bitmask representation.

use vstd::prelude::*;
use vstd::seq_lib::{commutative_foldl, lemma_fold_left_permutation};

use crate::error::Error;

verus! {

/// A metadata category a caller may request for each result row. The engine
/// takes the whole selection as one bitmask; a caller-supplied sequence of
/// these is reduced to that mask by bitwise union.
#[derive(Debug, Clone, Copy, PartialEq, Eq, Structural)]
pub enum RequestFlags {
    FileName,
    Path,
    FullPathAndFileName,
    Extension,
    Size,
    DateCreated,
    DateModified,
    DateAccessed,
    Attributes,
    FileListFileName,
    RunCount,
    DateRun,
    DateRecentlyChanged,
    HighlightedFileName,
    HighlightedPath,
    HighlightedFullPathAndFileName,
}

/// The engine's bit for one request flag; each flag owns a distinct bit.
pub open spec fn spec_flag_bit(f: RequestFlags) -> u32 {
    match f {
        RequestFlags::FileName => 0x1,
        RequestFlags::Path => 0x2,
        RequestFlags::FullPathAndFileName => 0x4,
        RequestFlags::Extension => 0x8,
        RequestFlags::Size => 0x10,
        RequestFlags::DateCreated => 0x20,
        RequestFlags::DateModified => 0x40,
        RequestFlags::DateAccessed => 0x80,
        RequestFlags::Attributes => 0x100,
        RequestFlags::FileListFileName => 0x200,
        RequestFlags::RunCount => 0x400,
        RequestFlags::DateRun => 0x800,
        RequestFlags::DateRecentlyChanged => 0x1000,
        RequestFlags::HighlightedFileName => 0x2000,
        RequestFlags::HighlightedPath => 0x4000,
        RequestFlags::HighlightedFullPathAndFileName => 0x8000,
    }
}

/// Returns the engine's bit for one request flag.
pub fn flag_bit(f: RequestFlags) -> (r: u32)
    ensures
        r == spec_flag_bit(f),
{
    match f {
        RequestFlags::FileName => 0x1,
        RequestFlags::Path => 0x2,
        RequestFlags::FullPathAndFileName => 0x4,
        RequestFlags::Extension => 0x8,
        RequestFlags::Size => 0x10,
        RequestFlags::DateCreated => 0x20,
        RequestFlags::DateModified => 0x40,
        RequestFlags::DateAccessed => 0x80,
        RequestFlags::Attributes => 0x100,
        RequestFlags::FileListFileName => 0x200,
        RequestFlags::RunCount => 0x400,
        RequestFlags::DateRun => 0x800,
        RequestFlags::DateRecentlyChanged => 0x1000,
        RequestFlags::HighlightedFileName => 0x2000,
        RequestFlags::HighlightedPath => 0x4000,
        RequestFlags::HighlightedFullPathAndFileName => 0x8000,
    }
}

/// The bitwise union of the bits of every flag in the sequence.
pub open spec fn mask_of(flags: Seq<RequestFlags>) -> u32
    decreases flags.len(),
{
    if flags.len() == 0 {
        0u32
    } else {
        mask_of(flags.drop_last()) | spec_flag_bit(flags.last())
    }
}

/// Reduces a caller-supplied flag sequence to the engine's bitmask: the
/// union of the individual flag bits. An empty sequence is a caller error
/// and is rejected rather than silently turned into a no-flag request.
pub fn flags_to_mask(flags: &Vec<RequestFlags>) -> (r: Result<u32, Error>)
    ensures
        flags@.len() == 0 ==> r == Err::<u32, Error>(Error::InvalidRequestFlags),
        flags@.len() > 0 ==> r == Ok::<u32, Error>(mask_of(flags@)),
{
    if flags.len() == 0 {
        return Err(Error::InvalidRequestFlags);
    }
    let mut mask: u32 = 0;
    let mut i: usize = 0;
    while i < flags.len()
        invariant
            i <= flags@.len(),
            mask == mask_of(flags@.take(i as int)),
        decreases flags@.len() - i,
    {
        mask = mask | flag_bit(flags[i]);
        proof {
            let taken = flags@.take(i + 1int);
            assert(taken.drop_last() =~= flags@.take(i as int));
            assert(taken.last() == flags@[i as int]);
        }
        i = i + 1;
    }
    proof {
        assert(flags@.take(flags@.len() as int) =~= flags@);
    }
    Ok(mask)
}

/// The mask of a flag sequence does not depend on the order in which the
/// flags were supplied: any rearrangement of the same flags gives the same
/// mask, because bitwise union is commutative and associative.
pub proof fn lemma_mask_of_order_independent(l1: Seq<RequestFlags>, l2: Seq<RequestFlags>)
    requires
        l1.to_multiset() == l2.to_multiset(),
    ensures
        mask_of(l1) == mask_of(l2),
{
    let f = |m: u32, fl: RequestFlags| m | spec_flag_bit(fl);
    assert(commutative_foldl(f)) by {
        assert forall|x: RequestFlags, y: RequestFlags, v: u32| #[trigger] f(f(v, x), y) == f(
            f(v, y),
            x,
        ) by {
            let a = spec_flag_bit(x);
            let b = spec_flag_bit(y);
            assert((v | a) | b == (v | b) | a) by (bit_vector);
        }
    }
    lemma_mask_of_is_fold(l1, f);
    lemma_mask_of_is_fold(l2, f);
    lemma_fold_left_permutation(l1, l2, f, 0u32);
}

/// Every supplied flag's bits are contained in the resulting mask.
pub proof fn lemma_mask_of_covers(flags: Seq<RequestFlags>, i: int)
    requires
        0 <= i < flags.len(),
    ensures
        mask_of(flags) & spec_flag_bit(flags[i]) == spec_flag_bit(flags[i]),
    decreases flags.len(),
{
    let m = mask_of(flags.drop_last());
    let b = spec_flag_bit(flags.last());
    if i == flags.len() - 1 {
        assert((m | b) & b == b) by (bit_vector);
    } else {
        lemma_mask_of_covers(flags.drop_last(), i);
        let c = spec_flag_bit(flags[i]);
        assert(m & c == c ==> (m | b) & c == c) by (bit_vector);
    }
}

/// Every set bit of the resulting mask comes from one of the supplied
/// flags: the mask is no more than the union of the individual flag bits.
pub proof fn lemma_mask_of_no_extra_bits(flags: Seq<RequestFlags>, j: u32)
    requires
        j < 32,
        mask_of(flags) & (1u32 << j) != 0,
    ensures
        exists|i: int| 0 <= i < flags.len() && spec_flag_bit(flags[i]) & (1u32 << j) != 0,
    decreases flags.len(),
{
    if flags.len() == 0 {
        assert(0u32 & (1u32 << j) == 0) by (bit_vector);
    } else {
        let m = mask_of(flags.drop_last());
        let b = spec_flag_bit(flags.last());
        assert((m | b) & (1u32 << j) != 0 ==> m & (1u32 << j) != 0 || b & (1u32 << j) != 0)
            by (bit_vector);
        if b & (1u32 << j) != 0 {
            assert(spec_flag_bit(flags[flags.len() - 1]) & (1u32 << j) != 0);
        } else {
            lemma_mask_of_no_extra_bits(flags.drop_last(), j);
            let i = choose|i: int|
                0 <= i < flags.drop_last().len() && spec_flag_bit(flags.drop_last()[i]) & (1u32
                    << j) != 0;
            assert(spec_flag_bit(flags[i]) & (1u32 << j) != 0);
        }
    }
}

/// The recursive mask definition agrees with a left fold of bitwise union
/// over the sequence.
proof fn lemma_mask_of_is_fold(flags: Seq<RequestFlags>, f: spec_fn(u32, RequestFlags) -> u32)
    requires
        f == (|m: u32, fl: RequestFlags| m | spec_flag_bit(fl)),
    ensures
        mask_of(flags) == flags.fold_left(0u32, f),
    decreases flags.len(),
{
    if flags.len() > 0 {
        lemma_mask_of_is_fold(flags.drop_last(), f);
    }
}

} // verus!
