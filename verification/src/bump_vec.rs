//! The arena and its vectors, as the function builder uses them. What is
//! stated here of the arena's code is taken on trust from its source.

use vstd::prelude::*;

verus! {

/// `bumpalo::Bump`: the arena. Nothing of its inside is used.
#[verifier::external_type_specification]
#[verifier::external_body]
pub struct ExBump<const MIN_ALIGN: usize>(bumpalo::Bump<MIN_ALIGN>);

/// `bumpalo::collections::Vec`: a growable vector whose memory is the
/// arena's. Its contents are known through the names below only.
#[verifier::external_type_specification]
#[verifier::external_body]
#[verifier::reject_recursive_types(T)]
pub struct ExBumpVec<'bump, T>(bumpalo::collections::Vec<'bump, T>);

/// The bytes that a vector of bytes holds, first to last.
pub uninterp spec fn bytes_of(v: bumpalo::collections::Vec<'_, u8>) -> Seq<u8>;

/// The pairs that a vector of pairs holds, first to last.
pub uninterp spec fn pairs_of(v: bumpalo::collections::Vec<'_, (u32, u64)>) -> Seq<(u32, u64)>;

/// The insertions that a vector of insertions holds, first to last: each a
/// place and the bytes to put there.
pub uninterp spec fn insertions_of(
    v: bumpalo::collections::Vec<'_, (usize, bumpalo::collections::Vec<'_, u8>)>,
) -> Seq<(usize, Seq<u8>)>;

/// `Vec::with_capacity_in`: the new vector holds nothing.
#[verifier::external_body]
pub(crate) fn bytes_with_capacity<'a>(capacity: usize, arena: &'a bumpalo::Bump) -> (v:
    bumpalo::collections::Vec<'a, u8>)
    ensures
        bytes_of(v) == Seq::<u8>::empty(),
{
    bumpalo::collections::Vec::with_capacity_in(capacity, arena)
}

/// `Vec::len`: the number of bytes held.
#[verifier::external_body]
pub(crate) fn bytes_len(v: &bumpalo::collections::Vec<'_, u8>) -> (n: usize)
    ensures
        n == bytes_of(*v).len(),
{
    v.len()
}

/// `Vec::push`: the byte is put at the end.
#[verifier::external_body]
pub(crate) fn bytes_push(v: &mut bumpalo::collections::Vec<'_, u8>, byte: u8)
    ensures
        bytes_of(*final(v)) == bytes_of(*old(v)).push(byte),
{
    v.push(byte)
}

/// Indexing a `Vec`: the byte at a place inside the vector.
#[verifier::external_body]
pub(crate) fn bytes_get(v: &bumpalo::collections::Vec<'_, u8>, index: usize) -> (byte: u8)
    requires
        index < bytes_of(*v).len(),
    ensures
        byte == bytes_of(*v)[index as int],
{
    v[index]
}

/// `Vec::clear`: nothing is held afterwards.
#[verifier::external_body]
pub(crate) fn bytes_clear(v: &mut bumpalo::collections::Vec<'_, u8>)
    ensures
        bytes_of(*final(v)) == Seq::<u8>::empty(),
{
    v.clear()
}

/// `Vec::with_capacity_in`: the new vector holds nothing.
#[verifier::external_body]
pub(crate) fn pairs_with_capacity<'a>(capacity: usize, arena: &'a bumpalo::Bump) -> (v:
    bumpalo::collections::Vec<'a, (u32, u64)>)
    ensures
        pairs_of(v) == Seq::<(u32, u64)>::empty(),
{
    bumpalo::collections::Vec::with_capacity_in(capacity, arena)
}

/// `Vec::len`: the number of pairs held.
#[verifier::external_body]
pub(crate) fn pairs_len(v: &bumpalo::collections::Vec<'_, (u32, u64)>) -> (n: usize)
    ensures
        n == pairs_of(*v).len(),
{
    v.len()
}

/// `Vec::push`: the pair is put at the end.
#[verifier::external_body]
pub(crate) fn pairs_push(v: &mut bumpalo::collections::Vec<'_, (u32, u64)>, pair: (u32, u64))
    ensures
        pairs_of(*final(v)) == pairs_of(*old(v)).push(pair),
{
    v.push(pair)
}

/// `Vec::clear`: nothing is held afterwards.
#[verifier::external_body]
pub(crate) fn pairs_clear(v: &mut bumpalo::collections::Vec<'_, (u32, u64)>)
    ensures
        pairs_of(*final(v)) == Seq::<(u32, u64)>::empty(),
{
    v.clear()
}

/// `Vec::truncate`: the first `len` pairs stay; a vector that holds no more
/// than that stays as it is.
#[verifier::external_body]
pub(crate) fn pairs_truncate(v: &mut bumpalo::collections::Vec<'_, (u32, u64)>, len: usize)
    ensures
        pairs_of(*final(v)) == if len <= pairs_of(*old(v)).len() {
            pairs_of(*old(v)).take(len as int)
        } else {
            pairs_of(*old(v))
        },
{
    v.truncate(len)
}

/// Indexing a `Vec`: the pair at a place inside the vector.
#[verifier::external_body]
pub(crate) fn pairs_get(v: &bumpalo::collections::Vec<'_, (u32, u64)>, index: usize) -> (pair: (
    u32,
    u64,
))
    requires
        index < pairs_of(*v).len(),
    ensures
        pair == pairs_of(*v)[index as int],
{
    v[index]
}

/// Assigning through an index of a `Vec`: the pair at a place inside the
/// vector is replaced.
#[verifier::external_body]
pub(crate) fn pairs_set(
    v: &mut bumpalo::collections::Vec<'_, (u32, u64)>,
    index: usize,
    pair: (u32, u64),
)
    requires
        index < pairs_of(*old(v)).len(),
    ensures
        pairs_of(*final(v)) == pairs_of(*old(v)).update(index as int, pair),
{
    v[index] = pair;
}

/// `Vec::with_capacity_in`: the new vector holds nothing.
#[verifier::external_body]
pub(crate) fn insertions_with_capacity<'a>(capacity: usize, arena: &'a bumpalo::Bump) -> (v:
    bumpalo::collections::Vec<'a, (usize, bumpalo::collections::Vec<'a, u8>)>)
    ensures
        insertions_of(v) == Seq::<(usize, Seq<u8>)>::empty(),
{
    bumpalo::collections::Vec::with_capacity_in(capacity, arena)
}

/// `Vec::len`: the number of insertions held.
#[verifier::external_body]
pub(crate) fn insertions_len(
    v: &bumpalo::collections::Vec<'_, (usize, bumpalo::collections::Vec<'_, u8>)>,
) -> (n: usize)
    ensures
        n == insertions_of(*v).len(),
{
    v.len()
}

/// `Vec::clear`: nothing is held afterwards.
#[verifier::external_body]
pub(crate) fn insertions_clear(
    v: &mut bumpalo::collections::Vec<'_, (usize, bumpalo::collections::Vec<'_, u8>)>,
)
    ensures
        insertions_of(*final(v)) == Seq::<(usize, Seq<u8>)>::empty(),
{
    v.clear()
}

} // verus!
