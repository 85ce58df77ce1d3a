//! The arena that the writer's buffers live in.
//!
//! The buffers of the binary writer are `bumpalo` vectors: every open
//! container has one, and all of them are released together when the arena is
//! reset. This module declares the two `bumpalo` types and states what the
//! writer relies on of the methods it calls.

use vstd::prelude::*;

verus! {

/// Declares `bumpalo::Bump`, the arena. Nothing is said of what is inside
/// it: the library hands references to it on and never looks into it.
#[verifier::external_type_specification]
#[verifier::external_body]
pub struct ExBump<const MIN_ALIGN: usize>(bumpalo::Bump<MIN_ALIGN>);

/// Declares `bumpalo::collections::Vec`, a vector that lives in an arena.
/// What a vector of bytes holds goes by the name `arena_bytes`.
#[verifier::external_type_specification]
#[verifier::external_body]
#[verifier::reject_recursive_types(T)]
pub struct ExBumpVec<'bump, T>(bumpalo::collections::Vec<'bump, T>);

/// The arena.
pub type BumpAllocator = bumpalo::Bump;

/// A vector of bytes that lives in an arena.
pub type BumpVec<'bump> = bumpalo::collections::Vec<'bump, u8>;

/// The bytes that an arena vector holds, in order.
pub uninterp spec fn arena_bytes(buffer: bumpalo::collections::Vec<'_, u8>) -> Seq<u8>;

/// Makes an empty vector in `allocator`, by `bumpalo::collections::Vec::new_in`.
/// The new vector holds nothing.
#[verifier::external_body]
pub(crate) fn arena_vec_new<'bump>(allocator: &'bump BumpAllocator) -> (buffer: BumpVec<'bump>)
    ensures
        arena_bytes(buffer) == Seq::<u8>::empty(),
{
    bumpalo::collections::Vec::new_in(allocator)
}

/// Appends one byte, by `bumpalo::collections::Vec::push`. The vector then
/// holds what it held, followed by the byte. Like the vectors of the standard
/// library, it aborts when memory runs out.
#[verifier::external_body]
pub(crate) fn arena_vec_push<'bump>(buffer: &mut BumpVec<'bump>, byte: u8)
    ensures
        arena_bytes(*final(buffer)) == arena_bytes(*old(buffer)).push(byte),
{
    buffer.push(byte)
}

/// Appends the bytes of a slice, by
/// `bumpalo::collections::Vec::extend_from_slice`. The vector then holds what
/// it held, followed by the bytes of the slice in their order. It aborts when
/// memory runs out, as `push` does.
#[verifier::external_body]
pub(crate) fn arena_vec_extend<'bump>(buffer: &mut BumpVec<'bump>, bytes: &[u8])
    ensures
        arena_bytes(*final(buffer)) == arena_bytes(*old(buffer)) + bytes@,
{
    buffer.extend_from_slice(bytes)
}

/// Returns the bytes as a slice, by `bumpalo::collections::Vec::as_slice`.
#[verifier::external_body]
pub(crate) fn arena_vec_as_slice<'a, 'bump>(buffer: &'a BumpVec<'bump>) -> (bytes: &'a [u8])
    ensures
        bytes@ == arena_bytes(*buffer),
{
    buffer.as_slice()
}

/// Empties the vector, by `bumpalo::collections::Vec::clear`. The vector
/// then holds nothing.
#[verifier::external_body]
pub(crate) fn arena_vec_clear<'bump>(buffer: &mut BumpVec<'bump>)
    ensures
        arena_bytes(*final(buffer)) == Seq::<u8>::empty(),
{
    buffer.clear()
}

/// Makes an arena, by `bumpalo::Bump::new`. Nothing is said of the arena.
#[verifier::external_body]
pub(crate) fn arena_new() -> (allocator: BumpAllocator) {
    bumpalo::Bump::new()
}

/// Releases everything that lives in the arena, by `bumpalo::Bump::reset`.
/// Nothing is said of the arena afterwards; `reset` takes the arena by a
/// unique reference, so nothing that lives in it is still in reach.
#[verifier::external_body]
pub(crate) fn arena_reset(allocator: &mut BumpAllocator) {
    allocator.reset()
}

} // verus!
