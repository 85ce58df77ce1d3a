//! The annotations of a value, one symbol ID after another.

use vstd::prelude::*;
use crate::binary::var_uint::{lemma_var_uint_parse_size, var_uint_parse};
use crate::lazy::binary::immutable_buffer::ImmutableBuffer;

use crate::raw_symbol_token_ref::RawSymbolTokenRef;
use crate::result::{IonError, IonResult};

verus! {

/// The symbol ID at the front of the annotations `s`, and the number of
/// bytes that spell it. An ID that no `usize` holds is malformed, and so is
/// one that the annotations cut short.
pub open spec fn next_annotation(s: Seq<u8>) -> Option<(nat, nat)> {
    match var_uint_parse(s) {
        Ok((sid, size)) => if sid <= usize::MAX {
            Some((sid, size))
        } else {
            None
        },
        Err(_) => None,
    }
}

/// The symbol IDs that the annotations `s` spell; `None` when one of them is
/// malformed.
pub open spec fn annotation_ids(s: Seq<u8>) -> Option<Seq<nat>>
    decreases s.len(),
{
    if s.len() == 0 {
        Some(Seq::empty())
    } else {
        match next_annotation(s) {
            None => None,
            Some((sid, size)) => {
                if size == 0 || size > s.len() {
                    None
                } else {
                    match annotation_ids(s.skip(size as int)) {
                        None => None,
                        Some(rest) => Some(seq![sid] + rest),
                    }
                }
            },
        }
    }
}

/// Walks the annotations of a value. Each step yields a symbol ID; the raw
/// level resolves none.
#[derive(Debug, Clone, Copy)]
pub struct RawBinaryAnnotationsIterator<'a> {
    buffer: ImmutableBuffer<'a>,
}

impl<'a> View for RawBinaryAnnotationsIterator<'a> {
    type V = Seq<u8>;

    /// The bytes of the annotations that are left.
    closed spec fn view(&self) -> Seq<u8> {
        self.buffer@
    }
}

impl<'a> RawBinaryAnnotationsIterator<'a> {
    /// Every stream offset of what is left is a `usize`.
    pub closed spec fn wf(&self) -> bool {
        self.buffer.wf()
    }

    /// An iterator over the annotations that `buffer` holds.
    pub fn new(buffer: ImmutableBuffer<'a>) -> (iterator: Self)
        requires
            buffer.wf(),
        ensures
            iterator@ == buffer@,
            iterator.wf(),
    {
        RawBinaryAnnotationsIterator { buffer }
    }

    /// Yields the next annotation. `None` says that none is left. After a
    /// malformed annotation the iterator yields the error and then nothing.
    pub fn next(&mut self) -> (r: Option<IonResult<RawSymbolTokenRef<'a>>>)
        requires
            old(self).wf(),
        ensures
            final(self).wf(),
            old(self)@.len() == 0 ==> r is None && final(self)@ == old(self)@,
            old(self)@.len() > 0 ==> match next_annotation(old(self)@) {
                Some((sid, size)) => r == Some(
                    Ok::<RawSymbolTokenRef<'a>, IonError>(RawSymbolTokenRef::SymbolId(sid as usize)),
                ) && final(self)@ == old(self)@.skip(size as int) && 1 <= size <= old(self)@.len(),
                None => r == Some(Err::<RawSymbolTokenRef<'a>, IonError>(IonError::Decoding))
                    && final(self)@.len() == 0,
            },
    {
        if self.buffer.is_empty() {
            return None;
        }
        proof {
            lemma_var_uint_parse_size(self.buffer@);
        }
        match self.buffer.read_var_uint() {
            Ok((var_uint, rest)) => {
                if var_uint.value() > usize::MAX as u64 {
                    self.buffer = self.buffer.consume(self.buffer.len());
                    return Some(Err(IonError::Decoding));
                }
                self.buffer = rest;
                Some(Ok(RawSymbolTokenRef::SymbolId(var_uint.value() as usize)))
            },
            Err(_) => {
                self.buffer = self.buffer.consume(self.buffer.len());
                Some(Err(IonError::Decoding))
            },
        }
    }

    /// Collects the annotations that are left into a vector.
    #[verifier::rlimit(50)]
    pub fn collect(&mut self) -> (r: IonResult<Vec<usize>>)
        requires
            old(self).wf(),
        ensures
            final(self).wf(),
            match annotation_ids(old(self)@) {
                Some(ids) => r is Ok && r->Ok_0@.len() == ids.len() && forall|i: int|
                    0 <= i < ids.len() ==> r->Ok_0@[i] == ids[i],
                None => r == Err::<Vec<usize>, IonError>(IonError::Decoding),
            },
    {
        let mut ids: Vec<usize> = Vec::new();
        let ghost mut seen: Seq<nat> = Seq::empty();
        loop
            invariant
                self.wf(),
                seen.len() == ids@.len(),
                forall|i: int| 0 <= i < seen.len() ==> ids@[i] == seen[i],
                match annotation_ids(self@) {
                    Some(rest) => annotation_ids(old(self)@) == Some(seen + rest),
                    None => annotation_ids(old(self)@) is None,
                },
            decreases self@.len(),
        {
            let ghost before = self@;
            match self.next() {
                None => {
                    assert(seen + Seq::<nat>::empty() =~= seen);
                    return Ok(ids);
                },
                Some(Ok(token)) => {
                    match token {
                        RawSymbolTokenRef::SymbolId(sid) => {
                            proof {
                                let (value, size) = next_annotation(before)->Some_0;
                                let rest = annotation_ids(before.skip(size as int));
                                if rest is Some {
                                    assert(seen + (seq![value] + rest->Some_0) =~= seen.push(value)
                                        + rest->Some_0);
                                }
                                seen = seen.push(value);
                            }
                            ids.push(sid);
                        },
                        RawSymbolTokenRef::Text(_) => {
                            return Err(IonError::Decoding);
                        },
                    }
                },
                Some(Err(error)) => {
                    return Err(error);
                },
            }
        }
    }
}

/// A symbol ID that was written in front of annotations is the first of the
/// annotations that are read.
pub proof fn lemma_annotation_first(symbol_id: usize, rest: Seq<u8>)
    ensures
        annotation_ids(crate::binary::var_uint::var_uint_bytes(symbol_id as nat) + rest)
            == match annotation_ids(rest) {
            Some(ids) => Some(seq![symbol_id as nat] + ids),
            None => None,
        },
{
    let first = crate::binary::var_uint::var_uint_bytes(symbol_id as nat);
    let s = first + rest;
    crate::binary::var_uint::lemma_var_uint_round_trip(symbol_id as u64, rest);
    crate::binary::var_uint::lemma_var_uint_bytes_len(symbol_id as nat);
    crate::binary::var_uint::lemma_encoded_size_u64(symbol_id as u64);
    assert(s.skip(first.len() as int) =~= rest);
}

} // verus!
