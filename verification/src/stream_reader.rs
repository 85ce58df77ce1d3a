//! What every streaming reader offers, whatever level it works at.

use vstd::prelude::*;
use crate::raw_reader::{RawBinaryReader, RawStreamItem};
use crate::reader::{UserReader, UserStreamItem};
use crate::result::IonResult;

verus! {

/// Captures the functionality needed to navigate within an Ion stream.
///
/// Readers at different levels of abstraction surface different items: a
/// user-level reader surfaces Ion values only, a raw reader surfaces version
/// markers and symbol tables too.
pub trait IonReader {
    /// The type returned by calls of `next`, indicating the next entity in
    /// the stream.
    type Item;

    /// True when the reader can be asked for its next item.
    spec fn is_ready(&self) -> bool;

    /// The version that the stream was found to be written in.
    spec fn spec_version(&self) -> (u8, u8);

    /// Returns the (major, minor) version of the Ion stream being read. If
    /// `ion_version` is called before an Ion Version Marker has been read, the
    /// version (1, 0) is returned.
    fn ion_version(&self) -> (version: (u8, u8))
        ensures
            version == self.spec_version(),
    ;

    /// True when advancing takes the reader from `pre` to `post` and yields
    /// `r`.
    spec fn advances(pre: &Self, post: &Self, r: IonResult<Self::Item>) -> bool;

    /// Attempts to advance the cursor to the next value in the stream at the
    /// current depth.
    fn next(&mut self) -> (r: IonResult<Self::Item>)
        requires
            old(self).is_ready(),
        ensures
            final(self).is_ready(),
            Self::advances(old(self), final(self), r),
    ;
}

impl<'a> IonReader for RawBinaryReader<'a> {
    type Item = RawStreamItem;

    open spec fn is_ready(&self) -> bool {
        self.wf()
    }

    open spec fn spec_version(&self) -> (u8, u8) {
        self.spec_ion_version()
    }

    fn ion_version(&self) -> (version: (u8, u8)) {
        RawBinaryReader::ion_version(self)
    }

    open spec fn advances(pre: &Self, post: &Self, r: IonResult<RawStreamItem>) -> bool {
        UserReader::raw_step(*pre, *post, r)
    }

    fn next(&mut self) -> (r: IonResult<RawStreamItem>) {
        RawBinaryReader::next(self)
    }
}

/// Through this trait the reader yields what it is positioned over by type:
/// an associated type cannot borrow the reader, as the handle that
/// `UserReader::next` yields does.
impl<'a> IonReader for UserReader<'a> {
    type Item = UserStreamItem;

    open spec fn is_ready(&self) -> bool {
        self.wf()
    }

    open spec fn spec_version(&self) -> (u8, u8) {
        self.spec_raw().spec_ion_version()
    }

    fn ion_version(&self) -> (version: (u8, u8)) {
        UserReader::ion_version(self)
    }

    open spec fn advances(pre: &Self, post: &Self, r: IonResult<UserStreamItem>) -> bool {
        &&& UserReader::user_step(*pre, *post, r)
        &&& r is Ok ==> r->Ok_0 == post.spec_current_item()
    }

    fn next(&mut self) -> (r: IonResult<UserStreamItem>) {
        UserReader::next_user_item(self)
    }
}

} // verus!
