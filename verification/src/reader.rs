//! The user-level reader: it hides version markers and symbol tables, and
//! resolves symbol IDs to text.

use vstd::prelude::*;
use crate::lazy::binary::raw::annotations_iterator::annotation_ids;
use crate::lazy::binary::raw::value::decode_body;
use crate::lazy::raw_value_ref::RawValueRef;
use crate::raw_reader::{RawBinaryReader, RawStreamItem};
use crate::raw_symbol_token_ref::RawSymbolTokenRef;
use crate::result::{IonError, IonResult};
use crate::symbol::Symbol;
use crate::symbol_ref::SymbolRef;
use crate::symbol_table::{system_entries, SymbolTable};
use crate::symbol_table_directive::{applied, directive_of, is_symbol_table, read_directive};
use crate::types::value_ref::{resolved, ValueRef};
use crate::types::IonType;
use crate::value_reader::{SequenceRef, StructRef, ValueReader};

verus! {

/// Configures and constructs new instances of [`Reader`].
pub struct ReaderBuilder {}

impl Default for ReaderBuilder {
    fn default() -> (builder: Self)
        ensures
            builder == (ReaderBuilder {  }),
    {
        ReaderBuilder::new()
    }
}

impl ReaderBuilder {
    /// Constructs a `ReaderBuilder` pre-populated with common default
    /// settings.
    pub fn new() -> (builder: ReaderBuilder)
        ensures
            builder == (ReaderBuilder {  }),
    {
        ReaderBuilder {  }
    }

    /// True when `data` starts with the four bytes of a version marker.
    pub open spec fn starts_with_marker(data: Seq<u8>) -> bool {
        data.len() >= 4 && data[0] == 0xE0 && data[3] == 0xEA
    }

    /// Builds a reader over `input`, after a look at its first four bytes.
    ///
    /// Input that starts with the version marker of Ion 1.0 is binary Ion, and
    /// gets a reader. A version marker of another version is a decoding error.
    /// Anything else is not binary Ion, which is all this library reads: an
    /// illegal operation.
    pub fn build<'a>(self, input: &'a [u8]) -> (r: IonResult<Reader<'a>>)
        ensures
            match r {
                Ok(reader) => Self::starts_with_marker(input@) && input@[1] == 1 && input@[2]
                    == 0 && reader.wf() && reader.spec_raw().spec_data() == input@
                    && reader.spec_raw().spec_position() == 0 && reader.spec_raw().spec_depth()
                    == 0 && reader.spec_table() == system_entries(),
                Err(error) => if Self::starts_with_marker(input@) {
                    !(input@[1] == 1 && input@[2] == 0) && error == IonError::Decoding
                } else {
                    error == IonError::IllegalOperation
                },
            },
    {
        if input.len() >= 4 && input[0] == 0xE0 && input[3] == 0xEA {
            if input[1] == 1 && input[2] == 0 {
                Ok(Reader::new(RawBinaryReader::new(input)))
            } else {
                Err(IonError::Decoding)
            }
        } else {
            Err(IonError::IllegalOperation)
        }
    }
}

/// Stream components that the system level of the reader encounters.
#[derive(Debug, Eq, PartialEq, Copy, Clone, Structural)]
pub enum SystemStreamItem {
    /// An Ion version marker; the symbol table was reset.
    VersionMarker(u8, u8),
    /// A struct that held a local symbol table; the symbol table was changed
    /// as it asked.
    SymbolTableValue(IonType),
    /// A user value that is not null.
    Value(IonType),
    /// A user value that is null.
    Null(IonType),
    /// The reader is not positioned over anything.
    Nothing,
}

/// What the reader is positioned over at the user level, by type.
#[derive(Debug, Eq, PartialEq, Copy, Clone, Structural)]
pub enum UserStreamItem {
    /// A value that is not null, with its type.
    Value(IonType),
    /// A null, with its type.
    Null(IonType),
    /// The reader is not positioned over anything: nothing is left at the
    /// current level.
    Nothing,
}

/// Stream components that an application-level reader encounters.
#[derive(Debug)]
pub enum StreamItem<'r, 'a> {
    /// An Ion value and a handle by which to read it.
    Value(ValueReader<'r, 'a>),
    /// The reader is not positioned over anything: nothing is left at the
    /// current level.
    Nothing,
}

/// A streaming Ion reader that resolves symbol IDs into their corresponding
/// text.
#[derive(Debug)]
pub struct UserReader<'a> {
    raw: RawBinaryReader<'a>,
    symbol_table: SymbolTable,
}

/// The reader of binary Ion.
pub type Reader<'a> = UserReader<'a>;

impl<'a> UserReader<'a> {
    /// The raw reader underneath.
    pub closed spec fn spec_raw(&self) -> RawBinaryReader<'a> {
        self.raw
    }

    /// The symbol table: the text of each symbol by ID.
    pub closed spec fn spec_table(&self) -> Seq<Option<Seq<char>>> {
        self.symbol_table@
    }

    /// The raw reader is well-formed and the table starts with the system
    /// symbols.
    pub closed spec fn wf(&self) -> bool {
        self.raw.wf() && self.symbol_table.wf()
    }

    /// What one call of the raw reader's `next` does.
    pub open spec fn raw_step(
        pre: RawBinaryReader<'a>,
        post: RawBinaryReader<'a>,
        r: IonResult<RawStreamItem>,
    ) -> bool {
        &&& RawBinaryReader::advanced(pre, post, r)
        &&& pre.spec_depth() == 0 ==> RawBinaryReader::advanced_at_top_level(pre, post, r)
        &&& pre.spec_depth() > 0 && pre.spec_parents().last().ion_type is Struct
            ==> RawBinaryReader::advanced_in_struct(pre, post, r)
        &&& pre.spec_depth() > 0 && !(pre.spec_parents().last().ion_type is Struct)
            ==> RawBinaryReader::advanced_in_sequence(pre, post, r)
    }

    /// True when the raw reader is positioned over a local symbol table: a
    /// struct at the top level whose first annotation is symbol ID 3.
    pub open spec fn over_symbol_table(raw: RawBinaryReader<'a>) -> bool {
        &&& raw.spec_depth() == 0
        &&& raw.spec_current() is Some
        &&& is_symbol_table(
            raw.spec_current()->Some_0.layout(),
            raw.spec_current()->Some_0.spec_annotations_bytes(),
        )
    }

    /// What the system level makes of an item of the raw level, found by the
    /// raw reader `raw`: a version marker resets the table, a local symbol
    /// table changes it as it asks, and anything else leaves it alone. A
    /// malformed local symbol table is a decoding error.
    pub open spec fn system_outcome(
        pre_table: Seq<Option<Seq<char>>>,
        post_table: Seq<Option<Seq<char>>>,
        raw: RawBinaryReader<'a>,
        raw_item: IonResult<RawStreamItem>,
        r: IonResult<SystemStreamItem>,
    ) -> bool {
        match raw_item {
            Err(error) => r == Err::<SystemStreamItem, IonError>(error) && post_table == pre_table,
            Ok(RawStreamItem::VersionMarker(major, minor)) => r == Ok::<
                SystemStreamItem,
                IonError,
            >(SystemStreamItem::VersionMarker(major, minor)) && post_table == system_entries(),
            Ok(RawStreamItem::Nothing) => r == Ok::<SystemStreamItem, IonError>(
                SystemStreamItem::Nothing,
            ) && post_table == pre_table,
            Ok(RawStreamItem::Null(ion_type)) => r == Ok::<SystemStreamItem, IonError>(
                SystemStreamItem::Null(ion_type),
            ) && post_table == pre_table,
            Ok(RawStreamItem::Value(ion_type)) => if Self::over_symbol_table(raw) {
                match directive_of(raw.spec_current()->Some_0.spec_body()) {
                    Some(directive) => r == Ok::<SystemStreamItem, IonError>(
                        SystemStreamItem::SymbolTableValue(ion_type),
                    ) && post_table == applied(pre_table, directive),
                    None => r == Err::<SystemStreamItem, IonError>(IonError::Decoding)
                        && post_table == pre_table,
                }
            } else {
                r == Ok::<SystemStreamItem, IonError>(SystemStreamItem::Value(ion_type))
                    && post_table == pre_table
            },
        }
    }

    /// What `next_system_item` does: the raw reader moves to its next item,
    /// and the system level makes of the item what `system_outcome` says.
    #[verifier::opaque]
    pub open spec fn system_step(pre: Self, post: Self, r: IonResult<SystemStreamItem>) -> bool {
        exists|raw_item: IonResult<RawStreamItem>| #[trigger]
            Self::raw_step(pre.spec_raw(), post.spec_raw(), raw_item) && Self::system_outcome(
                pre.spec_table(),
                post.spec_table(),
                post.spec_raw(),
                raw_item,
                r,
            )
    }

    /// What `next` does: system steps, until one finds a user value, the end
    /// of the current level, or an error.
    pub open spec fn user_step(pre: Self, post: Self, r: IonResult<UserStreamItem>) -> bool
        decreases pre.spec_raw().spec_data().len() - pre.spec_raw().spec_position(),
    {
        exists|middle: Self, item: IonResult<SystemStreamItem>| #[trigger]
            Self::system_step(pre, middle, item) && match item {
                Err(error) => post == middle && r == Err::<UserStreamItem, IonError>(error),
                Ok(SystemStreamItem::Value(ion_type)) => post == middle && r == Ok::<
                    UserStreamItem,
                    IonError,
                >(UserStreamItem::Value(ion_type)),
                Ok(SystemStreamItem::Null(ion_type)) => post == middle && r == Ok::<
                    UserStreamItem,
                    IonError,
                >(UserStreamItem::Null(ion_type)),
                Ok(SystemStreamItem::Nothing) => post == middle && r == Ok::<
                    UserStreamItem,
                    IonError,
                >(UserStreamItem::Nothing),
                Ok(_) => {
                    &&& middle.spec_raw().spec_data() == pre.spec_raw().spec_data()
                    &&& pre.spec_raw().spec_position() < middle.spec_raw().spec_position()
                        <= middle.spec_raw().spec_data().len()
                    &&& Self::user_step(middle, post, r)
                },
            }
    }

    /// What the reader is positioned over, as the user level sees it.
    pub open spec fn spec_current_item(&self) -> UserStreamItem {
        match self.spec_raw().spec_current() {
            Some(value) => if value.layout().is_null() {
                UserStreamItem::Null(value.layout().ion_type)
            } else {
                UserStreamItem::Value(value.layout().ion_type)
            },
            None => UserStreamItem::Nothing,
        }
    }

    /// A reader on top of `raw_reader`, with a table that holds the system
    /// symbols.
    pub fn new(raw_reader: RawBinaryReader<'a>) -> (reader: UserReader<'a>)
        requires
            raw_reader.wf(),
        ensures
            reader.wf(),
            reader.spec_raw() == raw_reader,
            reader.spec_table() == system_entries(),
    {
        UserReader { raw: raw_reader, symbol_table: SymbolTable::new() }
    }

    /// Returns the symbol table.
    pub fn symbol_table(&self) -> (table: &SymbolTable)
        ensures
            table@ == self.spec_table(),
    {
        &self.symbol_table
    }

    /// Returns the (major, minor) version of the Ion stream being read.
    pub fn ion_version(&self) -> (version: (u8, u8))
        ensures
            version == self.spec_raw().spec_ion_version(),
    {
        self.raw.ion_version()
    }

    /// Returns the number of containers that the reader is in.
    pub fn depth(&self) -> (depth: usize)
        ensures
            depth == self.spec_raw().spec_depth(),
    {
        self.raw.depth()
    }

    /// Returns the type of the container that the reader is in; `None` at
    /// the top level.
    pub fn parent_type(&self) -> (parent: Option<IonType>)
        ensures
            parent == if self.spec_raw().spec_depth() == 0 {
                None
            } else {
                Some(self.spec_raw().spec_parents().last().ion_type)
            },
    {
        self.raw.parent_type()
    }

    /// Returns the type of the value that the reader is positioned over.
    pub fn ion_type(&self) -> (ion_type: Option<IonType>)
        ensures
            ion_type == match self.spec_raw().spec_current() {
                Some(value) => Some(value.layout().ion_type),
                None => None,
            },
    {
        self.raw.ion_type()
    }

    /// Reports whether the reader is positioned over a null.
    pub fn is_null(&self) -> (is_null: bool)
        ensures
            is_null == match self.spec_raw().spec_current() {
                Some(value) => value.layout().is_null(),
                None => false,
            },
    {
        self.raw.is_null()
    }

    /// Reports whether the raw reader is positioned over a local symbol
    /// table.
    fn is_over_symbol_table(&self) -> (b: bool)
        requires
            self.wf(),
            self.spec_raw().spec_current() is Some,
        ensures
            b == Self::over_symbol_table(self.spec_raw()),
    {
        if self.raw.depth() != 0 {
            return false;
        }
        let value = match self.raw.current_value() {
            Some(value) => value,
            None => {
                return false;
            },
        };
        let is_struct = match value.ion_type() {
            IonType::Struct => true,
            _ => false,
        };
        if !is_struct || value.is_null() {
            return false;
        }
        let mut annotations = value.annotations();
        match annotations.next() {
            Some(Ok(RawSymbolTokenRef::SymbolId(sid))) => sid == 3,
            _ => false,
        }
    }

    /// Moves to the next item of the current level and returns what the
    /// system level makes of it.
    ///
    /// After a version marker, the symbol table holds the system symbols and
    /// nothing else.
    #[verifier::rlimit(50)]
    pub fn next_system_item(&mut self) -> (r: IonResult<SystemStreamItem>)
        requires
            old(self).wf(),
        ensures
            final(self).wf(),
            Self::system_step(*old(self), *final(self), r),
            r is Ok && r->Ok_0 is VersionMarker ==> final(self).spec_table() == system_entries(),
            final(self).spec_raw().spec_data() == old(self).spec_raw().spec_data(),
            final(self).spec_raw().spec_parents() == old(self).spec_raw().spec_parents(),
            old(self).spec_raw().spec_position() <= final(self).spec_raw().spec_position()
                <= final(self).spec_raw().spec_data().len(),
            r is Ok && !(r->Ok_0 is Nothing) ==> old(self).spec_raw().spec_position()
                < final(self).spec_raw().spec_position(),
            r is Ok ==> match r->Ok_0 {
                SystemStreamItem::Value(t) => final(self).spec_current_item()
                    == UserStreamItem::Value(t),
                SystemStreamItem::Null(t) => final(self).spec_current_item() == UserStreamItem::Null(t),
                SystemStreamItem::Nothing => final(self).spec_current_item() == UserStreamItem::Nothing,
                _ => true,
            },
    {
        let ghost pre = *self;
        let raw_item = self.raw.next();
        let ghost raw_after = self.raw;
        assert(Self::raw_step(pre.spec_raw(), raw_after, raw_item));
        let result = match raw_item {
            Err(error) => Err(error),
            Ok(RawStreamItem::VersionMarker(major, minor)) => {
                self.symbol_table.reset();
                Ok(SystemStreamItem::VersionMarker(major, minor))
            },
            Ok(RawStreamItem::Nothing) => Ok(SystemStreamItem::Nothing),
            Ok(RawStreamItem::Null(ion_type)) => Ok(SystemStreamItem::Null(ion_type)),
            Ok(RawStreamItem::Value(ion_type)) => {
                if self.is_over_symbol_table() {
                    self.act_on_symbol_table(ion_type)
                } else {
                    Ok(SystemStreamItem::Value(ion_type))
                }
            },
        };
        proof {
            assert(self.spec_raw() == raw_after);
            assert(Self::system_outcome(
                pre.spec_table(),
                self.spec_table(),
                self.spec_raw(),
                raw_item,
                result,
            ));
            reveal(UserReader::system_step);
            assert(Self::system_step(pre, *self, result));
        }
        result
    }

    /// Changes the symbol table as the local symbol table that the raw
    /// reader is positioned over asks.
    fn act_on_symbol_table(&mut self, ion_type: IonType) -> (r: IonResult<SystemStreamItem>)
        requires
            old(self).wf(),
            old(self).spec_raw().spec_current() is Some,
        ensures
            final(self).wf(),
            final(self).spec_raw() == old(self).spec_raw(),
            match directive_of(old(self).spec_raw().spec_current()->Some_0.spec_body()) {
                Some(directive) => r == Ok::<SystemStreamItem, IonError>(
                    SystemStreamItem::SymbolTableValue(ion_type),
                ) && final(self).spec_table() == applied(old(self).spec_table(), directive),
                None => r == Err::<SystemStreamItem, IonError>(IonError::Decoding)
                    && final(self).spec_table() == old(self).spec_table(),
            },
    {
        let value = match self.raw.current_value() {
            Some(value) => value,
            None => {
                return Err(IonError::Decoding);
            },
        };
        match read_directive(&value) {
            Ok(directive) => {
                self.symbol_table.apply(&directive);
                Ok(SystemStreamItem::SymbolTableValue(ion_type))
            },
            Err(_) => Err(IonError::Decoding),
        }
    }

    /// A system step that finds a user value, the end of the level or an
    /// error is a user step.
    pub proof fn lemma_user_step_ends(pre: Self, middle: Self, item: IonResult<SystemStreamItem>)
        requires
            Self::system_step(pre, middle, item),
            !(item is Ok && (item->Ok_0 is VersionMarker || item->Ok_0 is SymbolTableValue)),
        ensures
            Self::user_step(pre, middle, Self::user_item(item)),
    {
    }

    /// A system step that passes a version marker or a local symbol table,
    /// followed by a user step, is a user step.
    pub proof fn lemma_user_step_goes_on(
        pre: Self,
        middle: Self,
        item: IonResult<SystemStreamItem>,
        post: Self,
        r: IonResult<UserStreamItem>,
    )
        requires
            Self::system_step(pre, middle, item),
            item is Ok && (item->Ok_0 is VersionMarker || item->Ok_0 is SymbolTableValue),
            middle.spec_raw().spec_data() == pre.spec_raw().spec_data(),
            pre.spec_raw().spec_position() < middle.spec_raw().spec_position()
                <= middle.spec_raw().spec_data().len(),
            Self::user_step(middle, post, r),
        ensures
            Self::user_step(pre, post, r),
    {
    }

    /// What the user level returns for an item of the system level that ends
    /// a user step.
    pub open spec fn user_item(item: IonResult<SystemStreamItem>) -> IonResult<UserStreamItem> {
        match item {
            Err(error) => Err(error),
            Ok(SystemStreamItem::Value(ion_type)) => Ok(UserStreamItem::Value(ion_type)),
            Ok(SystemStreamItem::Null(ion_type)) => Ok(UserStreamItem::Null(ion_type)),
            Ok(_) => Ok(UserStreamItem::Nothing),
        }
    }

    /// Moves to the next user value of the current level: version markers
    /// and local symbol tables on the way are acted on and passed over.
    #[verifier::rlimit(50)]
    pub fn next_user_item(&mut self) -> (r: IonResult<UserStreamItem>)
        requires
            old(self).wf(),
        ensures
            final(self).wf(),
            Self::user_step(*old(self), *final(self), r),
            r is Ok ==> r->Ok_0 == final(self).spec_current_item(),
    {
        let ghost start = *self;
        loop
            invariant
                self.wf(),
                start == *old(self),
                self.spec_raw().spec_position() <= self.spec_raw().spec_data().len(),
                forall|post: Self, r: IonResult<UserStreamItem>| #[trigger]
                    Self::user_step(*self, post, r) ==> Self::user_step(start, post, r),
            decreases self.spec_raw().spec_data().len() - self.spec_raw().spec_position(),
        {
            let ghost pre = *self;
            let item = self.next_system_item();
            let ghost middle = *self;
            let passes = match item {
                Ok(SystemStreamItem::VersionMarker(_, _)) => true,
                Ok(SystemStreamItem::SymbolTableValue(_)) => true,
                _ => false,
            };
            if !passes {
                proof {
                    Self::lemma_user_step_ends(pre, middle, item);
                }
                let result = match item {
                    Err(error) => Err(error),
                    Ok(SystemStreamItem::Value(ion_type)) => Ok(UserStreamItem::Value(ion_type)),
                    Ok(SystemStreamItem::Null(ion_type)) => Ok(UserStreamItem::Null(ion_type)),
                    Ok(_) => Ok(UserStreamItem::Nothing),
                };
                assert(result == Self::user_item(item));
                assert(result is Ok ==> result->Ok_0 == self.spec_current_item()) by {
                    match item {
                        Ok(SystemStreamItem::Value(t)) => {
                            assert(self.spec_current_item() == UserStreamItem::Value(t));
                        },
                        Ok(SystemStreamItem::Null(t)) => {
                            assert(self.spec_current_item() == UserStreamItem::Null(t));
                        },
                        Ok(SystemStreamItem::Nothing) => {
                            assert(self.spec_current_item() == UserStreamItem::Nothing);
                        },
                        _ => {},
                    }
                }
                assert(Self::user_step(pre, middle, result));
                assert(Self::user_step(start, middle, result));
                return result;
            }
            proof {
                assert forall|post: Self, r: IonResult<UserStreamItem>| #[trigger]
                    Self::user_step(middle, post, r) implies Self::user_step(start, post, r) by {
                    Self::lemma_user_step_goes_on(pre, middle, item, post, r);
                }
            }
        }
    }

    /// Steps into the container that the reader is positioned over. Over
    /// nothing, over a scalar and over a null this is an illegal operation.
    pub fn step_in(&mut self) -> (r: IonResult<()>)
        requires
            old(self).wf(),
        ensures
            final(self).wf(),
            final(self).spec_table() == old(self).spec_table(),
            final(self).spec_raw().spec_data() == old(self).spec_raw().spec_data(),
            match old(self).spec_raw().spec_current() {
                Some(value) => if value.layout().ion_type.spec_is_container()
                    && !value.layout().is_null() {
                    &&& r is Ok
                    &&& final(self).spec_raw().spec_depth() == old(self).spec_raw().spec_depth() + 1
                    &&& final(self).spec_raw().spec_parents().last().ion_type
                        == value.layout().ion_type
                    &&& final(self).spec_raw().spec_current() is None
                    &&& final(self).spec_raw().spec_remaining() == value.spec_body()
                } else {
                    r == Err::<(), IonError>(IonError::IllegalOperation) && final(self).spec_raw()
                        == old(self).spec_raw()
                },
                None => r == Err::<(), IonError>(IonError::IllegalOperation)
                    && final(self).spec_raw() == old(self).spec_raw(),
            },
    {
        self.raw.step_in()
    }

    /// Steps out of the container that the reader is in, passing what is
    /// left of it. At the top level this is an illegal operation.
    pub fn step_out(&mut self) -> (r: IonResult<()>)
        requires
            old(self).wf(),
        ensures
            final(self).wf(),
            final(self).spec_table() == old(self).spec_table(),
            final(self).spec_raw().spec_data() == old(self).spec_raw().spec_data(),
            old(self).spec_raw().spec_depth() == 0 ==> r == Err::<(), IonError>(
                IonError::IllegalOperation,
            ) && final(self).spec_raw() == old(self).spec_raw(),
            old(self).spec_raw().spec_depth() > 0 ==> {
                &&& r is Ok
                &&& final(self).spec_raw().spec_parents()
                    == old(self).spec_raw().spec_parents().drop_last()
                &&& final(self).spec_raw().spec_position() == old(self).spec_raw().spec_limit()
                &&& final(self).spec_raw().spec_current() is None
            },
    {
        self.raw.step_out()
    }

    /// True when `post` is `pre` after it stepped out of containers until it
    /// was at most `depth` containers deep: as it was when it was no deeper, and
    /// else positioned over nothing, after the end of the container that it was
    /// in at that depth.
    pub open spec fn stepped_out(pre: Self, post: Self, depth: nat) -> bool {
        &&& post.spec_table() == pre.spec_table()
        &&& post.spec_raw().spec_data() == pre.spec_raw().spec_data()
        &&& post.spec_raw().spec_ion_version() == pre.spec_raw().spec_ion_version()
        &&& if pre.spec_raw().spec_depth() <= depth {
            post.spec_raw() == pre.spec_raw()
        } else {
            &&& post.spec_raw().spec_parents() == pre.spec_raw().spec_parents().take(depth as int)
            &&& post.spec_raw().spec_position() == pre.spec_raw().spec_parents()[depth as int].end
            &&& post.spec_raw().spec_current() is None
        }
    }

    /// Steps out of containers until the reader is at most `depth`
    /// containers deep.
    #[verifier::rlimit(50)]
    pub fn step_out_to_depth(&mut self, depth: usize) -> (r: IonResult<()>)
        requires
            old(self).wf(),
        ensures
            r is Ok,
            final(self).wf(),
            Self::stepped_out(*old(self), *final(self), depth as nat),
    {
        let ghost start = *self;
        while self.raw.depth() > depth
            invariant
                self.wf(),
                start == *old(self),
                self.spec_table() == start.spec_table(),
                self.spec_raw().spec_data() == start.spec_raw().spec_data(),
                self.spec_raw().spec_ion_version() == start.spec_raw().spec_ion_version(),
                self.spec_raw().spec_depth() <= start.spec_raw().spec_depth(),
                self.spec_raw().spec_parents() == start.spec_raw().spec_parents().take(
                    self.spec_raw().spec_depth() as int,
                ),
                self.spec_raw().spec_depth() == start.spec_raw().spec_depth() ==> self.spec_raw()
                    == start.spec_raw(),
                self.spec_raw().spec_depth() < start.spec_raw().spec_depth() ==> {
                    &&& self.spec_raw().spec_depth() >= depth
                    &&& self.spec_raw().spec_position()
                        == start.spec_raw().spec_parents()[self.spec_raw().spec_depth() as int].end
                    &&& self.spec_raw().spec_current() is None
                },
            decreases self.spec_raw().spec_depth(),
        {
            let ghost before = self.spec_raw();
            let _ = self.raw.step_out();
            proof {
                let all = start.spec_raw().spec_parents();
                let k = before.spec_depth() as int;
                assert(all.take(k).drop_last() =~= all.take(k - 1));
                assert(all.take(k).last() == all[k - 1]);
            }
        }
        Ok(())
    }

    /// True when `r` is what reading the name of the field that the reader is
    /// positioned over yields: the entry that the symbol table holds for the
    /// field ID; an illegal operation outside a struct and over nothing; a
    /// decoding error for a field ID that the table does not hold.
    pub open spec fn field_name_read(&self, r: IonResult<SymbolRef<'_>>) -> bool {
        match self.spec_raw().spec_current() {
            Some(value) => match value.encoded_value.field_id {
                Some(field_id) => if field_id < self.spec_table().len() {
                    r is Ok && r->Ok_0@ == self.spec_table()[field_id as int]
                } else {
                    r is Err && r->Err_0 == IonError::Decoding
                },
                None => r is Err && r->Err_0 == IonError::IllegalOperation,
            },
            None => r is Err && r->Err_0 == IonError::IllegalOperation,
        }
    }

    /// True when `r` is what reading the annotations of the value that the
    /// reader is positioned over yields: the entries that the symbol table
    /// holds for the symbol IDs; nothing over nothing; a decoding error for a
    /// malformed annotation and for a symbol ID that the table does not hold.
    pub open spec fn annotations_read(&self, r: IonResult<Vec<Symbol>>) -> bool {
        match self.spec_raw().spec_current() {
            None => r is Ok && r->Ok_0@.len() == 0,
            Some(value) => match annotation_ids(value.spec_annotations_bytes()) {
                Some(ids) => if Self::all_within(ids, self.spec_table().len()) {
                    r is Ok && r->Ok_0@.len() == ids.len() && forall|i: int|
                        0 <= i < ids.len() ==> (#[trigger] r->Ok_0@[i])@
                            == self.spec_table()[ids[i] as int]
                } else {
                    r is Err && r->Err_0 == IonError::Decoding
                },
                None => r is Err && r->Err_0 == IonError::Decoding,
            },
        }
    }

    /// True when `r` is what reading the value that the reader is positioned
    /// over yields: the value that its body spells, with a symbol resolved in
    /// the symbol table; an illegal operation over nothing; a decoding error
    /// for a malformed body and for a symbol ID that the table does not hold.
    pub open spec fn value_read(&self, r: IonResult<ValueRef<'_, 'a>>) -> bool {
        &&& match self.spec_raw().spec_current() {
            Some(value) => match decode_body(value.encoded_value.opcode, value.spec_body()) {
                Some(raw) => match resolved(raw, self.spec_table()) {
                    Some(view) => r is Ok && r->Ok_0@ == view,
                    None => r is Err && r->Err_0 == IonError::Decoding,
                },
                None => r is Err && r->Err_0 == IonError::Decoding,
            },
            None => r is Err && r->Err_0 == IonError::IllegalOperation,
        }
        &&& r is Ok ==> match r->Ok_0 {
            ValueRef::Int(i) => i.wf(),
            ValueRef::Decimal(d) => d.wf(),
            ValueRef::Timestamp(t) => t.wf(),
            _ => true,
        }
    }

    /// What `next_at_depth` does: the reader steps out until it is at most
    /// `depth` containers deep, and then moves to the next user value.
    pub open spec fn child_step(
        pre: Self,
        post: Self,
        depth: nat,
        r: IonResult<UserStreamItem>,
    ) -> bool {
        exists|middle: Self| #[trigger]
            Self::stepped_out(pre, middle, depth) && middle.wf() && Self::user_step(
                middle,
                post,
                r,
            )
    }

    /// Moves to the next user value of the level that is `depth` containers
    /// deep, or of the level that the reader is at when that is less deep:
    /// steps out of the containers below that level first, passing what is left
    /// of them.
    pub fn next_at_depth(&mut self, depth: usize) -> (r: IonResult<UserStreamItem>)
        requires
            old(self).wf(),
        ensures
            final(self).wf(),
            Self::child_step(*old(self), *final(self), depth as nat, r),
            r is Ok ==> r->Ok_0 == final(self).spec_current_item(),
    {
        let _ = self.step_out_to_depth(depth);
        let ghost middle = *self;
        assert(Self::stepped_out(*old(self), middle, depth as nat));
        self.next_user_item()
    }

    /// Returns the name of the field that the reader is positioned over,
    /// resolved in the symbol table. Outside a struct, and over nothing, this
    /// is an illegal operation; a field ID that the table does not hold is a
    /// decoding error.
    pub fn field_name(&self) -> (r: IonResult<SymbolRef<'_>>)
        ensures
            self.field_name_read(r),
    {
        match self.raw.field_name() {
            Ok(RawSymbolTokenRef::SymbolId(field_id)) => {
                match self.symbol_table.symbol_for(field_id) {
                    Some(symbol) => Ok(SymbolRef::from_optional_text(symbol.text())),
                    None => Err(IonError::Decoding),
                }
            },
            Ok(RawSymbolTokenRef::Text(text)) => Ok(SymbolRef::with_text(text)),
            Err(error) => Err(error),
        }
    }

    /// True when a table of `len` symbols holds each of `ids`.
    pub open spec fn all_within(ids: Seq<nat>, len: nat) -> bool {
        forall|i: int| 0 <= i < ids.len() ==> ids[i] < len
    }

    /// Returns the annotations of the value that the reader is positioned
    /// over, resolved in the symbol table; none when the reader is positioned
    /// over nothing. A malformed annotation is a decoding error, and so is a
    /// symbol ID that the table does not hold.
    #[verifier::rlimit(50)]
    pub fn annotations(&self) -> (r: IonResult<Vec<Symbol>>)
        requires
            self.wf(),
        ensures
            self.annotations_read(r),
    {
        let ids = self.raw.annotations()?;
        let mut symbols: Vec<Symbol> = Vec::new();
        let mut i: usize = 0;
        let ghost spec_ids: Seq<nat> = match self.spec_raw().spec_current() {
            Some(value) => annotation_ids(value.spec_annotations_bytes())->Some_0,
            None => Seq::empty(),
        };
        while i < ids.len()
            invariant
                i <= ids@.len(),
                symbols@.len() == i,
                spec_ids.len() == ids@.len(),
                forall|j: int| 0 <= j < ids@.len() ==> ids@[j] == spec_ids[j],
                ids@.len() > 0 ==> self.spec_raw().spec_current() is Some && annotation_ids(
                    self.spec_raw().spec_current()->Some_0.spec_annotations_bytes(),
                ) == Some(spec_ids),
                forall|j: int| 0 <= j < i ==> spec_ids[j] < self.spec_table().len(),
                forall|j: int|
                    0 <= j < i ==> (#[trigger] symbols@[j])@
                        == self.spec_table()[spec_ids[j] as int],
            decreases ids@.len() - i,
        {
            match self.symbol_table.symbol_for(ids[i]) {
                Some(symbol) => {
                    symbols.push(symbol.duplicate());
                },
                None => {
                    proof {
                        assert(!(spec_ids[i as int] < self.spec_table().len()));
                        assert(self.spec_raw().spec_current() is Some);
                        let value = self.spec_raw().spec_current()->Some_0;
                        assert(annotation_ids(value.spec_annotations_bytes()) == Some(spec_ids));
                        assert(!Self::all_within(spec_ids, self.spec_table().len()));
                    }
                    return Err(IonError::Decoding);
                },
            }
            i += 1;
        }
        Ok(symbols)
    }

    /// Decodes the value that the reader is positioned over and resolves it
    /// if it is a symbol. Over nothing, this is an illegal operation; a value
    /// that is malformed is a decoding error, and so is a symbol ID that the
    /// table does not hold.
    ///
    /// A container comes as a handle that borrows the reader. Reading leaves
    /// the reader as it was.
    pub fn read_value(&mut self) -> (r: IonResult<ValueRef<'_, 'a>>)
        requires
            old(self).wf(),
        ensures
            old(self).value_read(r),
            match r {
                Ok(ValueRef::List(handle)) => *handle.reader == *old(self) && *final(handle.reader) == *final(self),
                Ok(ValueRef::SExp(handle)) => *handle.reader == *old(self) && *final(handle.reader) == *final(self),
                Ok(ValueRef::Struct(handle)) => *handle.reader == *old(self) && *final(handle.reader) == *final(self),
                _ => *final(self) == *old(self),
            },
    {
        let raw_value = match self.raw.read_value() {
            Ok(raw_value) => raw_value,
            Err(error) => {
                return Err(error);
            },
        };
        match raw_value {
            RawValueRef::Null(ion_type) => Ok(ValueRef::Null(ion_type)),
            RawValueRef::Bool(b) => Ok(ValueRef::Bool(b)),
            RawValueRef::Int(i) => Ok(ValueRef::Int(i)),
            RawValueRef::Float(f) => Ok(ValueRef::Float(f)),
            RawValueRef::Decimal(d) => Ok(ValueRef::Decimal(d)),
            RawValueRef::Timestamp(t) => Ok(ValueRef::Timestamp(t)),
            RawValueRef::String(s) => Ok(ValueRef::String(s)),
            RawValueRef::Symbol(RawSymbolTokenRef::SymbolId(sid)) => {
                match self.symbol_table.symbol_for(sid) {
                    Some(symbol) => Ok(ValueRef::Symbol(symbol.duplicate())),
                    None => Err(IonError::Decoding),
                }
            },
            RawValueRef::Symbol(RawSymbolTokenRef::Text(text)) => Ok(
                ValueRef::Symbol(Symbol::owned(text)),
            ),
            RawValueRef::Blob(b) => Ok(ValueRef::Blob(b)),
            RawValueRef::Clob(c) => Ok(ValueRef::Clob(c)),
            RawValueRef::SExp(_) => Ok(ValueRef::SExp(SequenceRef::new(self))),
            RawValueRef::List(_) => Ok(ValueRef::List(SequenceRef::new(self))),
            RawValueRef::Struct(_) => Ok(ValueRef::Struct(StructRef::new(self))),
        }
    }
}

} // verus!
