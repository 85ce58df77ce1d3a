//! The application-level writer: it keeps a symbol table, turns the text of
//! symbols into symbol IDs, and writes the symbol table ahead of the data that
//! uses it.

use vstd::prelude::*;
use crate::binary::var_int::MAGNITUDE_LIMIT;
use crate::constants::{IMPORTS, ION_SYMBOL_TABLE, SYMBOLS};
use crate::lazy::encoder::binary::arena::{arena_bytes, BumpAllocator};
use crate::lazy::encoder::binary::encoding::{
    annotated_encoding,
    blob_encoding,
    bool_encoding,
    clob_encoding,
    container_encoding,
    decimal_encoding,
    encode_annotated,
    encode_null,
    encode_string,
    encode_symbol_id,
    field_encoding,
    float32_encoding,
    float64_encoding,
    ids_of,
    int_encoding,
    null_encoding,
    string_encoding,
    symbol_encoding,
    timestamp_encoding,
    write_bytes,
    write_container_header,
};
use crate::binary::var_uint::VarUInt;

use crate::lazy::encoder::binary::writer::{ivm_bytes, LazyRawBinaryWriter_1_0};
use crate::raw_symbol_token::RawSymbolTokenView;
use crate::raw_symbol_token_ref::RawSymbolTokenRef;
use crate::result::{IonError, IonResult};
use crate::symbol::Symbol;
use crate::symbol_table::{after_interning, first_id_of, system_entries, SymbolTable};
use crate::text::owned_text;
use crate::types::decimal::Decimal;
use crate::types::integer::Int;
use crate::types::timestamp::Timestamp;
use crate::types::{IonType, SymbolId};

verus! {

/// The entries of a `symbols` list for the given texts: a string for a text,
/// and `null.string` for a symbol whose text is unknown.
pub open spec fn symbol_entries(texts: Seq<Option<Seq<char>>>) -> Seq<u8>
    decreases texts.len(),
{
    if texts.len() == 0 {
        Seq::empty()
    } else {
        symbol_entries(texts.drop_last()) + match texts.last() {
            Some(text) => string_encoding(text),
            None => null_encoding(IonType::String),
        }
    }
}

/// The local symbol table that appends the given texts to the table:
/// `$ion_symbol_table::{imports: $ion_symbol_table, symbols: [...]}`.
pub open spec fn symbol_table_encoding(texts: Seq<Option<Seq<char>>>) -> Seq<u8> {
    annotated_encoding(
        seq![3nat],
        container_encoding(
            13,
            field_encoding(6, symbol_encoding(3)) + field_encoding(
                7,
                container_encoding(11, symbol_entries(texts)),
            ),
        ),
    )
}

/// Appends the local symbol table that appends the texts of `symbols` to the
/// table.
#[verifier::rlimit(50)]
pub fn encode_symbol_table(sink: &mut Vec<u8>, symbols: &[Symbol])
    ensures
        final(sink)@ == old(sink)@ + symbol_table_encoding(
            Seq::new(symbols@.len(), |i: int| symbols@[i]@),
        ),
{
    let ghost texts = Seq::new(symbols@.len(), |i: int| symbols@[i]@);
    let mut entries: Vec<u8> = Vec::new();
    let mut i: usize = 0;
    while i < symbols.len()
        invariant
            i <= symbols@.len(),
            texts == Seq::new(symbols@.len(), |i: int| symbols@[i]@),
            entries@ == symbol_entries(texts.take(i as int)),
        decreases symbols@.len() - i,
    {
        proof {
            assert(texts.take(i + 1).drop_last() =~= texts.take(i as int));
            assert(texts.take(i + 1).last() == symbols@[i as int]@);
        }
        match symbols[i].text() {
            Some(text) => encode_string(&mut entries, text),
            None => encode_null(&mut entries, IonType::String),
        }
        i += 1;
    }
    assert(texts.take(symbols@.len() as int) =~= texts);
    let mut fields: Vec<u8> = Vec::new();
    let _ = VarUInt::write_u64(&mut fields, IMPORTS as u64);
    encode_symbol_id(&mut fields, ION_SYMBOL_TABLE);
    let _ = VarUInt::write_u64(&mut fields, SYMBOLS as u64);
    write_container_header(&mut fields, 11, entries.len());
    write_bytes(&mut fields, entries.as_slice());
    assert(fields@ =~= field_encoding(6, symbol_encoding(3)) + field_encoding(
        7,
        container_encoding(11, symbol_entries(texts)),
    ));
    let mut table: Vec<u8> = Vec::new();
    write_container_header(&mut table, 13, fields.len());
    write_bytes(&mut table, fields.as_slice());
    assert(table@ =~= container_encoding(13, fields@));
    let annotations: [usize; 1] = [ION_SYMBOL_TABLE];
    assert(ids_of(annotations@) =~= seq![3nat]);
    encode_annotated(sink, annotations.as_slice(), table.as_slice());
}

/// Writes values whose symbols may be given as text.
///
/// The writer interns the text of each symbol it is given and writes the
/// symbol's ID. When it is flushed, the symbols that are new since the flush
/// before reach the output in a local symbol table, ahead of the data.
pub struct ApplicationWriter<'top> {
    pub symbol_table: SymbolTable,
    pub num_symbols_last_flush: usize,
    /// Encoding directives that wait for the next flush: at first, the
    /// version marker.
    pub directive_buffer: Vec<u8>,
    /// Writes user data to a buffer in memory.
    pub data_writer: LazyRawBinaryWriter_1_0<'top>,
    /// What all data is appended to each time that `flush()` is called.
    pub output: Vec<u8>,
}

impl<'top> ApplicationWriter<'top> {
    /// The table is well-formed, and the symbols that were flushed are in
    /// it.
    pub open spec fn wf(&self) -> bool {
        &&& self.symbol_table.wf()
        &&& self.num_symbols_last_flush <= self.symbol_table@.len()
        &&& self.data_writer.output@.len() == 0
    }

    /// The user data that is staged.
    pub open spec fn staged(&self) -> Seq<u8> {
        arena_bytes(self.data_writer.encoding_buffer)
    }

    /// The bytes that the next flush puts before the user data: the
    /// directives that wait, and a local symbol table if there are new
    /// symbols.
    pub open spec fn pending_directives(&self) -> Seq<u8> {
        self.directive_buffer@ + if self.symbol_table@.len() > self.num_symbols_last_flush {
            symbol_table_encoding(self.symbol_table@.skip(self.num_symbols_last_flush as int))
        } else {
            Seq::empty()
        }
    }

    /// A writer that appends to `output`. The first flush starts with the
    /// version marker of Ion 1.0.
    pub fn new(allocator: &'top BumpAllocator, output: Vec<u8>) -> (r: IonResult<Self>)
        ensures
            r is Ok,
            r->Ok_0.wf(),
            r->Ok_0.output@ == output@,
            r->Ok_0.symbol_table@ == system_entries(),
            r->Ok_0.num_symbols_last_flush == system_entries().len(),
            r->Ok_0.directive_buffer@ == ivm_bytes(),
            r->Ok_0.staged() == Seq::<u8>::empty(),
    {
        let symbol_table = SymbolTable::new();
        let num_symbols_last_flush = symbol_table.len();
        let mut directive_buffer: Vec<u8> = Vec::new();
        directive_buffer.push(0xE0);
        directive_buffer.push(0x01);
        directive_buffer.push(0x00);
        directive_buffer.push(0xEA);
        assert(directive_buffer@ =~= ivm_bytes());
        let mut data_writer = LazyRawBinaryWriter_1_0::new(allocator, Vec::new())?;
        // The data writer's own version marker is not wanted: the directives
        // carry one.
        data_writer.output.clear();
        Ok(
            ApplicationWriter {
                symbol_table,
                num_symbols_last_flush,
                directive_buffer,
                data_writer,
                output,
            },
        )
    }

    /// Returns a writer for the next value, which can still be given
    /// annotations.
    pub fn annotatable_value_writer(&mut self) -> (writer: ApplicationAnnotatableValueWriter<
        '_,
        'top,
    >)
        ensures
            *writer.writer == *old(self),
            *final(writer.writer) == *final(self),
    {
        ApplicationAnnotatableValueWriter { writer: self }
    }

    /// Returns a writer for the next value, without annotations.
    pub fn value_writer(&mut self) -> (writer: ApplicationValueWriter<'_, 'top>)
        ensures
            *writer.writer == *old(self),
            *final(writer.writer) == *final(self),
            writer.annotations@.len() == 0,
    {
        ApplicationValueWriter { writer: self, annotations: Vec::new() }
    }

    /// Appends to the output what waits: the directives, a local symbol
    /// table with the symbols that are new since the last flush, and the user
    /// data. Nothing waits afterwards.
    #[verifier::rlimit(50)]
    pub fn flush(&mut self) -> (r: IonResult<()>)
        requires
            old(self).wf(),
        ensures
            r is Ok,
            final(self).wf(),
            final(self).output@ == old(self).output@ + old(self).pending_directives()
                + old(self).staged(),
            final(self).symbol_table@ == old(self).symbol_table@,
            final(self).num_symbols_last_flush == old(self).symbol_table@.len(),
            final(self).directive_buffer@ == Seq::<u8>::empty(),
            final(self).staged() == Seq::<u8>::empty(),
    {
        let ghost start = self.output@;
        let ghost directives = self.pending_directives();
        let ghost data = self.staged();
        let num_symbols = self.symbol_table.len();
        if num_symbols > self.num_symbols_last_flush {
            let new_symbols = self.symbol_table.symbols_tail(self.num_symbols_last_flush);
            assert(Seq::new(new_symbols@.len(), |i: int| new_symbols@[i]@)
                =~= self.symbol_table@.skip(self.num_symbols_last_flush as int));
            encode_symbol_table(&mut self.directive_buffer, new_symbols);
            self.num_symbols_last_flush = num_symbols;
        } else {
            assert(self.directive_buffer@ + Seq::<u8>::empty() =~= self.directive_buffer@);
        }
        assert(self.directive_buffer@ == directives);
        write_bytes(&mut self.output, self.directive_buffer.as_slice());
        self.directive_buffer.clear();
        let _ = self.data_writer.flush();
        assert(self.data_writer.output@ =~= data);
        write_bytes(&mut self.output, self.data_writer.output.as_slice());
        self.data_writer.output.clear();
        assert(self.output@ =~= start + directives + data);
        Ok(())
    }

    /// Returns the output: what was flushed so far, after what the output
    /// held when the writer was made.
    pub fn output(&self) -> (output: &Vec<u8>)
        ensures
            output@ == self.output@,
    {
        &self.output
    }
}

/// A writer of one value that has not been told yet whether the value has
/// annotations.
pub struct ApplicationAnnotatableValueWriter<'value, 'top> {
    pub writer: &'value mut ApplicationWriter<'top>,
}

impl<'value, 'top> ApplicationAnnotatableValueWriter<'value, 'top> {
    /// Returns a writer that wraps the value in the given annotations, which
    /// may be given as text.
    pub fn with_annotations(self, annotations: &'value [RawSymbolTokenRef<'value>]) -> (writer:
        ApplicationAnnotatedValueWriter<'value, 'top>)
        ensures
            *writer.writer == *old(self.writer),
            *final(writer.writer) == *final(self.writer),
            writer.annotations == annotations,
    {
        ApplicationAnnotatedValueWriter { annotations, writer: self.writer }
    }

    /// Returns a writer that writes the value as it is.
    pub fn without_annotations(self) -> (writer: ApplicationValueWriter<'value, 'top>)
        ensures
            *writer.writer == *old(self.writer),
            *final(writer.writer) == *final(self.writer),
            writer.annotations@.len() == 0,
    {
        ApplicationValueWriter { writer: self.writer, annotations: Vec::new() }
    }
}

/// The table `entries` after the texts among `tokens` were interned in
/// order.
pub open spec fn with_annotation_texts(
    entries: Seq<Option<Seq<char>>>,
    tokens: Seq<RawSymbolTokenView>,
) -> Seq<Option<Seq<char>>>
    decreases tokens.len(),
{
    if tokens.len() == 0 {
        entries
    } else {
        let before = with_annotation_texts(entries, tokens.drop_last());
        match tokens.last() {
            RawSymbolTokenView::Text(text) => after_interning(before, text),
            RawSymbolTokenView::SymbolId(_) => before,
        }
    }
}

/// The tokens of `annotations` as mathematical values.
pub open spec fn tokens_of(annotations: Seq<RawSymbolTokenRef<'_>>) -> Seq<RawSymbolTokenView> {
    Seq::new(annotations.len(), |i: int| annotations[i]@)
}

/// True when `sid` is the symbol ID that stands for `token` under the table
/// `entries`: the token itself when it is a symbol ID, and the first ID of its
/// text when it is text.
pub open spec fn resolves_to(
    token: RawSymbolTokenView,
    sid: SymbolId,
    entries: Seq<Option<Seq<char>>>,
) -> bool {
    match token {
        RawSymbolTokenView::SymbolId(id) => sid == id,
        RawSymbolTokenView::Text(text) => first_id_of(entries, text) == Some(sid as int),
    }
}

/// A writer of one value with annotations, which may be given as text.
pub struct ApplicationAnnotatedValueWriter<'value, 'top> {
    pub annotations: &'value [RawSymbolTokenRef<'value>],
    pub writer: &'value mut ApplicationWriter<'top>,
}

impl<'value, 'top> ApplicationAnnotatedValueWriter<'value, 'top> {
    /// Interns the text of every annotation that is given as text.
    #[verifier::rlimit(50)]
    pub fn detect_new_symbols_in_annotations(&mut self) -> (r: IonResult<()>)
        requires
            old(self).writer.wf(),
        ensures
            r is Ok,
            final(self).writer.wf(),
            final(self).writer.symbol_table@ == with_annotation_texts(
                old(self).writer.symbol_table@,
                tokens_of(old(self).annotations@),
            ),
            final(self).annotations == old(self).annotations,
            final(self).writer.num_symbols_last_flush == old(self).writer.num_symbols_last_flush,
            final(self).writer.directive_buffer == old(self).writer.directive_buffer,
            final(self).writer.data_writer == old(self).writer.data_writer,
            final(self).writer.output == old(self).writer.output,
            *final(final(self).writer) == *final(old(self).writer),
    {
        let ghost tokens = tokens_of(self.annotations@);
        let ghost start = self.writer.symbol_table@;
        let mut i: usize = 0;
        while i < self.annotations.len()
            invariant
                i <= self.annotations@.len(),
                self.annotations == old(self).annotations,
                tokens == tokens_of(self.annotations@),
                self.writer.symbol_table.wf(),
                self.writer.symbol_table@.len() >= start.len(),
                start == old(self).writer.symbol_table@,
                old(self).writer.wf(),
                self.writer.symbol_table@ == with_annotation_texts(start, tokens.take(i as int)),
                self.writer.num_symbols_last_flush == old(self).writer.num_symbols_last_flush,
                self.writer.directive_buffer == old(self).writer.directive_buffer,
                self.writer.data_writer == old(self).writer.data_writer,
                self.writer.output == old(self).writer.output,
                *final(self.writer) == *final(old(self).writer),
            decreases self.annotations@.len() - i,
        {
            proof {
                assert(tokens.take(i + 1).drop_last() =~= tokens.take(i as int));
                assert(tokens.take(i + 1).last() == self.annotations@[i as int]@);
            }
            match self.annotations[i] {
                RawSymbolTokenRef::Text(text) => {
                    let _ = self.writer.symbol_table.intern(owned_text(text));
                },
                RawSymbolTokenRef::SymbolId(_) => {},
            }
            i += 1;
        }
        assert(tokens.take(tokens.len() as int) =~= tokens);
        Ok(())
    }

    /// Returns a writer for the value, which wraps it in the annotations. The
    /// text of every annotation that is given as text is interned.
    #[verifier::rlimit(50)]
    pub fn value_writer(self) -> (writer: ApplicationValueWriter<'value, 'top>)
        requires
            old(self.writer).wf(),
        ensures
            writer.writer.wf(),
            writer.writer.symbol_table@ == with_annotation_texts(
                old(self.writer).symbol_table@,
                tokens_of(self.annotations@),
            ),
            writer.writer.num_symbols_last_flush == old(self.writer).num_symbols_last_flush,
            writer.writer.directive_buffer == old(self.writer).directive_buffer,
            writer.writer.data_writer == old(self.writer).data_writer,
            writer.writer.output == old(self.writer).output,
            *final(writer.writer) == *final(self.writer),
            writer.annotations@.len() == self.annotations@.len(),
            forall|i: int|
                0 <= i < self.annotations@.len() ==> #[trigger] resolves_to(
                    self.annotations@[i]@,
                    writer.annotations@[i],
                    writer.writer.symbol_table@,
                ),
    {
        let mut this = self;
        let _ = this.detect_new_symbols_in_annotations();
        let mut resolved: Vec<SymbolId> = Vec::new();
        let mut i: usize = 0;
        while i < this.annotations.len()
            invariant
                i <= this.annotations@.len(),
                resolved@.len() == i,
                this.annotations == self.annotations,
                this.writer.wf(),
                this.writer.symbol_table@ == with_annotation_texts(
                    old(self.writer).symbol_table@,
                    tokens_of(self.annotations@),
                ),
                forall|j: int|
                    0 <= j < i ==> #[trigger] resolves_to(
                        self.annotations@[j]@,
                        resolved@[j],
                        this.writer.symbol_table@,
                    ),
            decreases this.annotations@.len() - i,
        {
            match this.annotations[i] {
                RawSymbolTokenRef::SymbolId(sid) => {
                    resolved.push(sid);
                },
                RawSymbolTokenRef::Text(text) => {
                    match this.writer.symbol_table.sid_for(text) {
                        Some(sid) => {
                            resolved.push(sid);
                        },
                        None => {
                            // Every text was interned above.
                            proof {
                                lemma_annotation_texts_after_interning(
                                    old(self.writer).symbol_table@,
                                    tokens_of(self.annotations@),
                                    i as int,
                                );
                            }
                            resolved.push(0);
                        },
                    }
                },
            }
            i += 1;
        }
        ApplicationValueWriter { writer: this.writer, annotations: resolved }
    }
}

/// After the texts among `tokens` were interned, the table holds each of
/// them.
pub proof fn lemma_annotation_texts_after_interning(
    entries: Seq<Option<Seq<char>>>,
    tokens: Seq<RawSymbolTokenView>,
    i: int,
)
    requires
        0 <= i < tokens.len(),
        tokens[i] is Text,
    ensures
        first_id_of(with_annotation_texts(entries, tokens), tokens[i]->Text_0) is Some,
    decreases tokens.len(),
{
    let before = with_annotation_texts(entries, tokens.drop_last());
    let text = tokens[i]->Text_0;
    if i < tokens.len() - 1 {
        assert(tokens.drop_last()[i] == tokens[i]);
        lemma_annotation_texts_after_interning(entries, tokens.drop_last(), i);
        match tokens.last() {
            RawSymbolTokenView::Text(last) => {
                crate::symbol_table::lemma_first_id_of_push(before, Some(last), text);
            },
            RawSymbolTokenView::SymbolId(_) => {},
        }
    } else {
        crate::symbol_table::lemma_first_id_of_push(before, Some(text), text);
    }
}

/// Writes one value, wrapped in annotations that were resolved to symbol
/// IDs, to the user data of an application writer.
pub struct ApplicationValueWriter<'value, 'top> {
    pub writer: &'value mut ApplicationWriter<'top>,
    pub annotations: Vec<SymbolId>,
}

impl<'value, 'top> ApplicationValueWriter<'value, 'top> {
    /// The encoding `value`, with this writer's annotations around it.
    pub open spec fn wrapped(&self, value: Seq<u8>) -> Seq<u8> {
        annotated_encoding(ids_of(self.annotations@), value)
    }

    /// True when `post` is `pre` with `bytes` staged after its user data.
    pub open spec fn staged_after(
        pre: ApplicationWriter<'top>,
        post: ApplicationWriter<'top>,
        bytes: Seq<u8>,
    ) -> bool {
        &&& post.staged() == pre.staged() + bytes
        &&& post.symbol_table == pre.symbol_table
        &&& post.num_symbols_last_flush == pre.num_symbols_last_flush
        &&& post.directive_buffer == pre.directive_buffer
        &&& post.output == pre.output
        &&& post.data_writer.output == pre.data_writer.output
    }

    /// Writes the null of the given type.
    pub fn write_null(self, ion_type: IonType) -> (r: IonResult<()>)
        ensures
            r is Ok,
            Self::staged_after(
                *old(self.writer),
                *final(self.writer),
                self.wrapped(null_encoding(ion_type)),
            ),
    {
        let annotations = self.annotations;
        let mut value_writer = self.writer.data_writer.value_writer();
        value_writer.annotations = annotations.as_slice();
        value_writer.write_null(ion_type)
    }

    /// Writes a boolean.
    pub fn write_bool(self, value: bool) -> (r: IonResult<()>)
        ensures
            r is Ok,
            Self::staged_after(
                *old(self.writer),
                *final(self.writer),
                self.wrapped(bool_encoding(value)),
            ),
    {
        let annotations = self.annotations;
        let mut value_writer = self.writer.data_writer.value_writer();
        value_writer.annotations = annotations.as_slice();
        value_writer.write_bool(value)
    }

    /// Writes an integer that an `i64` holds.
    pub fn write_i64(self, value: i64) -> (r: IonResult<()>)
        ensures
            r is Ok,
            Self::staged_after(
                *old(self.writer),
                *final(self.writer),
                self.wrapped(int_encoding(value as int)),
            ),
    {
        let annotations = self.annotations;
        let mut value_writer = self.writer.data_writer.value_writer();
        value_writer.annotations = annotations.as_slice();
        value_writer.write_i64(value)
    }

    /// Writes an integer of any size.
    pub fn write_int(self, value: &Int) -> (r: IonResult<()>)
        requires
            value.wf(),
        ensures
            r is Ok,
            Self::staged_after(
                *old(self.writer),
                *final(self.writer),
                self.wrapped(int_encoding(value.value())),
            ),
    {
        let annotations = self.annotations;
        let mut value_writer = self.writer.data_writer.value_writer();
        value_writer.annotations = annotations.as_slice();
        value_writer.write_int(value)
    }

    /// Writes a float given by the bits of a single-precision number.
    pub fn write_f32(self, bits: u32) -> (r: IonResult<()>)
        ensures
            r is Ok,
            Self::staged_after(
                *old(self.writer),
                *final(self.writer),
                self.wrapped(float32_encoding(bits)),
            ),
    {
        let annotations = self.annotations;
        let mut value_writer = self.writer.data_writer.value_writer();
        value_writer.annotations = annotations.as_slice();
        value_writer.write_f32(bits)
    }

    /// Writes a float given by the bits of a double-precision number.
    pub fn write_f64(self, bits: u64) -> (r: IonResult<()>)
        ensures
            r is Ok,
            Self::staged_after(
                *old(self.writer),
                *final(self.writer),
                self.wrapped(float64_encoding(bits)),
            ),
    {
        let annotations = self.annotations;
        let mut value_writer = self.writer.data_writer.value_writer();
        value_writer.annotations = annotations.as_slice();
        value_writer.write_f64(bits)
    }

    /// Writes a decimal. An exponent whose magnitude is 2 to the 62 or more
    /// is an encoding error, and nothing is staged.
    pub fn write_decimal(self, value: &Decimal) -> (r: IonResult<()>)
        requires
            value.wf(),
        ensures
            vstd::math::abs(value.spec_exponent() as int) < MAGNITUDE_LIMIT ==> r is Ok
                && Self::staged_after(
                *old(self.writer),
                *final(self.writer),
                self.wrapped(decimal_encoding(value.view_parts())),
            ),
            vstd::math::abs(value.spec_exponent() as int) >= MAGNITUDE_LIMIT ==> r == Err::<
                (),
                IonError,
            >(IonError::Encoding) && Self::staged_after(
                *old(self.writer),
                *final(self.writer),
                Seq::empty(),
            ),
    {
        let annotations = self.annotations;
        let ghost before = self.writer.staged();
        assert(before + Seq::<u8>::empty() =~= before);
        let mut value_writer = self.writer.data_writer.value_writer();
        value_writer.annotations = annotations.as_slice();
        value_writer.write_decimal(value)
    }

    /// Writes a timestamp. A fraction whose exponent has a magnitude of 2 to
    /// the 62 or more is an encoding error, and nothing is staged.
    pub fn write_timestamp(self, value: &Timestamp) -> (r: IonResult<()>)
        requires
            value.wf(),
        ensures
            match r {
                Ok(_) => Self::staged_after(
                    *old(self.writer),
                    *final(self.writer),
                    self.wrapped(timestamp_encoding(value.view_parts())),
                ),
                Err(error) => error == IonError::Encoding && Self::staged_after(
                    *old(self.writer),
                    *final(self.writer),
                    Seq::empty(),
                ),
            },
            r is Err <==> value.fractional_seconds is Some && vstd::math::abs(
                value.fractional_seconds->Some_0.spec_exponent() as int,
            ) >= MAGNITUDE_LIMIT,
    {
        let annotations = self.annotations;
        let ghost before = self.writer.staged();
        assert(before + Seq::<u8>::empty() =~= before);
        let mut value_writer = self.writer.data_writer.value_writer();
        value_writer.annotations = annotations.as_slice();
        value_writer.write_timestamp(value)
    }

    /// Writes a string.
    pub fn write_string(self, value: &str) -> (r: IonResult<()>)
        ensures
            r is Ok,
            Self::staged_after(
                *old(self.writer),
                *final(self.writer),
                self.wrapped(string_encoding(value@)),
            ),
    {
        let annotations = self.annotations;
        let mut value_writer = self.writer.data_writer.value_writer();
        value_writer.annotations = annotations.as_slice();
        value_writer.write_string(value)
    }

    /// Writes a clob.
    pub fn write_clob(self, value: &[u8]) -> (r: IonResult<()>)
        ensures
            r is Ok,
            Self::staged_after(
                *old(self.writer),
                *final(self.writer),
                self.wrapped(clob_encoding(value@)),
            ),
    {
        let annotations = self.annotations;
        let mut value_writer = self.writer.data_writer.value_writer();
        value_writer.annotations = annotations.as_slice();
        value_writer.write_clob(value)
    }

    /// Writes a blob.
    pub fn write_blob(self, value: &[u8]) -> (r: IonResult<()>)
        ensures
            r is Ok,
            Self::staged_after(
                *old(self.writer),
                *final(self.writer),
                self.wrapped(blob_encoding(value@)),
            ),
    {
        let annotations = self.annotations;
        let mut value_writer = self.writer.data_writer.value_writer();
        value_writer.annotations = annotations.as_slice();
        value_writer.write_blob(value)
    }

    /// Writes a symbol. A symbol ID is written as it is. Text is interned,
    /// and the ID that the symbol table gives it is written.
    pub fn write_symbol(self, value: RawSymbolTokenRef<'_>) -> (r: IonResult<()>)
        requires
            old(self.writer).wf(),
        ensures
            r is Ok,
            final(self.writer).wf(),
            match value {
                RawSymbolTokenRef::SymbolId(sid) => Self::staged_after(
                    *old(self.writer),
                    *final(self.writer),
                    self.wrapped(symbol_encoding(sid as nat)),
                ),
                RawSymbolTokenRef::Text(text) => {
                    &&& final(self.writer).symbol_table@ == after_interning(
                        old(self.writer).symbol_table@,
                        text@,
                    )
                    &&& first_id_of(final(self.writer).symbol_table@, text@) is Some
                    &&& final(self.writer).staged() == old(self.writer).staged() + self.wrapped(
                        symbol_encoding(
                            first_id_of(final(self.writer).symbol_table@, text@)->Some_0 as nat,
                        ),
                    )
                    &&& final(self.writer).num_symbols_last_flush
                        == old(self.writer).num_symbols_last_flush
                    &&& final(self.writer).directive_buffer == old(self.writer).directive_buffer
                    &&& final(self.writer).output == old(self.writer).output
                },
            },
    {
        let annotations = self.annotations;
        let symbol_id = match value {
            // The symbol to write is a symbol table index.
            RawSymbolTokenRef::SymbolId(sid) => sid,
            // The symbol to write is text, and the binary encoding wants it
            // interned.
            RawSymbolTokenRef::Text(text) => self.writer.symbol_table.intern(owned_text(text)),
        };
        let mut value_writer = self.writer.data_writer.value_writer();
        value_writer.annotations = annotations.as_slice();
        value_writer.write_symbol_id(symbol_id)
    }
}

/// Writes values one after another to the user data of an application
/// writer.
pub struct ApplicationListWriter<'value, 'top> {
    pub writer: &'value mut ApplicationWriter<'top>,
}

impl<'value, 'top> ApplicationListWriter<'value, 'top> {
    /// Returns a writer for the next value.
    pub fn value_writer(&mut self) -> (writer: ApplicationAnnotatableValueWriter<'_, 'top>)
        ensures
            *writer.writer == *old(self).writer,
            *final(writer.writer) == *final(self).writer,
            *final(final(self).writer) == *final(old(self).writer),
    {
        ApplicationAnnotatableValueWriter { writer: &mut *self.writer }
    }
}

} // verus!
