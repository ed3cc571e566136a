//! Decoding of the a.out header and of the symbol table that follows the
//! text and data segments.
use vstd::prelude::*;
use vstd::utf8::{decode_utf8, valid_utf8};
use crate::error::ConvertError;
use crate::target::{target_of_magic, MachineTarget, AOUT_MAGIC_AMD64, AOUT_MAGIC_RISCV64};
use crate::wire::{be_u32, be_u32_at, le_u32, le_u32_at};

verus! {

/// Size of the a.out header.
pub const AOUT_HEADER_SIZE: usize = 32;

/// Bytes between the a.out header and the text segment.
pub const AOUT_HEADER_PAD: usize = 8;

/// Size of a symbol record's head: spacer, value and type.
pub const SYM_HEADER_SIZE: usize = 9;

/// How far past a symbol record's head the end of its name is looked for.
pub const SYM_NAME_WINDOW: usize = 128;

/// The fixed header at the start of an a.out image. The magic is read as a
/// little-endian word, which gives the constants of [`crate::target`]; the
/// seven sizes that follow are big-endian.
#[derive(Clone, Copy, Debug, PartialEq, Eq, Structural)]
pub struct AoutHeader {
    pub magic: u32,
    pub text_size: u32,
    pub data_size: u32,
    pub bss_size: u32,
    pub symbol_table_size: u32,
    pub entry_point: u32,
    pub sp_size: u32,
    pub pc_size: u32,
}

impl AoutHeader {
    /// The header that the first 32 bytes of `s` encode.
    pub open spec fn decode(s: Seq<u8>) -> AoutHeader
        recommends
            s.len() >= AOUT_HEADER_SIZE,
    {
        AoutHeader {
            magic: le_u32_at(s, 0),
            text_size: be_u32_at(s, 4),
            data_size: be_u32_at(s, 8),
            bss_size: be_u32_at(s, 12),
            symbol_table_size: be_u32_at(s, 16),
            entry_point: be_u32_at(s, 20),
            sp_size: be_u32_at(s, 24),
            pc_size: be_u32_at(s, 28),
        }
    }

    /// Decodes the header from the front of `d`. Fails with `FormatError`
    /// exactly when `d` is shorter than a header.
    pub fn read_from_prefix(d: &[u8]) -> (r: Result<AoutHeader, ConvertError>)
        ensures
            d@.len() >= AOUT_HEADER_SIZE ==> r == Ok::<AoutHeader, ConvertError>(
                AoutHeader::decode(d@),
            ),
            d@.len() < AOUT_HEADER_SIZE ==> r == Err::<AoutHeader, ConvertError>(
                ConvertError::FormatError,
            ),
    {
        if d.len() < AOUT_HEADER_SIZE {
            return Err(ConvertError::FormatError);
        }
        Ok(
            AoutHeader {
                magic: le_u32(d, 0),
                text_size: be_u32(d, 4),
                data_size: be_u32(d, 8),
                bss_size: be_u32(d, 12),
                symbol_table_size: be_u32(d, 16),
                entry_point: be_u32(d, 20),
                sp_size: be_u32(d, 24),
                pc_size: be_u32(d, 28),
            },
        )
    }
}

/// The machine that the header's magic selects. Fails with
/// `UnsupportedArchitecture`, which carries the magic, exactly when the magic
/// is none of the known ones.
pub fn aout_mach_to_elf(aout: &AoutHeader) -> (r: Result<MachineTarget, ConvertError>)
    ensures
        match target_of_magic(aout.magic) {
            Some(t) => r == Ok::<MachineTarget, ConvertError>(t),
            None => r == Err::<MachineTarget, ConvertError>(
                ConvertError::UnsupportedArchitecture(aout.magic),
            ),
        },
{
    let m = aout.magic;
    if m == AOUT_MAGIC_AMD64 {
        Ok(MachineTarget::Amd64)
    } else if m == AOUT_MAGIC_RISCV64 {
        Ok(MachineTarget::RiscV64)
    } else {
        Err(ConvertError::UnsupportedArchitecture(m))
    }
}

/// What a symbol stands for, as its type byte says.
#[derive(Clone, Copy, Debug, PartialEq, Eq, Structural)]
pub enum AoutSymbolType {
    TextSegment,
    StaticTextSegment,
    LeafFunction,
    StaticLeafFunction,
    DataSegment,
    StaticDataSegment,
    BssSegment,
    StaticBssSegment,
    AutoVariable,
    FunctionParam,
    FrameSymbol,
    SourceFileNameComp,
    SourceFileName,
    SourceFileOffset,
    Underscore,
    Curly,
    E,
    G,
    I,
    O,
    S,
    U,
    V,
    W,
    Zero,
    /// A type byte that the table does not list; the byte is kept as read.
    Unknown(u8),
}

/// The category of a type byte. The top bit is ignored; the low seven bits
/// are looked up as an ASCII letter.
pub open spec fn symbol_type_of(raw: u8) -> AoutSymbolType {
    let t = raw as int % 128;
    if t == 0x54 {
        AoutSymbolType::TextSegment
    } else if t == 0x74 {
        AoutSymbolType::StaticTextSegment
    } else if t == 0x4c {
        AoutSymbolType::LeafFunction
    } else if t == 0x6c {
        AoutSymbolType::StaticLeafFunction
    } else if t == 0x44 {
        AoutSymbolType::DataSegment
    } else if t == 0x64 {
        AoutSymbolType::StaticDataSegment
    } else if t == 0x42 {
        AoutSymbolType::BssSegment
    } else if t == 0x62 {
        AoutSymbolType::StaticBssSegment
    } else if t == 0x61 {
        AoutSymbolType::AutoVariable
    } else if t == 0x70 {
        AoutSymbolType::FunctionParam
    } else if t == 0x6d {
        AoutSymbolType::FrameSymbol
    } else if t == 0x66 {
        AoutSymbolType::SourceFileNameComp
    } else if t == 0x7a {
        AoutSymbolType::SourceFileName
    } else if t == 0x5a {
        AoutSymbolType::SourceFileOffset
    } else if t == 0x65 {
        AoutSymbolType::E
    } else if t == 0x67 {
        AoutSymbolType::G
    } else if t == 0x49 {
        AoutSymbolType::I
    } else if t == 0x6f {
        AoutSymbolType::O
    } else if t == 0x53 {
        AoutSymbolType::S
    } else if t == 0x75 {
        AoutSymbolType::U
    } else if t == 0x76 {
        AoutSymbolType::V
    } else if t == 0x77 {
        AoutSymbolType::W
    } else if t == 0x5f {
        AoutSymbolType::Underscore
    } else if t == 0x30 {
        AoutSymbolType::Zero
    } else if t == 0x7b {
        AoutSymbolType::Curly
    } else {
        AoutSymbolType::Unknown(raw)
    }
}

/// Whether a type byte marks a symbol of the text segment, global or static.
pub open spec fn is_text_type(raw: u8) -> bool {
    symbol_type_of(raw) == AoutSymbolType::TextSegment || symbol_type_of(raw)
        == AoutSymbolType::StaticTextSegment
}

/// One symbol of an a.out symbol table.
#[derive(Clone, Debug)]
pub struct AoutSymbol {
    /// The symbol's address.
    pub value: u32,
    /// The type byte as it stands in the record.
    pub sym_type: u8,
    /// The bytes of the name, without the terminator.
    pub name: Vec<u8>,
}

/// What an [`AoutSymbol`] holds, as plain values.
pub struct SymbolRecord {
    pub value: u32,
    pub sym_type: u8,
    pub name: Seq<u8>,
}

impl SymbolRecord {
    /// Number of bytes that the record takes in the table: head, name and
    /// terminator.
    pub open spec fn len(self) -> int {
        SYM_HEADER_SIZE as int + self.name.len() + 1
    }

    /// Whether the symbol belongs to the text segment.
    pub open spec fn is_text(self) -> bool {
        is_text_type(self.sym_type)
    }
}

impl View for AoutSymbol {
    type V = SymbolRecord;

    open spec fn view(&self) -> SymbolRecord {
        SymbolRecord { value: self.value, sym_type: self.sym_type, name: self.name@ }
    }
}

/// The records that a vector of symbols holds.
pub open spec fn records_of(syms: Seq<AoutSymbol>) -> Seq<SymbolRecord> {
    Seq::new(syms.len(), |i: int| syms[i]@)
}

/// The category of a symbol.
pub fn aout_symbol_type(s: &AoutSymbol) -> (r: AoutSymbolType)
    ensures
        r == symbol_type_of(s.sym_type),
{
    let raw = s.sym_type;
    let t: u8 = raw & 0x7f;
    assert(t as int == raw as int % 128) by (bit_vector)
        requires
            t == raw & 0x7f,
    ;
    match t {
        0x54 => AoutSymbolType::TextSegment,
        0x74 => AoutSymbolType::StaticTextSegment,
        0x4c => AoutSymbolType::LeafFunction,
        0x6c => AoutSymbolType::StaticLeafFunction,
        0x44 => AoutSymbolType::DataSegment,
        0x64 => AoutSymbolType::StaticDataSegment,
        0x62 => AoutSymbolType::StaticBssSegment,
        0x42 => AoutSymbolType::BssSegment,
        0x61 => AoutSymbolType::AutoVariable,
        0x70 => AoutSymbolType::FunctionParam,
        0x6d => AoutSymbolType::FrameSymbol,
        0x66 => AoutSymbolType::SourceFileNameComp,
        0x7a => AoutSymbolType::SourceFileName,
        0x5a => AoutSymbolType::SourceFileOffset,
        0x65 => AoutSymbolType::E,
        0x67 => AoutSymbolType::G,
        0x49 => AoutSymbolType::I,
        0x6f => AoutSymbolType::O,
        0x53 => AoutSymbolType::S,
        0x75 => AoutSymbolType::U,
        0x76 => AoutSymbolType::V,
        0x77 => AoutSymbolType::W,
        0x5f => AoutSymbolType::Underscore,
        0x30 => AoutSymbolType::Zero,
        0x7b => AoutSymbolType::Curly,
        _ => AoutSymbolType::Unknown(raw),
    }
}

/// The text shown for a symbol's name: the name decoded as UTF-8, or a
/// stand-in where the bytes are no UTF-8.
pub open spec fn name_text(name: Seq<u8>) -> Seq<char> {
    if valid_utf8(name) {
        decode_utf8(name)
    } else {
        "[noname]"@
    }
}

/// Turns bytes into a string with `String::from_utf8`. Trusted: the call
/// succeeds exactly on valid UTF-8, and the string then holds the characters
/// that the bytes encode.
#[verifier::external_body]
fn string_from_utf8(bytes: Vec<u8>) -> (r: Option<String>)
    ensures
        r is Some <==> valid_utf8(bytes@),
        r matches Some(text) ==> text@ == decode_utf8(bytes@),
{
    match String::from_utf8(bytes) {
        Ok(text) => Some(text),
        Err(_) => None,
    }
}

impl AoutSymbol {
    /// Number of bytes that the symbol's record takes in the table.
    pub fn len(&self) -> (r: usize)
        requires
            self.name@.len() + SYM_HEADER_SIZE + 1 <= usize::MAX,
        ensures
            r == self@.len(),
    {
        SYM_HEADER_SIZE + self.name.len() + 1
    }

    /// The category of the symbol.
    pub fn get_type(&self) -> (r: AoutSymbolType)
        ensures
            r == symbol_type_of(self.sym_type),
    {
        aout_symbol_type(self)
    }

    /// The symbol's name as text.
    pub fn name(&self) -> (r: String)
        ensures
            r@ == name_text(self.name@),
    {
        let bytes = vstd::slice::slice_to_vec(self.name.as_slice());
        match string_from_utf8(bytes) {
            Some(text) => text,
            None => "[noname]".to_owned(),
        }
    }
}

/// Index of the first zero byte of `s` in `[from, to)`, if there is one.
pub open spec fn first_nul(s: Seq<u8>, from: int, to: int) -> Option<int>
    decreases to - from,
{
    if from >= to {
        None
    } else if s[from] == 0 {
        Some(from)
    } else {
        first_nul(s, from + 1, to)
    }
}

/// What `first_nul` finds: the least index of a zero byte in the range, or
/// nothing exactly when the range holds no zero byte.
pub proof fn lemma_first_nul(s: Seq<u8>, from: int, to: int)
    ensures
        match first_nul(s, from, to) {
            Some(e) => from <= e < to && s[e] == 0 && forall|j: int| from <= j < e ==> s[j] != 0,
            None => forall|j: int| from <= j < to ==> s[j] != 0,
        },
    decreases to - from,
{
    if from < to && s[from] != 0 {
        lemma_first_nul(s, from + 1, to);
    }
}

/// Where the search for the end of a record's name stops: after the
/// lookahead window, or at the end of the table if that comes first.
pub open spec fn name_window_end(s: Seq<u8>) -> int {
    if s.len() < SYM_HEADER_SIZE + SYM_NAME_WINDOW {
        s.len() as int
    } else {
        (SYM_HEADER_SIZE + SYM_NAME_WINDOW) as int
    }
}

/// The symbol record at the front of `s`: four spacer bytes, the big-endian
/// value, the type byte, then the name up to its terminator. There is none
/// where `s` is shorter than a record's head or the name's terminator is not
/// found within the window.
pub open spec fn parse_record(s: Seq<u8>) -> Option<SymbolRecord> {
    if s.len() < SYM_HEADER_SIZE {
        None
    } else {
        match first_nul(s, SYM_HEADER_SIZE as int, name_window_end(s)) {
            None => None,
            Some(e) => Some(
                SymbolRecord {
                    value: be_u32_at(s, 4),
                    sym_type: s[8],
                    name: s.subrange(SYM_HEADER_SIZE as int, e),
                },
            ),
        }
    }
}

/// A record that was parsed from `s` lies within `s`, and its name holds no
/// zero byte and is shorter than the window.
pub proof fn lemma_parse_record(s: Seq<u8>)
    ensures
        parse_record(s) matches Some(r) ==> {
            &&& r.len() <= s.len()
            &&& r.name.len() < SYM_NAME_WINDOW
            &&& s[r.len() - 1] == 0
            &&& forall|j: int| 0 <= j < r.name.len() ==> r.name[j] != 0
        },
{
    lemma_first_nul(s, SYM_HEADER_SIZE as int, name_window_end(s));
}

/// Decodes the symbol record at the front of `st`. Fails with
/// `SymbolParseError` exactly when there is no record there.
pub fn parse_sym(st: &[u8]) -> (r: Result<AoutSymbol, ConvertError>)
    ensures
        match parse_record(st@) {
            Some(rec) => r is Ok && r->Ok_0@ == rec,
            None => r == Err::<AoutSymbol, ConvertError>(ConvertError::SymbolParseError),
        },
{
    if st.len() < SYM_HEADER_SIZE {
        return Err(ConvertError::SymbolParseError);
    }
    let end: usize = if st.len() < SYM_HEADER_SIZE + SYM_NAME_WINDOW {
        st.len()
    } else {
        SYM_HEADER_SIZE + SYM_NAME_WINDOW
    };
    let mut i: usize = SYM_HEADER_SIZE;
    while i < end
        invariant
            SYM_HEADER_SIZE <= i <= end,
            end == name_window_end(st@),
            end <= st@.len(),
            first_nul(st@, SYM_HEADER_SIZE as int, end as int) == first_nul(
                st@,
                i as int,
                end as int,
            ),
        decreases end - i,
    {
        if st[i] == 0 {
            let name = vstd::slice::slice_to_vec(
                vstd::slice::slice_subrange(st, SYM_HEADER_SIZE, i),
            );
            return Ok(AoutSymbol { value: be_u32(st, 4), sym_type: st[8], name });
        }
        i = i + 1;
    }
    Err(ConvertError::SymbolParseError)
}

/// The records of a symbol table, in the order in which they lie in it. Each
/// record starts where the one before it ends; there is no result where some
/// record cannot be parsed.
pub open spec fn parse_table(s: Seq<u8>) -> Option<Seq<SymbolRecord>>
    decreases s.len(),
    via parse_table_decreases
{
    if s.len() == 0 {
        Some(Seq::empty())
    } else {
        match parse_record(s) {
            None => None,
            Some(r) => match parse_table(s.skip(r.len())) {
                None => None,
                Some(rest) => Some(seq![r] + rest),
            },
        }
    }
}

#[via_fn]
proof fn parse_table_decreases(s: Seq<u8>) {
    lemma_parse_record(s);
}

/// Decodes a whole symbol table. Fails with `SymbolParseError` exactly when
/// some record of it cannot be parsed.
pub fn parse_aout_symbols(st: &[u8]) -> (r: Result<Vec<AoutSymbol>, ConvertError>)
    ensures
        match parse_table(st@) {
            Some(recs) => r is Ok && records_of(r->Ok_0@) == recs,
            None => r == Err::<Vec<AoutSymbol>, ConvertError>(ConvertError::SymbolParseError),
        },
{
    let mut syms: Vec<AoutSymbol> = Vec::new();
    let mut offset: usize = 0;
    assert(st@.skip(0) =~= st@);
    assert(records_of(syms@) =~= Seq::<SymbolRecord>::empty());
    while offset < st.len()
        invariant
            offset <= st@.len(),
            parse_table(st@) == match parse_table(st@.skip(offset as int)) {
                None => None::<Seq<SymbolRecord>>,
                Some(rest) => Some(records_of(syms@) + rest),
            },
        decreases st@.len() - offset,
    {
        let tail = vstd::slice::slice_subrange(st, offset, st.len());
        assert(tail@ =~= st@.skip(offset as int));
        proof {
            lemma_parse_record(tail@);
        }
        match parse_sym(tail) {
            Err(e) => {
                return Err(e);
            },
            Ok(sym) => {
                let ghost before = records_of(syms@);
                let ghost rec = sym@;
                assert(tail@.skip(rec.len()) =~= st@.skip(offset + rec.len()));
                offset = offset + sym.len();
                syms.push(sym);
                assert(records_of(syms@) =~= before.push(rec));
                assert forall|rest: Seq<SymbolRecord>|
                    before + (seq![rec] + rest) == #[trigger] (before.push(rec) + rest) by {
                    assert(before + (seq![rec] + rest) =~= before.push(rec) + rest);
                }
            },
        }
    }
    assert(st@.skip(offset as int) =~= Seq::<u8>::empty());
    assert(records_of(syms@) + Seq::<SymbolRecord>::empty() =~= records_of(syms@));
    Ok(syms)
}

/// The room that the names of `recs` take in a table, terminators included.
pub open spec fn names_weight(recs: Seq<SymbolRecord>) -> int
    decreases recs.len(),
{
    if recs.len() == 0 {
        0
    } else {
        names_weight(recs.drop_last()) + recs.last().name.len() + 1
    }
}

/// The weight of a list with one record put behind it.
pub proof fn lemma_names_weight_push(recs: Seq<SymbolRecord>, r: SymbolRecord)
    ensures
        names_weight(recs.push(r)) == names_weight(recs) + r.name.len() + 1,
        names_weight(Seq::<SymbolRecord>::empty()) == 0,
{
    assert(recs.push(r).drop_last() =~= recs);
}

/// The weight of a list with one record put in front.
pub proof fn lemma_names_weight_front(r: SymbolRecord, rest: Seq<SymbolRecord>)
    ensures
        names_weight(seq![r] + rest) == r.name.len() + 1 + names_weight(rest),
    decreases rest.len(),
{
    let all = seq![r] + rest;
    if rest.len() == 0 {
        assert(all =~= Seq::<SymbolRecord>::empty().push(r));
        lemma_names_weight_push(Seq::<SymbolRecord>::empty(), r);
    } else {
        lemma_names_weight_front(r, rest.drop_last());
        assert(all =~= (seq![r] + rest.drop_last()).push(rest.last()));
        lemma_names_weight_push(seq![r] + rest.drop_last(), rest.last());
    }
}

/// The records of a table fill it: their heads and names add up to the
/// table's length.
pub proof fn lemma_parse_table_fills(s: Seq<u8>)
    ensures
        parse_table(s) matches Some(recs) ==> names_weight(recs) + SYM_HEADER_SIZE * recs.len()
            == s.len(),
    decreases s.len(),
{
    if s.len() > 0 {
        lemma_parse_record(s);
        if let Some(r) = parse_record(s) {
            lemma_parse_table_fills(s.skip(r.len()));
            if let Some(rest) = parse_table(s.skip(r.len())) {
                lemma_names_weight_front(r, rest);
            }
        }
    }
}

} // verus!
