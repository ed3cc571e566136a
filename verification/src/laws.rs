//! What holds of every conversion: where the parts of the image lie, that
//! the segments keep their sizes, that the sections follow one another
//! without overlap, and that the function symbols ascend.
use vstd::prelude::*;
use crate::aout::SymbolRecord;
use crate::convert::{carried_end, conversion, converts_to, symbols_start, text_start};
use crate::elf::{
    header_size, lemma_header_identification, lemma_header_len, lemma_program_header_len,
    lemma_section_header_len, lemma_symbol_entry_len, program_header_size, section_header_size,
    symbol_entry_size, ElfHeader, ElfProgramHeader, ElfSectionHeader, ElfSymbolTableEntry,
};
use crate::error::ConvertError;
use crate::image::{
    image_bytes, pad_bytes, program_header_bytes, section_header_bytes, section_name_table,
    spec_program_headers, spec_section_headers, symbol_table_bytes,
};
use crate::layout::{
    Layout, PAD_SIZE, PROGRAM_HEADER_COUNT, SECTION_HEADER_COUNT, SECTION_NAME_TABLE_SIZE,
};
use crate::symbols::{elf_symbol_table, lemma_tables_bounded};
use crate::target::{spec_is_64bit, target_of_magic, MachineTarget};
use crate::wire::{
    le_bytes_u16, le_bytes_u32, le_bytes_u64, lemma_join_len, lemma_join_part,
    lemma_subrange_of_subrange,
};

verus! {

/// Whether every entry of a symbol table has the shape of the given class.
pub open spec fn entries_of_class(symbols: Seq<ElfSymbolTableEntry>, wide: bool) -> bool {
    forall|i: int| 0 <= i < symbols.len() ==> (#[trigger] symbols[i]).is_wide() == wide
}

/// The program headers of a layout take three times the size of one.
pub proof fn lemma_program_headers_len(l: Layout)
    ensures
        program_header_bytes(spec_program_headers(l)).len() == PROGRAM_HEADER_COUNT
            * program_header_size(l.machine),
{
    let hs = spec_program_headers(l);
    let parts = Seq::new(hs.len(), |i: int| hs[i].bytes());
    assert forall|i: int| 0 <= i < parts.len() implies (#[trigger] parts[i]).len()
        == program_header_size(l.machine) by {
        lemma_program_header_len(hs[i]);
    }
    lemma_join_len(parts, program_header_size(l.machine));
}

/// The section headers of a layout take six times the size of one.
pub proof fn lemma_section_headers_len(l: Layout, symbol_count: int, name_table_len: int)
    ensures
        section_header_bytes(spec_section_headers(l, symbol_count, name_table_len)).len()
            == SECTION_HEADER_COUNT * section_header_size(l.machine),
{
    let hs = spec_section_headers(l, symbol_count, name_table_len);
    let parts = Seq::new(hs.len(), |i: int| hs[i].bytes());
    assert forall|i: int| 0 <= i < parts.len() implies (#[trigger] parts[i]).len()
        == section_header_size(l.machine) by {
        lemma_section_header_len(hs[i]);
    }
    lemma_join_len(parts, section_header_size(l.machine));
}

/// A symbol table of one class takes the size of an entry of that class
/// times the number of its entries.
pub proof fn lemma_symbol_table_len(symbols: Seq<ElfSymbolTableEntry>, machine: MachineTarget)
    requires
        entries_of_class(symbols, spec_is_64bit(machine)),
    ensures
        symbol_table_bytes(symbols).len() == symbols.len() * symbol_entry_size(machine),
{
    let parts = Seq::new(symbols.len(), |i: int| symbols[i].bytes());
    assert forall|i: int| 0 <= i < parts.len() implies (#[trigger] parts[i]).len()
        == symbol_entry_size(machine) by {
        assert(symbols[i].is_wide() == spec_is_64bit(machine));
        lemma_symbol_entry_len(symbols[i]);
    }
    lemma_join_len(parts, symbol_entry_size(machine));
}

/// Where the parts of an image lie. The carried bytes start at the layout's
/// main offset, text first, then data, then the a.out symbol table; the
/// new symbol table, the name table and the section name table follow at the
/// offsets that the layout gives, and the image ends with the last of them.
pub proof fn lemma_image_parts(
    l: Layout,
    carried: Seq<u8>,
    symbols: Seq<ElfSymbolTableEntry>,
    names: Seq<u8>,
)
    requires
        l.wf(),
        carried.len() == l.text_size + l.data_size + l.retained_symbol_table_size,
        entries_of_class(symbols, spec_is_64bit(l.machine)),
    ensures
        ({
            let image = image_bytes(l, carried, symbols, names);
            let count = symbols.len() as int;
            let names_at = l.name_table_offset(count);
            let section_names_at = l.section_name_table_offset(count, names.len() as int);
            &&& image.len() == section_names_at + SECTION_NAME_TABLE_SIZE
            &&& image.subrange(0, header_size(l.machine)) == ElfHeader::spec_new(
                PROGRAM_HEADER_COUNT as int,
                SECTION_HEADER_COUNT as int,
                l.entry,
                l.machine,
            ).bytes()
            &&& image.subrange(
                header_size(l.machine),
                header_size(l.machine) + PROGRAM_HEADER_COUNT * program_header_size(l.machine),
            ) == program_header_bytes(spec_program_headers(l))
            &&& image.subrange(
                header_size(l.machine) + PROGRAM_HEADER_COUNT * program_header_size(l.machine),
                l.main_offset - PAD_SIZE,
            ) == section_header_bytes(spec_section_headers(l, count, names.len() as int))
            &&& image.subrange(l.main_offset - PAD_SIZE, l.main_offset as int) == pad_bytes()
            &&& image.subrange(l.text_offset as int, l.text_offset + l.text_size)
                == carried.subrange(0, l.text_size as int)
            &&& image.subrange(l.data_offset as int, l.data_offset + l.data_size)
                == carried.subrange(l.text_size as int, l.text_size + l.data_size)
            &&& image.subrange(
                l.retained_symbol_table_offset as int,
                l.symbol_table_offset as int,
            ) == carried.subrange(l.text_size + l.data_size, carried.len() as int)
            &&& image.subrange(l.symbol_table_offset as int, names_at) == symbol_table_bytes(
                symbols,
            )
            &&& image.subrange(names_at, section_names_at) == names
            &&& image.subrange(section_names_at, image.len() as int) == section_name_table()
        }),
{
    let count = symbols.len() as int;
    let header = ElfHeader::spec_new(
        PROGRAM_HEADER_COUNT as int,
        SECTION_HEADER_COUNT as int,
        l.entry,
        l.machine,
    ).bytes();
    let ph = program_header_bytes(spec_program_headers(l));
    let sh = section_header_bytes(spec_section_headers(l, count, names.len() as int));
    let pad = pad_bytes();
    let st = symbol_table_bytes(symbols);
    let sn = section_name_table();
    lemma_header_len(PROGRAM_HEADER_COUNT as int, SECTION_HEADER_COUNT as int, l.entry, l.machine);
    lemma_program_headers_len(l);
    lemma_section_headers_len(l, count, names.len() as int);
    lemma_symbol_table_len(symbols, l.machine);
    assert(sn.len() == SECTION_NAME_TABLE_SIZE);
    assert(pad.len() == PAD_SIZE);
    lemma_parts_of_eight(header, ph, sh, pad, carried, st, names, sn);
    let image = header + ph + sh + pad + carried + st + names + sn;
    assert(image == image_bytes(l, carried, symbols, names));
    let m = l.main_offset as int;
    assert(m == header.len() + ph.len() + sh.len() + pad.len());
    assert(image.subrange(m, m + carried.len()) == carried);
    lemma_subrange_of_subrange(image, m, m + carried.len(), 0, l.text_size as int);
    lemma_subrange_of_subrange(
        image,
        m,
        m + carried.len(),
        l.text_size as int,
        l.text_size + l.data_size,
    );
    lemma_subrange_of_subrange(
        image,
        m,
        m + carried.len(),
        l.text_size + l.data_size,
        carried.len() as int,
    );
}

/// In a string made of eight parts, each part lies behind those before it.
proof fn lemma_parts_of_eight(
    a: Seq<u8>,
    b: Seq<u8>,
    c: Seq<u8>,
    d: Seq<u8>,
    e: Seq<u8>,
    f: Seq<u8>,
    g: Seq<u8>,
    h: Seq<u8>,
)
    ensures
        ({
            let s = a + b + c + d + e + f + g + h;
            let a1 = a.len() as int;
            let b1 = a1 + b.len();
            let c1 = b1 + c.len();
            let d1 = c1 + d.len();
            let e1 = d1 + e.len();
            let f1 = e1 + f.len();
            let g1 = f1 + g.len();
            let h1 = g1 + h.len();
            &&& s.len() == h1
            &&& s.subrange(0, a1) == a
            &&& s.subrange(a1, b1) == b
            &&& s.subrange(b1, c1) == c
            &&& s.subrange(c1, d1) == d
            &&& s.subrange(d1, e1) == e
            &&& s.subrange(e1, f1) == f
            &&& s.subrange(f1, g1) == g
            &&& s.subrange(g1, h1) == h
        }),
{
    let s = a + b + c + d + e + f + g + h;
    let a1 = a.len() as int;
    let b1 = a1 + b.len();
    let c1 = b1 + c.len();
    let d1 = c1 + d.len();
    let e1 = d1 + e.len();
    let f1 = e1 + f.len();
    let g1 = f1 + g.len();
    let h1 = g1 + h.len();
    assert(s.subrange(0, a1) =~= a);
    assert(s.subrange(a1, b1) =~= b);
    assert(s.subrange(b1, c1) =~= c);
    assert(s.subrange(c1, d1) =~= d);
    assert(s.subrange(d1, e1) =~= e);
    assert(s.subrange(e1, f1) =~= f);
    assert(s.subrange(f1, g1) =~= g);
    assert(s.subrange(g1, h1) =~= h);
}

/// The new symbol table has the shape of the class it was made for.
pub proof fn lemma_symbol_table_class(recs: Seq<SymbolRecord>, wide: bool)
    ensures
        entries_of_class(elf_symbol_table(recs, wide), wide),
{
}

/// Where the file-size field of the program header at `i` lies in an image
/// for `machine`.
pub open spec fn file_size_field(image: Seq<u8>, machine: MachineTarget, i: int) -> Seq<u8> {
    let at = header_size(machine) + i * program_header_size(machine);
    if spec_is_64bit(machine) {
        image.subrange(at + 32, at + 40)
    } else {
        image.subrange(at + 16, at + 20)
    }
}

/// A size as it is written in a word of the class of `machine`.
pub open spec fn size_word(machine: MachineTarget, size: u32) -> Seq<u8> {
    if spec_is_64bit(machine) {
        le_bytes_u64(size as u64)
    } else {
        le_bytes_u32(size)
    }
}

/// The file-size field holds its place in a program header's encoding.
pub proof fn lemma_file_size_in_header(h: ElfProgramHeader)
    ensures
        h matches ElfProgramHeader::Elf32(p) ==> h.bytes().subrange(16, 20) == le_bytes_u32(
            p.file_size,
        ),
        h matches ElfProgramHeader::Elf64(p) ==> h.bytes().subrange(32, 40) == le_bytes_u64(
            p.file_size,
        ),
{
    match h {
        ElfProgramHeader::Elf32(p) => {
            assert(h.bytes().subrange(16, 20) =~= le_bytes_u32(p.file_size));
        },
        ElfProgramHeader::Elf64(p) => {
            assert(h.bytes().subrange(32, 40) =~= le_bytes_u64(p.file_size));
        },
    }
}

/// The image holds the encoding of the program header at `i` behind the file
/// header and the program headers before it.
pub proof fn lemma_program_header_in_image(d: Seq<u8>, i: int)
    requires
        conversion(d) is Ok,
        0 <= i < PROGRAM_HEADER_COUNT,
    ensures
        ({
            let c = conversion(d)->Ok_0;
            let at = header_size(c.layout.machine) + i * program_header_size(c.layout.machine);
            &&& at + program_header_size(c.layout.machine) <= c.image().len()
            &&& c.image().subrange(at, at + program_header_size(c.layout.machine))
                == spec_program_headers(c.layout)[i].bytes()
        }),
{
    let c = conversion(d)->Ok_0;
    let l = c.layout;
    let width = program_header_size(l.machine);
    let hs = spec_program_headers(l);
    let parts = Seq::new(hs.len(), |k: int| hs[k].bytes());
    lemma_symbol_table_class(c.records, spec_is_64bit(l.machine));
    lemma_image_parts(l, c.carried, c.symbols, c.names);
    assert forall|k: int| 0 <= k < parts.len() implies (#[trigger] parts[k]).len() == width by {
        lemma_program_header_len(hs[k]);
    }
    lemma_join_part(parts, width, i);
    assert((i + 1) * width == i * width + width) by (nonlinear_arith);
    assert(i * width + width <= 3 * width) by (nonlinear_arith)
        requires
            0 <= i < 3,
            0 <= width,
    ;
    lemma_subrange_of_subrange(
        c.image(),
        header_size(l.machine),
        header_size(l.machine) + PROGRAM_HEADER_COUNT * width,
        i * width,
        i * width + width,
    );
}

/// The segments keep their sizes: in the image of every conversion, the
/// file-size field of the text segment's program header holds the text size
/// of the a.out header, and that of the data segment's holds the data size.
pub proof fn lemma_segment_sizes_kept(d: Seq<u8>)
    requires
        conversion(d) is Ok,
    ensures
        ({
            let c = conversion(d)->Ok_0;
            let machine = c.layout.machine;
            &&& file_size_field(c.image(), machine, 0) == size_word(machine, c.header.text_size)
            &&& file_size_field(c.image(), machine, 1) == size_word(machine, c.header.data_size)
            &&& spec_program_headers(c.layout)[0].file_size() == c.header.text_size
            &&& spec_program_headers(c.layout)[1].file_size() == c.header.data_size
        }),
{
    let c = conversion(d)->Ok_0;
    let machine = c.layout.machine;
    let width = program_header_size(machine);
    let hs = spec_program_headers(c.layout);
    lemma_program_header_in_image(d, 0);
    lemma_program_header_in_image(d, 1);
    lemma_file_size_in_header(hs[0]);
    lemma_file_size_in_header(hs[1]);
    let at0 = header_size(machine);
    let at1 = header_size(machine) + width;
    if spec_is_64bit(machine) {
        lemma_subrange_of_subrange(c.image(), at0, at0 + width, 32, 40);
        lemma_subrange_of_subrange(c.image(), at1, at1 + width, 32, 40);
    } else {
        lemma_subrange_of_subrange(c.image(), at0, at0 + width, 16, 20);
        lemma_subrange_of_subrange(c.image(), at1, at1 + width, 16, 20);
    }
}

/// The section headers of a conversion.
pub open spec fn converted_section_headers(d: Seq<u8>) -> Seq<ElfSectionHeader> {
    let c = conversion(d)->Ok_0;
    spec_section_headers(c.layout, c.symbols.len() as int, c.names.len() as int)
}

/// The bytes of the image that a section header describes.
pub open spec fn section_contents(image: Seq<u8>, h: ElfSectionHeader) -> Seq<u8> {
    image.subrange(h.offset(), h.offset() + h.size())
}

/// The image holds the encoding of the section header at `i` behind the file
/// header, the program headers and the section headers before it.
pub proof fn lemma_section_header_in_image(d: Seq<u8>, i: int)
    requires
        conversion(d) is Ok,
        0 <= i < SECTION_HEADER_COUNT,
    ensures
        ({
            let c = conversion(d)->Ok_0;
            let machine = c.layout.machine;
            let at = header_size(machine) + PROGRAM_HEADER_COUNT * program_header_size(machine)
                + i * section_header_size(machine);
            &&& at + section_header_size(machine) <= c.image().len()
            &&& c.image().subrange(at, at + section_header_size(machine))
                == converted_section_headers(d)[i].bytes()
        }),
{
    let c = conversion(d)->Ok_0;
    let l = c.layout;
    let width = section_header_size(l.machine);
    let hs = converted_section_headers(d);
    let parts = Seq::new(hs.len(), |k: int| hs[k].bytes());
    lemma_symbol_table_class(c.records, spec_is_64bit(l.machine));
    lemma_image_parts(l, c.carried, c.symbols, c.names);
    assert forall|k: int| 0 <= k < parts.len() implies (#[trigger] parts[k]).len() == width by {
        lemma_section_header_len(hs[k]);
    }
    lemma_join_part(parts, width, i);
    assert((i + 1) * width == i * width + width) by (nonlinear_arith);
    assert(i * width + width <= 6 * width) by (nonlinear_arith)
        requires
            0 <= i < 6,
            0 <= width,
    ;
    let start = header_size(l.machine) + PROGRAM_HEADER_COUNT * program_header_size(l.machine);
    lemma_subrange_of_subrange(
        c.image(),
        start,
        l.main_offset - PAD_SIZE,
        i * width,
        i * width + width,
    );
}

/// The sections follow one another: in the image of every conversion, no
/// section starts before the one ahead of it has ended, every section but
/// the null section lies behind the headers and the pad block, and the last
/// section ends with the image. So no two sections overlap.
pub proof fn lemma_sections_in_order(d: Seq<u8>)
    requires
        conversion(d) is Ok,
    ensures
        ({
            let c = conversion(d)->Ok_0;
            let hs = converted_section_headers(d);
            &&& hs.len() == SECTION_HEADER_COUNT
            &&& forall|i: int, j: int|
                0 <= i < j < hs.len() ==> hs[i].offset() + hs[i].size() <= hs[j].offset()
            &&& forall|i: int| 1 <= i < hs.len() ==> c.layout.main_offset <= hs[i].offset()
            &&& hs[5].offset() + hs[5].size() == c.image().len()
        }),
{
    let c = conversion(d)->Ok_0;
    let l = c.layout;
    let hs = converted_section_headers(d);
    lemma_symbol_table_class(c.records, spec_is_64bit(l.machine));
    lemma_image_parts(l, c.carried, c.symbols, c.names);
    lemma_section_offsets(d);
}

/// The offsets and sizes that the section headers of a conversion hold.
pub proof fn lemma_section_offsets(d: Seq<u8>)
    requires
        conversion(d) is Ok,
    ensures
        ({
            let c = conversion(d)->Ok_0;
            let l = c.layout;
            let count = c.symbols.len() as int;
            let hs = converted_section_headers(d);
            &&& hs[0].offset() == 0 && hs[0].size() == 0
            &&& hs[1].offset() == l.text_offset && hs[1].size() == l.text_size
            &&& hs[2].offset() == l.data_offset && hs[2].size() == l.data_size
            &&& hs[3].offset() == l.symbol_table_offset && hs[3].size() == l.symbol_table_size(
                count,
            )
            &&& hs[4].offset() == l.name_table_offset(count) && hs[4].size() == c.names.len()
            &&& hs[5].offset() == l.section_name_table_offset(count, c.names.len() as int)
                && hs[5].size() == SECTION_NAME_TABLE_SIZE
            &&& 0 < l.symbol_table_size(count)
            &&& 0 < c.names.len()
        }),
{
    let c = conversion(d)->Ok_0;
    let l = c.layout;
    let count = c.symbols.len() as int;
    lemma_tables_bounded(c.records, spec_is_64bit(l.machine));
    assert(0 < count * l.symbol_entry_size <= count * 24) by (nonlinear_arith)
        requires
            0 < count,
            16 <= l.symbol_entry_size <= 24,
    ;
}

/// The section offsets strictly increase in the order of the headers, in
/// the image of every conversion whose text is not empty and whose data and
/// a.out symbol table are not both empty. (An empty region starts where
/// the next one starts.)
pub proof fn lemma_section_offsets_increase(d: Seq<u8>)
    requires
        conversion(d) is Ok,
        conversion(d)->Ok_0.header.text_size > 0,
        conversion(d)->Ok_0.header.data_size + conversion(d)->Ok_0.header.symbol_table_size > 0,
    ensures
        forall|i: int, j: int|
            0 <= i < j < SECTION_HEADER_COUNT ==> converted_section_headers(d)[i].offset()
                < converted_section_headers(d)[j].offset(),
{
    lemma_section_offsets(d);
}

/// The sections hold what they are named for: `.text` and `.data` hold the
/// text and the data of the a.out image, `.symtab` the encodings of the new
/// symbol table's entries, `.strtab` their names, and `.shstrtab` the section
/// names.
pub proof fn lemma_sections_hold_their_contents(d: Seq<u8>)
    requires
        conversion(d) is Ok,
    ensures
        ({
            let c = conversion(d)->Ok_0;
            let hs = converted_section_headers(d);
            let image = c.image();
            &&& section_contents(image, hs[1]) == d.subrange(
                text_start(),
                text_start() + c.header.text_size,
            )
            &&& section_contents(image, hs[2]) == d.subrange(
                text_start() + c.header.text_size,
                symbols_start(c.header),
            )
            &&& section_contents(image, hs[3]) == symbol_table_bytes(c.symbols)
            &&& section_contents(image, hs[4]) == c.names
            &&& section_contents(image, hs[5]) == section_name_table()
        }),
{
    let c = conversion(d)->Ok_0;
    let l = c.layout;
    let h = c.header;
    lemma_symbol_table_class(c.records, spec_is_64bit(l.machine));
    lemma_image_parts(l, c.carried, c.symbols, c.names);
    lemma_section_offsets(d);
    lemma_subrange_of_subrange(d, text_start(), carried_end(h), 0, h.text_size as int);
    lemma_subrange_of_subrange(
        d,
        text_start(),
        carried_end(h),
        h.text_size as int,
        h.text_size + h.data_size,
    );
}

/// The segments lie where the sections of the same bytes lie, one behind the
/// other, and the third keeps the a.out symbol table: in the image of
/// every conversion the program headers describe the text, the data and the
/// symbol table of the a.out image, in this order and without overlap.
pub proof fn lemma_segments_hold_their_contents(d: Seq<u8>)
    requires
        conversion(d) is Ok,
    ensures
        ({
            let c = conversion(d)->Ok_0;
            let hs = spec_program_headers(c.layout);
            let image = c.image();
            &&& hs.len() == PROGRAM_HEADER_COUNT
            &&& hs[0].offset() == c.layout.main_offset
            &&& hs[0].offset() + hs[0].file_size() == hs[1].offset()
            &&& hs[1].offset() + hs[1].file_size() == hs[2].offset()
            &&& hs[2].offset() + hs[2].file_size() == converted_section_headers(d)[3].offset()
            &&& image.subrange(hs[0].offset(), hs[0].offset() + hs[0].file_size()) == d.subrange(
                text_start(),
                text_start() + c.header.text_size,
            )
            &&& image.subrange(hs[1].offset(), hs[1].offset() + hs[1].file_size()) == d.subrange(
                text_start() + c.header.text_size,
                symbols_start(c.header),
            )
            &&& image.subrange(hs[2].offset(), hs[2].offset() + hs[2].file_size()) == d.subrange(
                symbols_start(c.header),
                carried_end(c.header),
            )
        }),
{
    let c = conversion(d)->Ok_0;
    let l = c.layout;
    let h = c.header;
    lemma_symbol_table_class(c.records, spec_is_64bit(l.machine));
    lemma_image_parts(l, c.carried, c.symbols, c.names);
    lemma_section_offsets(d);
    lemma_subrange_of_subrange(d, text_start(), carried_end(h), 0, h.text_size as int);
    lemma_subrange_of_subrange(
        d,
        text_start(),
        carried_end(h),
        h.text_size as int,
        h.text_size + h.data_size,
    );
    lemma_subrange_of_subrange(
        d,
        text_start(),
        carried_end(h),
        h.text_size + h.data_size,
        h.text_size + h.data_size + h.symbol_table_size,
    );
}

/// Conversion is a function of the input bytes: two outcomes of converting
/// the same bytes are both images, and then the same bytes, or both the same
/// error.
pub proof fn lemma_conversion_deterministic(
    d: Seq<u8>,
    first: Result<Vec<u8>, ConvertError>,
    second: Result<Vec<u8>, ConvertError>,
)
    requires
        converts_to(d, first),
        converts_to(d, second),
    ensures
        match (first, second) {
            (Ok(a), Ok(b)) => a@ == b@,
            (Err(a), Err(b)) => a == b,
            _ => false,
        },
{
}

/// Every image starts as an ELF file of its target: with the ELF magic, the
/// class of the target, the mark of little-endian data, and, behind the
/// identification and the file type, the machine code of the target.
pub proof fn lemma_image_identification(d: Seq<u8>)
    requires
        conversion(d) is Ok,
    ensures
        ({
            let c = conversion(d)->Ok_0;
            let image = c.image();
            let machine = c.layout.machine;
            &&& target_of_magic(c.header.magic) == Some(machine)
            &&& image.len() >= header_size(machine)
            &&& image.subrange(0, 4) == seq![0x7fu8, 0x45u8, 0x4cu8, 0x46u8]
            &&& image[4] == if spec_is_64bit(machine) {
                2u8
            } else {
                1u8
            }
            &&& image[5] == 1u8
            &&& image.subrange(16, 18) == le_bytes_u16(2)
            &&& image.subrange(18, 20) == le_bytes_u16(machine.spec_machine_code())
        }),
{
    let c = conversion(d)->Ok_0;
    let l = c.layout;
    let image = c.image();
    lemma_symbol_table_class(c.records, spec_is_64bit(l.machine));
    lemma_image_parts(l, c.carried, c.symbols, c.names);
    lemma_header_len(PROGRAM_HEADER_COUNT as int, SECTION_HEADER_COUNT as int, l.entry, l.machine);
    lemma_header_identification(
        PROGRAM_HEADER_COUNT as int,
        SECTION_HEADER_COUNT as int,
        l.entry,
        l.machine,
    );
    let size = header_size(l.machine);
    lemma_subrange_of_subrange(image, 0, size, 0, 4);
    lemma_subrange_of_subrange(image, 0, size, 16, 18);
    lemma_subrange_of_subrange(image, 0, size, 18, 20);
    assert(image[4] == image.subrange(0, size)[4]);
    assert(image[5] == image.subrange(0, size)[5]);
}

} // verus!
