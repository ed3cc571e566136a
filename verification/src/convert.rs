//! The conversion of a whole a.out image into an ELF image.
use vstd::prelude::*;
use crate::aout::{
    aout_mach_to_elf, lemma_parse_table_fills, parse_aout_symbols, parse_table, records_of,
    AoutHeader, SymbolRecord, AOUT_HEADER_PAD, AOUT_HEADER_SIZE,
};
use crate::elf::ElfSymbolTableEntry;
use crate::error::ConvertError;
use crate::image::{emit_elf, image_bytes};
use crate::layout::Layout;
use crate::symbols::{
    aout_syms_to_elf, elf_name_table, elf_symbol_table, lemma_tables_bounded,
};
use crate::target::{is_64bit, spec_is_64bit, target_of_magic};

verus! {

/// Where the text segment starts in an a.out image: behind the header and
/// its pad.
pub open spec fn text_start() -> int {
    (AOUT_HEADER_SIZE + AOUT_HEADER_PAD) as int
}

/// Where the symbol table starts in an a.out image: behind text and data.
pub open spec fn symbols_start(h: AoutHeader) -> int {
    text_start() + h.text_size + h.data_size
}

/// Where the symbol table ends in an a.out image. The bytes from the start
/// of the text up to here are carried over into the ELF image.
pub open spec fn carried_end(h: AoutHeader) -> int {
    symbols_start(h) + h.symbol_table_size
}

/// What a conversion settles before the image is rendered.
pub struct Conversion {
    /// The decoded a.out header.
    pub header: AoutHeader,
    /// The records of the a.out symbol table.
    pub records: Seq<SymbolRecord>,
    /// The plan of the image.
    pub layout: Layout,
    /// The bytes carried over: text, data and the a.out symbol table.
    pub carried: Seq<u8>,
    /// The new symbol table.
    pub symbols: Seq<ElfSymbolTableEntry>,
    /// The name string table of the new symbol table.
    pub names: Seq<u8>,
}

impl Conversion {
    /// The image that the conversion gives.
    pub open spec fn image(self) -> Seq<u8> {
        image_bytes(self.layout, self.carried, self.symbols, self.names)
    }
}

/// What the conversion of the a.out image `d` settles, or the reason why `d`
/// is refused.
///
/// The checks are made in this order: the header must be complete, its magic
/// known, the text, data and symbols that it declares present, every symbol
/// record well-formed, and the planned image expressible in the class of the
/// target.
pub open spec fn conversion(d: Seq<u8>) -> Result<Conversion, ConvertError> {
    if d.len() < AOUT_HEADER_SIZE {
        Err(ConvertError::FormatError)
    } else {
        let h = AoutHeader::decode(d);
        match target_of_magic(h.magic) {
            None => Err(ConvertError::UnsupportedArchitecture(h.magic)),
            Some(machine) => {
                if d.len() < carried_end(h) {
                    Err(ConvertError::TruncatedInput)
                } else {
                    match parse_table(d.subrange(symbols_start(h), carried_end(h))) {
                        None => Err(ConvertError::SymbolParseError),
                        Some(records) => {
                            let symbols = elf_symbol_table(records, spec_is_64bit(machine));
                            let names = elf_name_table(records);
                            let layout = Layout::spec_plan(
                                machine,
                                h.text_size,
                                h.data_size,
                                h.symbol_table_size,
                                h.entry_point,
                            );
                            if layout.addresses_fit() && layout.tables_fit(
                                symbols.len() as int,
                                names.len() as int,
                            ) {
                                Ok(
                                    Conversion {
                                        header: h,
                                        records,
                                        layout,
                                        carried: d.subrange(text_start(), carried_end(h)),
                                        symbols,
                                        names,
                                    },
                                )
                            } else {
                                Err(ConvertError::FormatError)
                            }
                        },
                    }
                }
            },
        }
    }
}

/// The ELF image that the a.out image `d` converts to, or the reason why it
/// converts to none.
pub open spec fn convert(d: Seq<u8>) -> Result<Seq<u8>, ConvertError> {
    match conversion(d) {
        Ok(c) => Ok(c.image()),
        Err(e) => Err(e),
    }
}

/// Whether `r` is the outcome that converting `d` must have.
pub open spec fn converts_to(d: Seq<u8>, r: Result<Vec<u8>, ConvertError>) -> bool {
    match convert(d) {
        Ok(image) => r is Ok && r->Ok_0@ == image,
        Err(e) => r == Err::<Vec<u8>, ConvertError>(e),
    }
}

/// Converts an a.out image into an ELF image.
pub fn aout_to_elf(d: &[u8]) -> (r: Result<Vec<u8>, ConvertError>)
    ensures
        converts_to(d@, r),
{
    let aout = match AoutHeader::read_from_prefix(d) {
        Ok(h) => h,
        Err(e) => {
            return Err(e);
        },
    };
    let machine = match aout_mach_to_elf(&aout) {
        Ok(m) => m,
        Err(e) => {
            return Err(e);
        },
    };
    let ts = aout.text_size;
    let ds = aout.data_size;
    let ss = aout.symbol_table_size;
    let entry = aout.entry_point;

    let t_offset: u64 = (AOUT_HEADER_SIZE + AOUT_HEADER_PAD) as u64;
    let s_offset: u64 = t_offset + ts as u64 + ds as u64;
    let s_end: u64 = s_offset + ss as u64;
    if (d.len() as u64) < s_end {
        return Err(ConvertError::TruncatedInput);
    }
    let sym_table_data = vstd::slice::slice_subrange(d, s_offset as usize, s_end as usize);
    let syms = match parse_aout_symbols(sym_table_data) {
        Ok(syms) => syms,
        Err(e) => {
            return Err(e);
        },
    };
    let wide = is_64bit(machine);
    let ghost recs = records_of(syms@);
    proof {
        lemma_parse_table_fills(sym_table_data@);
        lemma_tables_bounded(recs, wide);
    }
    let (elf_sym_tab, sym_str_tab) = aout_syms_to_elf(syms, wide);
    let layout = Layout::plan(machine, ts, ds, ss, entry);
    if !layout.fits(elf_sym_tab.len(), sym_str_tab.len()) {
        return Err(ConvertError::FormatError);
    }
    let carried = vstd::slice::slice_subrange(d, t_offset as usize, s_end as usize);
    Ok(emit_elf(&layout, carried, &elf_sym_tab, &sym_str_tab))
}

} // verus!
