//! The ELF symbol table and its name string table, as they are made from
//! a.out symbols.
//!
//! Only symbols of the text segment are taken. They are ordered by
//! address, and each but the last becomes a local function symbol that
//! reaches up to the address of the next; the last has no successor to
//! measure it by and is left out.
use vstd::prelude::*;
use crate::aout::{
    lemma_names_weight_push, names_weight, records_of, AoutSymbol, AoutSymbolType, SymbolRecord,
};
use crate::elf::{Elf32SymbolTableEntry, Elf64SymbolTableEntry, ElfSymbolTableEntry};
use crate::wire::{lemma_subrange_of_subrange, put_bytes};

verus! {

/// Symbol binding "local", as it stands in the upper half of the info byte.
pub const SYM_LOCAL: u8 = 0x00;

/// Symbol type "function", as it stands in the lower half of the info byte.
pub const SYM_FUNCTION: u8 = 2;

/// Index of the `.text` section, to which every function symbol belongs.
pub const TEXT_SECTION_INDEX: u16 = 1;

/// The test by which symbols are chosen.
pub open spec fn text_pred() -> spec_fn(SymbolRecord) -> bool {
    |r: SymbolRecord| r.is_text()
}

/// The symbols of the text segment among `recs`, in their order.
pub open spec fn text_symbols(recs: Seq<SymbolRecord>) -> Seq<SymbolRecord> {
    recs.filter(text_pred())
}

/// `sorted` with `r` put behind the last record whose address is not above
/// that of `r`.
pub open spec fn insert_by_value(sorted: Seq<SymbolRecord>, r: SymbolRecord) -> Seq<SymbolRecord>
    decreases sorted.len(),
{
    if sorted.len() == 0 {
        seq![r]
    } else if sorted.last().value <= r.value {
        sorted.push(r)
    } else {
        insert_by_value(sorted.drop_last(), r).push(sorted.last())
    }
}

/// The records of `recs` in ascending order of address; records of equal
/// address keep the order in which they stand in `recs`.
pub open spec fn sort_by_value(recs: Seq<SymbolRecord>) -> Seq<SymbolRecord>
    decreases recs.len(),
{
    if recs.len() == 0 {
        recs
    } else {
        insert_by_value(sort_by_value(recs.drop_last()), recs.last())
    }
}

/// Whether the addresses of `recs` never fall from one record to the next.
pub open spec fn ascending(recs: Seq<SymbolRecord>) -> bool {
    forall|i: int, j: int| 0 <= i <= j < recs.len() ==> recs[i].value <= recs[j].value
}

/// The text symbols of `recs` in the order in which they are written.
pub open spec fn ordered_text_symbols(recs: Seq<SymbolRecord>) -> Seq<SymbolRecord> {
    sort_by_value(text_symbols(recs))
}

/// How many function symbols a list of ordered text symbols gives: one for
/// each symbol that has a successor.
pub open spec fn emitted_count(ordered: Seq<SymbolRecord>) -> int {
    if ordered.len() == 0 {
        0
    } else {
        ordered.len() - 1
    }
}

/// The name string table after the names of the first `n` symbols of
/// `ordered` were written: one zero byte, then each name with its terminator.
pub open spec fn name_table(ordered: Seq<SymbolRecord>, n: int) -> Seq<u8>
    decreases n,
{
    if n <= 0 {
        seq![0u8]
    } else {
        name_table(ordered, n - 1) + ordered[n - 1].name + seq![0u8]
    }
}

/// The reserved first entry of a symbol table.
pub open spec fn null_symbol(wide: bool) -> ElfSymbolTableEntry {
    if wide {
        ElfSymbolTableEntry::Elf64(
            Elf64SymbolTableEntry {
                name_offset: 0,
                info: 0,
                other: 0,
                section_index: 0,
                value: 0,
                size: 0,
            },
        )
    } else {
        ElfSymbolTableEntry::Elf32(
            Elf32SymbolTableEntry {
                name_offset: 0,
                value: 0,
                size: 0,
                info: 0,
                other: 0,
                section_index: 0,
            },
        )
    }
}

/// A local function symbol of the `.text` section.
pub open spec fn function_symbol(
    wide: bool,
    name_offset: u32,
    value: u32,
    size: u32,
) -> ElfSymbolTableEntry {
    if wide {
        ElfSymbolTableEntry::Elf64(
            Elf64SymbolTableEntry {
                name_offset,
                info: 2,
                other: 0,
                section_index: TEXT_SECTION_INDEX,
                value: value as u64,
                size: size as u64,
            },
        )
    } else {
        ElfSymbolTableEntry::Elf32(
            Elf32SymbolTableEntry {
                name_offset,
                value,
                size,
                info: 2,
                other: 0,
                section_index: TEXT_SECTION_INDEX,
            },
        )
    }
}

/// The function symbol for the symbol at `i` of `ordered`: it starts at that
/// symbol's address, ends where the next symbol starts, and is named by the
/// string that begins where the name table ended before its name was written.
pub open spec fn function_symbol_at(
    ordered: Seq<SymbolRecord>,
    wide: bool,
    i: int,
) -> ElfSymbolTableEntry {
    function_symbol(
        wide,
        name_table(ordered, i).len() as u32,
        ordered[i].value,
        (ordered[i + 1].value - ordered[i].value) as u32,
    )
}

/// The symbol table for a list of ordered text symbols: the reserved entry,
/// then one function symbol for each symbol that has a successor.
pub open spec fn symbol_entries(ordered: Seq<SymbolRecord>, wide: bool) -> Seq<
    ElfSymbolTableEntry,
> {
    seq![null_symbol(wide)] + Seq::new(
        emitted_count(ordered) as nat,
        |i: int| function_symbol_at(ordered, wide, i),
    )
}

/// The symbol table that is made from `recs`.
pub open spec fn elf_symbol_table(recs: Seq<SymbolRecord>, wide: bool) -> Seq<ElfSymbolTableEntry> {
    symbol_entries(ordered_text_symbols(recs), wide)
}

/// The name string table that is made from `recs`.
pub open spec fn elf_name_table(recs: Seq<SymbolRecord>) -> Seq<u8> {
    name_table(ordered_text_symbols(recs), emitted_count(ordered_text_symbols(recs)))
}

/// Where `r` goes when it is inserted into `sorted`: behind the record at
/// `p - 1`, the last one whose address is not above its own.
pub proof fn lemma_insert_position(sorted: Seq<SymbolRecord>, r: SymbolRecord, p: int)
    requires
        0 <= p <= sorted.len(),
        p > 0 ==> sorted[p - 1].value <= r.value,
        forall|j: int| p <= j < sorted.len() ==> sorted[j].value > r.value,
    ensures
        insert_by_value(sorted, r) == sorted.insert(p, r),
    decreases sorted.len(),
{
    if sorted.len() == 0 {
        assert(sorted.insert(p, r) =~= seq![r]);
    } else if p == sorted.len() {
        assert(sorted.insert(p, r) =~= sorted.push(r));
    } else {
        lemma_insert_position(sorted.drop_last(), r, p);
        assert(sorted.drop_last().insert(p, r).push(sorted.last()) =~= sorted.insert(p, r));
    }
}

/// Inserting keeps every record and adds the new one: the result has one
/// record more, and is `sorted` with `r` at some place.
pub proof fn lemma_insert_is_insert(sorted: Seq<SymbolRecord>, r: SymbolRecord) -> (p: int)
    ensures
        0 <= p <= sorted.len(),
        p > 0 ==> sorted[p - 1].value <= r.value,
        forall|j: int| p <= j < sorted.len() ==> sorted[j].value > r.value,
        insert_by_value(sorted, r) == sorted.insert(p, r),
    decreases sorted.len(),
{
    if sorted.len() == 0 {
        assert(sorted.insert(0, r) =~= seq![r]);
        0
    } else if sorted.last().value <= r.value {
        assert(sorted.insert(sorted.len() as int, r) =~= sorted.push(r));
        sorted.len() as int
    } else {
        let p = lemma_insert_is_insert(sorted.drop_last(), r);
        assert(sorted.drop_last().insert(p, r).push(sorted.last()) =~= sorted.insert(p, r));
        assert forall|j: int| p <= j < sorted.len() implies sorted[j].value > r.value by {
            if j < sorted.len() - 1 {
                assert(sorted.drop_last()[j].value > r.value);
            }
        }
        p
    }
}

/// Inserting into an ascending list gives an ascending list.
pub proof fn lemma_insert_ascending(sorted: Seq<SymbolRecord>, r: SymbolRecord)
    requires
        ascending(sorted),
    ensures
        ascending(insert_by_value(sorted, r)),
        insert_by_value(sorted, r).len() == sorted.len() + 1,
{
    let p = lemma_insert_is_insert(sorted, r);
    let out = sorted.insert(p, r);
    assert forall|i: int, j: int| 0 <= i <= j < out.len() implies out[i].value <= out[j].value by {
        if i < p && j > p {
            assert(sorted[i].value <= sorted[j - 1].value);
        } else if i < p && j == p {
            assert(sorted[i].value <= sorted[p - 1].value);
        } else if i < p {
            assert(sorted[i].value <= sorted[j].value);
        } else if i == p && j > p {
            assert(sorted[j - 1].value > r.value);
        } else if i > p {
            assert(sorted[i - 1].value <= sorted[j - 1].value);
        }
    }
}

/// Sorting gives an ascending list of the same length.
pub proof fn lemma_sort_ascending(recs: Seq<SymbolRecord>)
    ensures
        ascending(sort_by_value(recs)),
        sort_by_value(recs).len() == recs.len(),
    decreases recs.len(),
{
    if recs.len() > 0 {
        lemma_sort_ascending(recs.drop_last());
        lemma_insert_ascending(sort_by_value(recs.drop_last()), recs.last());
    }
}

/// Sorting keeps the records: each occurs in the result as often as in the
/// input.
pub proof fn lemma_sort_permutes(recs: Seq<SymbolRecord>)
    ensures
        sort_by_value(recs).to_multiset() == recs.to_multiset(),
    decreases recs.len(),
{
    broadcast use vstd::seq_lib::group_to_multiset_ensures;

    if recs.len() > 0 {
        let front = sort_by_value(recs.drop_last());
        lemma_sort_permutes(recs.drop_last());
        let p = lemma_insert_is_insert(front, recs.last());
        vstd::seq_lib::to_multiset_insert(front, p, recs.last());
        assert(recs =~= recs.drop_last().push(recs.last()));
        assert(front.insert(p, recs.last()).to_multiset() =~= recs.to_multiset());
    } else {
        assert(sort_by_value(recs) =~= recs);
    }
}

/// The name table only grows as names are written.
pub proof fn lemma_name_table_grows(ordered: Seq<SymbolRecord>, a: int, b: int)
    requires
        a <= b,
    ensures
        1 <= name_table(ordered, a).len() <= name_table(ordered, b).len(),
    decreases b,
{
    if b <= 0 {
    } else if a < b {
        lemma_name_table_grows(ordered, a, b - 1);
    } else {
        lemma_name_table_grows(ordered, a - 1, b - 1);
    }
}

/// Taking one more record into account adds it to the text symbols if it is
/// one, and changes nothing if it is not.
pub proof fn lemma_text_symbols_step(recs: Seq<SymbolRecord>, i: int)
    requires
        0 <= i < recs.len(),
    ensures
        text_symbols(recs.take(i + 1)) == if recs[i].is_text() {
            text_symbols(recs.take(i)).push(recs[i])
        } else {
            text_symbols(recs.take(i))
        },
{
    reveal(Seq::filter);
    assert(recs.take(i + 1).drop_last() =~= recs.take(i));
}

/// The records that a list of indices into `recs` picks.
pub open spec fn picked(recs: Seq<SymbolRecord>, order: Seq<usize>) -> Seq<SymbolRecord> {
    Seq::new(order.len(), |k: int| recs[order[k] as int])
}

/// Whether a symbol is classified as a symbol of the text segment, global or
/// static.
pub fn is_text_symbol(s: &AoutSymbol) -> (r: bool)
    ensures
        r == s@.is_text(),
{
    let t = s.get_type();
    t == AoutSymbolType::TextSegment || t == AoutSymbolType::StaticTextSegment
}

/// The indices of the text symbols of `aout_syms`, in ascending order of the
/// symbols' addresses; symbols of equal address stay in their order.
fn text_symbol_order(aout_syms: &Vec<AoutSymbol>) -> (order: Vec<usize>)
    ensures
        forall|k: int| 0 <= k < order@.len() ==> order@[k] < aout_syms@.len(),
        picked(records_of(aout_syms@), order@) == ordered_text_symbols(records_of(aout_syms@)),
{
    let n = aout_syms.len();
    let ghost recs = records_of(aout_syms@);
    let mut order: Vec<usize> = Vec::new();
    let mut i: usize = 0;
    proof {
        reveal(Seq::filter);
        assert(recs.take(0) =~= Seq::<SymbolRecord>::empty());
        assert(picked(recs, order@) =~= Seq::<SymbolRecord>::empty());
    }
    while i < n
        invariant
            i <= n,
            n == aout_syms@.len(),
            recs == records_of(aout_syms@),
            forall|k: int| 0 <= k < order@.len() ==> order@[k] < i,
            picked(recs, order@) == sort_by_value(text_symbols(recs.take(i as int))),
        decreases n - i,
    {
        proof {
            lemma_text_symbols_step(recs, i as int);
        }
        if is_text_symbol(&aout_syms[i]) {
            let v = aout_syms[i].value;
            let ghost before = picked(recs, order@);
            let mut p: usize = order.len();
            while p > 0 && aout_syms[order[p - 1]].value > v
                invariant
                    p <= order@.len(),
                    n == aout_syms@.len(),
                    recs == records_of(aout_syms@),
                    before == picked(recs, order@),
                    forall|k: int| 0 <= k < order@.len() ==> order@[k] < n,
                    forall|j: int| p <= j < before.len() ==> before[j].value > v,
                decreases p,
            {
                p = p - 1;
            }
            proof {
                lemma_insert_position(before, recs[i as int], p as int);
                assert(text_symbols(recs.take(i as int)).push(recs[i as int]).drop_last()
                    =~= text_symbols(recs.take(i as int)));
            }
            order.insert(p, i);
            assert(picked(recs, order@) =~= before.insert(p as int, recs[i as int]));
        }
        i = i + 1;
    }
    assert(recs.take(n as int) =~= recs);
    order
}

/// Turns a.out symbols into an ELF symbol table of the given class and
/// the name string table that belongs to it. The name table must be
/// addressable by the 32-bit name offsets of the entries.
pub fn aout_syms_to_elf(aout_syms: Vec<AoutSymbol>, is_64bit: bool) -> (r: (
    Vec<ElfSymbolTableEntry>,
    Vec<u8>,
))
    requires
        elf_name_table(records_of(aout_syms@)).len() <= u32::MAX,
    ensures
        r.0@ == elf_symbol_table(records_of(aout_syms@), is_64bit),
        r.1@ == elf_name_table(records_of(aout_syms@)),
        forall|i: int, j: int| 1 <= i <= j < r.0@.len() ==> r.0@[i].value() <= r.0@[j].value(),
{
    let order = text_symbol_order(&aout_syms);
    let ghost recs = records_of(aout_syms@);
    let ghost ordered = ordered_text_symbols(recs);
    let count: usize = if order.len() == 0 {
        0
    } else {
        order.len() - 1
    };
    proof {
        lemma_sort_ascending(text_symbols(recs));
        lemma_function_symbols_ascend(recs, is_64bit);
    }

    let mut sym_str_tab: Vec<u8> = Vec::new();
    sym_str_tab.push(0);
    let mut elf_sym_tab: Vec<ElfSymbolTableEntry> = Vec::new();
    if is_64bit {
        elf_sym_tab.push(
            ElfSymbolTableEntry::Elf64(
                Elf64SymbolTableEntry {
                    name_offset: 0,
                    info: 0,
                    other: 0,
                    section_index: 0,
                    value: 0,
                    size: 0,
                },
            ),
        );
    } else {
        elf_sym_tab.push(
            ElfSymbolTableEntry::Elf32(
                Elf32SymbolTableEntry {
                    name_offset: 0,
                    value: 0,
                    size: 0,
                    info: 0,
                    other: 0,
                    section_index: 0,
                },
            ),
        );
    }
    assert(sym_str_tab@ =~= name_table(ordered, 0));
    assert(elf_sym_tab@ =~= seq![null_symbol(is_64bit)] + Seq::new(
        0nat,
        |k: int| function_symbol_at(ordered, is_64bit, k),
    ));

    let mut j: usize = 0;
    while j < count
        invariant
            j <= count,
            count == emitted_count(ordered),
            ordered == picked(recs, order@),
            recs == records_of(aout_syms@),
            ascending(ordered),
            forall|k: int| 0 <= k < order@.len() ==> order@[k] < aout_syms@.len(),
            name_table(ordered, count as int).len() <= u32::MAX,
            sym_str_tab@ == name_table(ordered, j as int),
            elf_sym_tab@ == seq![null_symbol(is_64bit)] + Seq::new(
                j as nat,
                |k: int| function_symbol_at(ordered, is_64bit, k),
            ),
        decreases count - j,
    {
        let cur = &aout_syms[order[j]];
        let next = &aout_syms[order[j + 1]];
        proof {
            lemma_name_table_grows(ordered, j as int, count as int);
            assert(ordered[j as int] == cur@);
            assert(ordered[j + 1] == next@);
        }
        let name_offset: u32 = sym_str_tab.len() as u32;
        let value: u32 = cur.value;
        let size: u32 = next.value - cur.value;
        put_bytes(&mut sym_str_tab, cur.name.as_slice());
        sym_str_tab.push(0);
        let ghost emitted = elf_sym_tab@;
        if is_64bit {
            elf_sym_tab.push(
                ElfSymbolTableEntry::Elf64(
                    Elf64SymbolTableEntry {
                        name_offset,
                        info: SYM_LOCAL | SYM_FUNCTION,
                        other: 0,
                        section_index: TEXT_SECTION_INDEX,
                        value: value as u64,
                        size: size as u64,
                    },
                ),
            );
        } else {
            elf_sym_tab.push(
                ElfSymbolTableEntry::Elf32(
                    Elf32SymbolTableEntry {
                        name_offset,
                        value,
                        size,
                        info: SYM_LOCAL | SYM_FUNCTION,
                        other: 0,
                        section_index: TEXT_SECTION_INDEX,
                    },
                ),
            );
        }
        assert((SYM_LOCAL | SYM_FUNCTION) == 2) by (bit_vector);
        assert(sym_str_tab@ =~= name_table(ordered, j + 1));
        assert(elf_sym_tab@ =~= seq![null_symbol(is_64bit)] + Seq::new(
            (j + 1) as nat,
            |k: int| function_symbol_at(ordered, is_64bit, k),
        ));
        j = j + 1;
    }
    (elf_sym_tab, sym_str_tab)
}

/// The names of the text symbols weigh no more than all names.
pub proof fn lemma_text_symbols_weight(recs: Seq<SymbolRecord>)
    ensures
        names_weight(text_symbols(recs)) <= names_weight(recs),
        text_symbols(recs).len() <= recs.len(),
    decreases recs.len(),
{
    reveal(Seq::filter);
    if recs.len() > 0 {
        lemma_text_symbols_step(recs, recs.len() - 1);
        assert(recs.take(recs.len() - 1) =~= recs.drop_last());
        assert(recs.take(recs.len() as int) =~= recs);
        lemma_text_symbols_weight(recs.drop_last());
        if recs.last().is_text() {
            assert(text_symbols(recs.drop_last()).push(recs.last()).drop_last() =~= text_symbols(
                recs.drop_last(),
            ));
        }
    }
}

/// Inserting a record adds its name's weight.
pub proof fn lemma_insert_weight(sorted: Seq<SymbolRecord>, r: SymbolRecord)
    ensures
        names_weight(insert_by_value(sorted, r)) == names_weight(sorted) + r.name.len() + 1,
    decreases sorted.len(),
{
    if sorted.len() == 0 {
        assert(seq![r] =~= sorted.push(r));
        lemma_names_weight_push(sorted, r);
    } else if sorted.last().value <= r.value {
        lemma_names_weight_push(sorted, r);
    } else {
        lemma_insert_weight(sorted.drop_last(), r);
        lemma_names_weight_push(insert_by_value(sorted.drop_last(), r), sorted.last());
    }
}

/// Sorting keeps the weight of the names.
pub proof fn lemma_sort_weight(recs: Seq<SymbolRecord>)
    ensures
        names_weight(sort_by_value(recs)) == names_weight(recs),
    decreases recs.len(),
{
    if recs.len() > 0 {
        lemma_sort_weight(recs.drop_last());
        lemma_insert_weight(sort_by_value(recs.drop_last()), recs.last());
    }
}

/// The name table written for the first `n` symbols is one byte longer than
/// the weight of their names, and so no longer than one byte more than the
/// weight of all names.
pub proof fn lemma_name_table_weight(ordered: Seq<SymbolRecord>, n: int)
    requires
        0 <= n <= ordered.len(),
    ensures
        name_table(ordered, n).len() == 1 + names_weight(ordered.take(n)),
        names_weight(ordered.take(n)) <= names_weight(ordered),
    decreases ordered.len() - n,
{
    lemma_name_table_prefix(ordered, n);
    if n == ordered.len() {
        assert(ordered.take(n) =~= ordered);
    } else {
        lemma_name_table_weight(ordered, n + 1);
        assert(ordered.take(n + 1).drop_last() =~= ordered.take(n));
    }
}

/// The name table written for the first `n` symbols is one byte longer than
/// the weight of their names.
pub proof fn lemma_name_table_prefix(ordered: Seq<SymbolRecord>, n: int)
    requires
        0 <= n <= ordered.len(),
    ensures
        name_table(ordered, n).len() == 1 + names_weight(ordered.take(n)),
    decreases n,
{
    if n > 0 {
        lemma_name_table_prefix(ordered, n - 1);
        assert(ordered.take(n).drop_last() =~= ordered.take(n - 1));
    } else {
        assert(ordered.take(0) =~= Seq::<SymbolRecord>::empty());
    }
}

/// The tables made from `recs` are bounded by the input: the name table is at
/// most one byte longer than the weight of all names, and there is at most
/// one entry for each record, or the reserved entry alone.
pub proof fn lemma_tables_bounded(recs: Seq<SymbolRecord>, wide: bool)
    ensures
        1 <= elf_name_table(recs).len() <= 1 + names_weight(recs),
        recs.len() == 0 ==> elf_name_table(recs).len() == 1,
        1 <= elf_symbol_table(recs, wide).len() <= 1 + recs.len(),
        elf_symbol_table(recs, wide).len() == 1 + emitted_count(ordered_text_symbols(recs)),
{
    let ordered = ordered_text_symbols(recs);
    lemma_text_symbols_weight(recs);
    lemma_sort_weight(text_symbols(recs));
    lemma_sort_ascending(text_symbols(recs));
    lemma_name_table_weight(ordered, emitted_count(ordered));
}

/// Sorting leaves an ascending list as it is; in particular records of equal
/// address are not swapped.
pub proof fn lemma_sort_keeps_ascending(recs: Seq<SymbolRecord>)
    requires
        ascending(recs),
    ensures
        sort_by_value(recs) == recs,
    decreases recs.len(),
{
    if recs.len() > 1 {
        let front = recs.drop_last();
        assert(ascending(front)) by {
            assert forall|i: int, j: int| 0 <= i <= j < front.len() implies front[i].value
                <= front[j].value by {
                assert(recs[i].value <= recs[j].value);
            }
        }
        lemma_sort_keeps_ascending(front);
        assert(recs[recs.len() - 2].value <= recs[recs.len() - 1].value);
        assert(front.push(recs.last()) =~= recs);
    } else if recs.len() == 1 {
        assert(sort_by_value(recs.drop_last()) =~= Seq::<SymbolRecord>::empty());
        assert(seq![recs.last()] =~= recs);
    }
}

/// The test for the records at one address.
pub open spec fn at_address(v: u32) -> spec_fn(SymbolRecord) -> bool {
    |r: SymbolRecord| r.value == v
}

/// A list without records at `v` has none to show.
proof fn lemma_none_at_address(recs: Seq<SymbolRecord>, v: u32)
    requires
        forall|j: int| 0 <= j < recs.len() ==> recs[j].value != v,
    ensures
        recs.filter(at_address(v)) == Seq::<SymbolRecord>::empty(),
    decreases recs.len(),
{
    reveal(Seq::filter);
    if recs.len() > 0 {
        lemma_none_at_address(recs.drop_last(), v);
    }
}

/// Sorting is stable: the records at any one address stand in the sorted
/// list in the order in which they stand in the input.
pub proof fn lemma_sort_stable(recs: Seq<SymbolRecord>, v: u32)
    ensures
        sort_by_value(recs).filter(at_address(v)) == recs.filter(at_address(v)),
    decreases recs.len(),
{
    reveal(Seq::filter);
    if recs.len() > 0 {
        let pred = at_address(v);
        let x = recs.last();
        let front = sort_by_value(recs.drop_last());
        lemma_sort_stable(recs.drop_last(), v);
        let p = lemma_insert_is_insert(front, x);
        let low = front.take(p);
        let high = front.skip(p);
        assert(front.insert(p, x) =~= low + seq![x] + high);
        assert(front =~= low + high);
        Seq::filter_distributes_over_add(low + seq![x], high, pred);
        Seq::filter_distributes_over_add(low, seq![x], pred);
        Seq::filter_distributes_over_add(low, high, pred);
        assert(seq![x].drop_last() =~= Seq::<SymbolRecord>::empty());
        assert(Seq::<SymbolRecord>::empty().filter(pred) =~= Seq::<SymbolRecord>::empty());
        assert(seq![x].last() == x);
        assert(seq![x].filter(pred) =~= if x.value == v {
            seq![x]
        } else {
            Seq::<SymbolRecord>::empty()
        });
        if x.value == v {
            lemma_none_at_address(high, v);
            assert(low.filter(pred) + seq![x] + high.filter(pred) =~= (low.filter(pred)
                + high.filter(pred)).push(x));
        } else {
            assert(low.filter(pred) + seq![x].filter(pred) + high.filter(pred) =~= low.filter(pred)
                + high.filter(pred));
        }
    }
}

/// The function symbols ascend: the symbols taken are the text symbols
/// of the input, ordered by address, and the entries behind the reserved one
/// follow that order. The entry at `i` starts at the address of the symbol
/// at `i - 1` and reaches up to the address of the next symbol.
pub proof fn lemma_function_symbols_ascend(recs: Seq<SymbolRecord>, wide: bool)
    ensures
        ({
            let table = elf_symbol_table(recs, wide);
            let ordered = ordered_text_symbols(recs);
            &&& ascending(ordered)
            &&& ordered.to_multiset() == text_symbols(recs).to_multiset()
            &&& table.len() == 1 + emitted_count(ordered)
            &&& table[0] == null_symbol(wide)
            &&& forall|i: int|
                1 <= i < table.len() ==> (#[trigger] table[i]).value() == ordered[i - 1].value
                    && table[i].size() == ordered[i].value - ordered[i - 1].value
            &&& forall|i: int, j: int|
                1 <= i <= j < table.len() ==> table[i].value() <= table[j].value()
        }),
{
    let table = elf_symbol_table(recs, wide);
    let ordered = ordered_text_symbols(recs);
    lemma_sort_ascending(text_symbols(recs));
    lemma_sort_permutes(text_symbols(recs));
    assert forall|i: int| 1 <= i < table.len() implies (#[trigger] table[i]).value() == ordered[i
        - 1].value && table[i].size() == ordered[i].value - ordered[i - 1].value by {
        assert(table[i] == function_symbol_at(ordered, wide, i - 1));
        assert(ordered[i - 1].value <= ordered[i].value);
    }
    assert forall|i: int, j: int| 1 <= i <= j < table.len() implies table[i].value()
        <= table[j].value() by {
        assert(ordered[i - 1].value <= ordered[j - 1].value);
    }
}

/// What was written into the name table stays: the table after `a` names is
/// the front of the table after `b` names, for `a` not above `b`.
pub proof fn lemma_name_table_extends(ordered: Seq<SymbolRecord>, a: int, b: int)
    requires
        0 <= a <= b,
    ensures
        name_table(ordered, a).len() <= name_table(ordered, b).len(),
        name_table(ordered, b).subrange(0, name_table(ordered, a).len() as int) == name_table(
            ordered,
            a,
        ),
    decreases b - a,
{
    if a < b {
        lemma_name_table_extends(ordered, a, b - 1);
        assert(name_table(ordered, b).subrange(0, name_table(ordered, a).len() as int)
            =~= name_table(ordered, b - 1).subrange(0, name_table(ordered, a).len() as int));
    } else {
        assert(name_table(ordered, b).subrange(0, name_table(ordered, a).len() as int)
            =~= name_table(ordered, a));
    }
}

/// Every function symbol finds its name: the name string table starts with
/// a zero byte, and at the name offset of the entry behind the reserved one
/// at `i` stand the bytes of the name of the symbol it was made from,
/// followed by a zero byte.
pub proof fn lemma_names_at_offsets(recs: Seq<SymbolRecord>, wide: bool, i: int)
    requires
        1 <= i < elf_symbol_table(recs, wide).len(),
        elf_name_table(recs).len() <= u32::MAX,
    ensures
        ({
            let names = elf_name_table(recs);
            let name = ordered_text_symbols(recs)[i - 1].name;
            let at = elf_symbol_table(recs, wide)[i].name_offset();
            &&& names[0] == 0
            &&& 1 <= at
            &&& at + name.len() + 1 <= names.len()
            &&& names.subrange(at, at + name.len() + 1) == name + seq![0u8]
        }),
{
    let ordered = ordered_text_symbols(recs);
    let count = emitted_count(ordered);
    let names = elf_name_table(recs);
    let name = ordered[i - 1].name;
    lemma_name_table_extends(ordered, 0, count);
    lemma_name_table_extends(ordered, i - 1, count);
    lemma_name_table_extends(ordered, i, count);
    lemma_name_table_grows(ordered, 0, i - 1);
    assert(names.subrange(0, 1)[0] == 0);
    let at = name_table(ordered, i - 1).len() as int;
    assert(elf_symbol_table(recs, wide)[i] == function_symbol_at(ordered, wide, i - 1));
    lemma_subrange_of_subrange(
        names,
        0,
        name_table(ordered, i).len() as int,
        at,
        at + name.len() + 1,
    );
    assert(name_table(ordered, i).subrange(at, at + name.len() + 1) =~= name + seq![0u8]);
}

} // verus!
