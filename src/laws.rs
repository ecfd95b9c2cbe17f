//! Properties of parsed descriptions, stated over the models and proved.
use vstd::prelude::*;
use vstd::utf8::{decode_utf8_encode_utf8, encode_utf8, valid_utf8};

use crate::extended::{
    bools_named, ext_entries, ext_entry, ext_from_section, ext_name, lemma_names_read, names_used,
    numbers_named, values_end, values_inside,
};
use crate::parsing::{
    count, lemma_offsets_in_table, number_width, offsets_start, out_of_table, parse_error,
    section_start, wide_numbers,
};
use crate::{
    entries_view, is_absent, lemma_nul_end_bounds, lookup, nul_end, resolve, BoolCapability,
    Error, NumberCapability, StringCapability, TermInfo, ValueStorage,
};

verus! {

/// Every string offset of the mandatory section of a parsed description,
/// sentinels aside, lies inside the string table, and resolving it yields
/// bytes inside that table.
pub proof fn lemma_offsets_resolve_inside_table(d: Seq<u8>, t: TermInfo)
    requires
        parse_error(d) is None,
        t.read_from(d),
    ensures
        forall|i: int|
            0 <= i < t.section().strings@.len() && !is_absent(#[trigger] t.section().strings@[i]) ==> {
                let table = t.section().str_table@;
                let off = t.section().strings@[i] as int;
                &&& off < table.len()
                &&& off <= nul_end(table, off) <= table.len()
                &&& resolve(table, t.section().strings@[i], 0) == Some(
                    table.subrange(off, nul_end(table, off)),
                )
            },
{
    lemma_offsets_in_table(t.section().strings@, count(d, 4), 0);
    assert forall|i: int|
        0 <= i < t.section().strings@.len() && !is_absent(#[trigger] t.section().strings@[i]) implies {
        let table = t.section().str_table@;
        let off = t.section().strings@[i] as int;
        &&& off < table.len()
        &&& off <= nul_end(table, off) <= table.len()
    } by {
        lemma_nul_end_bounds(t.section().str_table@, t.section().strings@[i] as int);
    }
}

/// The primary name of a parsed description is never empty.
pub proof fn lemma_name_nonempty(d: Seq<u8>, t: TermInfo)
    requires
        parse_error(d) is None,
        t.read_from(d),
    ensures
        t.name_text().len() > 0,
{
}

/// Where a string capability reads as text, its bytes are the UTF-8
/// encoding of that text.
pub proof fn lemma_utf8_string_is_raw_string(t: TermInfo, cap: StringCapability)
    ensures
        t.utf8_string(cap) matches Some(cs) ==> t.raw_string(cap) == Some(encode_utf8(cs)),
{
    if let Some(b) = t.raw_string(cap) {
        if valid_utf8(b) {
            decode_utf8_encode_utf8(b);
        }
    }
}

/// Two descriptions read from the same bytes answer every query alike.
pub proof fn lemma_parse_deterministic(d: Seq<u8>, t1: TermInfo, t2: TermInfo)
    requires
        parse_error(d) is None,
        t1.read_from(d),
        t2.read_from(d),
    ensures
        t1.name_text() == t2.name_text(),
        t1.alias_texts() == t2.alias_texts(),
        t1.description_text() == t2.description_text(),
        forall|c: StringCapability| #[trigger] t1.raw_string(c) == t2.raw_string(c),
        forall|c: StringCapability| #[trigger] t1.utf8_string(c) == t2.utf8_string(c),
        forall|c: NumberCapability| #[trigger] t1.number(c) == t2.number(c),
        forall|c: BoolCapability| #[trigger] t1.flag(c) == t2.flag(c),
        forall|n: Seq<char>| #[trigger] t1.extended_storage(n) == t2.extended_storage(n),
        t1.extended_table() == t2.extended_table(),
{
    assert(t1.section().bools@ == t2.section().bools@);
    assert(t1.section().numbers@ == t2.section().numbers@);
    assert(t1.section().strings@ == t2.section().strings@);
    assert(t1.section().str_table@ == t2.section().str_table@);
    assert(t1.extended_caps() =~= t2.extended_caps());
}

/// A name found by `lookup` belongs to one of the entries.
proof fn lemma_lookup_found(entries: Seq<(Seq<char>, ValueStorage)>, name: Seq<char>)
    requires
        lookup(entries, name) is Some,
    ensures
        exists|k: int|
            0 <= k < entries.len() && #[trigger] entries[k] == (name, lookup(entries, name)->Some_0),
    decreases entries.len(),
{
    if entries.last().0 == name {
        assert(entries[entries.len() - 1] == (name, lookup(entries, name)->Some_0));
    } else {
        lemma_lookup_found(entries.drop_last(), name);
        let k = choose|k: int|
            0 <= k < entries.drop_last().len() && #[trigger] entries.drop_last()[k] == (
                name,
                lookup(entries.drop_last(), name)->Some_0,
            );
        assert(entries[k] == entries.drop_last()[k]);
    }
}

/// Each recorded capability is what one of the names binds.
proof fn lemma_entry_origin(
    bools: Seq<bool>,
    numbers: Seq<i32>,
    strings: Seq<u16>,
    names: Seq<Option<Seq<char>>>,
    n: int,
    j: int,
)
    requires
        0 <= j < ext_entries(bools, numbers, strings, names, n).len(),
    ensures
        exists|k: int|
            0 <= k < n && #[trigger] ext_entry(bools, numbers, strings, names, k) == Some(
                ext_entries(bools, numbers, strings, names, n)[j],
            ),
    decreases n,
{
    let prev = ext_entries(bools, numbers, strings, names, n - 1);
    if j < prev.len() {
        lemma_entry_origin(bools, numbers, strings, names, n - 1, j);
        let k = choose|k: int|
            0 <= k < n - 1 && #[trigger] ext_entry(bools, numbers, strings, names, k) == Some(
                prev[j],
            );
        assert(ext_entry(bools, numbers, strings, names, k) == Some(
            ext_entries(bools, numbers, strings, names, n)[j],
        ));
    } else {
        assert(ext_entry(bools, numbers, strings, names, n - 1) == Some(
            ext_entries(bools, numbers, strings, names, n)[j],
        ));
    }
}

/// An extended capability is recorded as true only for a name bound to a
/// boolean of the extended section that is set; a boolean stored as any byte
/// but `1` records nothing.
pub proof fn lemma_true_only_from_set_bools(
    bools: Seq<bool>,
    numbers: Seq<i32>,
    strings: Seq<u16>,
    table: Seq<u8>,
    string_cnt: u16,
    table_bytes: u16,
    name: Seq<char>,
)
    requires
        ext_from_section(bools, numbers, strings, table, string_cnt, table_bytes) is Ok,
        lookup(
            ext_from_section(bools, numbers, strings, table, string_cnt, table_bytes)->Ok_0.0,
            name,
        ) == Some(ValueStorage::True),
    ensures
        exists|i: int|
            0 <= i < bools.len() && bools[i] && #[trigger] ext_name(
                table,
                strings[string_cnt + i],
                values_end(strings, table, string_cnt as int) + 1,
                table_bytes,
            ) == Ok::<Option<Seq<char>>, Error>(Some(name)),
{
    let no = values_end(strings, table, string_cnt as int) + 1;
    let l = strings.len() - string_cnt;
    let names = Seq::new(
        l as nat,
        |j: int| ext_name(table, strings[string_cnt + j], no, table_bytes)->Ok_0,
    );
    let total = names_used(bools, numbers, string_cnt as int, l);
    let es = ext_entries(bools, numbers, strings, names, total);
    assert(ext_from_section(bools, numbers, strings, table, string_cnt, table_bytes)->Ok_0.0
        == es);
    lemma_lookup_found(es, name);
    let j = choose|j: int| 0 <= j < es.len() && #[trigger] es[j] == (name, ValueStorage::True);
    lemma_entry_origin(bools, numbers, strings, names, total, j);
    let k = choose|k: int|
        0 <= k < total && #[trigger] ext_entry(bools, numbers, strings, names, k) == Some(es[j]);
    assert(k < bools_named(bools, l));
    assert(bools[k]);
    assert(names[k] == Some(name));
    lemma_names_read(table, strings, no, table_bytes, string_cnt as int);
    assert(ext_name(table, strings[string_cnt + k], no, table_bytes) is Ok);
}

/// `values_end` reaches at least the end of each value it covers.
proof fn lemma_values_end_covers(strings: Seq<u16>, table: Seq<u8>, n: int, i: int)
    requires
        0 <= i < n <= strings.len(),
        resolve(table, strings[i], 0) is Some,
    ensures
        values_end(strings, table, n) >= strings[i] + resolve(table, strings[i], 0)->Some_0.len(),
    decreases n,
{
    if i < n - 1 {
        lemma_values_end_covers(strings, table, n - 1, i);
    }
}

/// Every string offset that an extended section records lies inside the
/// value table that is kept, so resolving it yields bytes inside that table.
pub proof fn lemma_ext_values_inside_table(
    bools: Seq<bool>,
    numbers: Seq<i32>,
    strings: Seq<u16>,
    table: Seq<u8>,
    string_cnt: u16,
    table_bytes: u16,
)
    requires
        table.len() == table_bytes,
        string_cnt < strings.len(),
        forall|i: int| 0 <= i < strings.len() ==> !out_of_table(#[trigger] strings[i], table_bytes),
        ext_from_section(bools, numbers, strings, table, string_cnt, table_bytes) is Ok,
    ensures
        values_inside(
            ext_from_section(bools, numbers, strings, table, string_cnt, table_bytes)->Ok_0.0,
            ext_from_section(bools, numbers, strings, table, string_cnt, table_bytes)->Ok_0.1.len()
                as int,
        ),
{
    let no = values_end(strings, table, string_cnt as int) + 1;
    let l = strings.len() - string_cnt;
    let names = Seq::new(
        l as nat,
        |j: int| ext_name(table, strings[string_cnt + j], no, table_bytes)->Ok_0,
    );
    let total = names_used(bools, numbers, string_cnt as int, l);
    let r = ext_from_section(bools, numbers, strings, table, string_cnt, table_bytes)->Ok_0;
    let es = ext_entries(bools, numbers, strings, names, total);
    assert(r.0 == es);
    assert forall|j: int| 0 <= j < es.len() implies match #[trigger] es[j].1 {
        ValueStorage::String(off) => off < r.1.len(),
        _ => true,
    } by {
        if let ValueStorage::String(off) = es[j].1 {
            lemma_entry_origin(bools, numbers, strings, names, total, j);
            let k = choose|k: int|
                0 <= k < total && #[trigger] ext_entry(bools, numbers, strings, names, k) == Some(
                    es[j],
                );
            let m1 = bools_named(bools, l);
            let m2 = numbers_named(bools, numbers, l);
            assert(k >= m1 + m2);
            let i = k - m1 - m2;
            assert(0 <= i < string_cnt);
            assert(off == strings[i]);
            assert(!out_of_table(strings[i], table_bytes));
            assert(resolve(table, strings[i], 0) is Some);
            lemma_values_end_covers(strings, table, string_cnt as int, i);
        }
    }
}

/// What a parse stores of the mandatory section never exceeds the input:
/// every stored boolean, number, offset and table byte was read from it.
pub proof fn lemma_section_bounded_by_input(d: Seq<u8>, t: TermInfo)
    requires
        parse_error(d) is None,
        t.read_from(d),
    ensures
        t.section().bools@.len() + t.section().numbers@.len() + t.section().strings@.len()
            + t.section().str_table@.len() <= d.len(),
{
    let p = section_start(d);
    let n32 = wide_numbers(d);
    let aligned = count(d, 0) % 2 == 0;
    let o = offsets_start(p, n32, count(d, 1), count(d, 2), aligned);
    assert(number_width(n32) * count(d, 2) >= count(d, 2)) by (nonlinear_arith)
        requires
            number_width(n32) >= 2,
    ;
    assert(o + 2 * count(d, 3) + count(d, 4) <= d.len());
}

} // verus!
