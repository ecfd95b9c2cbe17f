//! The extended section: capabilities identified by name.
use vstd::math::min;
use vstd::prelude::*;
use vstd::utf8::{decode_utf8, encode_utf8_decode_utf8, valid_utf8};

use crate::parsing::{lemma_offsets_in_table, out_of_table, numbers_start, offsets_start, section_error, stored_bools, stored_numbers, stored_offsets};
use crate::laws::lemma_ext_values_inside_table;
use crate::reader::{non_neg_at, read_byte, read_non_neg_i16};
use crate::text::utf8_str;
use crate::{entries_view, get_str_with_offset, is_absent, lemma_nul_end_bounds, resolve, Error, Extended, TermInfoData, ValueStorage};

verus! {

/// The largest `offset + length` over the values among `strings[..n]` that
/// resolve in `table`, or 0 if none does.
pub open spec fn values_end(strings: Seq<u16>, table: Seq<u8>, n: int) -> int
    decreases n,
{
    if n <= 0 {
        0
    } else {
        let m = values_end(strings, table, n - 1);
        match resolve(table, strings[n - 1], 0) {
            Some(b) => if strings[n - 1] + b.len() > m {
                strings[n - 1] + b.len()
            } else {
                m
            },
            None => m,
        }
    }
}

/// The name stored at `o + names_off`: `Ok(None)` for an absent entry, an
/// error where the name lies outside the table or is not UTF-8.
pub open spec fn ext_name(table: Seq<u8>, o: u16, names_off: int, table_bytes: u16) -> Result<
    Option<Seq<char>>,
    Error,
> {
    if o <= 0xfffd && o + names_off >= table_bytes {
        Err(Error::OutOfBoundString { off: (o + names_off) as u16, table_size: table_bytes })
    } else {
        match resolve(table, o, names_off as u16) {
            None => Ok(None),
            Some(b) => if valid_utf8(b) {
                Ok(Some(decode_utf8(b)))
            } else {
                Err(Error::InvalidUtf8)
            },
        }
    }
}

/// The first error among the names at `strings[j..]`.
pub open spec fn first_name_error(
    table: Seq<u8>,
    strings: Seq<u16>,
    names_off: int,
    table_bytes: u16,
    j: int,
) -> Option<Error>
    decreases strings.len() - j,
{
    if j < 0 || j >= strings.len() {
        None
    } else if ext_name(table, strings[j], names_off, table_bytes) is Err {
        Some(ext_name(table, strings[j], names_off, table_bytes)->Err_0)
    } else {
        first_name_error(table, strings, names_off, table_bytes, j + 1)
    }
}

/// Where no name from `j` on fails, each one reads.
pub proof fn lemma_names_read(
    table: Seq<u8>,
    strings: Seq<u16>,
    names_off: int,
    table_bytes: u16,
    j: int,
)
    requires
        0 <= j,
        first_name_error(table, strings, names_off, table_bytes, j) is None,
    ensures
        forall|i: int|
            j <= i < strings.len() ==> (#[trigger] ext_name(table, strings[i], names_off, table_bytes)) is Ok,
    decreases strings.len() - j,
{
    if j < strings.len() {
        lemma_names_read(table, strings, names_off, table_bytes, j + 1);
    }
}

/// Every recorded string value lies inside a table of `table_len` bytes.
pub open spec fn values_inside(caps: Seq<(Seq<char>, ValueStorage)>, table_len: int) -> bool {
    forall|j: int|
        0 <= j < caps.len() ==> match #[trigger] caps[j].1 {
            ValueStorage::String(off) => off < table_len,
            _ => true,
        }
}

/// How many names the booleans, then the numbers, then the `string_cnt`
/// string values take, each kind taking as many as remain.
pub open spec fn bools_named(bools: Seq<bool>, l: int) -> int {
    min(bools.len() as int, l)
}

pub open spec fn numbers_named(bools: Seq<bool>, numbers: Seq<i32>, l: int) -> int {
    min(numbers.len() as int, l - bools_named(bools, l))
}

pub open spec fn names_used(bools: Seq<bool>, numbers: Seq<i32>, string_cnt: int, l: int) -> int {
    let m = bools_named(bools, l) + numbers_named(bools, numbers, l);
    m + min(string_cnt, l - m)
}

/// The capability that the `k`-th name binds, if it records one: a true
/// boolean, a number other than `0xFFFF`, a string offset other than the
/// two sentinels.
pub open spec fn ext_entry(
    bools: Seq<bool>,
    numbers: Seq<i32>,
    strings: Seq<u16>,
    names: Seq<Option<Seq<char>>>,
    k: int,
) -> Option<(Seq<char>, ValueStorage)> {
    let m1 = bools_named(bools, names.len() as int);
    let m2 = numbers_named(bools, numbers, names.len() as int);
    match names[k] {
        None => None,
        Some(n) => if k < m1 {
            if bools[k] {
                Some((n, ValueStorage::True))
            } else {
                None
            }
        } else if k < m1 + m2 {
            if numbers[k - m1] != 0xffff {
                Some((n, ValueStorage::Number(numbers[k - m1])))
            } else {
                None
            }
        } else if !is_absent(strings[k - m1 - m2]) {
            Some((n, ValueStorage::String(strings[k - m1 - m2])))
        } else {
            None
        },
    }
}

/// The capabilities recorded by the first `n` names, in order.
pub open spec fn ext_entries(
    bools: Seq<bool>,
    numbers: Seq<i32>,
    strings: Seq<u16>,
    names: Seq<Option<Seq<char>>>,
    n: int,
) -> Seq<(Seq<char>, ValueStorage)>
    decreases n,
{
    if n <= 0 {
        seq![]
    } else {
        let prev = ext_entries(bools, numbers, strings, names, n - 1);
        match ext_entry(bools, numbers, strings, names, n - 1) {
            Some(e) => prev.push(e),
            None => prev,
        }
    }
}

pub open spec fn opt_text(o: Option<String>) -> Option<Seq<char>> {
    match o {
        Some(s) => Some(s@),
        None => None,
    }
}

/// The extended capabilities and the value table that a section's contents
/// give, where the first `string_cnt` offsets are values and the rest names.
pub open spec fn ext_from_section(
    bools: Seq<bool>,
    numbers: Seq<i32>,
    strings: Seq<u16>,
    table: Seq<u8>,
    string_cnt: u16,
    table_bytes: u16,
) -> Result<(Seq<(Seq<char>, ValueStorage)>, Seq<u8>), Error> {
    let no = values_end(strings, table, string_cnt as int) + 1;
    let l = strings.len() - string_cnt;
    if let Some(e) = first_name_error(table, strings, no, table_bytes, string_cnt as int) {
        Err(e)
    } else {
        let names = Seq::new(
            l as nat,
            |j: int| ext_name(table, strings[string_cnt + j], no, table_bytes)->Ok_0,
        );
        Ok(
            (
                ext_entries(
                    bools,
                    numbers,
                    strings,
                    names,
                    names_used(bools, numbers, string_cnt as int, l),
                ),
                table.subrange(0, min(no, table.len() as int)),
            ),
        )
    }
}

/// The extended section read at `p`, after the mandatory one, or why it
/// cannot be read.
pub open spec fn ext_result(d: Seq<u8>, p: int, numbers_32bit: bool, unaligned: bool) -> Result<
    (Seq<(Seq<char>, ValueStorage)>, Seq<u8>),
    Error,
> {
    let p1 = if unaligned {
        p + 1
    } else {
        p
    };
    if p1 > d.len() {
        Err(Error::Io)
    } else if non_neg_at(d, p1) is Err {
        Err(non_neg_at(d, p1)->Err_0)
    } else if non_neg_at(d, p1 + 2) is Err {
        Err(non_neg_at(d, p1 + 2)->Err_0)
    } else if non_neg_at(d, p1 + 4) is Err {
        Err(non_neg_at(d, p1 + 4)->Err_0)
    } else if non_neg_at(d, p1 + 6) is Err {
        Err(non_neg_at(d, p1 + 6)->Err_0)
    } else if non_neg_at(d, p1 + 8) is Err {
        Err(non_neg_at(d, p1 + 8)->Err_0)
    } else {
        let bc = non_neg_at(d, p1)->Ok_0;
        let nc = non_neg_at(d, p1 + 2)->Ok_0;
        let sc = non_neg_at(d, p1 + 4)->Ok_0;
        let nsym = non_neg_at(d, p1 + 6)->Ok_0;
        let tb = non_neg_at(d, p1 + 8)->Ok_0;
        let s0 = p1 + 10;
        if let Some(e) = section_error(d, s0, numbers_32bit, bc, nc, nsym, tb, true) {
            Err(e)
        } else if sc >= nsym {
            Err(Error::InvalidNames)
        } else {
            let q = numbers_start(s0, bc, true);
            let o = offsets_start(s0, numbers_32bit, bc, nc, true);
            let t = o + 2 * nsym;
            ext_from_section(
                stored_bools(d, s0, bc),
                stored_numbers(d, q, numbers_32bit, nc),
                stored_offsets(d, o, nsym),
                d.subrange(t, t + tb),
                sc,
                tb,
            )
        }
    }
}

impl Extended {
    /// No extended capabilities.
    pub fn empty() -> (r: Extended)
        ensures
            r.capabilities@.len() == 0,
            r.table@.len() == 0,
    {
        Extended { capabilities: Vec::new(), table: Vec::new() }
    }
}

/// Binds the names of a parsed extended section to its values.
fn assemble_extended(sec: TermInfoData, string_count: u16, table_bytes: u16) -> (r: Result<
    Extended,
    Error,
>)
    requires
        table_bytes <= 0x7fff,
        sec.str_table@.len() == table_bytes,
        string_count < sec.strings@.len(),
        forall|i: int|
            0 <= i < sec.strings@.len() ==> !out_of_table(#[trigger] sec.strings@[i], table_bytes),
    ensures
        match ext_from_section(
            sec.bools@,
            sec.numbers@,
            sec.strings@,
            sec.str_table@,
            string_count,
            table_bytes,
        ) {
            Err(e) => r == Err::<Extended, Error>(e),
            Ok((es, tab)) => r matches Ok(x) && entries_view(x.capabilities@) == es && x.table@
                == tab,
        },
        r matches Ok(x) ==> values_inside(entries_view(x.capabilities@), x.table@.len() as int),
{
    let ghost strings = sec.strings@;
    let ghost table = sec.str_table@;
    let sc = string_count as usize;

    let mut end: usize = 0;
    let mut i: usize = 0;
    while i < sc
        invariant
            i <= sc < strings.len(),
            strings == sec.strings@,
            table == sec.str_table@,
            table.len() == table_bytes,
            table_bytes <= 0x7fff,
            forall|i: int| 0 <= i < strings.len() ==> !out_of_table(#[trigger] strings[i], table_bytes),
            end == values_end(strings, table, i as int),
            end <= table_bytes,
        decreases sc - i,
    {
        let off = sec.strings[i];
        if let Some(s) = sec.get_str_at(off) {
            proof {
                lemma_nul_end_bounds(table, off as int);
            }
            let e = off as usize + s.len();
            if e > end {
                end = e;
            }
        }
        i = i + 1;
    }
    let names_off = end + 1;
    let ghost no = names_off as int;
    let ghost l = strings.len() - sc;

    let mut names: Vec<Option<String>> = Vec::new();
    let mut j: usize = sc;
    while j < sec.strings.len()
        invariant
            sc <= j <= strings.len(),
            sc == string_count,
            l == strings.len() - sc,
            strings == sec.strings@,
            table == sec.str_table@,
            table.len() == table_bytes,
            table_bytes <= 0x7fff,
            forall|i: int| 0 <= i < strings.len() ==> !out_of_table(#[trigger] strings[i], table_bytes),
            no == values_end(strings, table, sc as int) + 1,
            names_off == no,
            names_off <= table_bytes + 1,
            names@.len() == j - sc,
            first_name_error(table, strings, no, table_bytes, sc as int) == first_name_error(
                table,
                strings,
                no,
                table_bytes,
                j as int,
            ),
            forall|k: int|
                0 <= k < j - sc ==> (#[trigger] ext_name(table, strings[sc + k], no, table_bytes))
                    == Ok::<Option<Seq<char>>, Error>(opt_text(names@[k])),
        decreases strings.len() - j,
    {
        let o = sec.strings[j];
        if o <= 0xfffd && o as usize + names_off >= table_bytes as usize {
            return Err(
                Error::OutOfBoundString { off: o + names_off as u16, table_size: table_bytes },
            );
        }
        match get_str_with_offset(sec.str_table.as_slice(), o, names_off as u16) {
            None => {
                names.push(None);
            },
            Some(b) => match utf8_str(b) {
                Some(s) => {
                    proof {
                        encode_utf8_decode_utf8(s@);
                    }
                    names.push(Some(s.to_owned()));
                },
                None => {
                            return Err(Error::InvalidUtf8);
                },
            },
        }
        j = j + 1;
    }
    let ghost name_seq = Seq::new(
        l as nat,
        |k: int| ext_name(table, strings[sc + k], no, table_bytes)->Ok_0,
    );
    assert(names@.map_values(|o: Option<String>| opt_text(o)) =~= name_seq);

    let n_names = sec.strings.len() - sc;
    let m1 = if sec.bools.len() < n_names {
        sec.bools.len()
    } else {
        n_names
    };
    let m2 = if sec.numbers.len() < n_names - m1 {
        sec.numbers.len()
    } else {
        n_names - m1
    };
    let m3 = if sc < n_names - m1 - m2 {
        sc
    } else {
        n_names - m1 - m2
    };
    let total = m1 + m2 + m3;
    assert(total == names_used(sec.bools@, sec.numbers@, sc as int, l));

    let mut caps: Vec<(String, ValueStorage)> = Vec::new();
    let mut k: usize = 0;
    while k < total
        invariant
            k <= total <= names@.len(),
            strings == sec.strings@,
            names@.map_values(|o: Option<String>| opt_text(o)) == name_seq,
            name_seq.len() == names@.len(),
            m1 == bools_named(sec.bools@, l),
            m2 == numbers_named(sec.bools@, sec.numbers@, l),
            m3 == min(sc as int, l - m1 - m2),
            sc == string_count,
            sc < strings.len(),
            total == m1 + m2 + m3,
            names@.len() == l,
            entries_view(caps@) == ext_entries(sec.bools@, sec.numbers@, strings, name_seq, k as int),
        decreases total - k,
    {
        let ghost old_caps = caps@;
        assert(opt_text(names@[k as int]) == name_seq[k as int]);
        match &names[k] {
            None => {},
            Some(n) => {
                if k < m1 {
                    if sec.bools[k] {
                        caps.push((n.clone(), ValueStorage::True));
                    }
                } else if k < m1 + m2 {
                    let v = sec.numbers[k - m1];
                    if v != 0xffff {
                        caps.push((n.clone(), ValueStorage::Number(v)));
                    }
                } else {
                    let v = sec.strings[k - m1 - m2];
                    if v != 0xffff && v != 0xfffe {
                        caps.push((n.clone(), ValueStorage::String(v)));
                    }
                }
            },
        }
        proof {
            if caps@.len() > old_caps.len() {
                assert(entries_view(caps@) =~= entries_view(old_caps).push(
                    (caps@.last().0@, caps@.last().1),
                ));
            }
        }
        k = k + 1;
    }

    let mut table_out = sec.str_table;
    table_out.truncate(names_off);
    proof {
        lemma_ext_values_inside_table(
            sec.bools@,
            sec.numbers@,
            strings,
            table,
            string_count,
            table_bytes,
        );
    }
    Ok(Extended { capabilities: caps, table: table_out })
}

/// Reads the extended section at `*pos`; any failure discards it.
#[verifier::rlimit(40)]
pub fn try_parse_ext_capabilities(
    data: &[u8],
    pos: &mut usize,
    number_32bit: bool,
    unaligned: bool,
) -> (r: Result<Extended, Error>)
    requires
        *old(pos) <= data@.len(),
    ensures
        match ext_result(data@, *old(pos) as int, number_32bit, unaligned) {
            Err(e) => r == Err::<Extended, Error>(e),
            Ok((es, tab)) => r matches Ok(x) && entries_view(x.capabilities@) == es && x.table@
                == tab,
        },
        r matches Ok(x) ==> values_inside(entries_view(x.capabilities@), x.table@.len() as int),
{
    if unaligned {
        read_byte(data, pos)?;
    }
    let bool_count = read_non_neg_i16(data, pos)?;
    let num_count = read_non_neg_i16(data, pos)?;
    let string_count = read_non_neg_i16(data, pos)?;
    let num_strings_in_table = read_non_neg_i16(data, pos)?;
    let table_bytes = read_non_neg_i16(data, pos)?;
    let sec = TermInfoData::parse(
        data,
        pos,
        number_32bit,
        bool_count,
        num_count,
        num_strings_in_table,
        table_bytes,
        true,
    )?;
    if string_count as usize >= sec.strings.len() {
        return Err(Error::InvalidNames);
    }
    proof {
        lemma_offsets_in_table(sec.strings@, table_bytes, 0);
    }
    assemble_extended(sec, string_count, table_bytes)
}

} // verus!
