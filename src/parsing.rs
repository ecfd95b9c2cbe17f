//! The compiled terminfo format: header, names, sections and the extended
//! section.
use vstd::prelude::*;
use vstd::slice::slice_to_vec;
use vstd::utf8::valid_utf8;

use crate::extended::{values_inside, ext_result, try_parse_ext_capabilities};
use crate::names::{aliases_of, description_of, field_texts, read_names};
use crate::reader::{
    le_i16, le_i32, le_u16, non_neg_at, read_byte, read_i16, read_i32, read_non_neg_i16, read_u16,
};
use crate::{entries_view, Error, Extended, TermInfo, TermInfoData};

verus! {

/// Bytes taken by one number: four in the 32-bit format, two in the legacy one.
pub open spec fn number_width(numbers_32bit: bool) -> int {
    if numbers_32bit {
        4
    } else {
        2
    }
}

/// A pad byte follows the booleans when their count has the parity that
/// `aligned` selects, so that the numbers start on an even position.
pub open spec fn pads(bool_cnt: u16, aligned: bool) -> bool {
    (bool_cnt % 2 == 1) == aligned
}

/// Position of the first number of a section that starts at `p`.
pub open spec fn numbers_start(p: int, bool_cnt: u16, aligned: bool) -> int {
    p + bool_cnt + if pads(bool_cnt, aligned) {
        1int
    } else {
        0int
    }
}

/// Position of the first string offset of a section that starts at `p`.
pub open spec fn offsets_start(
    p: int,
    numbers_32bit: bool,
    bool_cnt: u16,
    numbers_cnt: u16,
    aligned: bool,
) -> int {
    numbers_start(p, bool_cnt, aligned) + number_width(numbers_32bit) * numbers_cnt
}

/// Booleans stored at `p`: only the byte `1` is true.
pub open spec fn stored_bools(d: Seq<u8>, p: int, n: u16) -> Seq<bool> {
    Seq::new(n as nat, |i: int| d[p + i] == 1)
}

/// Numbers stored at `q`, each widened to 32 bits.
pub open spec fn stored_numbers(d: Seq<u8>, q: int, numbers_32bit: bool, n: u16) -> Seq<i32> {
    Seq::new(
        n as nat,
        |i: int|
            if numbers_32bit {
                le_i32(d, q + 4 * i) as i32
            } else {
                le_i16(d, q + 2 * i) as i32
            },
    )
}

/// Unsigned 16-bit values stored at `o`.
pub open spec fn stored_offsets(d: Seq<u8>, o: int, n: u16) -> Seq<u16> {
    Seq::new(n as nat, |i: int| le_u16(d, o + 2 * i) as u16)
}

/// An offset that names a string but lies outside a table of `table_bytes`.
pub open spec fn out_of_table(off: u16, table_bytes: u16) -> bool {
    off <= 0xfffd && off >= table_bytes
}

/// The first offset among `offs[k..]` that lies outside the table.
pub open spec fn first_out_of_table(offs: Seq<u16>, table_bytes: u16, k: int) -> Option<u16>
    decreases offs.len() - k,
{
    if k >= offs.len() {
        None
    } else if out_of_table(offs[k], table_bytes) {
        Some(offs[k])
    } else {
        first_out_of_table(offs, table_bytes, k + 1)
    }
}

/// Where no offset from `k` on lies outside the table, each one lies inside.
pub proof fn lemma_offsets_in_table(offs: Seq<u16>, table_bytes: u16, k: int)
    requires
        0 <= k,
        first_out_of_table(offs, table_bytes, k) is None,
    ensures
        forall|i: int| k <= i < offs.len() ==> !out_of_table(#[trigger] offs[i], table_bytes),
    decreases offs.len() - k,
{
    if k < offs.len() {
        lemma_offsets_in_table(offs, table_bytes, k + 1);
    }
}

/// How reading a section at `p` fails, if it does.
pub open spec fn section_error(
    d: Seq<u8>,
    p: int,
    numbers_32bit: bool,
    bool_cnt: u16,
    numbers_cnt: u16,
    string_cnt: u16,
    table_bytes: u16,
    aligned: bool,
) -> Option<Error> {
    let o = offsets_start(p, numbers_32bit, bool_cnt, numbers_cnt, aligned);
    let t = o + 2 * string_cnt;
    if t > d.len() {
        Some(Error::Io)
    } else if let Some(off) = first_out_of_table(stored_offsets(d, o, string_cnt), table_bytes, 0) {
        Some(Error::OutOfBoundString { off, table_size: table_bytes })
    } else if t + table_bytes > d.len() {
        Some(Error::Io)
    } else {
        None
    }
}

/// Position just past a section that starts at `p`.
pub open spec fn section_end(
    p: int,
    numbers_32bit: bool,
    bool_cnt: u16,
    numbers_cnt: u16,
    string_cnt: u16,
    table_bytes: u16,
    aligned: bool,
) -> int {
    offsets_start(p, numbers_32bit, bool_cnt, numbers_cnt, aligned) + 2 * string_cnt + table_bytes
}

impl TermInfoData {
    /// `self` holds what a section at `p` of `d` stores.
    pub open spec fn read_from(
        &self,
        d: Seq<u8>,
        p: int,
        numbers_32bit: bool,
        bool_cnt: u16,
        numbers_cnt: u16,
        string_cnt: u16,
        table_bytes: u16,
        aligned: bool,
    ) -> bool {
        let q = numbers_start(p, bool_cnt, aligned);
        let o = offsets_start(p, numbers_32bit, bool_cnt, numbers_cnt, aligned);
        let t = o + 2 * string_cnt;
        &&& self.bools@ == stored_bools(d, p, bool_cnt)
        &&& self.numbers@ == stored_numbers(d, q, numbers_32bit, numbers_cnt)
        &&& self.strings@ == stored_offsets(d, o, string_cnt)
        &&& self.str_table@ == d.subrange(t, t + table_bytes)
    }

    /// Reads a section at `*pos`: booleans, the pad byte, numbers, string
    /// offsets (each checked against the table's size) and the string table.
    pub fn parse(
        data: &[u8],
        pos: &mut usize,
        numbers_32bit: bool,
        bool_cnt: u16,
        numbers_cnt: u16,
        string_cnt: u16,
        table_bytes: u16,
        aligned: bool,
    ) -> (r: Result<TermInfoData, Error>)
        requires
            *old(pos) <= data@.len(),
        ensures
            match section_error(
                data@,
                *old(pos) as int,
                numbers_32bit,
                bool_cnt,
                numbers_cnt,
                string_cnt,
                table_bytes,
                aligned,
            ) {
                Some(e) => r == Err::<TermInfoData, Error>(e),
                None => r matches Ok(s) && s.read_from(
                    data@,
                    *old(pos) as int,
                    numbers_32bit,
                    bool_cnt,
                    numbers_cnt,
                    string_cnt,
                    table_bytes,
                    aligned,
                ) && *final(pos) == section_end(
                    *old(pos) as int,
                    numbers_32bit,
                    bool_cnt,
                    numbers_cnt,
                    string_cnt,
                    table_bytes,
                    aligned,
                ),
            },
            *final(pos) <= data@.len(),
    {
        let ghost d = data@;
        let ghost p = *pos as int;
        let ghost q = numbers_start(p, bool_cnt, aligned);
        let ghost o = offsets_start(p, numbers_32bit, bool_cnt, numbers_cnt, aligned);
        let ghost w = number_width(numbers_32bit);

        let mut bools: Vec<bool> = Vec::new();
        let mut k: u16 = 0;
        while k < bool_cnt
            invariant
                d == data@,
                p == *old(pos),
                q == numbers_start(p, bool_cnt, aligned),
                o == offsets_start(p, numbers_32bit, bool_cnt, numbers_cnt, aligned),
                p <= d.len(),
                *pos == p + k,
                p <= *pos <= d.len(),
                k <= bool_cnt,
                bools@ == stored_bools(d, p, k),
            decreases bool_cnt - k,
        {
            let b = read_byte(data, pos)?;
            bools.push(b == 1);
            k = k + 1;
            assert(bools@ =~= stored_bools(d, p, k));
        }

        if (bool_cnt % 2 == 1) == aligned {
            read_byte(data, pos)?;
        }
        assert(*pos == q);

        let mut numbers: Vec<i32> = Vec::new();
        let mut k: u16 = 0;
        while k < numbers_cnt
            invariant
                d == data@,
                p == *old(pos),
                q == numbers_start(p, bool_cnt, aligned),
                o == offsets_start(p, numbers_32bit, bool_cnt, numbers_cnt, aligned),
                p <= d.len(),
                *pos == q + w * k,
                p <= *pos <= d.len(),
                k <= numbers_cnt,
                w == number_width(numbers_32bit),
                numbers@ == stored_numbers(d, q, numbers_32bit, k),
            decreases numbers_cnt - k,
        {
            let v = if numbers_32bit {
                read_i32(data, pos)?
            } else {
                read_i16(data, pos)? as i32
            };
            numbers.push(v);
            k = k + 1;
            assert(numbers@ =~= stored_numbers(d, q, numbers_32bit, k));
        }
        assert(*pos == o);

        let mut strings: Vec<u16> = Vec::new();
        let mut k: u16 = 0;
        while k < string_cnt
            invariant
                d == data@,
                p == *old(pos),
                q == numbers_start(p, bool_cnt, aligned),
                o == offsets_start(p, numbers_32bit, bool_cnt, numbers_cnt, aligned),
                p <= d.len(),
                *pos == o + 2 * k,
                p <= *pos <= d.len(),
                k <= string_cnt,
                strings@ == stored_offsets(d, o, k),
            decreases string_cnt - k,
        {
            let v = read_u16(data, pos)?;
            strings.push(v);
            k = k + 1;
            assert(strings@ =~= stored_offsets(d, o, k));
        }
        assert(strings@ =~= stored_offsets(d, o, string_cnt));

        let mut i: usize = 0;
        while i < strings.len()
            invariant
                d == data@,
                p == *old(pos),
                q == numbers_start(p, bool_cnt, aligned),
                o == offsets_start(p, numbers_32bit, bool_cnt, numbers_cnt, aligned),
                p <= d.len(),
                i <= strings@.len(),
                *pos == o + 2 * string_cnt,
                *pos <= d.len(),
                strings@ == stored_offsets(d, o, string_cnt),
                first_out_of_table(strings@, table_bytes, 0) == first_out_of_table(
                    strings@,
                    table_bytes,
                    i as int,
                ),
            decreases strings@.len() - i,
        {
            let off = strings[i];
            if off <= 0xfffd && off >= table_bytes {
                return Err(Error::OutOfBoundString { off, table_size: table_bytes });
            }
            i = i + 1;
        }

        if data.len() - *pos < table_bytes as usize {
            return Err(Error::Io);
        }
        let str_table = slice_to_vec(&data[*pos..*pos + table_bytes as usize]);
        *pos = *pos + table_bytes as usize;
        Ok(TermInfoData { bools, numbers, strings, str_table })
    }
}

/// magic number octal 0432 for legacy ncurses terminfo
pub const MAGIC_LEGACY: i16 = 0x11A;

/// magic number octal 01036 for new ncurses terminfo
pub const MAGIC_32BIT: i16 = 0x21E;

/// The stored magic number.
pub open spec fn magic(d: Seq<u8>) -> int {
    le_i16(d, 0)
}

/// The `k`-th header count (0: names bytes, 1: booleans, 2: numbers,
/// 3: string offsets, 4: string table bytes).
pub open spec fn count(d: Seq<u8>, k: int) -> u16 {
    non_neg_at(d, 2 + 2 * k)->Ok_0
}

/// The first header count that cannot be read, and why.
pub open spec fn counts_error(d: Seq<u8>) -> Option<Error> {
    if non_neg_at(d, 2) is Err {
        Some(non_neg_at(d, 2)->Err_0)
    } else if non_neg_at(d, 4) is Err {
        Some(non_neg_at(d, 4)->Err_0)
    } else if non_neg_at(d, 6) is Err {
        Some(non_neg_at(d, 6)->Err_0)
    } else if non_neg_at(d, 8) is Err {
        Some(non_neg_at(d, 8)->Err_0)
    } else if non_neg_at(d, 10) is Err {
        Some(non_neg_at(d, 10)->Err_0)
    } else {
        None
    }
}

/// The names block.
pub open spec fn names_block(d: Seq<u8>) -> Seq<u8> {
    d.subrange(12, 12 + count(d, 0) - 1)
}

/// Position of the mandatory section.
pub open spec fn section_start(d: Seq<u8>) -> int {
    12 + count(d, 0)
}

/// Numbers are stored in 32 bits.
pub open spec fn wide_numbers(d: Seq<u8>) -> bool {
    magic(d) == MAGIC_32BIT
}

/// Why the fixed header of `d` cannot be read, if it cannot.
pub open spec fn header_error(d: Seq<u8>) -> Option<Error> {
    if d.len() < 2 {
        Some(Error::Io)
    } else if magic(d) != MAGIC_LEGACY && magic(d) != MAGIC_32BIT {
        Some(Error::InvalidMagicNum(magic(d) as i16))
    } else if counts_error(d) is Some {
        counts_error(d)
    } else if count(d, 0) == 0 {
        Some(Error::NoNames)
    } else {
        None
    }
}

/// Why `d` is not a compiled description, or `None` where it is one.
pub open spec fn parse_error(d: Seq<u8>) -> Option<Error> {
    if header_error(d) is Some {
        header_error(d)
    } else if 12 + count(d, 0) - 1 > d.len() {
        Some(Error::Io)
    } else if !valid_utf8(names_block(d)) {
        Some(Error::InvalidUtf8)
    } else if section_start(d) > d.len() {
        Some(Error::Io)
    } else if d[section_start(d) - 1] != 0 {
        Some(Error::NamesMissingNull)
    } else if field_texts(names_block(d))[0].len() == 0 {
        Some(Error::NoNames)
    } else {
        section_error(
            d,
            section_start(d),
            wide_numbers(d),
            count(d, 1),
            count(d, 2),
            count(d, 3),
            count(d, 4),
            count(d, 0) % 2 == 0,
        )
    }
}

/// The fixed header: number width and the five counts.
pub struct Header {
    pub numbers_32bit: bool,
    pub names_bytes: u16,
    pub bool_count: u16,
    pub numbers_count: u16,
    pub string_count: u16,
    pub string_table_bytes: u16,
}

/// Reads the magic number and the five counts.
fn read_header(data: &[u8], pos: &mut usize) -> (r: Result<Header, Error>)
    requires
        *old(pos) == 0,
    ensures
        match header_error(data@) {
            Some(e) => r == Err::<Header, Error>(e),
            None => r matches Ok(h) && h.numbers_32bit == wide_numbers(data@) && h.names_bytes
                == count(data@, 0) && h.bool_count == count(data@, 1) && h.numbers_count == count(
                data@,
                2,
            ) && h.string_count == count(data@, 3) && h.string_table_bytes == count(data@, 4)
                && *final(pos) == 12,
        },
        *final(pos) <= data@.len(),
{
    let magic = read_i16(data, pos)?;
    let numbers_32bit = if magic == MAGIC_LEGACY {
        false
    } else if magic == MAGIC_32BIT {
        true
    } else {
        return Err(Error::InvalidMagicNum(magic));
    };
    let names_bytes = read_non_neg_i16(data, pos)?;
    let bool_count = read_non_neg_i16(data, pos)?;
    let numbers_count = read_non_neg_i16(data, pos)?;
    let string_count = read_non_neg_i16(data, pos)?;
    let string_table_bytes = read_non_neg_i16(data, pos)?;
    if names_bytes == 0 {
        return Err(Error::NoNames);
    }
    Ok(Header { numbers_32bit, names_bytes, bool_count, numbers_count, string_count, string_table_bytes })
}

impl TermInfo {
    /// `self` is what the compiled description `d` holds.
    pub open spec fn read_from(&self, d: Seq<u8>) -> bool {
        let texts = field_texts(names_block(d));
        let p = section_start(d);
        let n32 = wide_numbers(d);
        let aligned = count(d, 0) % 2 == 0;
        &&& self.name_text() == texts[0]
        &&& self.alias_texts() == aliases_of(texts)
        &&& self.description_text() == description_of(texts)
        &&& self.section().read_from(d, p, n32, count(d, 1), count(d, 2), count(d, 3), count(d, 4), aligned)
        &&& match ext_result(
            d,
            section_end(p, n32, count(d, 1), count(d, 2), count(d, 3), count(d, 4), aligned),
            n32,
            count(d, 4) % 2 == 1,
        ) {
            Ok((es, tab)) => self.extended_caps() == es
                && self.extended_table() == tab,
            Err(_) => self.extended_caps().len() == 0 && self.extended_table().len() == 0,
        }
    }

    /// Create terminfo database by parse byte-array directly
    pub fn parse(data: &[u8]) -> (r: Result<TermInfo, Error>)
        ensures
            match parse_error(data@) {
                Some(e) => r == Err::<TermInfo, Error>(e),
                None => r matches Ok(t) && t.read_from(data@),
            },
            r matches Ok(t) ==> t.name_text().len() > 0,
            r matches Ok(t) ==> values_inside(
                t.extended_caps(),
                t.extended_table().len() as int,
            ),
    {
        let mut pos: usize = 0;
        let h = read_header(data, &mut pos)?;
        let number_32bit = h.numbers_32bit;
        let names_bytes = h.names_bytes;
        let bool_count = h.bool_count;
        let numbers_count = h.numbers_count;
        let string_count = h.string_count;
        let string_table_bytes = h.string_table_bytes;

        let (name, aliases, description) = read_names(data, &mut pos, (names_bytes - 1) as usize)?;
        if read_byte(data, &mut pos)? != 0 {
            return Err(Error::NamesMissingNull);
        }

        if name.as_str().is_empty() {
            return Err(Error::NoNames);
        }

        let sec = TermInfoData::parse(
            data,
            &mut pos,
            number_32bit,
            bool_count,
            numbers_count,
            string_count,
            string_table_bytes,
            names_bytes % 2 == 0,
        )?;

        let extended = match try_parse_ext_capabilities(
            data,
            &mut pos,
            number_32bit,
            string_table_bytes % 2 == 1,
        ) {
            Ok(e) => e,
            Err(_) => Extended::empty(),
        };
        assert(entries_view(extended.capabilities@).len() == extended.capabilities@.len());

        Ok(TermInfo { name, description, aliases, data: sec, extended })
    }
}

} // verus!
