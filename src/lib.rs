//! Parser and query surface for compiled terminfo descriptions.
use vstd::prelude::*;
use vstd::string::StringSliceAdditionalSpecFns;
use vstd::utf8::{decode_utf8, encode_utf8_decode_utf8, valid_utf8};

use crate::text::{decimal, utf8_str, with_number};

pub use crate::capabilities::{BoolCapability, NumberCapability, StringCapability};

mod capabilities;
pub mod extended;
pub mod laws;
pub mod names;
pub mod parsing;
pub mod reader;
pub mod text;

verus! {

/// Why a description could not be read.
#[derive(Debug, Clone, Copy, PartialEq, Eq, Structural)]
pub enum Error {
    /// No description of that name was found.
    NotFound,
    /// The header's magic number is neither the legacy nor the 32-bit one.
    InvalidMagicNum(i16),
    /// The input ended before a part that the header announces.
    Io,
    /// The header announces an empty names block.
    NoNames,
    /// The names block is not followed by a NUL.
    NamesMissingNull,
    /// A string lacks its NUL terminator.
    StringMissingNull,
    /// A string offset lies outside its table.
    OutOfBoundString { off: u16, table_size: u16 },
    /// Bytes that must be text are not UTF-8.
    InvalidUtf8,
    /// A header count is below -1, or the extended header is inconsistent.
    InvalidNames,
}

impl Error {
    /// A sentence that says what went wrong.
    pub fn message(&self) -> (r: String)
        ensures
            *self == Error::NotFound ==> r@ == "Terminfo file not found"@,
            self matches Error::InvalidMagicNum(num) ==> r@ == "bad magic number "@ + decimal(
                num as int,
            ) + " in terminfo header"@,
            *self == Error::Io ==> r@ == "reading terminfo failed"@,
            *self == Error::NoNames ==> r@ == "no names exposed, need at least one"@,
            *self == Error::NamesMissingNull ==> r@ == "names table missing NUL terminator"@,
            *self == Error::StringMissingNull ==> r@ == "string table missing NUL terminator"@,
            self matches Error::OutOfBoundString { off, table_size } ==> r@
                == "string offset "@ + decimal(off as int) + " outside data table (size: "@
                + decimal(table_size as int) + ")"@,
            *self == Error::InvalidUtf8 ==> r@ == "terminfo string is invalid ASCII/UTF-8"@,
            *self == Error::InvalidNames ==> r@ == "no names exposed, need at least one"@,
    {
        match self {
            Error::NotFound => "Terminfo file not found".to_owned(),
            Error::InvalidMagicNum(num) => with_number(
                "bad magic number ",
                *num as i64,
                " in terminfo header",
            ),
            Error::Io => "reading terminfo failed".to_owned(),
            Error::NoNames => "no names exposed, need at least one".to_owned(),
            Error::NamesMissingNull => "names table missing NUL terminator".to_owned(),
            Error::StringMissingNull => "string table missing NUL terminator".to_owned(),
            Error::OutOfBoundString { off, table_size } => {
                let head = with_number("string offset ", *off as i64, " outside data table (size: ");
                with_number(head.as_str(), *table_size as i64, ")")
            },
            Error::InvalidUtf8 => "terminfo string is invalid ASCII/UTF-8".to_owned(),
            Error::InvalidNames => "no names exposed, need at least one".to_owned(),
        }
    }
}

/// A value of an extended capability, borrowed from the description.
#[derive(Debug, PartialEq, Eq, Clone, Copy)]
pub enum Value<'a> {
    True,
    RawString(&'a [u8]),
    Utf8String(&'a str),
    Number(i32),
}

/// How an extended capability is stored: strings as offsets into the
/// extended table.
#[derive(Debug, Clone, Copy, PartialEq, Eq, Structural)]
pub enum ValueStorage {
    True,
    String(u16),
    Number(i32),
}

/// One section of a compiled description: capabilities by ordinal.
#[derive(Debug, Default)]
pub struct TermInfoData {
    pub bools: Vec<bool>,
    pub numbers: Vec<i32>,
    /// Offsets into `str_table`; `0xFFFF` is absent, `0xFFFE` cancelled.
    pub strings: Vec<u16>,
    pub str_table: Vec<u8>,
}

/// Extended capabilities, keyed by name. A later entry for a name replaces
/// an earlier one.
#[derive(Debug, Default)]
pub struct Extended {
    pub capabilities: Vec<(String, ValueStorage)>,
    pub table: Vec<u8>,
}

/// Terminfo database information
#[derive(Debug, Default)]
pub struct TermInfo {
    pub name: String,
    pub description: String,
    pub aliases: Vec<String>,
    data: TermInfoData,
    extended: Extended,
}

/// The offset marks a capability that is absent (`0xFFFF`) or cancelled
/// (`0xFFFE`).
pub open spec fn is_absent(start: u16) -> bool {
    start == 0xffff || start == 0xfffe
}

/// Index of the first NUL at or after `i`, or the table's length if none.
pub open spec fn nul_end(t: Seq<u8>, i: int) -> int
    decreases t.len() - i,
{
    if i >= t.len() {
        t.len() as int
    } else if t[i] == 0 {
        i
    } else {
        nul_end(t, i + 1)
    }
}

pub(crate) proof fn lemma_nul_end_bounds(t: Seq<u8>, i: int)
    requires
        0 <= i <= t.len(),
    ensures
        i <= nul_end(t, i) <= t.len(),
    decreases t.len() - i,
{
    if i < t.len() && t[i] != 0 {
        lemma_nul_end_bounds(t, i + 1);
    }
}

/// The NUL-terminated string at `start + offset` of `t`: absent for the two
/// sentinels and for a position past the end of the table.
pub open spec fn resolve(t: Seq<u8>, start: u16, offset: u16) -> Option<Seq<u8>> {
    let s = start + offset;
    if is_absent(start) || s > t.len() {
        None
    } else {
        Some(t.subrange(s, nul_end(t, s)))
    }
}

/// The capability most recently recorded under `name`.
pub open spec fn lookup(entries: Seq<(Seq<char>, ValueStorage)>, name: Seq<char>) -> Option<
    ValueStorage,
>
    decreases entries.len(),
{
    if entries.len() == 0 {
        None
    } else if entries.last().0 == name {
        Some(entries.last().1)
    } else {
        lookup(entries.drop_last(), name)
    }
}

/// Names and values of recorded capabilities, as plain values.
pub open spec fn entries_view(caps: Seq<(String, ValueStorage)>) -> Seq<(Seq<char>, ValueStorage)> {
    caps.map_values(|e: (String, ValueStorage)| (e.0@, e.1))
}

/// gets a string from `table` starting at `start + offset`, up to the first
/// NUL or the end of the table.
pub fn get_str_with_offset(table: &[u8], start: u16, offset: u16) -> (r: Option<&[u8]>)
    ensures
        match resolve(table@, start, offset) {
            Some(b) => r matches Some(x) && x@ == b,
            None => r is None,
        },
{
    if start == 0xffff || start == 0xfffe {
        return None;
    }
    let s = start as usize + offset as usize;
    if s > table.len() {
        return None;
    }
    let mut e = s;
    while e < table.len() && table[e] != 0
        invariant
            s <= e <= table@.len(),
            nul_end(table@, s as int) == nul_end(table@, e as int),
        decreases table@.len() - e,
    {
        e = e + 1;
    }
    Some(&table[s..e])
}

impl Extended {
    /// The stored form of the capability most recently recorded under `name`.
    pub fn find(&self, name: &str) -> (r: Option<ValueStorage>)
        ensures
            r == lookup(entries_view(self.capabilities@), name@),
    {
        let key = name.to_owned();
        let mut i = self.capabilities.len();
        assert(self.capabilities@.subrange(0, i as int) =~= self.capabilities@);
        let ghost caps = self.capabilities@;
        while i > 0
            invariant
                i <= self.capabilities@.len(),
                caps == self.capabilities@,
                lookup(entries_view(caps), name@) == lookup(
                    entries_view(caps.subrange(0, i as int)),
                    name@,
                ),
                key@ == name@,
            decreases i,
        {
            assert(entries_view(caps.subrange(0, i as int)).drop_last() =~= entries_view(
                caps.subrange(0, i - 1),
            ));
            assert(entries_view(caps.subrange(0, i as int)).last() == (
                caps[i - 1].0@,
                caps[i - 1].1,
            ));
            if self.capabilities[i - 1].0 == key {
                assert(lookup(entries_view(caps.subrange(0, i as int)), name@) == Some(caps[i - 1].1));
                return Some(self.capabilities[i - 1].1);
            }
            i = i - 1;
        }
        assert(entries_view(caps.subrange(0, 0)) =~= Seq::<(Seq<char>, ValueStorage)>::empty());
        None
    }
}

impl TermInfoData {
    /// The string stored at `start` of this section's table.
    pub open spec fn string_at(&self, start: u16) -> Option<Seq<u8>> {
        resolve(self.str_table@, start, 0)
    }

    /// gets a string from the `str_table` starting at `start`.
    pub fn get_str_at(&self, start: u16) -> (r: Option<&[u8]>)
        ensures
            match self.string_at(start) {
                Some(b) => r matches Some(x) && x@ == b,
                None => r is None,
            },
    {
        get_str_with_offset(self.str_table.as_slice(), start, 0)
    }
}

impl TermInfo {
    /// The primary name, as text.
    pub open(crate) spec fn name_text(&self) -> Seq<char> {
        self.name@
    }

    /// The aliases, as text.
    pub open(crate) spec fn alias_texts(&self) -> Seq<Seq<char>> {
        self.aliases@.map_values(|s: String| s@)
    }

    /// The description, as text.
    pub open(crate) spec fn description_text(&self) -> Seq<char> {
        self.description@
    }

    /// The mandatory section.
    pub open(crate) spec fn section(&self) -> TermInfoData {
        self.data
    }

    /// The recorded extended capabilities, in order.
    pub open(crate) spec fn extended_caps(&self) -> Seq<(Seq<char>, ValueStorage)> {
        entries_view(self.extended.capabilities@)
    }

    /// The table that extended string values point into.
    pub open(crate) spec fn extended_table(&self) -> Seq<u8> {
        self.extended.table@
    }

    /// Bytes of a string capability: absent for a sentinel offset or an
    /// ordinal past the section.
    pub open spec fn raw_string(&self, cap: StringCapability) -> Option<Seq<u8>> {
        let i = cap as int;
        if i < self.section().strings@.len() {
            self.section().string_at(self.section().strings@[i])
        } else {
            None
        }
    }

    /// Text of a string capability: absent when its bytes are absent or are
    /// not UTF-8.
    pub open spec fn utf8_string(&self, cap: StringCapability) -> Option<Seq<char>> {
        match self.raw_string(cap) {
            Some(b) => if valid_utf8(b) {
                Some(decode_utf8(b))
            } else {
                None
            },
            None => None,
        }
    }

    /// A number capability: absent for the `0xFFFF` sentinel or an ordinal
    /// past the section.
    pub open spec fn number(&self, cap: NumberCapability) -> Option<i32> {
        let i = cap as int;
        if i < self.section().numbers@.len() && self.section().numbers@[i] != 0xffff {
            Some(self.section().numbers@[i])
        } else {
            None
        }
    }

    /// A bool capability: `false` for an ordinal past the section.
    pub open spec fn flag(&self, cap: BoolCapability) -> bool {
        let i = cap as int;
        i < self.section().bools@.len() && self.section().bools@[i]
    }

    /// The stored form of the extended capability `name`.
    pub open spec fn extended_storage(&self, name: Seq<char>) -> Option<ValueStorage> {
        lookup(self.extended_caps(), name)
    }

    /// Returns the string value for the capability
    pub fn raw_string_cap(&self, cap: StringCapability) -> (r: Option<&[u8]>)
        ensures
            match self.raw_string(cap) {
                Some(b) => r matches Some(x) && x@ == b,
                None => r is None,
            },
    {
        let i = cap as usize;
        if i >= self.data.strings.len() {
            return None;
        }
        let off = self.data.strings[i];
        self.data.get_str_at(off)
    }

    /// Returns the string value for the capability.
    /// If the capability is invalid UTF-8 (ASCII) or doesn't exists `None` is returned
    pub fn utf8_string_cap(&self, cap: StringCapability) -> (r: Option<&str>)
        ensures
            match self.utf8_string(cap) {
                Some(cs) => r matches Some(s) && s@ == cs,
                None => r is None,
            },
            r matches Some(s) ==> self.raw_string(cap) == Some(s.spec_bytes()),
    {
        let raw = self.raw_string_cap(cap)?;
        let r = utf8_str(raw);
        proof {
            if let Some(s) = r {
                encode_utf8_decode_utf8(s@);
            }
        }
        r
    }

    /// Returns the number value for the capability
    pub fn number_cap(&self, cap: NumberCapability) -> (r: Option<i32>)
        ensures
            r == self.number(cap),
            cap as int >= self.section().numbers@.len() ==> r is None,
            (cap as int) < self.section().numbers@.len() && self.section().numbers@[cap as int] == 0xffff
                ==> r is None,
    {
        let i = cap as usize;
        if i < self.data.numbers.len() && self.data.numbers[i] != 0xffff {
            Some(self.data.numbers[i])
        } else {
            None
        }
    }

    /// Returns the bool value for the capability, if the capability is not present,
    /// `false` is returned
    pub fn flag_cap(&self, cap: BoolCapability) -> (r: bool)
        ensures
            r == self.flag(cap),
            cap as int >= self.section().bools@.len() ==> !r,
    {
        let i = cap as usize;
        i < self.data.bools.len() && self.data.bools[i]
    }

    /// Looks up an extended capability by name; a string value comes back as
    /// text when it is UTF-8 and as bytes otherwise.
    pub fn extended_cap(&self, name: &str) -> (r: Option<Value>)
        ensures
            match self.extended_storage(name@) {
                None => r is None,
                Some(ValueStorage::True) => r matches Some(Value::True),
                Some(ValueStorage::Number(v)) => r matches Some(Value::Number(x)) && x == v,
                Some(ValueStorage::String(off)) => match resolve(self.extended_table(), off, 0) {
                    None => r is None,
                    Some(b) => if valid_utf8(b) {
                        r matches Some(Value::Utf8String(s)) && s@ == decode_utf8(b)
                            && s.spec_bytes() == b
                    } else {
                        r matches Some(Value::RawString(x)) && x@ == b
                    },
                },
            },
    {
        let res = match self.extended.find(name)? {
            ValueStorage::True => Value::True,
            ValueStorage::String(off) => {
                let raw = get_str_with_offset(self.extended.table.as_slice(), off, 0)?;
                match utf8_str(raw) {
                    Some(s) => {
                        proof {
                            encode_utf8_decode_utf8(s@);
                        }
                        Value::Utf8String(s)
                    },
                    None => Value::RawString(raw),
                }
            },
            ValueStorage::Number(val) => Value::Number(val),
        };
        Some(res)
    }
}

} // verus!
