//! The names block: `|`-separated fields holding the primary name, the
//! aliases and a description.
use vstd::prelude::*;
use vstd::utf8::{
    decode_utf8, is_char_boundary_iff_not_is_continuation_byte, length_of_first_scalar,
    pop_first_scalar, valid_first_scalar, valid_utf8, valid_utf8_concat, valid_utf8_split,
};

use crate::reader::read_str;
use crate::text::{trim, trimmed};
use crate::Error;

verus! {

/// The `|`-separated fields of `b`, given that the current field began at
/// `start` and the scan has reached `i`.
pub open spec fn split_bars(b: Seq<u8>, i: int, start: int) -> Seq<Seq<u8>>
    decreases b.len() - i,
{
    if i >= b.len() {
        seq![b.subrange(start, b.len() as int)]
    } else if b[i] == 0x7c {
        seq![b.subrange(start, i)] + split_bars(b, i + 1, i + 1)
    } else {
        split_bars(b, i + 1, start)
    }
}

/// The `|`-separated fields of a names block.
pub open spec fn name_fields(b: Seq<u8>) -> Seq<Seq<u8>> {
    split_bars(b, 0, 0)
}

/// A field as text, with surrounding whitespace trimmed.
pub open spec fn field_text(f: Seq<u8>) -> Seq<char> {
    trimmed(decode_utf8(f))
}

/// Every field of the block is UTF-8.
pub open spec fn fields_valid(b: Seq<u8>) -> bool {
    forall|i: int| 0 <= i < name_fields(b).len() ==> valid_utf8(#[trigger] name_fields(b)[i])
}

/// The trimmed text of each field.
pub open spec fn field_texts(b: Seq<u8>) -> Seq<Seq<char>> {
    name_fields(b).map_values(|f: Seq<u8>| field_text(f))
}

/// The views of a sequence of strings.
pub open spec fn texts_of(v: Seq<String>) -> Seq<Seq<char>> {
    v.map_values(|s: String| s@)
}

/// The aliases: the fields between the first and the last.
pub open spec fn aliases_of(texts: Seq<Seq<char>>) -> Seq<Seq<char>> {
    if texts.len() > 1 {
        texts.subrange(1, texts.len() - 1)
    } else {
        seq![]
    }
}

/// The description: the last field, when there are at least two.
pub open spec fn description_of(texts: Seq<Seq<char>>) -> Seq<char> {
    if texts.len() > 1 {
        texts.last()
    } else {
        seq![]
    }
}

proof fn lemma_split_nonempty(b: Seq<u8>, i: int, start: int)
    requires
        0 <= start <= i <= b.len(),
    ensures
        split_bars(b, i, start).len() >= 1,
    decreases b.len() - i,
{
    if i < b.len() {
        lemma_split_nonempty(b, i + 1, if b[i] == 0x7c {
            i + 1
        } else {
            start
        });
    }
}

/// A `|` splits UTF-8 text into two UTF-8 parts, and joins two into one.
proof fn lemma_valid_around_bar(a: Seq<u8>, c: Seq<u8>)
    ensures
        valid_utf8(a + seq![0x7cu8] + c) <==> valid_utf8(a) && valid_utf8(c),
{
    let r = seq![0x7cu8] + c;
    assert(valid_utf8(r) <==> valid_utf8(c)) by {
        assert(r.len() != 0);
        assert(valid_first_scalar(r));
        assert(length_of_first_scalar(r) == 1);
        assert(pop_first_scalar(r) =~= c);
    }
    let whole = a + seq![0x7cu8] + c;
    assert(whole =~= a + r);
    if valid_utf8(a) && valid_utf8(c) {
        valid_utf8_concat(a, r);
    }
    if valid_utf8(whole) {
        assert(whole[a.len() as int] == 0x7c);
        is_char_boundary_iff_not_is_continuation_byte(whole, a.len() as int);
        valid_utf8_split(whole, a.len() as int);
        assert(whole.subrange(0, a.len() as int) =~= a);
        assert(whole.subrange(a.len() as int, whole.len() as int) =~= r);
    }
}

/// The fields of `b[start..]` are each UTF-8 exactly when `b[start..]` is.
proof fn lemma_fields_valid_from(b: Seq<u8>, i: int, start: int)
    requires
        0 <= start <= i <= b.len(),
    ensures
        (forall|j: int|
            0 <= j < split_bars(b, i, start).len() ==> valid_utf8(
                #[trigger] split_bars(b, i, start)[j],
            )) <==> valid_utf8(b.subrange(start, b.len() as int)),
    decreases b.len() - i,
{
    let fs = split_bars(b, i, start);
    if i >= b.len() {
        assert(fs == seq![b.subrange(start, b.len() as int)]);
        assert(fs.len() == 1);
        assert(fs[0] == b.subrange(start, b.len() as int));
        if valid_utf8(b.subrange(start, b.len() as int)) {
            assert forall|j: int| 0 <= j < fs.len() implies valid_utf8(#[trigger] fs[j]) by {
                assert(j == 0);
            }
        } else {
            assert(!valid_utf8(fs[0]));
        }
    } else if b[i] == 0x7c {
        let a = b.subrange(start, i);
        let rest = split_bars(b, i + 1, i + 1);
        lemma_fields_valid_from(b, i + 1, i + 1);
        assert(fs == seq![a] + rest);
        assert(b.subrange(start, b.len() as int) =~= a + seq![0x7cu8] + b.subrange(
            i + 1,
            b.len() as int,
        ));
        lemma_valid_around_bar(a, b.subrange(i + 1, b.len() as int));
        if valid_utf8(b.subrange(start, b.len() as int)) {
            assert forall|j: int| 0 <= j < fs.len() implies valid_utf8(#[trigger] fs[j]) by {
                if j > 0 {
                    assert(fs[j] == rest[j - 1]);
                }
            }
        } else if !valid_utf8(a) {
            assert(!valid_utf8(fs[0]));
        } else {
            let j = choose|j: int| 0 <= j < rest.len() && !valid_utf8(#[trigger] rest[j]);
            assert(fs[j + 1] == rest[j]);
        }
    } else {
        assert(fs == split_bars(b, i + 1, start));
        lemma_fields_valid_from(b, i + 1, start);
    }
}

/// The fields of a names block are each UTF-8 exactly when the block is.
pub proof fn lemma_fields_valid_iff_block_valid(b: Seq<u8>)
    ensures
        fields_valid(b) <==> valid_utf8(b),
{
    lemma_fields_valid_from(b, 0, 0);
    assert(b.subrange(0, b.len() as int) =~= b);
    let fs = name_fields(b);
    assert(fs == split_bars(b, 0, 0));
    if valid_utf8(b) {
        assert forall|i: int| 0 <= i < fs.len() implies valid_utf8(#[trigger] fs[i]) by {
            assert(valid_utf8(split_bars(b, 0, 0)[i]));
        }
    }
    if fields_valid(b) {
        assert forall|j: int| 0 <= j < split_bars(b, 0, 0).len() implies valid_utf8(
            #[trigger] split_bars(b, 0, 0)[j],
        ) by {
            assert(valid_utf8(fs[j]));
        }
    }
}

/// Reads the field `data[a..b]` as trimmed text.
fn read_field(data: &[u8], a: usize, b: usize) -> (r: Result<String, Error>)
    requires
        a <= b <= data@.len(),
    ensures
        valid_utf8(data@.subrange(a as int, b as int)) ==> (r matches Ok(s) && s@ == field_text(
            data@.subrange(a as int, b as int),
        )),
        !valid_utf8(data@.subrange(a as int, b as int)) ==> r == Err::<String, Error>(
            Error::InvalidUtf8,
        ),
{
    let mut p = a;
    let s = read_str(data, &mut p, b - a)?;
    Ok(trim(s.as_str()).to_owned())
}

/// Reads a names block of `size` bytes at `*pos` and splits it into the
/// primary name, the aliases and the description.
pub fn read_names(data: &[u8], pos: &mut usize, size: usize) -> (r: Result<
    (String, Vec<String>, String),
    Error,
>)
    requires
        *old(pos) <= data@.len(),
    ensures
        *old(pos) + size > data@.len() ==> r == Err::<(String, Vec<String>, String), Error>(
            Error::Io,
        ),
        *old(pos) + size <= data@.len() ==> {
            let b = data@.subrange(*old(pos) as int, *old(pos) + size);
            &&& !valid_utf8(b) ==> r == Err::<(String, Vec<String>, String), Error>(
                Error::InvalidUtf8,
            )
            &&& valid_utf8(b) ==> (r matches Ok((n, a, desc)) && n@ == field_texts(b)[0]
                && texts_of(a@) == aliases_of(field_texts(b)) && desc@ == description_of(
                field_texts(b),
            ) && *final(pos) == *old(pos) + size)
        },
        *final(pos) <= data@.len(),
{
    if data.len() - *pos < size {
        return Err(Error::Io);
    }
    let base = *pos;
    let end = base + size;
    let ghost b = data@.subrange(base as int, end as int);
    proof {
        lemma_fields_valid_iff_block_valid(b);
    }
    let ghost mut done: Seq<Seq<u8>> = seq![];
    let mut texts: Vec<String> = Vec::new();
    let mut start = base;
    let mut i = base;
    while i < end
        invariant
            base <= start <= i <= end <= data@.len(),
            b == data@.subrange(base as int, end as int),
            fields_valid(b) <==> valid_utf8(b),
            *pos == base,
            base == *old(pos),
            end == base + size,
            done + split_bars(b, i - base, start - base) == name_fields(b),
            texts_of(texts@) == done.map_values(|f: Seq<u8>| field_text(f)),
            forall|k: int| 0 <= k < done.len() ==> valid_utf8(#[trigger] done[k]),
        decreases end - i,
    {
        if data[i] == 0x7c {
            let ghost f = data@.subrange(start as int, i as int);
            assert(b.subrange(start - base, i - base) =~= f);
            assert(name_fields(b)[done.len() as int] == f) by {
                assert(split_bars(b, i - base, start - base) == seq![f] + split_bars(
                    b,
                    i - base + 1,
                    i - base + 1,
                ));
                assert((done + split_bars(b, i - base, start - base))[done.len() as int] == f);
            }
            let t = match read_field(data, start, i) {
                Ok(t) => t,
                Err(e) => {
                    assert(!valid_utf8(name_fields(b)[done.len() as int]));
                    return Err(e);
                },
            };
            let ghost old_texts = texts@;
            texts.push(t);
            proof {
                assert(done + split_bars(b, i - base, start - base) =~= done.push(f)
                    + split_bars(b, i - base + 1, i - base + 1));
                assert(texts_of(texts@) =~= texts_of(old_texts).push(field_text(f)));
                assert(done.push(f).map_values(|f: Seq<u8>| field_text(f)) =~= done.map_values(
                    |f: Seq<u8>| field_text(f),
                ).push(field_text(f)));
                done = done.push(f);
            }
            start = i + 1;
        }
        i = i + 1;
    }
    let ghost f = data@.subrange(start as int, end as int);
    assert(b.subrange(start - base, b.len() as int) =~= f);
    assert(split_bars(b, i - base, start - base) == seq![f]);
    assert(done.push(f) =~= name_fields(b));
    let t = match read_field(data, start, end) {
        Ok(t) => t,
        Err(e) => {
            assert(!valid_utf8(name_fields(b)[done.len() as int]));
            return Err(e);
        },
    };
    let ghost old_texts = texts@;
    texts.push(t);
    proof {
        assert(texts_of(texts@) =~= texts_of(old_texts).push(field_text(f)));
        assert(done.push(f).map_values(|f: Seq<u8>| field_text(f)) =~= done.map_values(
            |f: Seq<u8>| field_text(f),
        ).push(field_text(f)));
        done = done.push(f);
        assert(texts_of(texts@) =~= field_texts(b));
    }
    let n = texts.len();
    assert(n >= 1) by {
        lemma_split_nonempty(b, 0, 0);
    }
    let name = texts[0].clone();
    let mut aliases: Vec<String> = Vec::new();
    let mut k: usize = 1;
    while k < n - 1
        invariant
            1 <= k <= if n > 1 {
                n - 1
            } else {
                1
            },
            n == texts@.len(),
            n >= 1,
            texts_of(texts@) == field_texts(b),
            texts_of(aliases@) == field_texts(b).subrange(1, k as int),
        decreases n - k,
    {
        let ghost old_aliases = aliases@;
        aliases.push(texts[k].clone());
        assert(texts_of(aliases@) =~= texts_of(old_aliases).push(texts@[k as int]@));
        assert(texts@[k as int]@ == field_texts(b)[k as int]);
        k = k + 1;
        assert(texts_of(aliases@) =~= field_texts(b).subrange(1, k as int));
    }
    let description = if n > 1 {
        texts[n - 1].clone()
    } else {
        String::new()
    };
    assert(field_texts(b).len() == n);
    assert(texts_of(aliases@) =~= aliases_of(field_texts(b)));
    *pos = end;
    Ok((name, aliases, description))
}

} // verus!
