use termini::{BoolCapability, Error, NumberCapability, StringCapability, TermInfo, Value};

const LEGACY: i32 = 0x011A;
const WIDE: i32 = 0x021E;

fn put16(v: &mut Vec<u8>, x: i32) {
    v.push((x & 0xff) as u8);
    v.push(((x >> 8) & 0xff) as u8);
}

fn put32(v: &mut Vec<u8>, x: i32) {
    put16(v, x & 0xffff);
    put16(v, (x >> 16) & 0xffff);
}

/// A compiled description with a mandatory section only.
fn compiled(
    magic: i32,
    names: &[u8],
    bools: &[u8],
    numbers: &[i32],
    offsets: &[u16],
    table: &[u8],
) -> Vec<u8> {
    let mut v = Vec::new();
    put16(&mut v, magic);
    put16(&mut v, names.len() as i32 + 1);
    put16(&mut v, bools.len() as i32);
    put16(&mut v, numbers.len() as i32);
    put16(&mut v, offsets.len() as i32);
    put16(&mut v, table.len() as i32);
    v.extend_from_slice(names);
    v.push(0);
    v.extend_from_slice(bools);
    if v.len() % 2 == 1 {
        v.push(0);
    }
    for &n in numbers {
        if magic == WIDE {
            put32(&mut v, n);
        } else {
            put16(&mut v, n);
        }
    }
    for &o in offsets {
        put16(&mut v, o as i32);
    }
    v.extend_from_slice(table);
    v
}

/// Appends an extended section: booleans, numbers and string values, each
/// with its name, laid out as the terminfo compiler does.
fn extend(
    mut v: Vec<u8>,
    wide: bool,
    bools: &[(&str, u8)],
    numbers: &[(&str, i32)],
    strings: &[(&str, &[u8])],
) -> Vec<u8> {
    if v.len() % 2 == 1 {
        v.push(0);
    }
    let mut table = Vec::new();
    let mut offsets = Vec::new();
    for (_, s) in strings {
        offsets.push(table.len() as i32);
        table.extend_from_slice(s);
        table.push(0);
    }
    let names_start = table.len();
    let all_names = bools
        .iter()
        .map(|b| b.0)
        .chain(numbers.iter().map(|n| n.0))
        .chain(strings.iter().map(|s| s.0));
    for name in all_names {
        offsets.push((table.len() - names_start) as i32);
        table.extend_from_slice(name.as_bytes());
        table.push(0);
    }
    put16(&mut v, bools.len() as i32);
    put16(&mut v, numbers.len() as i32);
    put16(&mut v, strings.len() as i32);
    put16(&mut v, offsets.len() as i32);
    put16(&mut v, table.len() as i32);
    for (_, b) in bools {
        v.push(*b);
    }
    if bools.len() % 2 == 1 {
        v.push(0);
    }
    for (_, n) in numbers {
        if wide {
            put32(&mut v, *n);
        } else {
            put16(&mut v, *n);
        }
    }
    for o in offsets {
        put16(&mut v, o);
    }
    v.extend_from_slice(&table);
    v
}

fn st_like() -> Vec<u8> {
    compiled(
        LEGACY,
        b"st-256color|stterm-256color|simpleterm with 256 colors",
        &[0, 1],
        &[80, 8, 24],
        &[0xffff, 0, 2, 0xfffe],
        b"\x07\0\r\0",
    )
}

fn cancer_like() -> Vec<u8> {
    let base = compiled(
        WIDE,
        b"cancer-256color|terminal cancer with 256 colors",
        &[1],
        &[256],
        &[0],
        b"\x07\0\0",
    );
    extend(
        base,
        true,
        &[("AX", 1), ("XF", 0), ("Ts", 1)],
        &[("U8", 1), ("Gone", 0xffff)],
        &[("Se", b"\x1b[2 q"), ("Ss", b"\x1b[%p1%d q"), ("Bad", b"\xfe\xff")],
    )
}

#[test]
fn crash() {
    let data: &[u8] = &[
        26, 1, 29, 0, 1, 1, 0, 0, 0, 1, 43, 6, 12, 12, 244, 131, 162, 131, 124, 35, 120, 124, 0, 0,
        0, 27, 0, 0, 0, 12, 27, 12, 0, 0, 0, 0, 0, 12, 27, 12,
    ];
    let _ = TermInfo::parse(data);
}

#[test]
fn crash_input_is_rejected() {
    let data: &[u8] = &[
        26, 1, 29, 0, 1, 1, 0, 0, 0, 1, 43, 6, 12, 12, 244, 131, 162, 131, 124, 35, 120, 124, 0, 0,
        0, 27, 0, 0, 0, 12, 27, 12, 0, 0, 0, 0, 0, 12, 27, 12,
    ];
    assert!(matches!(TermInfo::parse(data), Err(Error::Io)));
}

#[test]
fn name() {
    let db = TermInfo::parse(&cancer_like()).unwrap();
    assert_eq!("cancer-256color", db.name)
}

#[test]
fn aliases() {
    let db = TermInfo::parse(&st_like()).unwrap();
    assert_eq!(vec!["stterm-256color"], db.aliases)
}

#[test]
fn description() {
    let db = TermInfo::parse(&cancer_like()).unwrap();
    assert_eq!("terminal cancer with 256 colors", db.description)
}

#[test]
fn names_split_into_name_aliases_description() {
    let db = TermInfo::parse(&st_like()).unwrap();
    assert_eq!("st-256color", db.name);
    assert_eq!(vec!["stterm-256color"], db.aliases);
    assert_eq!("simpleterm with 256 colors", db.description);
}

#[test]
fn names_fields_are_trimmed() {
    let data = compiled(LEGACY, b" a | b |  c d ", &[], &[], &[], b"");
    let db = TermInfo::parse(&data).unwrap();
    assert_eq!("a", db.name);
    assert_eq!(vec!["b"], db.aliases);
    assert_eq!("c d", db.description);
}

#[test]
fn single_name_has_no_description() {
    let data = compiled(LEGACY, b"dumb", &[], &[], &[], b"");
    let db = TermInfo::parse(&data).unwrap();
    assert_eq!("dumb", db.name);
    assert!(db.aliases.is_empty());
    assert_eq!("", db.description);
}

#[test]
fn standard() {
    let db = TermInfo::parse(&st_like()).unwrap();
    assert_eq!(Some(80), db.number_cap(NumberCapability::Columns));
    assert!(db.flag_cap(BoolCapability::AutoRightMargin));
    assert!(!db.flag_cap(BoolCapability::AutoLeftMargin));
    assert_eq!(
        "\r",
        db.utf8_string_cap(StringCapability::CarriageReturn)
            .unwrap()
    );
}

#[test]
fn standard_capabilities() {
    let db = TermInfo::parse(&st_like()).unwrap();
    assert_eq!(Some(24), db.number_cap(NumberCapability::Lines));
    assert_eq!(Some(&b"\x07"[..]), db.raw_string_cap(StringCapability::Bell));
}

#[test]
fn absent_and_cancelled_strings() {
    let db = TermInfo::parse(&st_like()).unwrap();
    assert_eq!(None, db.raw_string_cap(StringCapability::BackTab));
    assert_eq!(None, db.raw_string_cap(StringCapability::ChangeScrollRegion));
    assert_eq!(None, db.utf8_string_cap(StringCapability::ChangeScrollRegion));
}

#[test]
fn ordinals_past_the_section() {
    let db = TermInfo::parse(&st_like()).unwrap();
    assert!(!db.flag_cap(BoolCapability::NoEscCtlc));
    assert_eq!(None, db.number_cap(NumberCapability::LinesOfMemory));
    assert_eq!(None, db.raw_string_cap(StringCapability::ClearAllTabs));
}

#[test]
fn only_byte_one_is_true() {
    let data = compiled(LEGACY, b"x", &[2, 1, 0], &[], &[], b"");
    let db = TermInfo::parse(&data).unwrap();
    assert!(!db.flag_cap(BoolCapability::AutoLeftMargin));
    assert!(db.flag_cap(BoolCapability::AutoRightMargin));
    assert!(!db.flag_cap(BoolCapability::NoEscCtlc));
}

#[test]
fn bigger_numbers() {
    let data = compiled(WIDE, b"xterm-256color|xterm with 256 colors", &[], &[80, 0x10000], &[], b"");
    let db = TermInfo::parse(&data).unwrap();
    assert_eq!("xterm-256color", db.name)
}

#[test]
fn wide_numbers_above_i16() {
    let data = compiled(WIDE, b"xterm-256color|xterm with 256 colors", &[], &[80, 0xffff, 0x10000], &[], b"");
    let db = TermInfo::parse(&data).unwrap();
    assert_eq!("xterm-256color", db.name);
    assert_eq!(Some(80), db.number_cap(NumberCapability::Columns));
    assert_eq!(None, db.number_cap(NumberCapability::InitTabs));
    assert_eq!(Some(65536), db.number_cap(NumberCapability::Lines));
}

#[test]
fn legacy_numbers_are_sign_extended() {
    let data = compiled(LEGACY, b"x", &[], &[-2, 0x7fff], &[], b"");
    let db = TermInfo::parse(&data).unwrap();
    assert_eq!(Some(-2), db.number_cap(NumberCapability::Columns));
    assert_eq!(Some(32767), db.number_cap(NumberCapability::InitTabs));
}

#[test]
fn string_without_nul_runs_to_table_end() {
    let data = compiled(LEGACY, b"x", &[], &[], &[0, 2], b"ab\xffz");
    let db = TermInfo::parse(&data).unwrap();
    assert_eq!(Some(&b"ab\xffz"[..]), db.raw_string_cap(StringCapability::BackTab));
    assert_eq!(Some(&b"\xffz"[..]), db.raw_string_cap(StringCapability::Bell));
    assert_eq!(None, db.utf8_string_cap(StringCapability::Bell));
}

#[test]
fn utf8_string_agrees_with_raw_string() {
    let db = TermInfo::parse(&st_like()).unwrap();
    let s = db.utf8_string_cap(StringCapability::CarriageReturn).unwrap();
    assert_eq!(Some(s.as_bytes()), db.raw_string_cap(StringCapability::CarriageReturn));
}

#[test]
fn extended() {
    let db = TermInfo::parse(&cancer_like()).unwrap();
    assert_eq!(Some(Value::True), db.extended_cap("Ts"));
    assert_eq!(Some(Value::True), db.extended_cap("AX"));
    assert_eq!(Some(Value::Utf8String("\u{1b}[2 q")), db.extended_cap("Se"));
}

#[test]
fn extended_capabilities() {
    let db = TermInfo::parse(&cancer_like()).unwrap();
    assert_eq!(None, db.extended_cap("XF"));
    assert_eq!(Some(Value::Number(1)), db.extended_cap("U8"));
    assert_eq!(None, db.extended_cap("Gone"));
    assert_eq!(Some(Value::Utf8String("\u{1b}[2 q")), db.extended_cap("Se"));
    assert_eq!(Some(Value::Utf8String("\u{1b}[%p1%d q")), db.extended_cap("Ss"));
    assert_eq!(Some(Value::RawString(&b"\xfe\xff"[..])), db.extended_cap("Bad"));
    assert_eq!(None, db.extended_cap("Missing"));
}

#[test]
fn alacritty_extended_underculr() {
    let base = compiled(WIDE, b"alacritty|alacritty terminal emulator", &[0, 1], &[], &[], b"");
    let data = extend(base, true, &[("AX", 1)], &[], &[("Smulx", b"\x1b[4:%p1%dm")]);
    let db = TermInfo::parse(&data).unwrap();
    assert_eq!(Some(Value::Utf8String("\u{1b}[4:%p1%dm")), db.extended_cap("Smulx"));
}

#[test]
fn kitty_extended_underculr() {
    let base = compiled(LEGACY, b"xterm-kitty|KovIdTTY", &[1], &[80], &[], b"");
    let data = extend(base, false, &[("Su", 1)], &[], &[("Setulc", b"\x1b[58:2:%p1%dm")]);
    let db = TermInfo::parse(&data).unwrap();
    assert_eq!(Some(Value::True), db.extended_cap("Su"));
}

#[test]
fn extended_section_odd_table_is_padded() {
    let base = compiled(LEGACY, b"x", &[], &[], &[0], b"abc");
    let data = extend(base, false, &[("Tc", 1)], &[], &[("Ms", b"m")]);
    let db = TermInfo::parse(&data).unwrap();
    assert_eq!(Some(Value::True), db.extended_cap("Tc"));
    assert_eq!(Some(Value::Utf8String("m")), db.extended_cap("Ms"));
}

#[test]
fn later_extended_entry_replaces_earlier() {
    let base = compiled(LEGACY, b"x", &[], &[], &[], b"");
    let data = extend(base, false, &[("Dup", 1)], &[("Dup", 7)], &[("S", b"s")]);
    let db = TermInfo::parse(&data).unwrap();
    assert_eq!(Some(Value::Number(7)), db.extended_cap("Dup"));
}

#[test]
fn broken_extended_section_is_dropped() {
    let base = compiled(LEGACY, b"x", &[1], &[], &[], b"");
    let data = extend(base.clone(), false, &[("T\u{e9}", 1)], &[], &[("S", b"s")]);
    let mut bad = data.clone();
    let name_at = bad.len() - "T\u{e9}".len() - 2;
    bad[name_at + 1] = 0xc3;
    bad[name_at + 2] = 0x28;
    let db = TermInfo::parse(&bad).unwrap();
    assert!(db.flag_cap(BoolCapability::AutoLeftMargin));
    assert_eq!(None, db.extended_cap("S"));

    let mut truncated = data;
    truncated.pop();
    let db = TermInfo::parse(&truncated).unwrap();
    assert_eq!(None, db.extended_cap("S"));
}

#[test]
fn stream_ending_after_mandatory_section() {
    let db = TermInfo::parse(&st_like()).unwrap();
    assert_eq!(None, db.extended_cap("Ts"));
}

#[test]
fn empty_primary_name_is_rejected() {
    let data = compiled(LEGACY, b"", &[], &[], &[], b"");
    assert_eq!(Some(Error::NoNames), TermInfo::parse(&data).err());
    let data = compiled(LEGACY, b" |x", &[], &[], &[], b"");
    assert_eq!(Some(Error::NoNames), TermInfo::parse(&data).err());
}

#[test]
fn missing_nul_is_reported_before_empty_name() {
    let data: &[u8] = &[0x1a, 0x01, 0x01, 0, 0, 0, 0, 0, 0, 0, 0, 0, 0x01];
    assert_eq!(Some(Error::NamesMissingNull), TermInfo::parse(data).err());
}

#[test]
fn bad_magic() {
    let mut data = st_like();
    data[0] = 0x1b;
    assert_eq!(Some(Error::InvalidMagicNum(0x011b)), TermInfo::parse(&data).err());
}

#[test]
fn empty_and_short_input() {
    assert_eq!(Some(Error::Io), TermInfo::parse(&[]).err());
    assert_eq!(Some(Error::Io), TermInfo::parse(&[0x1a]).err());
    assert_eq!(Some(Error::Io), TermInfo::parse(&[0x1a, 0x01, 5, 0]).err());
}

#[test]
fn no_names() {
    let mut data = st_like();
    data[2] = 0;
    data[3] = 0;
    assert_eq!(Some(Error::NoNames), TermInfo::parse(&data).err());
}

#[test]
fn negative_count_other_than_minus_one() {
    let mut data = st_like();
    data[4] = 0xfe;
    data[5] = 0xff;
    assert_eq!(Some(Error::InvalidNames), TermInfo::parse(&data).err());
}

#[test]
fn minus_one_count_is_empty() {
    let mut data = compiled(LEGACY, b"x", &[], &[], &[], b"");
    data[4] = 0xff;
    data[5] = 0xff;
    let db = TermInfo::parse(&data).unwrap();
    assert!(!db.flag_cap(BoolCapability::AutoLeftMargin));
}

#[test]
fn names_missing_nul() {
    let mut data = st_like();
    let nul = 12 + "st-256color|stterm-256color|simpleterm with 256 colors".len();
    data[nul] = b'!';
    assert_eq!(Some(Error::NamesMissingNull), TermInfo::parse(&data).err());
}

#[test]
fn names_not_utf8() {
    let data = compiled(LEGACY, b"ok|\xff\xfe", &[], &[], &[], b"");
    assert_eq!(Some(Error::InvalidUtf8), TermInfo::parse(&data).err());
}

#[test]
fn offset_outside_table() {
    let data = compiled(LEGACY, b"x", &[], &[], &[0, 4], b"abcd");
    assert_eq!(
        Some(Error::OutOfBoundString { off: 4, table_size: 4 }),
        TermInfo::parse(&data).err()
    );
}

#[test]
fn truncated_table() {
    let mut data = st_like();
    data.pop();
    assert_eq!(Some(Error::Io), TermInfo::parse(&data).err());
}

#[test]
fn repeated_parse_agrees() {
    let a = TermInfo::parse(&st_like()).unwrap();
    let b = TermInfo::parse(&st_like()).unwrap();
    assert_eq!(a.name, b.name);
    assert_eq!(a.aliases, b.aliases);
    assert_eq!(a.description, b.description);
    assert_eq!(
        a.raw_string_cap(StringCapability::Bell),
        b.raw_string_cap(StringCapability::Bell)
    );
    assert_eq!(a.number_cap(NumberCapability::Columns), b.number_cap(NumberCapability::Columns));
}

#[test]
fn bit_flips_never_panic() {
    let base = compiled(WIDE, b"cancer-256color|terminal cancer", &[1], &[256], &[0], b"\x07\0\0");
    let data = extend(base, true, &[("AX", 1), ("Ts", 1)], &[("U8", 1)], &[("Se", b"\x1b[2 q")]);
    for i in 0..data.len() {
        for bit in 0..8 {
            let mut d = data.clone();
            d[i] ^= 1 << bit;
            if let Ok(db) = TermInfo::parse(&d) {
                let _ = db.extended_cap("Se");
                let _ = db.extended_cap("AX");
                let _ = db.raw_string_cap(StringCapability::BackTab);
            }
        }
        let _ = TermInfo::parse(&data[..i]);
    }
}

#[test]
fn extended_name_offsets_are_not_values() {
    let mut data = compiled(LEGACY, b"x", &[], &[], &[], b"");
    for count in [0, 0, 0, 1, 6] {
        put16(&mut data, count);
    }
    put16(&mut data, 4);
    data.extend_from_slice(b"abcd\0\0");
    let db = TermInfo::parse(&data).unwrap();
    assert_eq!(None, db.extended_cap(""));
    assert_eq!(None, db.extended_cap("d"));
}

#[test]
fn error_messages() {
    assert_eq!(
        "bad magic number -5 in terminfo header",
        Error::InvalidMagicNum(-5).message()
    );
    assert_eq!(
        "string offset 4 outside data table (size: 4)",
        Error::OutOfBoundString { off: 4, table_size: 4 }.message()
    );
    assert_eq!("no names exposed, need at least one", Error::NoNames.message());
}

#[test]
fn unicode_whitespace_is_trimmed() {
    let data = compiled(LEGACY, "\u{3000}name\u{a0}|desc\t".as_bytes(), &[], &[], &[], b"");
    let db = TermInfo::parse(&data).unwrap();
    assert_eq!("name", db.name);
    assert_eq!("desc", db.description);
}
