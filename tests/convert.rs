use u2cp437::convert;
use u2cp437::table::{find_listed, TABLE, TABLE_LEN};

#[test]
fn symbol_glyphs_convert() {
    assert_eq!(convert('\u{263B}'), Some(0x02));
    assert_eq!(convert('\u{263A}'), Some(0x01));
    assert_eq!(convert('\u{25BC}'), Some(0x1F));
    assert_eq!(convert('\u{00C7}'), Some(0x80));
    assert_eq!(convert('\u{00A0}'), Some(0xFF));
}

#[test]
fn printable_ascii_is_identity() {
    for n in 0x20u32..=0x7E {
        let c = char::from_u32(n).unwrap();
        assert_eq!(convert(c), Some(n as u8));
    }
}

#[test]
fn null_converts_to_zero() {
    assert_eq!(convert('\u{0000}'), Some(0x00));
    assert_eq!(convert('\0'), Some(0x0));
}

#[test]
fn unlisted_controls_unmapped() {
    for n in (0x01u32..=0x1F).chain(std::iter::once(0x7F)) {
        let c = char::from_u32(n).unwrap();
        assert!(TABLE.iter().all(|&(k, _)| k != n));
        assert_eq!(convert(c), None);
    }
    assert_eq!(convert('\t'), None);
    assert_eq!(convert('\r'), None);
}

#[test]
fn c1_controls_unmapped() {
    for n in 0x80u32..0xA0 {
        assert_eq!(convert(char::from_u32(n).unwrap()), None);
    }
}

#[test]
fn micro_and_mu_share_a_byte() {
    let mu1 = convert('\u{00B5}');
    let mu2 = convert('\u{03BC}');
    assert_eq!(mu1, Some(0xE6));
    assert_eq!(mu1, mu2);
}

#[test]
fn thinking_face_unmapped() {
    assert_eq!(convert('\u{1F914}'), None);
}

#[test]
fn newline_unmapped() {
    assert_eq!(convert('\n'), None);
}

#[test]
fn house_and_delta_give_7f() {
    assert_eq!(convert('\u{2302}'), Some(0x7F));
    assert_eq!(convert('\u{0394}'), Some(0x7F));
}

#[test]
fn broken_bar_gives_pipe_byte() {
    assert_eq!(convert('\u{00A6}'), Some(0x7C));
    assert_eq!(convert('|'), Some(0x7C));
}

#[test]
fn alternatives_convert() {
    assert_eq!(convert('\u{03B2}'), Some(0xE1));
    assert_eq!(convert('\u{00DF}'), Some(0xE1));
    assert_eq!(convert('\u{03A0}'), Some(0xE3));
    assert_eq!(convert('\u{220F}'), Some(0xE3));
    assert_eq!(convert('\u{2211}'), Some(0xE4));
    assert_eq!(convert('\u{00F0}'), Some(0xEB));
    assert_eq!(convert('\u{2202}'), Some(0xEB));
    assert_eq!(convert('\u{03D5}'), Some(0xED));
    assert_eq!(convert('\u{1D719}'), Some(0xED));
    assert_eq!(convert('\u{2205}'), Some(0xED));
    assert_eq!(convert('\u{2300}'), Some(0xED));
    assert_eq!(convert('\u{00D8}'), Some(0xED));
    assert_eq!(convert('\u{00F8}'), Some(0xED));
    assert_eq!(convert('\u{2208}'), Some(0xEE));
    assert_eq!(convert('\u{20AC}'), Some(0xEE));
    assert_eq!(convert('\u{2713}'), Some(0xFB));
    assert_eq!(convert('\u{2007}'), Some(0xFF));
    assert_eq!(convert('\u{202F}'), Some(0xFF));
}

#[test]
fn no_normalization_before_lookup() {
    // U+00E9 is listed; "e" followed by a combining acute is not one scalar.
    assert_eq!(convert('\u{00E9}'), Some(0x82));
    assert_eq!(convert('\u{0301}'), None);
    assert_eq!(convert('e'), Some(b'e'));
}

#[test]
fn every_listed_scalar_gives_its_one_byte() {
    assert_eq!(TABLE.len(), TABLE_LEN);
    for (i, &(cp, byte)) in TABLE.iter().enumerate() {
        for &(other, _) in TABLE[i + 1..].iter() {
            assert_ne!(cp, other);
        }
        let c = char::from_u32(cp).unwrap();
        assert_eq!(convert(c), Some(byte));
        assert_eq!(find_listed(cp), Some(byte));
    }
}

#[test]
fn table_bytes_cover_upper_and_glyph_ranges() {
    for b in (0x01u8..=0x1F).chain(0x7F..=0xFF) {
        assert!(TABLE.iter().any(|&(_, v)| v == b));
    }
}

#[test]
fn unlisted_code_points_not_found() {
    assert_eq!(find_listed(0x41), None);
    assert_eq!(find_listed(0x9F), None);
    assert_eq!(find_listed(0x10FFFF), None);
    assert_eq!(find_listed(0x1F914), None);
}

#[test]
fn repeated_calls_agree() {
    for n in 0u32..0x3000 {
        if let Some(c) = char::from_u32(n) {
            let first = convert(c);
            assert_eq!(convert(c), first);
            assert_eq!(convert(c), first);
        }
    }
}

#[test]
fn largest_scalar_unmapped() {
    assert_eq!(convert('\u{10FFFF}'), None);
}
