//! The explicit part of the mapping: every Unicode scalar that has a CP437
//! byte other than by the ASCII rule, kept as one table sorted by code point.
use vstd::prelude::*;

verus! {

/// Number of entries in [`TABLE`].
pub const TABLE_LEN: usize = 180;

/// Pairs of (code point, CP437 byte), in strictly increasing order of code
/// point. Each CP437 byte 0x01..=0x1F and 0x7F..=0xFF has one canonical
/// scalar here; entries marked "alternative" are further scalars for a byte
/// that a canonical entry or the ASCII rule already gives (several scalars
/// may give the same byte, but no scalar gives two).
pub const TABLE: [(u32, u8); 180] = [
    (0x000A0, 0xFF), // NO-BREAK SPACE
    (0x000A1, 0xAD), // INVERTED EXCLAMATION MARK
    (0x000A2, 0x9B), // CENT SIGN
    (0x000A3, 0x9C), // POUND SIGN
    (0x000A5, 0x9D), // YEN SIGN
    (0x000A6, 0x7C), // BROKEN BAR (alternative)
    (0x000A7, 0x15), // SECTION SIGN
    (0x000AA, 0xA6), // FEMININE ORDINAL INDICATOR
    (0x000AB, 0xAE), // LEFT-POINTING DOUBLE ANGLE QUOTATION MARK
    (0x000AC, 0xAA), // NOT SIGN
    (0x000B0, 0xF8), // DEGREE SIGN
    (0x000B1, 0xF1), // PLUS-MINUS SIGN
    (0x000B2, 0xFD), // SUPERSCRIPT TWO
    (0x000B5, 0xE6), // MICRO SIGN
    (0x000B6, 0x14), // PILCROW SIGN
    (0x000B7, 0xFA), // MIDDLE DOT
    (0x000BA, 0xA7), // MASCULINE ORDINAL INDICATOR
    (0x000BB, 0xAF), // RIGHT-POINTING DOUBLE ANGLE QUOTATION MARK
    (0x000BC, 0xAC), // VULGAR FRACTION ONE QUARTER
    (0x000BD, 0xAB), // VULGAR FRACTION ONE HALF
    (0x000BF, 0xA8), // INVERTED QUESTION MARK
    (0x000C4, 0x8E), // LATIN CAPITAL LETTER A WITH DIAERESIS
    (0x000C5, 0x8F), // LATIN CAPITAL LETTER A WITH RING ABOVE
    (0x000C6, 0x92), // LATIN CAPITAL LETTER AE
    (0x000C7, 0x80), // LATIN CAPITAL LETTER C WITH CEDILLA
    (0x000C9, 0x90), // LATIN CAPITAL LETTER E WITH ACUTE
    (0x000D1, 0xA5), // LATIN CAPITAL LETTER N WITH TILDE
    (0x000D6, 0x99), // LATIN CAPITAL LETTER O WITH DIAERESIS
    (0x000D8, 0xED), // LATIN CAPITAL LETTER O WITH STROKE (alternative)
    (0x000DC, 0x9A), // LATIN CAPITAL LETTER U WITH DIAERESIS
    (0x000DF, 0xE1), // LATIN SMALL LETTER SHARP S
    (0x000E0, 0x85), // LATIN SMALL LETTER A WITH GRAVE
    (0x000E1, 0xA0), // LATIN SMALL LETTER A WITH ACUTE
    (0x000E2, 0x83), // LATIN SMALL LETTER A WITH CIRCUMFLEX
    (0x000E4, 0x84), // LATIN SMALL LETTER A WITH DIAERESIS
    (0x000E5, 0x86), // LATIN SMALL LETTER A WITH RING ABOVE
    (0x000E6, 0x91), // LATIN SMALL LETTER AE
    (0x000E7, 0x87), // LATIN SMALL LETTER C WITH CEDILLA
    (0x000E8, 0x8A), // LATIN SMALL LETTER E WITH GRAVE
    (0x000E9, 0x82), // LATIN SMALL LETTER E WITH ACUTE
    (0x000EA, 0x88), // LATIN SMALL LETTER E WITH CIRCUMFLEX
    (0x000EB, 0x89), // LATIN SMALL LETTER E WITH DIAERESIS
    (0x000EC, 0x8D), // LATIN SMALL LETTER I WITH GRAVE
    (0x000ED, 0xA1), // LATIN SMALL LETTER I WITH ACUTE
    (0x000EE, 0x8C), // LATIN SMALL LETTER I WITH CIRCUMFLEX
    (0x000EF, 0x8B), // LATIN SMALL LETTER I WITH DIAERESIS
    (0x000F0, 0xEB), // LATIN SMALL LETTER ETH (alternative)
    (0x000F1, 0xA4), // LATIN SMALL LETTER N WITH TILDE
    (0x000F2, 0x95), // LATIN SMALL LETTER O WITH GRAVE
    (0x000F3, 0xA2), // LATIN SMALL LETTER O WITH ACUTE
    (0x000F4, 0x93), // LATIN SMALL LETTER O WITH CIRCUMFLEX
    (0x000F6, 0x94), // LATIN SMALL LETTER O WITH DIAERESIS
    (0x000F7, 0xF6), // DIVISION SIGN
    (0x000F8, 0xED), // LATIN SMALL LETTER O WITH STROKE (alternative)
    (0x000F9, 0x97), // LATIN SMALL LETTER U WITH GRAVE
    (0x000FA, 0xA3), // LATIN SMALL LETTER U WITH ACUTE
    (0x000FB, 0x96), // LATIN SMALL LETTER U WITH CIRCUMFLEX
    (0x000FC, 0x81), // LATIN SMALL LETTER U WITH DIAERESIS
    (0x000FF, 0x98), // LATIN SMALL LETTER Y WITH DIAERESIS
    (0x00192, 0x9F), // LATIN SMALL LETTER F WITH HOOK
    (0x00393, 0xE2), // GREEK CAPITAL LETTER GAMMA
    (0x00394, 0x7F), // GREEK CAPITAL LETTER DELTA (alternative)
    (0x00398, 0xE9), // GREEK CAPITAL LETTER THETA
    (0x003A0, 0xE3), // GREEK CAPITAL LETTER PI (alternative)
    (0x003A3, 0xE4), // GREEK CAPITAL LETTER SIGMA
    (0x003A6, 0xE8), // GREEK CAPITAL LETTER PHI
    (0x003A9, 0xEA), // GREEK CAPITAL LETTER OMEGA
    (0x003B1, 0xE0), // GREEK SMALL LETTER ALPHA
    (0x003B2, 0xE1), // GREEK SMALL LETTER BETA (alternative)
    (0x003B4, 0xEB), // GREEK SMALL LETTER DELTA
    (0x003B5, 0xEE), // GREEK SMALL LETTER EPSILON
    (0x003BC, 0xE6), // GREEK SMALL LETTER MU (alternative)
    (0x003C0, 0xE3), // GREEK SMALL LETTER PI
    (0x003C3, 0xE5), // GREEK SMALL LETTER SIGMA
    (0x003C4, 0xE7), // GREEK SMALL LETTER TAU
    (0x003C6, 0xED), // GREEK SMALL LETTER PHI
    (0x003D5, 0xED), // GREEK PHI SYMBOL (alternative)
    (0x02007, 0xFF), // FIGURE SPACE (alternative)
    (0x02022, 0x07), // BULLET
    (0x0202F, 0xFF), // NARROW NO-BREAK SPACE (alternative)
    (0x0203C, 0x13), // DOUBLE EXCLAMATION MARK
    (0x0207F, 0xFC), // SUPERSCRIPT LATIN SMALL LETTER N
    (0x020A7, 0x9E), // PESETA SIGN
    (0x020AC, 0xEE), // EURO SIGN (alternative)
    (0x02190, 0x1B), // LEFTWARDS ARROW
    (0x02191, 0x18), // UPWARDS ARROW
    (0x02192, 0x1A), // RIGHTWARDS ARROW
    (0x02193, 0x19), // DOWNWARDS ARROW
    (0x02194, 0x1D), // LEFT RIGHT ARROW
    (0x02195, 0x12), // UP DOWN ARROW
    (0x021A8, 0x17), // UP DOWN ARROW WITH BASE
    (0x02202, 0xEB), // PARTIAL DIFFERENTIAL (alternative)
    (0x02205, 0xED), // EMPTY SET (alternative)
    (0x02208, 0xEE), // ELEMENT OF (alternative)
    (0x0220F, 0xE3), // N-ARY PRODUCT (alternative)
    (0x02211, 0xE4), // N-ARY SUMMATION (alternative)
    (0x02219, 0xF9), // BULLET OPERATOR
    (0x0221A, 0xFB), // SQUARE ROOT
    (0x0221E, 0xEC), // INFINITY
    (0x0221F, 0x1C), // RIGHT ANGLE
    (0x02229, 0xEF), // INTERSECTION
    (0x02248, 0xF7), // ALMOST EQUAL TO
    (0x02261, 0xF0), // IDENTICAL TO
    (0x02264, 0xF3), // LESS-THAN OR EQUAL TO
    (0x02265, 0xF2), // GREATER-THAN OR EQUAL TO
    (0x02300, 0xED), // DIAMETER SIGN (alternative)
    (0x02302, 0x7F), // HOUSE
    (0x02310, 0xA9), // REVERSED NOT SIGN
    (0x02320, 0xF4), // TOP HALF INTEGRAL
    (0x02321, 0xF5), // BOTTOM HALF INTEGRAL
    (0x02500, 0xC4), // BOX DRAWINGS LIGHT HORIZONTAL
    (0x02502, 0xB3), // BOX DRAWINGS LIGHT VERTICAL
    (0x0250C, 0xDA), // BOX DRAWINGS LIGHT DOWN AND RIGHT
    (0x02510, 0xBF), // BOX DRAWINGS LIGHT DOWN AND LEFT
    (0x02514, 0xC0), // BOX DRAWINGS LIGHT UP AND RIGHT
    (0x02518, 0xD9), // BOX DRAWINGS LIGHT UP AND LEFT
    (0x0251C, 0xC3), // BOX DRAWINGS LIGHT VERTICAL AND RIGHT
    (0x02524, 0xB4), // BOX DRAWINGS LIGHT VERTICAL AND LEFT
    (0x0252C, 0xC2), // BOX DRAWINGS LIGHT DOWN AND HORIZONTAL
    (0x02534, 0xC1), // BOX DRAWINGS LIGHT UP AND HORIZONTAL
    (0x0253C, 0xC5), // BOX DRAWINGS LIGHT VERTICAL AND HORIZONTAL
    (0x02550, 0xCD), // BOX DRAWINGS DOUBLE HORIZONTAL
    (0x02551, 0xBA), // BOX DRAWINGS DOUBLE VERTICAL
    (0x02552, 0xD5), // BOX DRAWINGS DOWN SINGLE AND RIGHT DOUBLE
    (0x02553, 0xD6), // BOX DRAWINGS DOWN DOUBLE AND RIGHT SINGLE
    (0x02554, 0xC9), // BOX DRAWINGS DOUBLE DOWN AND RIGHT
    (0x02555, 0xB8), // BOX DRAWINGS DOWN SINGLE AND LEFT DOUBLE
    (0x02556, 0xB7), // BOX DRAWINGS DOWN DOUBLE AND LEFT SINGLE
    (0x02557, 0xBB), // BOX DRAWINGS DOUBLE DOWN AND LEFT
    (0x02558, 0xD4), // BOX DRAWINGS UP SINGLE AND RIGHT DOUBLE
    (0x02559, 0xD3), // BOX DRAWINGS UP DOUBLE AND RIGHT SINGLE
    (0x0255A, 0xC8), // BOX DRAWINGS DOUBLE UP AND RIGHT
    (0x0255B, 0xBE), // BOX DRAWINGS UP SINGLE AND LEFT DOUBLE
    (0x0255C, 0xBD), // BOX DRAWINGS UP DOUBLE AND LEFT SINGLE
    (0x0255D, 0xBC), // BOX DRAWINGS DOUBLE UP AND LEFT
    (0x0255E, 0xC6), // BOX DRAWINGS VERTICAL SINGLE AND RIGHT DOUBLE
    (0x0255F, 0xC7), // BOX DRAWINGS VERTICAL DOUBLE AND RIGHT SINGLE
    (0x02560, 0xCC), // BOX DRAWINGS DOUBLE VERTICAL AND RIGHT
    (0x02561, 0xB5), // BOX DRAWINGS VERTICAL SINGLE AND LEFT DOUBLE
    (0x02562, 0xB6), // BOX DRAWINGS VERTICAL DOUBLE AND LEFT SINGLE
    (0x02563, 0xB9), // BOX DRAWINGS DOUBLE VERTICAL AND LEFT
    (0x02564, 0xD1), // BOX DRAWINGS DOWN SINGLE AND HORIZONTAL DOUBLE
    (0x02565, 0xD2), // BOX DRAWINGS DOWN DOUBLE AND HORIZONTAL SINGLE
    (0x02566, 0xCB), // BOX DRAWINGS DOUBLE DOWN AND HORIZONTAL
    (0x02567, 0xCF), // BOX DRAWINGS UP SINGLE AND HORIZONTAL DOUBLE
    (0x02568, 0xD0), // BOX DRAWINGS UP DOUBLE AND HORIZONTAL SINGLE
    (0x02569, 0xCA), // BOX DRAWINGS DOUBLE UP AND HORIZONTAL
    (0x0256A, 0xD8), // BOX DRAWINGS VERTICAL SINGLE AND HORIZONTAL DOUBLE
    (0x0256B, 0xD7), // BOX DRAWINGS VERTICAL DOUBLE AND HORIZONTAL SINGLE
    (0x0256C, 0xCE), // BOX DRAWINGS DOUBLE VERTICAL AND HORIZONTAL
    (0x02580, 0xDF), // UPPER HALF BLOCK
    (0x02584, 0xDC), // LOWER HALF BLOCK
    (0x02588, 0xDB), // FULL BLOCK
    (0x0258C, 0xDD), // LEFT HALF BLOCK
    (0x02590, 0xDE), // RIGHT HALF BLOCK
    (0x02591, 0xB0), // LIGHT SHADE
    (0x02592, 0xB1), // MEDIUM SHADE
    (0x02593, 0xB2), // DARK SHADE
    (0x025A0, 0xFE), // BLACK SQUARE
    (0x025AC, 0x16), // BLACK RECTANGLE
    (0x025B2, 0x1E), // BLACK UP-POINTING TRIANGLE
    (0x025BA, 0x10), // BLACK RIGHT-POINTING POINTER
    (0x025BC, 0x1F), // BLACK DOWN-POINTING TRIANGLE
    (0x025C4, 0x11), // BLACK LEFT-POINTING POINTER
    (0x025CB, 0x09), // WHITE CIRCLE
    (0x025D8, 0x08), // INVERSE BULLET
    (0x025D9, 0x0A), // INVERSE WHITE CIRCLE
    (0x0263A, 0x01), // WHITE SMILING FACE
    (0x0263B, 0x02), // BLACK SMILING FACE
    (0x0263C, 0x0F), // WHITE SUN WITH RAYS
    (0x02640, 0x0C), // FEMALE SIGN
    (0x02642, 0x0B), // MALE SIGN
    (0x02660, 0x06), // BLACK SPADE SUIT
    (0x02663, 0x05), // BLACK CLUB SUIT
    (0x02665, 0x03), // BLACK HEART SUIT
    (0x02666, 0x04), // BLACK DIAMOND SUIT
    (0x0266A, 0x0D), // EIGHTH NOTE
    (0x0266B, 0x0E), // BEAMED EIGHTH NOTES
    (0x02713, 0xFB), // CHECK MARK (alternative)
    (0x1D719, 0xED), // MATHEMATICAL ITALIC PHI SYMBOL (alternative)
];

/// The table as a sequence of (code point, byte) pairs.
#[verifier::opaque]
pub open spec fn table() -> Seq<(u32, u8)> {
    TABLE@
}

/// The code points of `t` strictly increase.
pub open spec fn keys_ascending(t: Seq<(u32, u8)>) -> bool {
    forall|i: int, j: int| 0 <= i < j < t.len() ==> t[i].0 < t[j].0
}

/// Every pair from position `k` on is followed by one with a larger code point.
pub open spec fn ascending_from(t: Seq<(u32, u8)>, k: int) -> bool
    decreases t.len() - k,
{
    if k < 0 || k + 1 >= t.len() {
        true
    } else {
        t[k].0 < t[k + 1].0 && ascending_from(t, k + 1)
    }
}

/// `cp` is the code point of some entry of the table.
pub open spec fn listed(cp: u32) -> bool {
    exists|i: int| 0 <= i < table().len() && (#[trigger] table()[i]).0 == cp
}

/// A position of the table that holds `cp`, where `cp` is listed.
pub open spec fn index_of(cp: u32) -> int {
    choose|i: int| 0 <= i < table().len() && (#[trigger] table()[i]).0 == cp
}

/// The byte that the table gives to `cp`, if `cp` is listed.
pub open spec fn table_lookup(cp: u32) -> Option<u8> {
    if listed(cp) {
        Some(table()[index_of(cp)].1)
    } else {
        None
    }
}

/// What makes the table usable for lookup: its keys strictly increase, and
/// none of them lies in the ASCII range or the C1 control range below U+00A0.
pub open spec fn table_wf() -> bool {
    &&& table().len() == TABLE_LEN
    &&& keys_ascending(table())
    &&& forall|i: int| 0 <= i < table().len() ==> (#[trigger] table()[i]).0 >= 0xA0
}

proof fn lemma_ascending_from(t: Seq<(u32, u8)>, k: int)
    requires
        0 <= k,
        ascending_from(t, k),
    ensures
        forall|i: int, j: int| k <= i < j < t.len() ==> t[i].0 < t[j].0,
    decreases t.len() - k,
{
    if k + 1 < t.len() {
        lemma_ascending_from(t, k + 1);
    }
}

proof fn lemma_table_ascending()
    ensures
        keys_ascending(table()),
{
    // Neighbouring pairs, twenty at a time from the end of the table.
    assert(ascending_from(table(), 160)) by {
        reveal(table);
        reveal_with_fuel(ascending_from, 21);
    }
    assert(ascending_from(table(), 140)) by {
        reveal(table);
        reveal_with_fuel(ascending_from, 21);
    }
    assert(ascending_from(table(), 120)) by {
        reveal(table);
        reveal_with_fuel(ascending_from, 21);
    }
    assert(ascending_from(table(), 100)) by {
        reveal(table);
        reveal_with_fuel(ascending_from, 21);
    }
    assert(ascending_from(table(), 80)) by {
        reveal(table);
        reveal_with_fuel(ascending_from, 21);
    }
    assert(ascending_from(table(), 60)) by {
        reveal(table);
        reveal_with_fuel(ascending_from, 21);
    }
    assert(ascending_from(table(), 40)) by {
        reveal(table);
        reveal_with_fuel(ascending_from, 21);
    }
    assert(ascending_from(table(), 20)) by {
        reveal(table);
        reveal_with_fuel(ascending_from, 21);
    }
    assert(ascending_from(table(), 0)) by {
        reveal(table);
        reveal_with_fuel(ascending_from, 21);
    }
    lemma_ascending_from(table(), 0);
}

/// The table is well formed.
pub proof fn lemma_table_wf()
    ensures
        table_wf(),
{
    lemma_table_ascending();
    assert(table().len() == TABLE_LEN && table()[0].0 == 0xA0) by {
        reveal(table);
    }
}

/// No code point occurs twice in the table: two different positions hold
/// two different code points.
pub proof fn lemma_keys_unique(i: int, j: int)
    requires
        0 <= i < table().len(),
        0 <= j < table().len(),
        i != j,
    ensures
        table()[i].0 != table()[j].0,
{
    lemma_table_wf();
}

/// A code point listed in the table is looked up to the one byte that its
/// entry holds.
pub proof fn lemma_lookup_listed(i: int)
    requires
        0 <= i < table().len(),
    ensures
        listed(table()[i].0),
        table_lookup(table()[i].0) == Some(table()[i].1),
{
    let cp = table()[i].0;
    assert(listed(cp));
    let k = index_of(cp);
    if k != i {
        lemma_keys_unique(i, k);
    }
}

/// The constant's contents are the table.
proof fn lemma_table_is_const()
    ensures
        TABLE@ == table(),
{
    reveal(table);
}

/// The entry at position `i`.
fn entry(i: usize) -> (r: (u32, u8))
    requires
        i < TABLE_LEN,
    ensures
        r == table()[i as int],
{
    proof {
        lemma_table_is_const();
    }
    TABLE[i]
}

/// Binary search of the table for `cp`.
pub fn find_listed(cp: u32) -> (r: Option<u8>)
    ensures
        r == table_lookup(cp),
{
    proof {
        lemma_table_wf();
    }
    let mut lo: usize = 0;
    let mut hi: usize = TABLE_LEN;
    while lo < hi
        invariant
            table_wf(),
            lo <= hi <= TABLE_LEN,
            forall|i: int| 0 <= i < lo ==> (#[trigger] table()[i]).0 < cp,
            forall|i: int| hi <= i < TABLE_LEN ==> (#[trigger] table()[i]).0 > cp,
        decreases hi - lo,
    {
        let mid: usize = lo + (hi - lo) / 2;
        let (key, byte) = entry(mid);
        if key == cp {
            proof {
                lemma_lookup_listed(mid as int);
            }
            return Some(byte);
        } else if key < cp {
            lo = mid + 1;
        } else {
            hi = mid;
        }
    }
    None
}

} // verus!
