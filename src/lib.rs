//! Conversion of single Unicode scalars to bytes of code page 437 (CP437).
//!
//! A scalar listed in [`table::TABLE`] converts to the byte listed beside it.
//! Any other scalar converts only if it is U+0000 or printable ASCII
//! (U+0020..=U+007E), to its own value; all else has no CP437 byte.
use vstd::prelude::*;

pub mod table;

use crate::table::{find_listed, lemma_lookup_listed, lemma_table_wf, listed, table, table_lookup};

verus! {

/// The byte that a scalar off the table gets: its own value for U+0000 and
/// for printable ASCII, none for the control characters and anything above.
pub open spec fn ascii_fallback(cp: u32) -> Option<u8> {
    if cp == 0 || (0x20 <= cp && cp <= 0x7E) {
        Some(cp as u8)
    } else {
        None
    }
}

/// The CP437 byte of `c`: the table's entry for it when there is one,
/// the ASCII rule otherwise.
pub open spec fn cp437_of(c: char) -> Option<u8> {
    match table_lookup(c as u32) {
        Some(b) => Some(b),
        None => ascii_fallback(c as u32),
    }
}

/// Converts a Unicode scalar to its CP437 byte, or `None` where CP437 has no
/// equivalent.
pub fn convert(unicode: char) -> (r: Option<u8>)
    ensures
        r == cp437_of(unicode),
{
    let cp: u32 = unicode as u32;
    match find_listed(cp) {
        Some(b) => Some(b),
        None => {
            if cp == 0 || (0x1F < cp && cp < 0x7F) {
                Some(cp as u8)
            } else {
                None
            }
        },
    }
}

/// Printable ASCII converts to itself: for U+0020..=U+007E the byte is the
/// scalar's own value.
pub proof fn lemma_printable_ascii_identity(c: char)
    requires
        0x20 <= c as u32 <= 0x7E,
    ensures
        cp437_of(c) == Some(c as u32 as u8),
        (c as u32 as u8) as u32 == c as u32,
{
    lemma_not_listed_below_a0(c as u32);
}

/// The control characters U+0001..=U+001F and U+007F have no entry in the
/// table, and none of them converts.
pub proof fn lemma_controls_unmapped(c: char)
    requires
        1 <= c as u32 <= 0x1F || c as u32 == 0x7F,
    ensures
        table_lookup(c as u32) is None,
        cp437_of(c) is None,
{
    lemma_not_listed_below_a0(c as u32);
}

/// A scalar listed in the table converts to the one byte of its entry, never
/// to another: whatever position holds its code point holds that byte.
pub proof fn lemma_listed_scalar_single_byte(c: char, i: int)
    requires
        0 <= i < table().len(),
        table()[i].0 == c as u32,
    ensures
        cp437_of(c) == Some(table()[i].1),
        forall|j: int|
            0 <= j < table().len() && (#[trigger] table()[j]).0 == c as u32 ==> j == i,
{
    lemma_lookup_listed(i);
    lemma_table_wf();
}

/// The result depends on the scalar alone: equal scalars convert alike.
pub proof fn lemma_convert_deterministic(a: char, b: char)
    requires
        a == b,
    ensures
        cp437_of(a) == cp437_of(b),
{
}

proof fn lemma_not_listed_below_a0(cp: u32)
    requires
        cp < 0xA0,
    ensures
        !listed(cp),
        table_lookup(cp) is None,
{
    lemma_table_wf();
}

} // verus!
