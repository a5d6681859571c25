//! ESC/POS byte-to-Unicode decoding for the Star code page mapping used by
//! `@point-of-sale/receipt-printer-encoder`.

use crate::external::{char_from_u32, is_scalar_value, string_push};
use crate::tables;
use vstd::prelude::*;

verus! {

/// The code pages that `ESC t n` can select.
#[derive(Debug, Clone, Copy, PartialEq, Eq, Structural)]
pub enum Codepage {
    Cp437,
    StarKatakana,
    Cp850,
    Cp860,
    Cp863,
    Cp865,
    Windows1252,
    Cp866,
    Cp852,
    Cp858,
    Thai42,
    Thai11,
    Thai13,
    Thai14,
    Thai16,
    Thai18,
}

/// The code page that the Star ESC/POS mapping assigns to `ESC t n`.
pub open spec fn star_codepage(n: u8) -> Codepage {
    if n == 0x01 {
        Codepage::StarKatakana
    } else if n == 0x02 {
        Codepage::Cp850
    } else if n == 0x03 {
        Codepage::Cp860
    } else if n == 0x04 {
        Codepage::Cp863
    } else if n == 0x05 {
        Codepage::Cp865
    } else if n == 0x10 {
        Codepage::Windows1252
    } else if n == 0x11 {
        Codepage::Cp866
    } else if n == 0x12 {
        Codepage::Cp852
    } else if n == 0x13 {
        Codepage::Cp858
    } else if n == 0x14 {
        Codepage::Thai42
    } else if n == 0x15 {
        Codepage::Thai11
    } else if n == 0x16 {
        Codepage::Thai13
    } else if n == 0x17 {
        Codepage::Thai14
    } else if n == 0x18 {
        Codepage::Thai16
    } else if n == 0x1a {
        Codepage::Thai18
    } else {
        Codepage::Cp437
    }
}

/// Map `ESC t n` exactly like ReceiptPrinterEncoder's Star ESC/POS mapping.
/// Unknown values use CP437, the ESC/POS default, so they never desynchronize
/// the byte stream.
pub fn codepage_from_star_index(n: u8) -> (codepage: Codepage)
    ensures
        codepage == star_codepage(n),
{
    match n {
        0x01 => Codepage::StarKatakana,
        0x02 => Codepage::Cp850,
        0x03 => Codepage::Cp860,
        0x04 => Codepage::Cp863,
        0x05 => Codepage::Cp865,
        0x10 => Codepage::Windows1252,
        0x11 => Codepage::Cp866,
        0x12 => Codepage::Cp852,
        0x13 => Codepage::Cp858,
        0x14 => Codepage::Thai42,
        0x15 => Codepage::Thai11,
        0x16 => Codepage::Thai13,
        0x17 => Codepage::Thai14,
        0x18 => Codepage::Thai16,
        0x1a => Codepage::Thai18,
        _ => Codepage::Cp437,
    }
}

/// The byte-to-code-point table of a code page.
pub open spec fn code_page_table(codepage: Codepage) -> Seq<u32> {
    match codepage {
        Codepage::Cp437 => tables::CP437@,
        Codepage::StarKatakana => tables::STAR_KATAKANA@,
        Codepage::Cp850 => tables::CP850@,
        Codepage::Cp860 => tables::CP860@,
        Codepage::Cp863 => tables::CP863@,
        Codepage::Cp865 => tables::CP865@,
        Codepage::Windows1252 => tables::WINDOWS_1252@,
        Codepage::Cp866 => tables::CP866@,
        Codepage::Cp852 => tables::CP852@,
        Codepage::Cp858 => tables::CP858@,
        Codepage::Thai42 => tables::THAI42@,
        Codepage::Thai11 => tables::THAI11@,
        Codepage::Thai13 => tables::THAI13@,
        Codepage::Thai14 => tables::THAI14@,
        Codepage::Thai16 => tables::THAI16@,
        Codepage::Thai18 => tables::THAI18@,
    }
}

fn table(codepage: Codepage) -> (codepoints: &'static [u32; 256])
    ensures
        codepoints@ == code_page_table(codepage),
{
    match codepage {
        Codepage::Cp437 => &tables::CP437,
        Codepage::StarKatakana => &tables::STAR_KATAKANA,
        Codepage::Cp850 => &tables::CP850,
        Codepage::Cp860 => &tables::CP860,
        Codepage::Cp863 => &tables::CP863,
        Codepage::Cp865 => &tables::CP865,
        Codepage::Windows1252 => &tables::WINDOWS_1252,
        Codepage::Cp866 => &tables::CP866,
        Codepage::Cp852 => &tables::CP852,
        Codepage::Cp858 => &tables::CP858,
        Codepage::Thai42 => &tables::THAI42,
        Codepage::Thai11 => &tables::THAI11,
        Codepage::Thai13 => &tables::THAI13,
        Codepage::Thai14 => &tables::THAI14,
        Codepage::Thai16 => &tables::THAI16,
        Codepage::Thai18 => &tables::THAI18,
    }
}

/// What one byte decodes to: the character its table entry names, or nothing
/// where the code page leaves the byte undefined.
pub open spec fn decode_byte(codepage: Codepage, byte: u8) -> Seq<char> {
    let v = code_page_table(codepage)[byte as int];
    if is_scalar_value(v) {
        seq![v as char]
    } else {
        Seq::empty()
    }
}

/// The text that a run of bytes decodes to: each byte in turn, decoded alone.
pub open spec fn decoded(codepage: Codepage, bytes: Seq<u8>) -> Seq<char>
    decreases bytes.len(),
{
    if bytes.len() == 0 {
        Seq::empty()
    } else {
        decoded(codepage, bytes.drop_last()) + decode_byte(codepage, bytes.last())
    }
}

/// Decode a run of printable text.
///
/// Bytes below 0x20 are decoded through the table like any other, which is
/// how `cp437(&[0x04; 44])` in the test client draws a rule of `♦`. Any
/// command byte the parser fails to consume therefore shows up as a CP437
/// glyph on the receipt rather than being silently ignored.
pub fn decode(codepage: Codepage, bytes: &[u8]) -> (text: String)
    ensures
        text@ == decoded(codepage, bytes@),
{
    let codepoints = table(codepage);
    let mut text = String::new();
    let mut i: usize = 0;
    while i < bytes.len()
        invariant
            i <= bytes@.len(),
            codepoints@ == code_page_table(codepage),
            text@ == decoded(codepage, bytes@.take(i as int)),
        decreases bytes@.len() - i,
    {
        let byte = bytes[i];
        match char_from_u32(codepoints[byte as usize]) {
            Some(c) => string_push(&mut text, c),
            None => {},
        }
        assert(bytes@.take(i + 1).drop_last() =~= bytes@.take(i as int));
        i += 1;
    }
    assert(bytes@.take(i as int) =~= bytes@);
    text
}

/// The Latin-1 reading of a byte run: every byte is the code point of the
/// same value.
pub open spec fn latin1(bytes: Seq<u8>) -> Seq<char> {
    bytes.map_values(|b: u8| b as char)
}

/// QR/PDF417 and barcode payloads are encoded as ISO-8859-1 by the reference
/// encoder, where every byte maps directly to the same Unicode codepoint.
pub fn decode_latin1(bytes: &[u8]) -> (text: String)
    ensures
        text@ == latin1(bytes@),
{
    let mut text = String::new();
    let mut i: usize = 0;
    while i < bytes.len()
        invariant
            i <= bytes@.len(),
            text@ == latin1(bytes@.take(i as int)),
        decreases bytes@.len() - i,
    {
        string_push(&mut text, bytes[i] as char);
        assert(latin1(bytes@.take(i + 1)) =~= latin1(bytes@.take(i as int)).push(bytes[i as int] as char));
        i += 1;
    }
    assert(bytes@.take(i as int) =~= bytes@);
    text
}

} // verus!

verus! {

/// Decoding is byte by byte: the text of two runs is the two texts joined.
pub proof fn lemma_decoded_append(codepage: Codepage, a: Seq<u8>, b: Seq<u8>)
    ensures
        decoded(codepage, a + b) == decoded(codepage, a) + decoded(codepage, b),
    decreases b.len(),
{
    if b.len() == 0 {
        assert(a + b =~= a);
        assert(decoded(codepage, a) + decoded(codepage, b) =~= decoded(codepage, a));
    } else {
        assert((a + b).drop_last() =~= a + b.drop_last());
        assert((a + b).last() == b.last());
        lemma_decoded_append(codepage, a, b.drop_last());
        assert(decoded(codepage, a + b) =~= decoded(codepage, a) + decoded(codepage, b));
    }
}

} // verus!

verus! {

proof fn lemma_decoded_one(codepage: Codepage, b: u8)
    ensures
        decoded(codepage, seq![b]) == decode_byte(codepage, b),
{
    assert(seq![b].drop_last() =~= Seq::<u8>::empty());
    assert(seq![b].last() == b);
    assert(decoded(codepage, Seq::<u8>::empty()) == Seq::<char>::empty());
    assert(Seq::<char>::empty() + decode_byte(codepage, b) =~= decode_byte(codepage, b));
}

/// Each code page decodes through its own table: the table of that name,
/// and no other.
pub proof fn law_each_code_page_has_its_own_table()
    ensures
        code_page_table(Codepage::Cp437) == tables::CP437@,
        code_page_table(Codepage::StarKatakana) == tables::STAR_KATAKANA@,
        code_page_table(Codepage::Cp850) == tables::CP850@,
        code_page_table(Codepage::Cp860) == tables::CP860@,
        code_page_table(Codepage::Cp863) == tables::CP863@,
        code_page_table(Codepage::Cp865) == tables::CP865@,
        code_page_table(Codepage::Windows1252) == tables::WINDOWS_1252@,
        code_page_table(Codepage::Cp866) == tables::CP866@,
        code_page_table(Codepage::Cp852) == tables::CP852@,
        code_page_table(Codepage::Cp858) == tables::CP858@,
        code_page_table(Codepage::Thai42) == tables::THAI42@,
        code_page_table(Codepage::Thai11) == tables::THAI11@,
        code_page_table(Codepage::Thai13) == tables::THAI13@,
        code_page_table(Codepage::Thai14) == tables::THAI14@,
        code_page_table(Codepage::Thai16) == tables::THAI16@,
        code_page_table(Codepage::Thai18) == tables::THAI18@,
{
}

/// A byte that tells the code pages apart decodes, under each code page, to
/// the character that code page gives it: `ESC t` really switches tables.
pub proof fn law_code_pages_decode_their_own_characters()
    ensures
        decoded(Codepage::Cp437, seq![0x9du8]) == seq!['\u{a5}'],
        decoded(Codepage::StarKatakana, seq![0xb1u8]) == seq!['\u{ff71}'],
        decoded(Codepage::Cp850, seq![0xd5u8]) == seq!['\u{131}'],
        decoded(Codepage::Cp860, seq![0x84u8]) == seq!['\u{e3}'],
        decoded(Codepage::Cp863, seq![0x84u8]) == seq!['\u{c2}'],
        decoded(Codepage::Cp865, seq![0xafu8]) == seq!['\u{a4}'],
        decoded(Codepage::Windows1252, seq![0x82u8]) == seq!['\u{201a}'],
        decoded(Codepage::Cp866, seq![0x80u8]) == seq!['\u{410}'],
        decoded(Codepage::Cp852, seq![0x88u8]) == seq!['\u{142}'],
        decoded(Codepage::Cp858, seq![0xd5u8]) == seq!['\u{20ac}'],
        decoded(Codepage::Thai42, seq![0xa1u8]) == seq!['\u{e01}'],
        decoded(Codepage::Thai11, seq![0xa1u8]) == seq!['\u{e01}'],
        decoded(Codepage::Thai13, seq![0xa1u8]) == seq!['\u{e01}'],
        decoded(Codepage::Thai14, seq![0xa1u8]) == seq!['\u{e01}'],
        decoded(Codepage::Thai16, seq![0xa1u8]) == seq!['\u{e01}'],
        decoded(Codepage::Thai18, seq![0xa1u8]) == seq!['\u{e01}'],
{
    assert(code_page_table(Codepage::Cp437) == tables::CP437@);
    assert(tables::CP437@[0x9d] == 0xa5u32);
    assert((0xa5u32 as char) == '\u{a5}');
    lemma_decoded_one(Codepage::Cp437, 0x9d);
    assert(code_page_table(Codepage::StarKatakana) == tables::STAR_KATAKANA@);
    assert(tables::STAR_KATAKANA@[0xb1] == 0xff71u32);
    assert((0xff71u32 as char) == '\u{ff71}');
    lemma_decoded_one(Codepage::StarKatakana, 0xb1);
    assert(code_page_table(Codepage::Cp850) == tables::CP850@);
    assert(tables::CP850@[0xd5] == 0x131u32);
    assert((0x131u32 as char) == '\u{131}');
    lemma_decoded_one(Codepage::Cp850, 0xd5);
    assert(code_page_table(Codepage::Cp860) == tables::CP860@);
    assert(tables::CP860@[0x84] == 0xe3u32);
    assert((0xe3u32 as char) == '\u{e3}');
    lemma_decoded_one(Codepage::Cp860, 0x84);
    assert(code_page_table(Codepage::Cp863) == tables::CP863@);
    assert(tables::CP863@[0x84] == 0xc2u32);
    assert((0xc2u32 as char) == '\u{c2}');
    lemma_decoded_one(Codepage::Cp863, 0x84);
    assert(code_page_table(Codepage::Cp865) == tables::CP865@);
    assert(tables::CP865@[0xaf] == 0xa4u32);
    assert((0xa4u32 as char) == '\u{a4}');
    lemma_decoded_one(Codepage::Cp865, 0xaf);
    assert(code_page_table(Codepage::Windows1252) == tables::WINDOWS_1252@);
    assert(tables::WINDOWS_1252@[0x82] == 0x201au32);
    assert((0x201au32 as char) == '\u{201a}');
    lemma_decoded_one(Codepage::Windows1252, 0x82);
    assert(code_page_table(Codepage::Cp866) == tables::CP866@);
    assert(tables::CP866@[0x80] == 0x410u32);
    assert((0x410u32 as char) == '\u{410}');
    lemma_decoded_one(Codepage::Cp866, 0x80);
    assert(code_page_table(Codepage::Cp852) == tables::CP852@);
    assert(tables::CP852@[0x88] == 0x142u32);
    assert((0x142u32 as char) == '\u{142}');
    lemma_decoded_one(Codepage::Cp852, 0x88);
    assert(code_page_table(Codepage::Cp858) == tables::CP858@);
    assert(tables::CP858@[0xd5] == 0x20acu32);
    assert((0x20acu32 as char) == '\u{20ac}');
    lemma_decoded_one(Codepage::Cp858, 0xd5);
    assert(code_page_table(Codepage::Thai42) == tables::THAI42@);
    assert(tables::THAI42@[0xa1] == 0xe01u32);
    assert((0xe01u32 as char) == '\u{e01}');
    lemma_decoded_one(Codepage::Thai42, 0xa1);
    assert(code_page_table(Codepage::Thai11) == tables::THAI11@);
    assert(tables::THAI11@[0xa1] == 0xe01u32);
    assert((0xe01u32 as char) == '\u{e01}');
    lemma_decoded_one(Codepage::Thai11, 0xa1);
    assert(code_page_table(Codepage::Thai13) == tables::THAI13@);
    assert(tables::THAI13@[0xa1] == 0xe01u32);
    assert((0xe01u32 as char) == '\u{e01}');
    lemma_decoded_one(Codepage::Thai13, 0xa1);
    assert(code_page_table(Codepage::Thai14) == tables::THAI14@);
    assert(tables::THAI14@[0xa1] == 0xe01u32);
    assert((0xe01u32 as char) == '\u{e01}');
    lemma_decoded_one(Codepage::Thai14, 0xa1);
    assert(code_page_table(Codepage::Thai16) == tables::THAI16@);
    assert(tables::THAI16@[0xa1] == 0xe01u32);
    assert((0xe01u32 as char) == '\u{e01}');
    lemma_decoded_one(Codepage::Thai16, 0xa1);
    assert(code_page_table(Codepage::Thai18) == tables::THAI18@);
    assert(tables::THAI18@[0xa1] == 0xe01u32);
    assert((0xe01u32 as char) == '\u{e01}');
    lemma_decoded_one(Codepage::Thai18, 0xa1);
}

/// The Star numbering of `ESC t n`: each listed number selects its code
/// page, and every other number selects CP437.
pub proof fn law_star_indices_select_code_pages(n: u8)
    ensures
        star_codepage(0x01) == Codepage::StarKatakana,
        star_codepage(0x02) == Codepage::Cp850,
        star_codepage(0x03) == Codepage::Cp860,
        star_codepage(0x04) == Codepage::Cp863,
        star_codepage(0x05) == Codepage::Cp865,
        star_codepage(0x10) == Codepage::Windows1252,
        star_codepage(0x11) == Codepage::Cp866,
        star_codepage(0x12) == Codepage::Cp852,
        star_codepage(0x13) == Codepage::Cp858,
        star_codepage(0x14) == Codepage::Thai42,
        star_codepage(0x15) == Codepage::Thai11,
        star_codepage(0x16) == Codepage::Thai13,
        star_codepage(0x17) == Codepage::Thai14,
        star_codepage(0x18) == Codepage::Thai16,
        star_codepage(0x1a) == Codepage::Thai18,
        (n != 0x01 && n != 0x02 && n != 0x03 && n != 0x04 && n != 0x05
            && n != 0x10 && n != 0x11 && n != 0x12 && n != 0x13 && n != 0x14
            && n != 0x15 && n != 0x16 && n != 0x17 && n != 0x18 && n != 0x1a) ==> star_codepage(n)
            == Codepage::Cp437,
{
}

} // verus!
