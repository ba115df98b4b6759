//! Text on its way into and out of the secondary runtime.
//!
//! Every string argument crosses as its UTF-8 bytes, without a terminator,
//! together with their count as a 32-bit signed integer. Every string result
//! comes back as a buffer of bytes that is read as UTF-8. The runtime's own
//! wide-character text is turned into a NUL-terminated narrow buffer.

use vstd::prelude::*;
use vstd::string::*;
use vstd::utf8::*;

verus! {

/// One string argument, ready to cross: the bytes and the count that is
/// passed beside the pointer to them.
#[derive(Debug, PartialEq, Eq)]
pub struct StringArg {
    pub bytes: Vec<u8>,
    pub len: i32,
}

/// The mathematical value of a [`StringArg`].
pub struct StringArgView {
    pub bytes: Seq<u8>,
    pub len: i32,
}

impl View for StringArg {
    type V = StringArgView;

    open spec fn view(&self) -> StringArgView {
        StringArgView { bytes: self.bytes@, len: self.len }
    }
}

/// The count that crosses for `byte_count` bytes: the machine-word count
/// narrowed to 32 signed bits. It is the true count whenever that fits.
pub open spec fn wire_len(byte_count: nat) -> i32 {
    (byte_count as usize) as i32
}

/// The argument that crosses for `text`.
pub open spec fn marshaled(text: Seq<char>) -> StringArgView {
    StringArgView { bytes: encode_utf8(text), len: wire_len(encode_utf8(text).len()) }
}

impl StringArgView {
    /// The count beside the bytes is their true count.
    pub open spec fn exact(self) -> bool {
        self.len == self.bytes.len()
    }
}

/// Packs `text` for the crossing.
pub fn marshal(text: &str) -> (arg: StringArg)
    ensures
        arg@ == marshaled(text@),
        arg@.bytes.len() <= i32::MAX ==> arg@.exact(),
{
    let bytes = text.as_bytes_vec();
    let len: i32 = #[verifier::truncate]
    (bytes.len() as i32);
    StringArg { bytes, len }
}

/// The text that `String::from_utf8` reports for bytes that are not UTF-8.
pub uninterp spec fn utf8_error_text(bytes: Seq<u8>) -> Seq<char>;

/// `String::from_utf8`: bytes that are valid UTF-8 become the text they
/// encode; for any others the call fails, and the failure is handed back as
/// the text that its `Display` prints.
#[verifier::external_body]
pub(crate) fn text_from_utf8(bytes: Vec<u8>) -> (r: Result<String, String>)
    ensures
        match r {
            Ok(text) => valid_utf8(bytes@) && text@ == decode_utf8(bytes@),
            Err(cause) => !valid_utf8(bytes@) && cause@ == utf8_error_text(bytes@),
        },
{
    String::from_utf8(bytes).map_err(|e| format!("{e:#}"))
}

/// Views a text or the reason there is none.
pub open spec fn text_result_view(r: Result<String, String>) -> Result<Seq<char>, Seq<char>> {
    match r {
        Ok(text) => Ok(text@),
        Err(cause) => Err(cause@),
    }
}

/// A UTF-16 code unit that is the first half of a surrogate pair.
pub open spec fn is_high_surrogate(unit: u16) -> bool {
    0xD800 <= unit <= 0xDBFF
}

/// A UTF-16 code unit that is the second half of a surrogate pair.
pub open spec fn is_low_surrogate(unit: u16) -> bool {
    0xDC00 <= unit <= 0xDFFF
}

/// The character that stands in for what cannot be converted.
pub open spec fn replacement() -> char {
    '\u{FFFD}'
}

/// The character that a surrogate pair stands for.
pub open spec fn paired(high: u16, low: u16) -> char {
    (0x10000 + (high - 0xD800) * 0x400 + (low - 0xDC00)) as char
}

/// The text that UTF-16 code units decode to, lossily: a unit that is no
/// surrogate is the character of its value, a high surrogate followed by a
/// low one is the character that the pair stands for, and every other
/// surrogate gives one U+FFFD.
pub open spec fn utf16_lossy(units: Seq<u16>) -> Seq<char>
    decreases units.len(),
{
    if units.len() == 0 {
        seq![]
    } else if !is_high_surrogate(units[0]) && !is_low_surrogate(units[0]) {
        seq![units[0] as char] + utf16_lossy(units.drop_first())
    } else if is_high_surrogate(units[0]) && units.len() >= 2 && is_low_surrogate(units[1]) {
        seq![paired(units[0], units[1])] + utf16_lossy(units.skip(2))
    } else {
        seq![replacement()] + utf16_lossy(units.drop_first())
    }
}

/// `String::from_utf16_lossy`: decoding never fails. Well-formed UTF-16
/// decodes to its text, and each surrogate that has no partner is replaced
/// by U+FFFD.
#[verifier::external_body]
fn from_utf16_lossy(units: &[u16]) -> (text: String)
    ensures
        text@ == utf16_lossy(units@),
{
    String::from_utf16_lossy(units)
}

/// `text` with U+FFFD in place of every U+0000. A narrow buffer ends at its
/// first NUL, so a NUL inside the text cannot cross as itself.
pub open spec fn without_nul(text: Seq<char>) -> Seq<char> {
    text.map_values(|c: char| if c == '\0' { replacement() } else { c })
}

/// The narrow buffer for `text`: the UTF-8 bytes of the text, with U+FFFD
/// in place of every U+0000, followed by one NUL.
pub open spec fn spec_narrow(text: Seq<char>) -> Seq<u8> {
    encode_utf8(without_nul(text)).push(0u8)
}

/// Builds the NUL-terminated narrow buffer for `text`. There is one for
/// every text.
pub fn narrow(text: &str) -> (buffer: Vec<u8>)
    ensures
        buffer@ == spec_narrow(text@),
        buffer@.len() > 0,
        buffer@.last() == 0u8,
        forall|i: int| 0 <= i < buffer@.len() - 1 ==> buffer@[i] != 0u8,
{
    let n = text.unicode_len();
    let mut clean = String::new();
    let mut start: usize = 0;
    let mut i: usize = 0;
    for c in it: text.chars()
        invariant
            it.seq() == text@,
            n == text@.len(),
            i == it.index(),
            start <= i,
            clean@ == without_nul(text@.subrange(0, start as int)),
            forall|j: int| start <= j < i ==> text@[j] != '\0',
    {
        if c == '\0' {
            clean.append(text.substring_char(start, i));
            clean.append("\u{FFFD}");
            proof {
                reveal_strlit("\u{FFFD}");
                lemma_without_nul_extends(text@, start as int, i as int);
            }
            start = i + 1;
        }
        i += 1;
    }
    clean.append(text.substring_char(start, n));
    proof {
        lemma_without_nul_keeps(text@, start as int);
        lemma_narrow_buffer_is_terminated(text@);
    }
    let mut buffer = clean.as_str().as_bytes_vec();
    buffer.push(0);
    buffer
}

/// The callback that the secondary runtime uses to hand out a string: its
/// wide-character buffer is decoded, lossily, and packed as a narrow buffer.
/// The conversion never fails: what is not UTF-16, and a NUL inside the
/// text, come out as U+FFFD.
pub fn copy_to_c_string(wide: &[u16]) -> (buffer: Vec<u8>)
    ensures
        buffer@ == spec_narrow(utf16_lossy(wide@)),
        buffer@.len() > 0,
        buffer@.last() == 0u8,
        forall|i: int| 0 <= i < buffer@.len() - 1 ==> buffer@[i] != 0u8,
{
    let text = from_utf16_lossy(wide);
    narrow(text.as_str())
}

/// Replacing up to and including a NUL at `end`, where no NUL stands from
/// `start` up to it, is keeping that stretch and adding one U+FFFD.
proof fn lemma_without_nul_extends(text: Seq<char>, start: int, end: int)
    requires
        0 <= start <= end < text.len(),
        text[end] == '\0',
        forall|j: int| start <= j < end ==> text[j] != '\0',
    ensures
        without_nul(text.subrange(0, end + 1)) == without_nul(text.subrange(0, start))
            + text.subrange(start, end) + seq![replacement()],
{
    assert(without_nul(text.subrange(0, end + 1)) =~= without_nul(text.subrange(0, start))
        + text.subrange(start, end) + seq![replacement()]);
}

/// Where no NUL stands from `start` on, replacing leaves that rest as it is.
proof fn lemma_without_nul_keeps(text: Seq<char>, start: int)
    requires
        0 <= start <= text.len(),
        forall|j: int| start <= j < text.len() ==> text[j] != '\0',
    ensures
        without_nul(text) == without_nul(text.subrange(0, start)) + text.subrange(
            start,
            text.len() as int,
        ),
{
    assert(without_nul(text) =~= without_nul(text.subrange(0, start)) + text.subrange(
        start,
        text.len() as int,
    ));
}

/// The UTF-8 bytes of a character other than U+0000 hold no zero byte.
proof fn lemma_scalar_has_no_nul(scalar: u32)
    requires
        is_scalar(scalar),
        scalar != 0,
    ensures
        forall|i: int| 0 <= i < encode_scalar(scalar).len() ==> encode_scalar(scalar)[i] != 0u8,
{
    if has_width_1_encoding(scalar) {
        assert((scalar & 0x7F) as u8 != 0u8) by (bit_vector)
            requires
                0 < scalar <= 0x7F,
        ;
    }
    assert(0xC0u8 | ((scalar >> 6) & 0x1F) as u8 != 0u8) by (bit_vector);
    assert(0xE0u8 | ((scalar >> 12) & 0x0F) as u8 != 0u8) by (bit_vector);
    assert(0xF0u8 | ((scalar >> 18) & 0x7) as u8 != 0u8) by (bit_vector);
    assert(0x80u8 | (scalar & 0x3F) as u8 != 0u8) by (bit_vector);
    assert(0x80u8 | ((scalar >> 6) & 0x3F) as u8 != 0u8) by (bit_vector);
    assert(0x80u8 | ((scalar >> 12) & 0x3F) as u8 != 0u8) by (bit_vector);
}

/// The UTF-8 bytes of a text without U+0000 hold no zero byte.
pub proof fn lemma_encoding_has_no_nul(text: Seq<char>)
    requires
        forall|i: int| 0 <= i < text.len() ==> text[i] != '\0',
    ensures
        forall|j: int| 0 <= j < encode_utf8(text).len() ==> encode_utf8(text)[j] != 0u8,
    decreases text.len(),
{
    if text.len() > 0 {
        let first = encode_scalar(text[0] as u32);
        let rest = encode_utf8(text.drop_first());
        char_is_scalar(text[0]);
        assert(text[0] as u32 != 0) by {
            if text[0] as u32 == 0 {
                char_u32_cast(text[0], 0u32);
                char_u32_cast('\0', 0u32);
            }
        }
        lemma_scalar_has_no_nul(text[0] as u32);
        lemma_encoding_has_no_nul(text.drop_first());
        assert forall|j: int| 0 <= j < encode_utf8(text).len() implies encode_utf8(text)[j]
            != 0u8 by {
            if j < first.len() {
                assert(encode_utf8(text)[j] == first[j]);
            } else {
                assert(encode_utf8(text)[j] == rest[j - first.len()]);
            }
        }
    }
}

/// What crosses can be read back: the bytes of a packed argument are valid
/// UTF-8 and decode to the text that was packed.
pub proof fn lemma_marshaled_text_reads_back(text: Seq<char>)
    ensures
        valid_utf8(marshaled(text).bytes),
        decode_utf8(marshaled(text).bytes) == text,
{
    encode_utf8_valid_utf8(text);
    encode_utf8_decode_utf8(text);
}

/// A narrow buffer ends at its terminator: the one NUL in it is its last
/// byte, and what stands before it is UTF-8 that reads back as the text,
/// with U+FFFD where the text had U+0000.
pub proof fn lemma_narrow_buffer_is_terminated(text: Seq<char>)
    ensures
        ({
            let buffer = spec_narrow(text);
            &&& buffer.len() > 0
            &&& buffer.last() == 0u8
            &&& valid_utf8(buffer.drop_last())
            &&& decode_utf8(buffer.drop_last()) == without_nul(text)
            &&& forall|i: int| 0 <= i < buffer.len() - 1 ==> buffer[i] != 0u8
        }),
{
    let buffer = spec_narrow(text);
    assert(buffer.drop_last() =~= encode_utf8(without_nul(text)));
    encode_utf8_valid_utf8(without_nul(text));
    encode_utf8_decode_utf8(without_nul(text));
    lemma_encoding_has_no_nul(without_nul(text));
}

/// Code units that hold no surrogate decode one for one, each to the
/// character of its value.
pub proof fn lemma_plain_units_decode_one_for_one(units: Seq<u16>)
    requires
        forall|i: int|
            0 <= i < units.len() ==> !is_high_surrogate(units[i]) && !is_low_surrogate(units[i]),
    ensures
        utf16_lossy(units) == units.map_values(|unit: u16| unit as char),
    decreases units.len(),
{
    if units.len() > 0 {
        lemma_plain_units_decode_one_for_one(units.drop_first());
    }
    assert(utf16_lossy(units) =~= units.map_values(|unit: u16| unit as char));
}

/// A text without U+0000 crosses as it is.
pub proof fn lemma_text_without_nul_is_kept(text: Seq<char>)
    requires
        forall|i: int| 0 <= i < text.len() ==> text[i] != '\0',
    ensures
        without_nul(text) == text,
        spec_narrow(text) == encode_utf8(text).push(0u8),
{
    assert(without_nul(text) =~= text);
}

} // verus!
