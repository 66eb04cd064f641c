//! The IDENTIFY DEVICE response and its decoding.
//!
//! The response is 256 sixteen-bit words. Numeric fields are
//! little-endian twice over: bytes within a word and words within a
//! multi-word value. String fields carry each pair of characters swapped
//! (the text "Abcdef" sits in memory as "bAdcfe"), so decoding emits, per
//! word, first the high byte and then the low byte.

use vstd::prelude::*;

verus! {

/// A 16-bit word read from two little-endian bytes.
pub open spec fn le_word(lo: u8, hi: u8) -> u16 {
    (lo as u16) | ((hi as u16) << 8)
}

/// The word sequence encoded by a little-endian byte sequence.
pub open spec fn words_of_le_bytes(b: Seq<u8>) -> Seq<u16> {
    Seq::new(b.len() / 2, |i: int| le_word(b[2 * i], b[2 * i + 1]))
}

/// High byte of a word: the first character of a swapped pair.
pub open spec fn word_hi(w: u16) -> u8 {
    ((w >> 8) & 0xff) as u8
}

/// Low byte of a word: the second character of a swapped pair.
pub open spec fn word_lo(w: u16) -> u8 {
    (w & 0xff) as u8
}

/// The byte sequence a word sequence decodes to under the word-swap
/// convention: per word, high byte first.
pub open spec fn swapped_bytes(w: Seq<u16>) -> Seq<u8> {
    Seq::new(
        2 * w.len(),
        |i: int|
            if i % 2 == 0 {
                word_hi(w[i / 2])
            } else {
                word_lo(w[i / 2])
            },
    )
}

/// The word sequence that stores a byte sequence under the word-swap
/// convention: per word, the first byte in the high half.
pub open spec fn packed_words(s: Seq<u8>) -> Seq<u16> {
    Seq::new(s.len() / 2, |i: int| ((s[2 * i] as u16) << 8) | (s[2 * i + 1] as u16))
}

/// Every byte is ASCII.
pub open spec fn ascii_bytes(b: Seq<u8>) -> bool {
    forall|i: int| 0 <= i < b.len() ==> b[i] < 0x80
}

/// Every character is ASCII.
pub open spec fn ascii_chars(s: Seq<char>) -> bool {
    forall|i: int| 0 <= i < s.len() ==> (s[i] as u32) < 0x80
}

/// The characters of a byte sequence read one byte per character.
pub open spec fn chars_of_bytes(b: Seq<u8>) -> Seq<char> {
    Seq::new(b.len(), |i: int| b[i] as char)
}

/// The six ASCII characters the Unicode White_Space property contains.
pub open spec fn is_ascii_space(c: char) -> bool {
    c == ' ' || c == '\t' || c == '\n' || c == '\r' || c == '\u{b}' || c == '\u{c}'
}

/// The sequence with its leading ASCII whitespace removed.
pub open spec fn trim_front(s: Seq<char>) -> Seq<char>
    decreases s.len(),
{
    if s.len() > 0 && is_ascii_space(s[0]) {
        trim_front(s.drop_first())
    } else {
        s
    }
}

/// The sequence with its trailing ASCII whitespace removed.
pub open spec fn trim_back(s: Seq<char>) -> Seq<char>
    decreases s.len(),
{
    if s.len() > 0 && is_ascii_space(s[s.len() - 1]) {
        trim_back(s.drop_last())
    } else {
        s
    }
}

/// The sequence with ASCII whitespace removed at both ends.
pub open spec fn ascii_trim(s: Seq<char>) -> Seq<char> {
    trim_back(trim_front(s))
}

/// What `String::from_utf8_lossy` returns on a byte sequence.
pub uninterp spec fn lossy_of(b: Seq<u8>) -> Seq<char>;

/// What `str::trim` returns on a character sequence.
pub uninterp spec fn trim_of(s: Seq<char>) -> Seq<char>;

/// Relies on `String::from_utf8_lossy`: the result depends on the bytes
/// alone, and valid UTF-8 — all-ASCII input included — decodes unchanged.
#[verifier::external_body]
fn utf8_lossy(bytes: &Vec<u8>) -> (r: String)
    ensures
        r@ == lossy_of(bytes@),
        ascii_bytes(bytes@) ==> r@ == chars_of_bytes(bytes@),
{
    String::from_utf8_lossy(bytes.as_slice()).into_owned()
}

/// Relies on `str::trim`: the result depends on the characters alone, and
/// on all-ASCII input it removes exactly the leading and trailing
/// characters with the Unicode White_Space property, which among ASCII
/// characters are the six of `is_ascii_space`.
#[verifier::external_body]
fn trimmed(s: &String) -> (r: String)
    ensures
        r@ == trim_of(s@),
        ascii_chars(s@) ==> r@ == ascii_trim(s@),
{
    s.trim().to_string()
}

/// Storing a byte sequence of even length under the word-swap convention
/// and decoding the words again reproduces the bytes exactly.
pub proof fn lemma_swap_round_trip(s: Seq<u8>)
    requires
        s.len() % 2 == 0,
    ensures
        swapped_bytes(packed_words(s)) == s,
{
    let w = packed_words(s);
    assert forall|k: int| 0 <= k < s.len() implies swapped_bytes(w)[k] == s[k] by {
        let j = k / 2;
        if k % 2 == 0 {
            assert(2 * j == k);
            lemma_pack_hi(s[2 * j], s[2 * j + 1]);
        } else {
            assert(2 * j + 1 == k);
            lemma_pack_lo(s[2 * j], s[2 * j + 1]);
        }
    }
    assert(swapped_bytes(w) =~= s);
}

/// The high byte of a packed word is the first byte of the pair.
proof fn lemma_pack_hi(a: u8, b: u8)
    ensures
        word_hi(((a as u16) << 8) | (b as u16)) == a,
{
    assert(((((a as u16) << 8) | (b as u16)) >> 8) & 0xff == a as u16) by (bit_vector);
}

/// The low byte of a packed word is the second byte of the pair.
proof fn lemma_pack_lo(a: u8, b: u8)
    ensures
        word_lo(((a as u16) << 8) | (b as u16)) == b,
{
    assert((((a as u16) << 8) | (b as u16)) & 0xff == b as u16) by (bit_vector);
}

/// The total sector capacity encoded in a record's words: the four words
/// at the 48-bit address field, little-endian word over little-endian
/// bytes.
pub open spec fn spec_sector_count(w: Seq<u16>) -> u64
    recommends
        w.len() == 256,
{
    (w[100] as u64) | ((w[101] as u64) << 16) | ((w[102] as u64) << 32) | ((w[103] as u64) << 48)
}

/// The ATA IDENTIFY DEVICE record: 256 sixteen-bit words, 512 bytes in
/// all. Words 100..104 hold the 48-bit sector capacity, words 27..47 the
/// model, words 10..20 the serial number and words 23..27 the firmware
/// revision, the strings pairwise swapped.
#[derive(Copy, Clone)]
pub struct IdentifyDeviceData([u16; 256]);

/// Whatever produced a record, its underlying storage is exactly 512
/// bytes: 256 words of two bytes each.
pub proof fn lemma_record_size(id: IdentifyDeviceData)
    ensures
        id@.len() == 256,
{
}

impl View for IdentifyDeviceData {
    type V = Seq<u16>;

    closed spec fn view(&self) -> Seq<u16> {
        self.0@
    }
}

impl IdentifyDeviceData {
    /// Decodes the raw 512-byte response into the word record, reading
    /// each word from its two bytes little-endian regardless of the
    /// host's own byte order.
    pub fn decode(raw: &[u8]) -> (r: IdentifyDeviceData)
        requires
            raw@.len() == 512,
        ensures
            r@ == words_of_le_bytes(raw@),
    {
        let mut words: [u16; 256] = [0u16; 256];
        let mut i: usize = 0;
        while i < 256
            invariant
                i <= 256,
                raw@.len() == 512,
                forall|j: int| 0 <= j < i ==> words@[j] == le_word(raw@[2 * j], raw@[2 * j + 1]),
            decreases 256 - i,
        {
            let lo = raw[2 * i];
            let hi = raw[2 * i + 1];
            words[i] = (lo as u16) | ((hi as u16) << 8);
            i += 1;
        }
        proof {
            assert(words@ =~= words_of_le_bytes(raw@));
        }
        IdentifyDeviceData(words)
    }

    /// Builds a record directly from its 256 words.
    pub fn from_words(words: [u16; 256]) -> (r: IdentifyDeviceData)
        ensures
            r@ == words@,
    {
        IdentifyDeviceData(words)
    }

    /// Returns the total sector count of the disk, assembled from the
    /// four capacity words.
    pub fn get_sector_count(&self) -> (r: u64)
        ensures
            r == spec_sector_count(self@),
    {
        let w100 = self.0[100];
        let w101 = self.0[101];
        let w102 = self.0[102];
        let w103 = self.0[103];
        (w100 as u64) | ((w101 as u64) << 16) | ((w102 as u64) << 32) | ((w103 as u64) << 48)
    }

    /// Returns the model of the disk, decoded from words 27..47.
    pub fn get_model(&self) -> (r: String)
        ensures
            r@ == trim_of(lossy_of(swapped_bytes(self@.subrange(27, 47)))),
            ascii_bytes(swapped_bytes(self@.subrange(27, 47))) ==> r@ == ascii_trim(
                chars_of_bytes(swapped_bytes(self@.subrange(27, 47))),
            ),
    {
        Self::swap_string(&self.0.as_slice()[27..47])
    }

    /// Returns the serial number of the disk, decoded from words 10..20.
    pub fn get_serial(&self) -> (r: String)
        ensures
            r@ == trim_of(lossy_of(swapped_bytes(self@.subrange(10, 20)))),
            ascii_bytes(swapped_bytes(self@.subrange(10, 20))) ==> r@ == ascii_trim(
                chars_of_bytes(swapped_bytes(self@.subrange(10, 20))),
            ),
    {
        Self::swap_string(&self.0.as_slice()[10..20])
    }

    /// Returns the firmware revision of the disk, decoded from words
    /// 23..27.
    pub fn get_firmware(&self) -> (r: String)
        ensures
            r@ == trim_of(lossy_of(swapped_bytes(self@.subrange(23, 27)))),
            ascii_bytes(swapped_bytes(self@.subrange(23, 27))) ==> r@ == ascii_trim(
                chars_of_bytes(swapped_bytes(self@.subrange(23, 27))),
            ),
    {
        Self::swap_string(&self.0.as_slice()[23..27])
    }

    /// Undoes the word swap of a string field: emits, per word, the high
    /// byte and then the low byte.
    pub fn swap_bytes(buffer: &[u16]) -> (r: Vec<u8>)
        ensures
            r@ == swapped_bytes(buffer@),
    {
        let mut ans: Vec<u8> = Vec::new();
        let mut i: usize = 0;
        while i < buffer.len()
            invariant
                i <= buffer@.len(),
                ans@.len() == 2 * i,
                forall|j: int|
                    0 <= j < i ==> ans@[2 * j] == word_hi(buffer@[j]) && ans@[2 * j + 1] == word_lo(
                        buffer@[j],
                    ),
            decreases buffer@.len() - i,
        {
            let w = buffer[i];
            ans.push(((w >> 8) & 0xff) as u8);
            ans.push((w & 0xff) as u8);
            i += 1;
        }
        proof {
            assert forall|k: int| 0 <= k < 2 * buffer@.len() implies ans@[k] == swapped_bytes(
                buffer@,
            )[k] by {
                let j = k / 2;
                if k % 2 == 0 {
                    assert(2 * j == k);
                } else {
                    assert(2 * j + 1 == k);
                }
            }
            assert(ans@ =~= swapped_bytes(buffer@));
        }
        ans
    }

    /// Decodes a word-swapped string field: un-swaps the bytes, reads
    /// them as text with invalid sequences replaced permissively, and
    /// trims surrounding whitespace and padding.
    pub fn swap_string(buffer: &[u16]) -> (r: String)
        ensures
            r@ == trim_of(lossy_of(swapped_bytes(buffer@))),
            ascii_bytes(swapped_bytes(buffer@)) ==> r@ == ascii_trim(
                chars_of_bytes(swapped_bytes(buffer@)),
            ),
    {
        let bytes = Self::swap_bytes(buffer);
        let s = utf8_lossy(&bytes);
        proof {
            if ascii_bytes(bytes@) {
                assert(ascii_chars(s@));
            }
        }
        trimmed(&s)
    }
}

} // verus!
