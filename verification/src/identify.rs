//! The 256-word answer to IDENTIFY DEVICE, and the record it decodes to.
use crate::text::{
    decimal, flip_bytes, prefixed_hexadecimal, push_decimal, push_prefixed_hexadecimal,
    push_quoted, quoted, swap_pairs,
};
use vstd::prelude::*;

verus! {

/// The byte of `w` that a little-endian machine stores first.
pub open spec fn low_byte(w: u16) -> u8 {
    (w % 256) as u8
}

/// The byte of `w` that a little-endian machine stores second.
pub open spec fn high_byte(w: u16) -> u8 {
    (w / 256) as u8
}

/// The bytes of `words` in the order in which they lie in memory: of each
/// word the low byte, then the high byte.
pub open spec fn memory_bytes(words: Seq<u16>) -> Seq<u8> {
    Seq::new(
        2 * words.len(),
        |i: int|
            if i % 2 == 0 {
                low_byte(words[i / 2])
            } else {
                high_byte(words[i / 2])
            },
    )
}

/// A text field of `count` words starting at word `first`: the bytes of those
/// words as they lie in memory, with the two bytes of each word exchanged.
pub open spec fn text_field(words: Seq<u16>, first: int, count: int) -> Seq<u8> {
    swap_pairs(memory_bytes(words.subrange(first, first + count)))
}

/// The 32-bit value that two consecutive words hold, low word first.
pub open spec fn join32(w0: u16, w1: u16) -> u32 {
    (w0 as int + w1 as int * 0x1_0000) as u32
}

/// The 64-bit value that four consecutive words hold, lowest word first.
pub open spec fn join64(w0: u16, w1: u16, w2: u16, w3: u16) -> u64 {
    (w0 as int + w1 as int * 0x1_0000 + w2 as int * 0x1_0000_0000 + w3 as int
        * 0x1_0000_0000_0000) as u64
}

/// What an `AtaIdentifyData` holds, as plain values.
pub struct IdentifyFields {
    pub flags: u16,
    pub serial_number: Seq<u8>,
    pub firmware_ver: Seq<u8>,
    pub model_number: Seq<u8>,
    pub sect_per_int: u16,
    pub capabilities: Seq<u16>,
    pub valid_ext_data: u16,
    pub size_of_rw_multiple: u16,
    pub sector_count_28: u32,
    pub sector_count_48: u64,
    pub physical_sector_size: u16,
    pub words_per_logical_sector: u32,
}

/// The record that a block of 256 words stands for. Each field is taken from
/// its own words and from no others; only the three text fields are changed
/// on the way, by `text_field`.
pub open spec fn decode(words: Seq<u16>) -> IdentifyFields {
    IdentifyFields {
        flags: words[0],
        serial_number: text_field(words, 10, 10),
        firmware_ver: text_field(words, 23, 4),
        model_number: text_field(words, 27, 20),
        sect_per_int: words[47],
        capabilities: words.subrange(49, 51),
        valid_ext_data: words[53],
        size_of_rw_multiple: words[59],
        sector_count_28: join32(words[60], words[61]),
        sector_count_48: join64(words[100], words[101], words[102], words[103]),
        physical_sector_size: words[106],
        words_per_logical_sector: join32(words[117], words[118]),
    }
}

/// The record in which every number is zero and every byte is NUL.
pub open spec fn zeroed() -> IdentifyFields {
    IdentifyFields {
        flags: 0,
        serial_number: Seq::new(20, |i: int| 0u8),
        firmware_ver: Seq::new(8, |i: int| 0u8),
        model_number: Seq::new(40, |i: int| 0u8),
        sect_per_int: 0,
        capabilities: Seq::new(2, |i: int| 0u16),
        valid_ext_data: 0,
        size_of_rw_multiple: 0,
        sector_count_28: 0,
        sector_count_48: 0,
        physical_sector_size: 0,
        words_per_logical_sector: 0,
    }
}

/// The one-line rendering of a record: the type's name, then in braces each
/// field's name and value, separated by spaces. Flags, capabilities and the
/// two sector counts are hexadecimal, the text fields are quoted byte
/// strings, and of `sect_per_int` only the low byte is shown.
pub open spec fn display(f: IdentifyFields) -> Seq<char> {
    "AtaIdentifyData {"@ + " flags: "@ + prefixed_hexadecimal(f.flags as nat)
        + " serial_number: "@ + quoted(f.serial_number) + " firmware_ver: "@ + quoted(
        f.firmware_ver,
    ) + " model_number: "@ + quoted(f.model_number) + " sect_per_int: "@ + decimal(
        (f.sect_per_int & 0xff) as nat,
    ) + " capabilities: ["@ + prefixed_hexadecimal(f.capabilities[0] as nat) + ","@
        + prefixed_hexadecimal(f.capabilities[1] as nat) + "]"@ + " valid_ext_data: "@ + decimal(
        f.valid_ext_data as nat,
    ) + " size_of_rw_multiple: "@ + decimal(f.size_of_rw_multiple as nat) + " sector_count_28: "@
        + prefixed_hexadecimal(f.sector_count_28 as nat) + " sector_count_48: "@
        + prefixed_hexadecimal(f.sector_count_48 as nat) + " physical_sector_size: "@ + decimal(
        f.physical_sector_size as nat,
    ) + " words_per_logical_sector: "@ + decimal(f.words_per_logical_sector as nat) + "}"@
}

/// What a drive says of itself in answer to IDENTIFY DEVICE.
///
/// The three text fields are raw bytes in reading order. Nothing promises
/// that they are ASCII or that they end in NUL.
#[derive(Clone, Copy, Debug, PartialEq, Eq)]
pub struct AtaIdentifyData {
    pub flags: u16,
    pub serial_number: [u8; 20],
    pub firmware_ver: [u8; 8],
    pub model_number: [u8; 40],
    /// Maximum number of sectors per interrupt, in the low byte.
    pub sect_per_int: u16,
    /// Bit 8 of the first word: the drive can do DMA; bit 9: it can do LBA.
    pub capabilities: [u16; 2],
    /// Which of the extended fields are valid.
    pub valid_ext_data: u16,
    pub size_of_rw_multiple: u16,
    /// Number of sectors addressable with 28 bits; zero if 48 are needed.
    pub sector_count_28: u32,
    /// Number of sectors addressable with 48 bits.
    pub sector_count_48: u64,
    pub physical_sector_size: u16,
    pub words_per_logical_sector: u32,
}

impl View for AtaIdentifyData {
    type V = IdentifyFields;

    open spec fn view(&self) -> IdentifyFields {
        IdentifyFields {
            flags: self.flags,
            serial_number: self.serial_number@,
            firmware_ver: self.firmware_ver@,
            model_number: self.model_number@,
            sect_per_int: self.sect_per_int,
            capabilities: self.capabilities@,
            valid_ext_data: self.valid_ext_data,
            size_of_rw_multiple: self.size_of_rw_multiple,
            sector_count_28: self.sector_count_28,
            sector_count_48: self.sector_count_48,
            physical_sector_size: self.physical_sector_size,
            words_per_logical_sector: self.words_per_logical_sector,
        }
    }
}

/// Fills `out` with the text field that starts at word `first`.
fn copy_text(words: &[u16; 256], first: usize, out: &mut [u8])
    requires
        old(out)@.len() % 2 == 0,
        first + old(out)@.len() / 2 <= 256,
    ensures
        final(out)@ == text_field(words@, first as int, old(out)@.len() as int / 2),
{
    let n: usize = out.len();
    let count: usize = n / 2;
    let ghost source = words@.subrange(first as int, first + count);
    let mut k: usize = 0;
    while k < count
        invariant
            n == out@.len(),
            n == 2 * count,
            first + count <= 256,
            k <= count,
            source == words@.subrange(first as int, first + count),
            forall|j: int| 0 <= j < 2 * k ==> out@[j] == memory_bytes(source)[j],
        decreases count - k,
    {
        let w: u16 = words[first + k];
        out[2 * k] = (w % 256) as u8;
        out[2 * k + 1] = (w / 256) as u8;
        k = k + 1;
    }
    flip_bytes(out);
}

fn word_pair(w0: u16, w1: u16) -> (v: u32)
    ensures
        v == join32(w0, w1),
{
    w0 as u32 + (w1 as u32) * 0x1_0000
}

fn word_quad(w0: u16, w1: u16, w2: u16, w3: u16) -> (v: u64)
    ensures
        v == join64(w0, w1, w2, w3),
{
    w0 as u64 + (w1 as u64) * 0x1_0000 + (w2 as u64) * 0x1_0000_0000 + (w3 as u64)
        * 0x1_0000_0000_0000
}

impl AtaIdentifyData {
    /// Decodes the block that a drive sent in answer to IDENTIFY DEVICE.
    ///
    /// Every field is read from its own words: the numbers as they are, wider
    /// ones from consecutive words with the low word first, and the three
    /// text fields with the two bytes of each word exchanged, which puts them
    /// in reading order. The record depends on the block and on nothing else.
    pub fn new(arr: [u16; 256]) -> (record: AtaIdentifyData)
        ensures
            record@ == decode(arr@),
    {
        let mut serial_number: [u8; 20] = [0u8; 20];
        copy_text(&arr, 10, &mut serial_number);
        let mut firmware_ver: [u8; 8] = [0u8; 8];
        copy_text(&arr, 23, &mut firmware_ver);
        let mut model_number: [u8; 40] = [0u8; 40];
        copy_text(&arr, 27, &mut model_number);
        let capabilities: [u16; 2] = [arr[49], arr[50]];
        assert(capabilities@ =~= arr@.subrange(49, 51));
        AtaIdentifyData {
            flags: arr[0],
            serial_number,
            firmware_ver,
            model_number,
            sect_per_int: arr[47],
            capabilities,
            valid_ext_data: arr[53],
            size_of_rw_multiple: arr[59],
            sector_count_28: word_pair(arr[60], arr[61]),
            sector_count_48: word_quad(arr[100], arr[101], arr[102], arr[103]),
            physical_sector_size: arr[106],
            words_per_logical_sector: word_pair(arr[117], arr[118]),
        }
    }

    /// The record on one line, as `display` describes it.
    pub fn fmt(&self) -> (s: String)
        ensures
            s@ == display(self@),
    {
        let mut s = String::new();
        s.append("AtaIdentifyData {");
        s.append(" flags: ");
        push_prefixed_hexadecimal(&mut s, self.flags as u64);
        s.append(" serial_number: ");
        push_quoted(&mut s, &self.serial_number);
        s.append(" firmware_ver: ");
        push_quoted(&mut s, &self.firmware_ver);
        s.append(" model_number: ");
        push_quoted(&mut s, &self.model_number);
        s.append(" sect_per_int: ");
        push_decimal(&mut s, (self.sect_per_int & 0xff) as u64);
        s.append(" capabilities: [");
        push_prefixed_hexadecimal(&mut s, self.capabilities[0] as u64);
        s.append(",");
        push_prefixed_hexadecimal(&mut s, self.capabilities[1] as u64);
        s.append("]");
        s.append(" valid_ext_data: ");
        push_decimal(&mut s, self.valid_ext_data as u64);
        s.append(" size_of_rw_multiple: ");
        push_decimal(&mut s, self.size_of_rw_multiple as u64);
        s.append(" sector_count_28: ");
        push_prefixed_hexadecimal(&mut s, self.sector_count_28 as u64);
        s.append(" sector_count_48: ");
        push_prefixed_hexadecimal(&mut s, self.sector_count_48);
        s.append(" physical_sector_size: ");
        push_decimal(&mut s, self.physical_sector_size as u64);
        s.append(" words_per_logical_sector: ");
        push_decimal(&mut s, self.words_per_logical_sector as u64);
        s.append("}");
        s
    }
}

impl Default for AtaIdentifyData {
    /// The record of all zeros: what an all-zero block decodes to.
    fn default() -> (record: AtaIdentifyData)
        ensures
            record@ == zeroed(),
    {
        let record = AtaIdentifyData {
            flags: 0,
            serial_number: [0u8; 20],
            firmware_ver: [0u8; 8],
            model_number: [0u8; 40],
            sect_per_int: 0,
            capabilities: [0u16; 2],
            valid_ext_data: 0,
            size_of_rw_multiple: 0,
            sector_count_28: 0,
            sector_count_48: 0,
            physical_sector_size: 0,
            words_per_logical_sector: 0,
        };
        assert(record.serial_number@ =~= zeroed().serial_number);
        assert(record.firmware_ver@ =~= zeroed().firmware_ver);
        assert(record.model_number@ =~= zeroed().model_number);
        assert(record.capabilities@ =~= zeroed().capabilities);
        record
    }
}

/// Whatever the block holds, the serial number has 20 bytes, the firmware
/// revision 8, the model number 40, and there are two capability words.
pub proof fn lemma_field_lengths(words: Seq<u16>)
    requires
        words.len() == 256,
    ensures
        decode(words).serial_number.len() == 20,
        decode(words).firmware_ver.len() == 8,
        decode(words).model_number.len() == 40,
        decode(words).capabilities.len() == 2,
{
}

/// A text field reads each of its words high byte first: the swap undoes the
/// order in which a little-endian machine stores the two bytes of a word.
pub proof fn lemma_text_field_order(words: Seq<u16>, first: int, count: int, k: int)
    requires
        0 <= first,
        first + count <= words.len(),
        0 <= k < count,
    ensures
        text_field(words, first, count).len() == 2 * count,
        text_field(words, first, count)[2 * k] == high_byte(words[first + k]),
        text_field(words, first, count)[2 * k + 1] == low_byte(words[first + k]),
{
}

/// A record is what its fields are: two records decoded from the same block
/// are the same record.
pub proof fn lemma_same_block_same_record(a: AtaIdentifyData, b: AtaIdentifyData, words: Seq<u16>)
    requires
        a@ == decode(words),
        b@ == decode(words),
    ensures
        a == b,
{
    assert(a.serial_number =~= b.serial_number);
    assert(a.firmware_ver =~= b.firmware_ver);
    assert(a.model_number =~= b.model_number);
    assert(a.capabilities =~= b.capabilities);
}

/// The block of all zeros decodes to the record of all zeros.
pub proof fn lemma_zero_block_decodes_to_zeroed(words: Seq<u16>)
    requires
        words.len() == 256,
        forall|i: int| 0 <= i < 256 ==> words[i] == 0,
    ensures
        decode(words) == zeroed(),
{
    let d = decode(words);
    assert(d.serial_number =~= zeroed().serial_number);
    assert(d.firmware_ver =~= zeroed().firmware_ver);
    assert(d.model_number =~= zeroed().model_number);
    assert(d.capabilities =~= zeroed().capabilities);
}

} // verus!
