//! Ogg page checking and crash recovery for the recording files.
//!
//! A recording is written as a sequence of Ogg pages. After a crash the file
//! may end in a torn page; recovery keeps every complete page whose checksum
//! verifies, from the start of the file up to the first page that does not,
//! and closes the stream with an end-of-stream page when the last kept page
//! did not already end it.
use vstd::prelude::*;

verus! {

// ---------------------------------------------------------------------------
// Little-endian fields
// ---------------------------------------------------------------------------

/// The unsigned 32-bit little-endian field at `o`.
pub open spec fn le_u32_at(b: Seq<u8>, o: int) -> u32 {
    (b[o] as u32) | ((b[o + 1] as u32) << 8u32) | ((b[o + 2] as u32) << 16u32) | ((b[o + 3] as u32)
        << 24u32)
}

/// The unsigned 64-bit little-endian field at `o`.
pub open spec fn le_u64_at(b: Seq<u8>, o: int) -> u64 {
    (b[o] as u64) | ((b[o + 1] as u64) << 8u64) | ((b[o + 2] as u64) << 16u64) | ((b[o + 3] as u64)
        << 24u64) | ((b[o + 4] as u64) << 32u64) | ((b[o + 5] as u64) << 40u64) | ((b[o + 6] as u64)
        << 48u64) | ((b[o + 7] as u64) << 56u64)
}

/// The four little-endian bytes of `x` (`u32::to_le_bytes`).
pub open spec fn le32_bytes(x: u32) -> Seq<u8> {
    seq![
        (x & 0xff) as u8,
        ((x >> 8u32) & 0xff) as u8,
        ((x >> 16u32) & 0xff) as u8,
        ((x >> 24u32) & 0xff) as u8,
    ]
}

/// The eight little-endian bytes of `x` (`u64::to_le_bytes`).
pub open spec fn le64_bytes(x: u64) -> Seq<u8> {
    seq![
        (x & 0xff) as u8,
        ((x >> 8u64) & 0xff) as u8,
        ((x >> 16u64) & 0xff) as u8,
        ((x >> 24u64) & 0xff) as u8,
        ((x >> 32u64) & 0xff) as u8,
        ((x >> 40u64) & 0xff) as u8,
        ((x >> 48u64) & 0xff) as u8,
        ((x >> 56u64) & 0xff) as u8,
    ]
}

pub proof fn lemma_le32_round_trip(x: u32)
    ensures
        le_u32_at(le32_bytes(x), 0) == x,
{
    let b0 = (x & 0xff) as u8;
    let b1 = ((x >> 8u32) & 0xff) as u8;
    let b2 = ((x >> 16u32) & 0xff) as u8;
    let b3 = ((x >> 24u32) & 0xff) as u8;
    assert((b0 as u32) | ((b1 as u32) << 8u32) | ((b2 as u32) << 16u32) | ((b3 as u32) << 24u32)
        == x) by (bit_vector)
        requires
            b0 == (x & 0xff) as u8,
            b1 == ((x >> 8u32) & 0xff) as u8,
            b2 == ((x >> 16u32) & 0xff) as u8,
            b3 == ((x >> 24u32) & 0xff) as u8,
    ;
}

pub proof fn lemma_le64_round_trip(x: u64)
    ensures
        le_u64_at(le64_bytes(x), 0) == x,
{
    let b0 = (x & 0xff) as u8;
    let b1 = ((x >> 8u64) & 0xff) as u8;
    let b2 = ((x >> 16u64) & 0xff) as u8;
    let b3 = ((x >> 24u64) & 0xff) as u8;
    let b4 = ((x >> 32u64) & 0xff) as u8;
    let b5 = ((x >> 40u64) & 0xff) as u8;
    let b6 = ((x >> 48u64) & 0xff) as u8;
    let b7 = ((x >> 56u64) & 0xff) as u8;
    assert((b0 as u64) | ((b1 as u64) << 8u64) | ((b2 as u64) << 16u64) | ((b3 as u64) << 24u64) | (
    (b4 as u64) << 32u64) | ((b5 as u64) << 40u64) | ((b6 as u64) << 48u64) | ((b7 as u64)
        << 56u64) == x) by (bit_vector)
        requires
            b0 == (x & 0xff) as u8,
            b1 == ((x >> 8u64) & 0xff) as u8,
            b2 == ((x >> 16u64) & 0xff) as u8,
            b3 == ((x >> 24u64) & 0xff) as u8,
            b4 == ((x >> 32u64) & 0xff) as u8,
            b5 == ((x >> 40u64) & 0xff) as u8,
            b6 == ((x >> 48u64) & 0xff) as u8,
            b7 == ((x >> 56u64) & 0xff) as u8,
    ;
}

fn read_le_u32(b: &[u8], o: usize) -> (r: u32)
    requires
        o + 4 <= b.len(),
    ensures
        r == le_u32_at(b@, o as int),
{
    (b[o] as u32) | ((b[o + 1] as u32) << 8u32) | ((b[o + 2] as u32) << 16u32) | ((b[o + 3] as u32)
        << 24u32)
}

fn read_le_u64(b: &[u8], o: usize) -> (r: u64)
    requires
        o + 8 <= b.len(),
    ensures
        r == le_u64_at(b@, o as int),
{
    (b[o] as u64) | ((b[o + 1] as u64) << 8u64) | ((b[o + 2] as u64) << 16u64) | ((b[o + 3] as u64)
        << 24u64) | ((b[o + 4] as u64) << 32u64) | ((b[o + 5] as u64) << 40u64) | ((b[o + 6] as u64)
        << 48u64) | ((b[o + 7] as u64) << 56u64)
}

/// Appends `u32::to_le_bytes(x)`.
pub fn push_le_u32(out: &mut Vec<u8>, x: u32)
    ensures
        final(out)@ == old(out)@ + le32_bytes(x),
{
    out.push((x & 0xff) as u8);
    out.push(((x >> 8u32) & 0xff) as u8);
    out.push(((x >> 16u32) & 0xff) as u8);
    out.push(((x >> 24u32) & 0xff) as u8);
    assert(out@ =~= old(out)@ + le32_bytes(x));
}

/// Appends `u64::to_le_bytes(x)`.
pub fn push_le_u64(out: &mut Vec<u8>, x: u64)
    ensures
        final(out)@ == old(out)@ + le64_bytes(x),
{
    out.push((x & 0xff) as u8);
    out.push(((x >> 8u64) & 0xff) as u8);
    out.push(((x >> 16u64) & 0xff) as u8);
    out.push(((x >> 24u64) & 0xff) as u8);
    out.push(((x >> 32u64) & 0xff) as u8);
    out.push(((x >> 40u64) & 0xff) as u8);
    out.push(((x >> 48u64) & 0xff) as u8);
    out.push(((x >> 56u64) & 0xff) as u8);
    assert(out@ =~= old(out)@ + le64_bytes(x));
}

// ---------------------------------------------------------------------------
// CRC-32 of the Ogg framing (polynomial 0x04c11db7, no reflection, initial 0)
// ---------------------------------------------------------------------------

/// One bit step of the checksum register.
pub open spec fn crc_shift(crc: u32) -> u32 {
    if crc & 0x8000_0000u32 != 0 {
        (crc << 1u32) ^ 0x04c1_1db7u32
    } else {
        crc << 1u32
    }
}

/// `n` bit steps.
pub open spec fn crc_shifts(crc: u32, n: nat) -> u32
    decreases n,
{
    if n == 0 {
        crc
    } else {
        crc_shift(crc_shifts(crc, (n - 1) as nat))
    }
}

/// The checksum is the Ogg CRC-32: each bit step multiplies the register by
/// x modulo the generator x^32 + 0x04C11DB7, most significant bit first,
/// that is, shifts it left one bit and, when a bit fell out at the top, adds
/// (XORs) the generator's low 32 bits.
pub proof fn lemma_crc_step_uses_the_ogg_generator(c: u32)
    ensures
        c >= 0x8000_0000 ==> crc_shift(c) == ((c as int * 2 - 0x1_0000_0000) as u32 ^ 0x04C1_1DB7u32),
        c < 0x8000_0000 ==> crc_shift(c) == (c as int * 2) as u32,
{
    assert(c >= 0x8000_0000 ==> (c & 0x8000_0000u32 != 0 && c << 1u32 == (c as int * 2
        - 0x1_0000_0000) as u32)) by (bit_vector);
    assert(c < 0x8000_0000 ==> (c & 0x8000_0000u32 == 0 && c << 1u32 == (c as int * 2) as u32))
        by (bit_vector);
}

/// Eight bit steps, written out.
pub open spec fn crc_shift8(x: u32) -> u32 {
    crc_shift(crc_shift(crc_shift(crc_shift(crc_shift(crc_shift(crc_shift(crc_shift(x))))))))
}

proof fn lemma_crc_shifts_eight(x: u32)
    ensures
        crc_shifts(x, 8) == crc_shift8(x),
{
    reveal_with_fuel(crc_shifts, 9);
}

/// The checksum of the capture pattern `OggS` is 0x5FB0A94F, as for the Ogg
/// CRC-32 (initial value 0, no reflection, no final XOR).
pub proof fn lemma_ogg_crc_of_capture_pattern()
    ensures
        ogg_crc_spec(seq![0x4Fu8, 0x67u8, 0x67u8, 0x53u8]) == 0x5FB0_A94Fu32,
{
    let s = seq![0x4Fu8, 0x67u8, 0x67u8, 0x53u8];
    reveal_with_fuel(ogg_crc_spec, 5);
    assert(s.drop_last().drop_last().drop_last().drop_last() =~= Seq::<u8>::empty());
    assert(s.drop_last().drop_last().drop_last() =~= seq![0x4Fu8]);
    assert(s.drop_last().drop_last() =~= seq![0x4Fu8, 0x67u8]);
    assert(s.drop_last() =~= seq![0x4Fu8, 0x67u8, 0x67u8]);
    lemma_crc_shifts_eight(0u32 ^ ((0x4Fu8 as u32) << 24u32));
    lemma_crc_shifts_eight(0x0CC9_CDCAu32 ^ ((0x67u8 as u32) << 24u32));
    lemma_crc_shifts_eight(0x4E23_C7F6u32 ^ ((0x67u8 as u32) << 24u32));
    lemma_crc_shifts_eight(0x992D_B0EFu32 ^ ((0x53u8 as u32) << 24u32));
    assert(crc_shift8(0u32 ^ ((0x4Fu8 as u32) << 24u32)) == 0x0CC9_CDCAu32) by (bit_vector);
    assert(crc_shift8(0x0CC9_CDCAu32 ^ ((0x67u8 as u32) << 24u32)) == 0x4E23_C7F6u32)
        by (bit_vector);
    assert(crc_shift8(0x4E23_C7F6u32 ^ ((0x67u8 as u32) << 24u32)) == 0x992D_B0EFu32)
        by (bit_vector);
    assert(crc_shift8(0x992D_B0EFu32 ^ ((0x53u8 as u32) << 24u32)) == 0x5FB0_A94Fu32)
        by (bit_vector);
}

/// Feeds one byte into the register.
pub open spec fn crc_feed(crc: u32, byte: u8) -> u32 {
    crc_shifts(crc ^ ((byte as u32) << 24u32), 8)
}

/// The Ogg checksum of `bytes`.
pub open spec fn ogg_crc_spec(bytes: Seq<u8>) -> u32
    decreases bytes.len(),
{
    if bytes.len() == 0 {
        0
    } else {
        crc_feed(ogg_crc_spec(bytes.drop_last()), bytes.last())
    }
}

fn crc_feed_exec(crc: u32, byte: u8) -> (r: u32)
    ensures
        r == crc_feed(crc, byte),
{
    let start = crc ^ ((byte as u32) << 24u32);
    let mut value = start;
    let mut k: usize = 0;
    while k < 8
        invariant
            k <= 8,
            value == crc_shifts(start, k as nat),
        decreases 8 - k,
    {
        value = if value & 0x8000_0000u32 != 0 {
            (value << 1u32) ^ 0x04c1_1db7u32
        } else {
            value << 1u32
        };
        k = k + 1;
    }
    value
}

proof fn lemma_crc_take_step(s: Seq<u8>, i: int)
    requires
        0 <= i < s.len(),
    ensures
        ogg_crc_spec(s.take(i + 1)) == crc_feed(ogg_crc_spec(s.take(i)), s[i]),
{
    assert(s.take(i + 1).drop_last() =~= s.take(i));
}

/// The Ogg checksum of `bytes`.
pub fn ogg_crc(bytes: &[u8]) -> (r: u32)
    ensures
        r == ogg_crc_spec(bytes@),
{
    let mut crc: u32 = 0;
    let mut i: usize = 0;
    while i < bytes.len()
        invariant
            i <= bytes@.len(),
            crc == ogg_crc_spec(bytes@.take(i as int)),
        decreases bytes@.len() - i,
    {
        proof {
            lemma_crc_take_step(bytes@, i as int);
        }
        crc = crc_feed_exec(crc, bytes[i]);
        i = i + 1;
    }
    assert(bytes@.take(bytes@.len() as int) =~= bytes@);
    crc
}

// ---------------------------------------------------------------------------
// Pages
// ---------------------------------------------------------------------------

/// The fields of a page that recovery needs.
#[derive(Debug, Clone, Copy, PartialEq, Eq, Structural)]
pub struct PageInfo {
    pub serial: u32,
    pub sequence: u32,
    pub granule: u64,
    pub end_stream: bool,
}

/// `page` with its checksum field (bytes 22 to 25) cleared, as the checksum
/// is computed. A page header is 27 bytes long, before the lacing values.
pub open spec fn zero_crc_field(page: Seq<u8>) -> Seq<u8> {
    Seq::new(
        page.len(),
        |i: int|
            if 22 <= i < 26 {
                0u8
            } else {
                page[i]
            },
    )
}

/// Sum of the byte values.
pub open spec fn sum_bytes(s: Seq<u8>) -> nat
    decreases s.len(),
{
    if s.len() == 0 {
        0
    } else {
        sum_bytes(s.drop_last()) + s.last() as nat
    }
}

pub open spec fn has_capture_pattern(b: Seq<u8>, o: int) -> bool {
    b[o] == 0x4fu8 && b[o + 1] == 0x67u8 && b[o + 2] == 0x67u8 && b[o + 3] == 0x53u8
}

/// Length of the page that the header at `o` declares.
pub open spec fn declared_page_len(b: Seq<u8>, o: int) -> int {
    let segments = b[o + 26] as int;
    27 + segments + sum_bytes(b.subrange(o + 27, o + 27 + segments))
}

/// The length of the complete page with a valid checksum that starts at `o`,
/// or `None` if there is none.
pub open spec fn page_at(b: Seq<u8>, o: int) -> Option<int> {
    if o < 0 || o + 27 > b.len() {
        None
    } else if !has_capture_pattern(b, o) {
        None
    } else if o + 27 + b[o + 26] as int > b.len() {
        None
    } else {
        let len = declared_page_len(b, o);
        if o + len > b.len() {
            None
        } else if ogg_crc_spec(zero_crc_field(b.subrange(o, o + len))) != le_u32_at(
            b,
            o + 22,
        ) {
            None
        } else {
            Some(len)
        }
    }
}

/// The fields of the page header at `o`.
pub open spec fn info_at(b: Seq<u8>, o: int) -> PageInfo {
    PageInfo {
        granule: le_u64_at(b, o + 6),
        serial: le_u32_at(b, o + 14),
        sequence: le_u32_at(b, o + 18),
        end_stream: b[o + 5] & 0x04u8 != 0,
    }
}

/// Walks the valid pages from `o`: the offset just past the last of them and
/// the fields of that last page (`last` if there is none).
pub open spec fn scan(b: Seq<u8>, o: int, last: Option<PageInfo>) -> (int, Option<PageInfo>)
    decreases b.len() - o,
{
    match page_at(b, o) {
        Some(len) => if 0 < len && o + len <= b.len() {
            scan(b, o + len, Some(info_at(b, o)))
        } else {
            (o, last)
        },
        None => (o, last),
    }
}

proof fn lemma_page_at_bounds(b: Seq<u8>, o: int)
    ensures
        page_at(b, o) matches Some(len) ==> 27 <= len && o + len <= b.len() && 0 <= o,
{
}

/// Sum of the lacing values, computed over `b[from..to]`.
fn sum_range(b: &[u8], from: usize, to: usize) -> (r: usize)
    requires
        from <= to <= b@.len(),
        to - from <= 255,
    ensures
        r == sum_bytes(b@.subrange(from as int, to as int)),
        r <= 255 * (to - from),
{
    let mut total: usize = 0;
    let mut i = from;
    while i < to
        invariant
            from <= i <= to <= b@.len(),
            to - from <= 255,
            total == sum_bytes(b@.subrange(from as int, i as int)),
            total <= 255 * (i - from),
        decreases to - i,
    {
        assert(b@.subrange(from as int, i + 1).drop_last() =~= b@.subrange(from as int, i as int));
        total = total + b[i] as usize;
        i = i + 1;
    }
    total
}

/// Checksum of `b[o..o + len]` with the checksum field cleared.
fn page_crc(b: &[u8], o: usize, len: usize) -> (r: u32)
    requires
        o + len <= b.len(),
    ensures
        r == ogg_crc_spec(zero_crc_field(b@.subrange(o as int, o + len))),
{
    let ghost page = zero_crc_field(b@.subrange(o as int, o + len));
    let mut crc: u32 = 0;
    let mut i: usize = 0;
    while i < len
        invariant
            i <= len,
            o + len <= b.len(),
            page == zero_crc_field(b@.subrange(o as int, o + len)),
            crc == ogg_crc_spec(page.take(i as int)),
        decreases len - i,
    {
        let byte = if 22 <= i && i < 26 {
            0u8
        } else {
            b[o + i]
        };
        assert(byte == page[i as int]);
        proof {
            lemma_crc_take_step(page, i as int);
        }
        crc = crc_feed_exec(crc, byte);
        i = i + 1;
    }
    assert(page.take(len as int) =~= page);
    crc
}

/// The length of the complete, checksum-valid page at `o`, if there is one.
pub fn page_length_at(b: &[u8], o: usize) -> (r: Option<usize>)
    requires
        o <= b@.len(),
    ensures
        match page_at(b@, o as int) {
            Some(len) => r == Some(len as usize),
            None => r is None,
        },
{
    let n = b.len();
    if n - o < 27 {
        return None;
    }
    if !(b[o] == 0x4f && b[o + 1] == 0x67 && b[o + 2] == 0x67 && b[o + 3] == 0x53) {
        return None;
    }
    let segments = b[o + 26] as usize;
    if n - o - 27 < segments {
        return None;
    }
    let body = sum_range(b, o + 27, o + 27 + segments);
    let len = 27 + segments + body;
    if n - o < len {
        return None;
    }
    let expected = read_le_u32(b, o + 22);
    let actual = page_crc(b, o, len);
    if actual != expected {
        return None;
    }
    Some(len)
}

fn page_info_at(b: &[u8], o: usize) -> (r: PageInfo)
    requires
        o + 27 <= b.len(),
    ensures
        r == info_at(b@, o as int),
{
    PageInfo {
        granule: read_le_u64(b, o + 6),
        serial: read_le_u32(b, o + 14),
        sequence: read_le_u32(b, o + 18),
        end_stream: b[o + 5] & 0x04u8 != 0,
    }
}

/// Walks the valid pages from the start of `bytes`: the length of the longest
/// prefix made of complete pages with valid checksums, and the fields of the
/// last of those pages.
pub fn scan_pages(bytes: &[u8]) -> (r: (usize, Option<PageInfo>))
    ensures
        r.0 as int == scan(bytes@, 0, None).0,
        r.1 == scan(bytes@, 0, None).1,
{
    let mut offset: usize = 0;
    let mut last: Option<PageInfo> = None;
    loop
        invariant
            offset <= bytes.len(),
            bytes@.len() == bytes.len(),
            scan(bytes@, offset as int, last) == scan(bytes@, 0, None),
        decreases bytes@.len() - offset,
    {
        match page_length_at(bytes, offset) {
            Some(len) => {
                proof {
                    lemma_page_at_bounds(bytes@, offset as int);
                }
                last = Some(page_info_at(bytes, offset));
                offset = offset + len;
            },
            None => {
                return (offset, last);
            },
        }
    }
}

// ---------------------------------------------------------------------------
// End-of-stream page
// ---------------------------------------------------------------------------

/// An empty page flagged as the end of the stream, before its checksum is set.
pub open spec fn eos_header(serial: u32, sequence: u32, granule: u64) -> Seq<u8> {
    seq![0x4fu8, 0x67u8, 0x67u8, 0x53u8, 0u8, 0x04u8] + le64_bytes(granule) + le32_bytes(serial)
        + le32_bytes(sequence) + le32_bytes(0) + seq![0u8]
}

/// The complete end-of-stream page.
pub open spec fn eos_page_spec(serial: u32, sequence: u32, granule: u64) -> Seq<u8> {
    let h = eos_header(serial, sequence, granule);
    h.subrange(0, 22) + le32_bytes(ogg_crc_spec(h)) + h.subrange(26, h.len() as int)
}

/// An empty end-of-stream page for the logical stream `serial`.
pub fn eos_page(serial: u32, sequence: u32, granule: u64) -> (page: Vec<u8>)
    ensures
        page@ == eos_page_spec(serial, sequence, granule),
{
    let mut page: Vec<u8> = Vec::with_capacity(27);
    page.push(0x4f);
    page.push(0x67);
    page.push(0x67);
    page.push(0x53);
    page.push(0);
    page.push(0x04);
    push_le_u64(&mut page, granule);
    push_le_u32(&mut page, serial);
    push_le_u32(&mut page, sequence);
    push_le_u32(&mut page, 0);
    page.push(0);
    let ghost header = page@;
    assert(header =~= eos_header(serial, sequence, granule));
    let checksum = ogg_crc(&page);
    let mut crc_bytes: Vec<u8> = Vec::new();
    push_le_u32(&mut crc_bytes, checksum);
    page.set(22, crc_bytes[0]);
    page.set(23, crc_bytes[1]);
    page.set(24, crc_bytes[2]);
    page.set(25, crc_bytes[3]);
    assert(page@ =~= eos_page_spec(serial, sequence, granule));
    page
}

proof fn lemma_zero_le32()
    ensures
        le32_bytes(0) == seq![0u8, 0u8, 0u8, 0u8],
{
    assert((0u32 & 0xff) as u8 == 0u8) by (bit_vector);
    assert(((0u32 >> 8u32) & 0xff) as u8 == 0u8) by (bit_vector);
    assert(((0u32 >> 16u32) & 0xff) as u8 == 0u8) by (bit_vector);
    assert(((0u32 >> 24u32) & 0xff) as u8 == 0u8) by (bit_vector);
    assert(le32_bytes(0) =~= seq![0u8, 0u8, 0u8, 0u8]);
}

/// The end-of-stream page is a complete page of its own: its checksum
/// verifies, and it carries the stream, sequence number and granule position
/// it was made for, flagged as the end of the stream.
pub proof fn lemma_eos_page_is_valid(serial: u32, sequence: u32, granule: u64)
    ensures
        page_at(eos_page_spec(serial, sequence, granule), 0) == Some(27int),
        info_at(eos_page_spec(serial, sequence, granule), 0) == (PageInfo {
            serial,
            sequence,
            granule,
            end_stream: true,
        }),
{
    let h = eos_header(serial, sequence, granule);
    let p = eos_page_spec(serial, sequence, granule);
    assert(p.len() == 27);
    lemma_zero_le32();
    assert(zero_crc_field(p.subrange(0, 27)) =~= h);
    assert(p.subrange(27, 27) =~= Seq::<u8>::empty());
    assert(sum_bytes(Seq::<u8>::empty()) == 0);
    assert(declared_page_len(p, 0) == 27);
    lemma_le32_round_trip(ogg_crc_spec(h));
    assert(p.subrange(22, 26) =~= le32_bytes(ogg_crc_spec(h)));
    assert(le_u32_at(p, 22) == le_u32_at(le32_bytes(ogg_crc_spec(h)), 0));
    lemma_le64_round_trip(granule);
    assert(le_u64_at(p, 6) == le_u64_at(le64_bytes(granule), 0));
    lemma_le32_round_trip(serial);
    assert(le_u32_at(p, 14) == le_u32_at(le32_bytes(serial), 0));
    lemma_le32_round_trip(sequence);
    assert(le_u32_at(p, 18) == le_u32_at(le32_bytes(sequence), 0));
    assert(0x04u8 & 0x04u8 != 0) by (bit_vector);
}

// ---------------------------------------------------------------------------
// Recovery
// ---------------------------------------------------------------------------

/// Why a file cannot be recovered.
#[derive(Debug, Clone, Copy, PartialEq, Eq, Structural)]
pub enum RecoveryError {
    /// Not even the first page of the file is complete and valid.
    NoCompletePage,
}

/// What recovery does to a damaged recording: cut the file after
/// `valid_end` bytes, then append `eos_page` when there is one.
#[derive(Debug, Clone, PartialEq, Eq)]
pub struct RecoveryPlan {
    pub valid_end: usize,
    pub eos_page: Option<Vec<u8>>,
}

/// The page sequence number after `sequence`, wrapping around.
pub open spec fn next_sequence(sequence: u32) -> u32 {
    if sequence == u32::MAX {
        0
    } else {
        (sequence + 1) as u32
    }
}

/// The end-of-stream page that closes a stream whose last kept page is `last`.
pub open spec fn closing_page(last: PageInfo) -> Option<Seq<u8>> {
    if last.end_stream {
        None
    } else {
        Some(eos_page_spec(last.serial, next_sequence(last.sequence), last.granule))
    }
}

/// The bytes that recovery leaves: the valid prefix, and the closing page if one is needed.
pub open spec fn recovered_bytes(b: Seq<u8>) -> Seq<u8> {
    let (end, last) = scan(b, 0, None);
    match last {
        Some(info) => match closing_page(info) {
            Some(page) => b.take(end) + page,
            None => b.take(end),
        },
        None => b.take(end),
    }
}

proof fn lemma_scan_progress(b: Seq<u8>, o: int, last: Option<PageInfo>)
    requires
        0 <= o <= b.len(),
    ensures
        o <= scan(b, o, last).0 <= b.len(),
        scan(b, o, last).0 == o ==> scan(b, o, last).1 == last,
        scan(b, o, last).0 > o ==> scan(b, o, last).1 is Some,
        page_at(b, o) matches Some(len) ==> o + len <= scan(b, o, last).0,
    decreases b.len() - o,
{
    lemma_page_at_bounds(b, o);
    if let Some(len) = page_at(b, o) {
        lemma_scan_progress(b, o + len, Some(info_at(b, o)));
    }
}

/// Whether a page is valid depends only on its own bytes.
#[verifier::spinoff_prover]
proof fn lemma_page_at_local(b1: Seq<u8>, o1: int, b2: Seq<u8>, o2: int, len: int)
    requires
        page_at(b1, o1) == Some(len),
        0 <= o2,
        o2 + len <= b2.len(),
        b1.subrange(o1, o1 + len) == b2.subrange(o2, o2 + len),
    ensures
        page_at(b2, o2) == Some(len),
        info_at(b2, o2) == info_at(b1, o1),
{
    lemma_page_at_bounds(b1, o1);
    let p1 = b1.subrange(o1, o1 + len);
    let p2 = b2.subrange(o2, o2 + len);
    assert(p1.len() == len && p2.len() == len);
    assert forall|i: int| 0 <= i < len implies #[trigger] p1[i] == b1[o1 + i] by {}
    assert forall|i: int| 0 <= i < len implies #[trigger] p2[i] == b2[o2 + i] by {}
    let segments = b1[o1 + 26] as int;
    assert(p1[26] == p2[26]);
    assert(b2[o2 + 26] as int == segments);
    assert(27 + segments <= len);
    let s1 = b1.subrange(o1 + 27, o1 + 27 + segments);
    let s2 = b2.subrange(o2 + 27, o2 + 27 + segments);
    assert(s1 =~= s2) by {
        assert forall|i: int| 0 <= i < segments implies #[trigger] s1[i] == s2[i] by {
            assert(s1[i] == b1[o1 + 27 + i]);
            assert(s2[i] == b2[o2 + 27 + i]);
            assert(p1[27 + i] == p2[27 + i]);
        }
    }
    assert(zero_crc_field(b1.subrange(o1, o1 + len)) =~= zero_crc_field(b2.subrange(o2, o2 + len)));
    assert(declared_page_len(b2, o2) == len);
    assert(p1[22] == p2[22]);
    assert(p1[23] == p2[23]);
    assert(p1[24] == p2[24]);
    assert(p1[25] == p2[25]);
    assert(p1[5] == p2[5]);
    assert(p1[6] == p2[6]);
    assert(p1[7] == p2[7]);
    assert(p1[8] == p2[8]);
    assert(p1[9] == p2[9]);
    assert(p1[10] == p2[10]);
    assert(p1[11] == p2[11]);
    assert(p1[12] == p2[12]);
    assert(p1[13] == p2[13]);
    assert(p1[14] == p2[14]);
    assert(p1[15] == p2[15]);
    assert(p1[16] == p2[16]);
    assert(p1[17] == p2[17]);
    assert(p1[18] == p2[18]);
    assert(p1[19] == p2[19]);
    assert(p1[20] == p2[20]);
    assert(p1[21] == p2[21]);
    assert(p1[0] == p2[0]);
    assert(p1[1] == p2[1]);
    assert(p1[2] == p2[2]);
    assert(p1[3] == p2[3]);
}

/// Scanning a file whose start agrees with `b` up to where the scan of `b`
/// stopped passes over the same pages.
proof fn lemma_scan_prefix(b: Seq<u8>, b2: Seq<u8>, o: int, last: Option<PageInfo>)
    requires
        0 <= o <= b.len(),
        scan(b, o, last).0 <= b2.len(),
        b2.take(scan(b, o, last).0) == b.take(scan(b, o, last).0),
    ensures
        scan(b2, o, last) == scan(b2, scan(b, o, last).0, scan(b, o, last).1),
    decreases b.len() - o,
{
    lemma_page_at_bounds(b, o);
    lemma_scan_progress(b, o, last);
    let e = scan(b, o, last).0;
    if let Some(len) = page_at(b, o) {
        assert(b.subrange(o, o + len) =~= b2.subrange(o, o + len)) by {
            assert forall|i: int| 0 <= i < len implies #[trigger] b.subrange(o, o + len)[i] == b2.subrange(
                o,
                o + len,
            )[i] by {
                assert(b.take(e)[o + i] == b2.take(e)[o + i]);
            }
        }
        lemma_page_at_local(b, o, b2, o, len);
        lemma_scan_progress(b, o + len, Some(info_at(b, o)));
        lemma_scan_prefix(b, b2, o + len, Some(info_at(b, o)));
    }
}

/// Scanning a valid prefix followed by an end-of-stream page passes over both.
proof fn lemma_scan_closed_tail(r: Seq<u8>, end: int, page: Seq<u8>, serial: u32, sequence: u32, granule: u64, last: Option<PageInfo>)
    requires
        0 <= end,
        page == eos_page_spec(serial, sequence, granule),
        r.len() == end + 27,
        r.subrange(end, end + 27) == page,
    ensures
        scan(r, end, last) == (end + 27, Some(PageInfo { serial, sequence, granule, end_stream: true })),
{
    lemma_eos_page_is_valid(serial, sequence, granule);
    assert(page.subrange(0, 27) =~= page);
    lemma_page_at_local(page, 0, r, end, 27);
    assert(page_at(r, end + 27) is None);
    let tail = Some(info_at(r, end));
    assert(scan(r, end + 27, tail) == (end + 27, tail));
    assert(scan(r, end, last) == scan(r, end + 27, tail));
}

/// Recovery keeps exactly the pages that survived and closes the stream:
/// scanning the recovered bytes passes over all of them, the result ends
/// with a page that marks the end of the stream, and the kept pages are
/// those of the damaged file, byte for byte.
pub proof fn lemma_recovered_file_is_complete(b: Seq<u8>)
    requires
        scan(b, 0, None).0 > 0,
    ensures
        ({
            let r = recovered_bytes(b);
            let end = scan(b, 0, None).0;
            &&& scan(r, 0, None).0 == r.len()
            &&& scan(r, 0, None).1 matches Some(info) && info.end_stream
            &&& r.take(end) == b.take(end)
        }),
{
    lemma_scan_progress(b, 0, None);
    let end = scan(b, 0, None).0;
    let last = scan(b, 0, None).1;
    let info = last->0;
    let r = recovered_bytes(b);
    if info.end_stream {
        assert(r == b.take(end));
        assert(r.take(end) =~= b.take(end));
        lemma_scan_prefix(b, r, 0, None);
        assert(page_at(r, end) is None);
    } else {
        let page = eos_page_spec(info.serial, next_sequence(info.sequence), info.granule);
        assert(r == b.take(end) + page);
        assert(r.take(end) =~= b.take(end));
        lemma_scan_prefix(b, r, 0, None);
        assert(r.subrange(end, end + 27) =~= page);
        lemma_scan_closed_tail(r, end, page, info.serial, next_sequence(info.sequence), info.granule, last);
    }
}

/// How to recover a damaged recording held in `bytes`.
pub fn plan_recovery(bytes: &[u8]) -> (r: Result<RecoveryPlan, RecoveryError>)
    ensures
        scan(bytes@, 0, None).0 == 0 <==> r is Err,
        r matches Ok(plan) ==> {
            &&& plan.valid_end as int == scan(bytes@, 0, None).0
            &&& match scan(bytes@, 0, None).1 {
                Some(info) => match closing_page(info) {
                    Some(page) => plan.eos_page matches Some(p) && p@ == page,
                    None => plan.eos_page is None,
                },
                None => plan.eos_page is None,
            }
        },
{
    let (valid_end, last) = scan_pages(bytes);
    if valid_end == 0 {
        return Err(RecoveryError::NoCompletePage);
    }
    let eos = match last {
        Some(info) => if info.end_stream {
            None
        } else {
            let next = if info.sequence == u32::MAX {
                0
            } else {
                info.sequence + 1
            };
            Some(eos_page(info.serial, next, info.granule))
        },
        None => None,
    };
    Ok(RecoveryPlan { valid_end, eos_page: eos })
}

} // verus!
