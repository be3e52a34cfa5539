//! Byte layouts of the audio containers the recorder writes: the Opus
//! identification and comment headers of the Ogg stream, the packet and page
//! bookkeeping of the encoder, and the 16-bit PCM WAVE files sent to speech
//! recognition services.
use crate::ogg::{le32_bytes, push_le_u32};
use vstd::prelude::*;

verus! {

/// Sample rate of everything the recorder captures and encodes.
pub const SAMPLE_RATE: u32 = 48_000;

/// Samples per channel in one encoded Opus packet (20 ms at 48 kHz).
pub const OPUS_FRAME_SAMPLES: u64 = 960;

/// Sample rate of the WAVE files sent for transcription.
pub const ASR_SAMPLE_RATE: u32 = 16_000;

/// The two little-endian bytes of `x`.
pub open spec fn le16_bytes(x: u16) -> Seq<u8> {
    seq![(x & 0xff) as u8, ((x >> 8u16) & 0xff) as u8]
}

pub fn push_le_u16(out: &mut Vec<u8>, x: u16)
    ensures
        final(out)@ == old(out)@ + le16_bytes(x),
{
    out.push((x & 0xff) as u8);
    out.push(((x >> 8u16) & 0xff) as u8);
    assert(out@ =~= old(out)@ + le16_bytes(x));
}

fn push_bytes(out: &mut Vec<u8>, bytes: &[u8])
    ensures
        final(out)@ == old(out)@ + bytes@,
{
    let mut i: usize = 0;
    while i < bytes.len()
        invariant
            i <= bytes@.len(),
            out@ == old(out)@ + bytes@.take(i as int),
        decreases bytes@.len() - i,
    {
        out.push(bytes[i]);
        i = i + 1;
        assert(out@ =~= old(out)@ + bytes@.take(i as int));
    }
    assert(bytes@.take(bytes@.len() as int) =~= bytes@);
}

/// `OpusHead`: version 1, one channel, the encoder's pre-skip, 48 kHz input,
/// no output gain, channel mapping family 0.
pub open spec fn opus_head_spec(pre_skip: u16) -> Seq<u8> {
    seq![0x4fu8, 0x70u8, 0x75u8, 0x73u8, 0x48u8, 0x65u8, 0x61u8, 0x64u8, 1u8, 1u8] + le16_bytes(
        pre_skip,
    ) + le32_bytes(SAMPLE_RATE) + le16_bytes(0) + seq![0u8]
}

/// The vendor string of the comment header, `Nota 0.1`.
pub open spec fn vendor_bytes() -> Seq<u8> {
    seq![0x4eu8, 0x6fu8, 0x74u8, 0x61u8, 0x20u8, 0x30u8, 0x2eu8, 0x31u8]
}

/// The single user comment, `ENCODER=Nota`.
pub open spec fn encoder_comment_bytes() -> Seq<u8> {
    seq![
        0x45u8,
        0x4eu8,
        0x43u8,
        0x4fu8,
        0x44u8,
        0x45u8,
        0x52u8,
        0x3du8,
        0x4eu8,
        0x6fu8,
        0x74u8,
        0x61u8,
    ]
}

/// `OpusTags`: the vendor string and one comment, each preceded by its length.
pub open spec fn opus_tags_spec() -> Seq<u8> {
    seq![0x4fu8, 0x70u8, 0x75u8, 0x73u8, 0x54u8, 0x61u8, 0x67u8, 0x73u8] + le32_bytes(8)
        + vendor_bytes() + le32_bytes(1) + le32_bytes(12) + encoder_comment_bytes()
}

/// The Opus identification header for a mono 48 kHz stream.
pub fn opus_head(pre_skip: u16) -> (packet: Vec<u8>)
    ensures
        packet@ == opus_head_spec(pre_skip),
{
    let mut packet: Vec<u8> = Vec::with_capacity(19);
    let magic: [u8; 8] = [0x4f, 0x70, 0x75, 0x73, 0x48, 0x65, 0x61, 0x64];
    push_bytes(&mut packet, &magic);
    packet.push(1);
    packet.push(1);
    push_le_u16(&mut packet, pre_skip);
    push_le_u32(&mut packet, SAMPLE_RATE);
    push_le_u16(&mut packet, 0);
    packet.push(0);
    assert(packet@ =~= opus_head_spec(pre_skip));
    packet
}

/// The Opus comment header naming Nota as the encoder.
pub fn opus_tags() -> (packet: Vec<u8>)
    ensures
        packet@ == opus_tags_spec(),
{
    let mut packet: Vec<u8> = Vec::new();
    let magic: [u8; 8] = [0x4f, 0x70, 0x75, 0x73, 0x54, 0x61, 0x67, 0x73];
    let vendor: [u8; 8] = [0x4e, 0x6f, 0x74, 0x61, 0x20, 0x30, 0x2e, 0x31];
    let comment: [u8; 12] = [0x45, 0x4e, 0x43, 0x4f, 0x44, 0x45, 0x52, 0x3d, 0x4e, 0x6f, 0x74, 0x61];
    push_bytes(&mut packet, &magic);
    push_le_u32(&mut packet, 8);
    push_bytes(&mut packet, &vendor);
    push_le_u32(&mut packet, 1);
    push_le_u32(&mut packet, 12);
    push_bytes(&mut packet, &comment);
    assert(packet@ =~= opus_tags_spec());
    packet
}

/// Where an encoded packet goes in the Ogg stream.
#[derive(Debug, Clone, Copy, PartialEq, Eq, Structural)]
pub struct PacketPlacement {
    /// Granule position written with the packet.
    pub granule_position: u64,
    /// The packet closes its page.
    pub end_page: bool,
    /// The buffered output is flushed after the packet.
    pub flush: bool,
    /// The file's data is synced to disk after the packet.
    pub sync: bool,
}

/// Packet count and granule position of the audio stream being written.
///
/// Each packet holds 960 samples; every 50th packet (one second of audio)
/// closes its page and flushes the output, and every 250th packet syncs the
/// file, so a crash loses at most the audio since the last complete page.
#[derive(Debug, Clone, Copy, PartialEq, Eq, Structural)]
pub struct PacketClock {
    pub granule_position: u64,
    pub packet_count: u64,
}

impl PacketClock {
    /// The clock of a new stream: the granule position starts at the
    /// encoder's pre-skip.
    pub fn new(pre_skip: u16) -> (c: Self)
        ensures
            c.granule_position == pre_skip as u64,
            c.packet_count == 0,
    {
        PacketClock { granule_position: pre_skip as u64, packet_count: 0 }
    }

    /// Accounts for one more audio packet of the running stream.
    pub fn next_packet(&mut self) -> (p: PacketPlacement)
        requires
            old(self).granule_position + OPUS_FRAME_SAMPLES <= u64::MAX,
            old(self).packet_count < u64::MAX,
        ensures
            final(self).granule_position == old(self).granule_position + OPUS_FRAME_SAMPLES,
            final(self).packet_count == old(self).packet_count + 1,
            p.granule_position == final(self).granule_position,
            p.end_page == (final(self).packet_count % 50 == 0),
            p.flush == (final(self).packet_count % 50 == 0),
            p.sync == (final(self).packet_count % 250 == 0),
    {
        self.granule_position = self.granule_position + OPUS_FRAME_SAMPLES;
        self.packet_count = self.packet_count + 1;
        let page_boundary = self.packet_count % 50 == 0;
        PacketPlacement {
            granule_position: self.granule_position,
            end_page: page_boundary,
            flush: page_boundary,
            sync: self.packet_count % 250 == 0,
        }
    }

    /// Accounts for the final packet, which closes the stream.
    pub fn last_packet(&mut self) -> (granule: u64)
        requires
            old(self).granule_position + OPUS_FRAME_SAMPLES <= u64::MAX,
        ensures
            final(self).granule_position == old(self).granule_position + OPUS_FRAME_SAMPLES,
            final(self).packet_count == old(self).packet_count,
            granule == final(self).granule_position,
    {
        self.granule_position = self.granule_position + OPUS_FRAME_SAMPLES;
        self.granule_position
    }
}

/// Why a WAVE file cannot be written.
#[derive(Debug, Clone, Copy, PartialEq, Eq, Structural)]
pub enum WavError {
    /// The sample data does not fit in memory sizes.
    TooLarge,
}

/// Size field of the data chunk: the byte count of the samples, capped at
/// the largest 32-bit value.
pub open spec fn wav_data_size(samples: nat) -> u32 {
    if samples * 2 > u32::MAX {
        u32::MAX
    } else {
        (samples * 2) as u32
    }
}

/// The 44-byte header of a mono 16-bit PCM WAVE file at 16 kHz holding
/// `samples` samples.
pub open spec fn wav_header_spec(samples: nat) -> Seq<u8> {
    let data_size = wav_data_size(samples);
    let riff_size: u32 = if 36 + data_size > u32::MAX {
        u32::MAX
    } else {
        (36 + data_size) as u32
    };
    seq![0x52u8, 0x49u8, 0x46u8, 0x46u8] + le32_bytes(riff_size) + seq![
        0x57u8,
        0x41u8,
        0x56u8,
        0x45u8,
        0x66u8,
        0x6du8,
        0x74u8,
        0x20u8,
    ] + le32_bytes(16) + le16_bytes(1) + le16_bytes(1) + le32_bytes(ASR_SAMPLE_RATE) + le32_bytes(
        32_000u32,
    ) + le16_bytes(2) + le16_bytes(16) + seq![0x64u8, 0x61u8, 0x74u8, 0x61u8] + le32_bytes(
        data_size,
    )
}

/// The little-endian bytes of the samples, in order.
pub open spec fn pcm16_bytes(samples: Seq<i16>) -> Seq<u8>
    decreases samples.len(),
{
    if samples.len() == 0 {
        seq![]
    } else {
        pcm16_bytes(samples.drop_last()) + le16_bytes(samples.last() as u16)
    }
}

/// The complete WAVE file for `samples`.
pub fn pcm16_wav(samples: &[i16]) -> (r: Result<Vec<u8>, WavError>)
    ensures
        samples@.len() * 2 > usize::MAX <==> r is Err,
        r matches Ok(bytes) ==> bytes@ == wav_header_spec(samples@.len()) + pcm16_bytes(samples@),
{
    let count = samples.len();
    let data_bytes = match count.checked_mul(2) {
        Some(value) => value,
        None => return Err(WavError::TooLarge),
    };
    let data_size: u32 = if data_bytes > u32::MAX as usize {
        u32::MAX
    } else {
        data_bytes as u32
    };
    let riff_size: u32 = if data_size > u32::MAX - 36 {
        u32::MAX
    } else {
        data_size + 36
    };
    let mut out: Vec<u8> = Vec::new();
    let riff: [u8; 4] = [0x52, 0x49, 0x46, 0x46];
    let wave_fmt: [u8; 8] = [0x57, 0x41, 0x56, 0x45, 0x66, 0x6d, 0x74, 0x20];
    let data: [u8; 4] = [0x64, 0x61, 0x74, 0x61];
    push_bytes(&mut out, &riff);
    push_le_u32(&mut out, riff_size);
    push_bytes(&mut out, &wave_fmt);
    push_le_u32(&mut out, 16);
    push_le_u16(&mut out, 1);
    push_le_u16(&mut out, 1);
    push_le_u32(&mut out, ASR_SAMPLE_RATE);
    push_le_u32(&mut out, ASR_SAMPLE_RATE * 2);
    push_le_u16(&mut out, 2);
    push_le_u16(&mut out, 16);
    push_bytes(&mut out, &data);
    push_le_u32(&mut out, data_size);
    let ghost header = out@;
    assert(header =~= wav_header_spec(count as nat));
    let mut i: usize = 0;
    while i < count
        invariant
            i <= count == samples@.len(),
            out@ == header + pcm16_bytes(samples@.take(i as int)),
        decreases count - i,
    {
        assert(samples@.take(i + 1).drop_last() =~= samples@.take(i as int));
        push_le_u16(&mut out, samples[i] as u16);
        assert(out@ =~= header + pcm16_bytes(samples@.take(i + 1)));
        i = i + 1;
    }
    assert(samples@.take(count as int) =~= samples@);
    Ok(out)
}

} // verus!
