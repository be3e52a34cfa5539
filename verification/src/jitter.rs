//! Timing decisions of a capture stream's jitter buffer: how far a packet
//! is from where it was expected, what is done about a gap or an overlap,
//! and how fast the buffer is drained. The sample values themselves are
//! mixed elsewhere.
use vstd::prelude::*;

verus! {

/// Ticks of the capture clock per second (100 ns units).
pub const TICKS_PER_SECOND: u64 = 10_000_000;

/// Start offsets larger than this are not padded with silence.
pub const MAX_ALIGNMENT_GAP_100NS: u64 = 20_000_000;

/// Samples per output frame at the recording rate.
pub const FRAME_SAMPLES: usize = 480;

/// Audio buffered before a stream starts playing, in milliseconds.
pub const BUFFER_RESERVE_MS: usize = 80;

/// `x * rate / ticks` rounded toward zero, for a signed tick count.
pub open spec fn ticks_to_samples(delta: int, rate: int) -> int {
    if delta >= 0 {
        delta * rate / 10_000_000
    } else {
        -((-delta) * rate / 10_000_000)
    }
}

/// How many samples a packet is off from where the stream expected it:
/// by device position when both positions are known (a jump of more than
/// five seconds starts a new timeline and counts as no offset), else by
/// timestamp when the gap is more than 2 ms and less than 5 s or the
/// overlap more than 2 ms.
pub open spec fn packet_offset_spec(
    expected_position: Option<u64>,
    position: Option<u64>,
    expected_timestamp: Option<u64>,
    timestamp: u64,
    rate: u32,
) -> Option<int> {
    match (position, expected_position) {
        (Some(p), Some(e)) => {
            let delta = p - e;
            let magnitude = if delta < 0 {
                -delta
            } else {
                delta
            };
            if magnitude > rate * 5 {
                None
            } else {
                Some(delta)
            }
        },
        _ => match expected_timestamp {
            Some(e) => {
                let delta = timestamp - e;
                if (delta > 20_000 && delta < 50_000_000) || delta < -20_000 {
                    Some(ticks_to_samples(delta, rate as int))
                } else {
                    None
                }
            },
            None => None,
        },
    }
}

pub fn packet_offset(
    expected_position: Option<u64>,
    position: Option<u64>,
    expected_timestamp: Option<u64>,
    timestamp: u64,
    rate: u32,
) -> (r: Option<i128>)
    ensures
        match packet_offset_spec(expected_position, position, expected_timestamp, timestamp, rate) {
            Some(d) => r == Some(d as i128),
            None => r is None,
        },
{
    match (position, expected_position) {
        (Some(p), Some(e)) => {
            let delta = p as i128 - e as i128;
            let magnitude = if delta < 0 {
                -delta
            } else {
                delta
            };
            if magnitude > rate as i128 * 5 {
                None
            } else {
                Some(delta)
            }
        },
        _ => match expected_timestamp {
            Some(e) => {
                let delta = timestamp as i128 - e as i128;
                if (delta > 20_000 && delta < 50_000_000) || delta < -20_000 {
                    if delta >= 0 {
                        assert(delta * rate <= 50_000_000 * 4_294_967_295) by (nonlinear_arith)
                            requires
                                0 <= delta < 50_000_000,
                                rate <= 4_294_967_295,
                        ;
                        Some(delta * rate as i128 / 10_000_000)
                    } else {
                        let m = -delta;
                        assert(m * rate <= 18_446_744_073_709_551_616 * 4_294_967_295) by (nonlinear_arith)
                            requires
                                0 < m <= 18_446_744_073_709_551_616,
                                rate <= 4_294_967_295,
                        ;
                        Some(-(m * rate as i128 / 10_000_000))
                    }
                } else {
                    None
                }
            },
            None => None,
        },
    }
}

/// What a packet's offset calls for.
#[derive(Debug, Clone, Copy, PartialEq, Eq, Structural)]
pub enum PacketAlignment {
    /// Fill this many missing samples before the packet.
    Conceal(usize),
    /// Drop this many samples that were already heard.
    Trim(usize),
    /// The whole packet was already heard.
    Drop,
    /// The packet follows on.
    InPlace,
}

/// A gap is filled, at most five seconds of it; an overlap is cut off the
/// packet, or the packet dropped when it is all overlap.
pub open spec fn alignment_spec(offset: Option<int>, sample_count: usize, rate: u32) -> PacketAlignment {
    match offset {
        Some(d) => if d > 0 {
            PacketAlignment::Conceal(
                (if d < rate * 5 {
                    d
                } else {
                    rate * 5
                }) as usize,
            )
        } else if d < 0 {
            if -d >= sample_count {
                PacketAlignment::Drop
            } else {
                PacketAlignment::Trim((-d) as usize)
            }
        } else {
            PacketAlignment::InPlace
        },
        None => PacketAlignment::InPlace,
    }
}

pub fn packet_alignment(offset: Option<i128>, sample_count: usize, rate: u32) -> (r: PacketAlignment)
    requires
        rate as int * 5 <= usize::MAX,
    ensures
        r == alignment_spec(
            match offset {
                Some(d) => Some(d as int),
                None => None,
            },
            sample_count,
            rate,
        ),
{
    match offset {
        Some(d) => if d > 0 {
            let limit = rate as i128 * 5;
            let missing = if d < limit {
                d
            } else {
                limit
            };
            PacketAlignment::Conceal(missing as usize)
        } else if d < 0 {
            if d <= -(sample_count as i128) {
                PacketAlignment::Drop
            } else {
                PacketAlignment::Trim((-d) as usize)
            }
        } else {
            PacketAlignment::InPlace
        },
        None => PacketAlignment::InPlace,
    }
}

/// A packet's length in capture ticks.
pub fn packet_duration_100ns(sample_count: u64, rate: u32) -> (r: u64)
    requires
        sample_count <= u64::MAX / TICKS_PER_SECOND,
    ensures
        r == sample_count * TICKS_PER_SECOND / (if rate == 0 {
            1
        } else {
            rate as int
        }),
{
    let divisor: u64 = if rate == 0 {
        1
    } else {
        rate as u64
    };
    sample_count * TICKS_PER_SECOND / divisor
}

/// Silence put before a stream that started after the mix's origin, so the
/// two streams line up; an offset over two seconds is not padded.
pub open spec fn alignment_silence_spec(first: Option<u64>, origin: u64, rate: u32) -> nat {
    match first {
        None => 0,
        Some(f) => {
            let gap = if f > origin {
                f - origin
            } else {
                0
            };
            if gap == 0 || gap > MAX_ALIGNMENT_GAP_100NS {
                0
            } else {
                (gap * rate / 10_000_000) as nat
            }
        },
    }
}

pub fn alignment_silence(first: Option<u64>, origin: u64, rate: u32) -> (r: u64)
    ensures
        r == alignment_silence_spec(first, origin, rate),
{
    match first {
        None => 0,
        Some(f) => {
            let gap = if f > origin {
                f - origin
            } else {
                0
            };
            if gap == 0 || gap > MAX_ALIGNMENT_GAP_100NS {
                0
            } else {
                assert(gap * rate <= 20_000_000 * 4_294_967_295) by (nonlinear_arith)
                    requires
                        gap <= 20_000_000,
                        rate <= 4_294_967_295,
                ;
                gap * rate as u64 / 10_000_000
            }
        },
    }
}

/// Samples a stream at the recording rate takes for one frame: one more
/// when its buffer holds more than 300 ms plus a frame, one fewer when it
/// holds less than 300 ms minus a frame, so the buffer drifts back to
/// 300 ms.
pub fn native_frame_consumption(buffered: usize) -> (r: usize)
    ensures
        r == (if buffered > 14_400 + FRAME_SAMPLES {
            FRAME_SAMPLES + 1
        } else if buffered + FRAME_SAMPLES < 14_400 {
            FRAME_SAMPLES - 1
        } else {
            FRAME_SAMPLES as int
        }),
        FRAME_SAMPLES - 1 <= r <= FRAME_SAMPLES + 1,
{
    let target: usize = 48_000 * 300 / 1_000;
    if buffered > target + FRAME_SAMPLES {
        FRAME_SAMPLES + 1
    } else if buffered < target - FRAME_SAMPLES {
        FRAME_SAMPLES - 1
    } else {
        FRAME_SAMPLES
    }
}

/// A stream starts once it holds 80 ms of audio beyond what the next frame
/// needs.
pub fn ready_to_start(buffered: usize, rate: u32, needed: usize) -> (r: bool)
    ensures
        r == (buffered >= rate * BUFFER_RESERVE_MS / 1_000 + needed),
{
    let reserve = rate as u64 * BUFFER_RESERVE_MS as u64 / 1_000;
    buffered as u128 >= reserve as u128 + needed as u128
}

} // verus!
