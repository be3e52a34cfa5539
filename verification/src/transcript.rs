//! Chunked transcription: how a long recording is cut into overlapping
//! ten-minute chunks, and how the chunk transcripts are joined again without
//! repeating what the overlap heard twice.
use crate::models::{StoredTranscriptionChunk, TranscriptSegment};
use crate::text::{
    chars_of, is_blank, is_blank_chars, string_from_chars, trim, trim_chars, trim_start,
    trim_start_chars, trim_str, push_chars,
};
use vstd::prelude::*;

verus! {

/// Length of one transcription chunk.
pub const CHUNK_DURATION_MS: u64 = 600_000;

/// Audio shared by two consecutive chunks.
pub const CHUNK_OVERLAP_MS: u64 = 2_000;

/// Distance between the starts of two consecutive chunks.
pub open spec fn chunk_stride() -> int {
    CHUNK_DURATION_MS - CHUNK_OVERLAP_MS
}

/// Number of chunks a recording of `duration_ms` is cut into.
pub open spec fn chunk_count_spec(duration_ms: u64) -> u32 {
    if duration_ms <= CHUNK_DURATION_MS {
        1
    } else {
        let remaining = duration_ms - CHUNK_DURATION_MS;
        let extra = (remaining + chunk_stride() - 1) / chunk_stride();
        if 1 + extra > u32::MAX {
            u32::MAX
        } else {
            (1 + extra) as u32
        }
    }
}

pub fn chunk_count(duration_ms: u64) -> (r: u32)
    ensures
        r == chunk_count_spec(duration_ms),
{
    if duration_ms <= CHUNK_DURATION_MS {
        return 1;
    }
    let stride = CHUNK_DURATION_MS - CHUNK_OVERLAP_MS;
    let remaining = duration_ms - CHUNK_DURATION_MS;
    let round_up: u64 = if remaining % stride == 0 {
        0
    } else {
        1
    };
    let extra = remaining / stride + round_up;
    assert(extra == (remaining + stride - 1) / (stride as int)) by (nonlinear_arith)
        requires
            stride == 598_000,
            round_up == (if remaining % stride == 0 { 0int } else { 1int }),
            extra == remaining / stride + round_up,
    ;
    if extra >= u32::MAX as u64 {
        u32::MAX
    } else {
        (1 + extra) as u32
    }
}

/// Start of chunk `index` within the recording.
pub open spec fn chunk_start_spec(index: int) -> int {
    index * chunk_stride()
}

/// End of chunk `index` within the recording.
pub open spec fn chunk_end_spec(index: int) -> int {
    chunk_start_spec(index) + CHUNK_DURATION_MS
}

pub fn chunk_start_ms(index: u32) -> (r: u64)
    ensures
        r == chunk_start_spec(index as int),
{
    index as u64 * (CHUNK_DURATION_MS - CHUNK_OVERLAP_MS)
}

/// The chunks cover the whole recording: each chunk ends two seconds after
/// the next one starts, and the last one reaches the end of the recording
/// (unless the count saturated).
pub proof fn lemma_chunks_cover_recording(duration_ms: u64)
    requires
        chunk_count_spec(duration_ms) < u32::MAX,
    ensures
        chunk_count_spec(duration_ms) >= 1,
        chunk_end_spec(chunk_count_spec(duration_ms) - 1) >= duration_ms,
        forall|i: int| #[trigger] chunk_end_spec(i) == chunk_start_spec(i + 1) + CHUNK_OVERLAP_MS,
{
    if duration_ms > CHUNK_DURATION_MS {
        let remaining = duration_ms - CHUNK_DURATION_MS;
        let extra = (remaining + chunk_stride() - 1) / chunk_stride();
        assert(extra * chunk_stride() >= remaining) by (nonlinear_arith)
            requires
                extra == (remaining + 598_000 - 1) / 598_000,
                remaining >= 0,
                chunk_stride() == 598_000,
        ;
    }
    assert forall|i: int| #[trigger] chunk_end_spec(i) == chunk_start_spec(i + 1) + CHUNK_OVERLAP_MS by {
        assert((i + 1) * 598_000 == i * 598_000 + 598_000) by (nonlinear_arith);
    }
}

// ---------------------------------------------------------------------------
// Joining text without repeating the overlap
// ---------------------------------------------------------------------------

/// Longest overlap that is looked for, in characters.
pub const MAX_TEXT_OVERLAP: usize = 240;

/// The largest `k` at most `limit` such that `out` ends with the first `k`
/// characters of `next`, or 0.
pub open spec fn overlap_len(out: Seq<char>, next: Seq<char>, limit: nat) -> nat
    decreases limit,
{
    if limit == 0 {
        0
    } else if out.subrange(out.len() - limit, out.len() as int) == next.subrange(0, limit as int) {
        limit
    } else {
        overlap_len(out, next, (limit - 1) as nat)
    }
}

pub open spec fn overlap_limit(out: Seq<char>, next: Seq<char>) -> nat {
    let a = if out.len() < next.len() {
        out.len()
    } else {
        next.len()
    };
    if a < MAX_TEXT_OVERLAP {
        a
    } else {
        MAX_TEXT_OVERLAP as nat
    }
}

/// `out` followed by `next` with the longest overlap between the end of
/// `out` and the start of `next` removed; text that starts afresh goes on a
/// new line, and nothing is added when only whitespace is left.
pub open spec fn append_without_overlap_spec(out: Seq<char>, next: Seq<char>) -> Seq<char> {
    if next.len() == 0 {
        out
    } else if out.len() == 0 {
        next
    } else {
        let overlap = overlap_len(out, next, overlap_limit(out, next));
        let remainder = next.skip(overlap as int);
        if is_blank(remainder) {
            out
        } else if overlap == 0 {
            out.push('\n') + trim_start(remainder)
        } else {
            out + trim_start(remainder)
        }
    }
}

proof fn lemma_overlap_len_bound(out: Seq<char>, next: Seq<char>, limit: nat)
    ensures
        overlap_len(out, next, limit) <= limit,
    decreases limit,
{
    if limit > 0 {
        lemma_overlap_len_bound(out, next, (limit - 1) as nat);
    }
}

/// Whether `out` ends with the first `k` characters of `next`.
fn suffix_matches_prefix(out: &[char], next: &[char], k: usize) -> (r: bool)
    requires
        k <= out.len(),
        k <= next.len(),
    ensures
        r == (out@.subrange(out@.len() - k, out@.len() as int) == next@.subrange(0, k as int)),
{
    let base = out.len() - k;
    let mut i: usize = 0;
    while i < k
        invariant
            k <= out.len(),
            k <= next.len(),
            base == out.len() - k,
            i <= k,
            forall|j: int| 0 <= j < i ==> out@[base + j] == next@[j],
        decreases k - i,
    {
        if out[base + i] != next[i] {
            assert(out@.subrange(base as int, out@.len() as int)[i as int] != next@.subrange(
                0,
                k as int,
            )[i as int]);
            return false;
        }
        i = i + 1;
    }
    assert(out@.subrange(base as int, out@.len() as int) =~= next@.subrange(0, k as int));
    true
}

/// [`append_without_overlap_spec`] on characters.
pub fn append_chars_without_overlap(out: &mut Vec<char>, next: &[char])
    ensures
        final(out)@ == append_without_overlap_spec(old(out)@, next@),
{
    if next.len() == 0 {
        return;
    }
    if out.len() == 0 {
        push_chars(out, next);
        return;
    }
    let mut limit = if out.len() < next.len() {
        out.len()
    } else {
        next.len()
    };
    if limit > MAX_TEXT_OVERLAP {
        limit = MAX_TEXT_OVERLAP;
    }
    let ghost full_limit = limit as nat;
    let mut overlap = limit;
    while overlap > 0 && !suffix_matches_prefix(out, next, overlap)
        invariant
            overlap <= full_limit,
            full_limit == overlap_limit(out@, next@),
            full_limit <= out@.len(),
            full_limit <= next@.len(),
            overlap_len(out@, next@, full_limit) == overlap_len(out@, next@, overlap as nat),
        decreases overlap,
    {
        overlap = overlap - 1;
    }
    assert(overlap_len(out@, next@, overlap as nat) == overlap as nat);
    let remainder = slice_from(next, overlap);
    if is_blank_chars(&remainder) {
        return;
    }
    if overlap == 0 {
        out.push('\n');
    }
    let trimmed = trim_start_chars(&remainder);
    push_chars(out, &trimmed);
}

fn slice_from(s: &[char], from: usize) -> (r: Vec<char>)
    requires
        from <= s@.len(),
    ensures
        r@ == s@.skip(from as int),
{
    let r = crate::text::slice_to_vec(s, from, s.len());
    assert(r@ =~= s@.skip(from as int));
    r
}

/// Appends `next` to `output`, dropping the part of `next` that repeats the
/// end of `output`.
pub fn append_without_overlap(output: &mut String, next: &str)
    ensures
        final(output)@ == append_without_overlap_spec(old(output)@, next@),
{
    let mut chars = chars_of(output.as_str());
    let next_chars = chars_of(next);
    append_chars_without_overlap(&mut chars, &next_chars);
    *output = string_from_chars(&chars);
}

/// `out` ends with the first `k` characters of `next`.
pub open spec fn ends_with_start_of(out: Seq<char>, next: Seq<char>, k: int) -> bool {
    0 <= k <= out.len() && k <= next.len() && out.subrange(out.len() - k, out.len() as int)
        == next.subrange(0, k)
}

proof fn lemma_overlap_len_finds(out: Seq<char>, next: Seq<char>, limit: nat, k: nat)
    requires
        k <= limit <= out.len(),
        limit <= next.len(),
        ends_with_start_of(out, next, k as int),
        forall|j: int| k < j <= limit ==> !#[trigger] ends_with_start_of(out, next, j),
    ensures
        overlap_len(out, next, limit) == k,
    decreases limit,
{
    if limit > k {
        assert(!ends_with_start_of(out, next, limit as int));
        lemma_overlap_len_finds(out, next, (limit - 1) as nat, k);
    } else if k > 0 {
    } else {
    }
}

/// Joining removes the longest repeated stretch, up to 240 characters: when
/// the end of `out` and the start of `next` share `k` characters and no
/// longer stretch within 240 characters, the result is `out` followed by the
/// rest of `next` after those `k` characters, without its leading
/// whitespace, on a new line when nothing was shared, and `out` alone when
/// only whitespace is left.
pub proof fn lemma_append_removes_longest_overlap(out: Seq<char>, next: Seq<char>, k: int)
    requires
        out.len() > 0,
        next.len() > 0,
        0 <= k <= 240,
        ends_with_start_of(out, next, k),
        forall|j: int|
            k < j <= 240 && j <= out.len() && j <= next.len() ==> !#[trigger] ends_with_start_of(
                out,
                next,
                j,
            ),
    ensures
        append_without_overlap_spec(out, next) == (if is_blank(next.skip(k)) {
            out
        } else if k == 0 {
            out.push('\n') + trim_start(next.skip(k))
        } else {
            out + trim_start(next.skip(k))
        }),
{
    let limit = overlap_limit(out, next);
    assert(limit <= 240 && limit <= out.len() && limit <= next.len());
    assert(k <= limit);
    lemma_overlap_len_finds(out, next, limit, k as nat);
}

/// Appending never loses text already written.
pub proof fn lemma_append_keeps_prefix(out: Seq<char>, next: Seq<char>)
    ensures
        out.is_prefix_of(append_without_overlap_spec(out, next)),
{
    if next.len() != 0 && out.len() != 0 {
        let overlap = overlap_len(out, next, overlap_limit(out, next));
        let remainder = next.skip(overlap as int);
        if !is_blank(remainder) {
            let r = append_without_overlap_spec(out, next);
            if overlap == 0 {
                assert(r.subrange(0, out.len() as int) =~= out);
            } else {
                assert(r.subrange(0, out.len() as int) =~= out);
            }
        }
    } else if next.len() != 0 {
        assert(out.len() == 0);
        assert(next.subrange(0, 0) =~= out);
    } else {
        assert(out.subrange(0, out.len() as int) =~= out);
    }
}

/// What a transcription service returned for one file or chunk.
#[derive(Debug, Clone)]
pub struct ProviderTranscript {
    pub text: String,
    pub language: Option<String>,
    pub segments: Vec<TranscriptSegment>,
}

// ---------------------------------------------------------------------------
// Merging chunk transcripts
// ---------------------------------------------------------------------------

/// `a + b`, saturating at `u64::MAX`.
pub open spec fn sat_add(a: u64, b: u64) -> u64 {
    if a + b > u64::MAX {
        u64::MAX
    } else {
        (a + b) as u64
    }
}

/// The merged transcript while the chunks are being joined.
pub struct MergeState {
    pub text: Seq<char>,
    pub segments: Seq<SegmentOut>,
    pub language: Option<Seq<char>>,
    pub previous_end: u64,
}

/// A segment of the merged transcript: times relative to the recording.
pub struct SegmentOut {
    pub start_ms: u64,
    pub end_ms: u64,
    pub text: Seq<char>,
    pub speaker: Option<Seq<char>>,
}

pub open spec fn segment_out(s: TranscriptSegment) -> SegmentOut {
    SegmentOut {
        start_ms: s.start_ms,
        end_ms: s.end_ms,
        text: s.text@,
        speaker: crate::models::opt_view(s.speaker),
    }
}

/// Adds one segment of a chunk that starts at `offset`; a segment whose
/// midpoint lies before the end of the previous chunks repeats the overlap
/// and is left out.
pub open spec fn merge_segment(
    state: MergeState,
    segment: TranscriptSegment,
    offset: u64,
    previous_end: u64,
) -> MergeState {
    let start = sat_add(segment.start_ms, offset);
    let end = sat_add(segment.end_ms, offset);
    let midpoint = sat_add(start, end) / 2;
    if state.segments.len() > 0 && midpoint <= previous_end {
        state
    } else {
        MergeState {
            text: append_without_overlap_spec(state.text, trim(segment.text@)),
            segments: state.segments.push(
                SegmentOut {
                    start_ms: start,
                    end_ms: end,
                    text: segment.text@,
                    speaker: crate::models::opt_view(segment.speaker),
                },
            ),
            ..state
        }
    }
}

pub open spec fn merge_segments(
    state: MergeState,
    segments: Seq<TranscriptSegment>,
    offset: u64,
    previous_end: u64,
) -> MergeState
    decreases segments.len(),
{
    if segments.len() == 0 {
        state
    } else {
        merge_segment(
            merge_segments(state, segments.drop_last(), offset, previous_end),
            segments.last(),
            offset,
            previous_end,
        )
    }
}

/// Adds one chunk: its segments when it has some, else its text.
pub open spec fn merge_chunk(state: MergeState, chunk: StoredTranscriptionChunk) -> MergeState {
    let language = if state.language is None {
        crate::models::opt_view(chunk.language)
    } else {
        state.language
    };
    let with_text = if chunk.segments@.len() == 0 {
        MergeState {
            text: append_without_overlap_spec(state.text, trim(chunk.text@)),
            ..state
        }
    } else {
        merge_segments(state, chunk.segments@, chunk.start_ms, state.previous_end)
    };
    MergeState {
        language,
        previous_end: if state.previous_end < chunk.end_ms {
            chunk.end_ms
        } else {
            state.previous_end
        },
        ..with_text
    }
}

pub open spec fn merge_all(chunks: Seq<StoredTranscriptionChunk>) -> MergeState
    decreases chunks.len(),
{
    if chunks.len() == 0 {
        MergeState { text: seq![], segments: seq![], language: None, previous_end: 0 }
    } else {
        merge_chunk(merge_all(chunks.drop_last()), chunks.last())
    }
}

/// `later` keeps what `earlier` had merged: its text and its segments come
/// first, unchanged.
pub open spec fn extends(earlier: MergeState, later: MergeState) -> bool {
    &&& earlier.text.is_prefix_of(later.text)
    &&& earlier.segments.is_prefix_of(later.segments)
}

proof fn lemma_extends_transitive(a: MergeState, b: MergeState, c: MergeState)
    requires
        extends(a, b),
        extends(b, c),
    ensures
        extends(a, c),
{
    assert(c.text.subrange(0, a.text.len() as int) =~= b.text.subrange(0, a.text.len() as int));
    assert(c.segments.subrange(0, a.segments.len() as int) =~= b.segments.subrange(
        0,
        a.segments.len() as int,
    ));
}

proof fn lemma_merge_segment_extends(state: MergeState, segment: TranscriptSegment, offset: u64, previous_end: u64)
    ensures
        extends(state, merge_segment(state, segment, offset, previous_end)),
{
    let next = merge_segment(state, segment, offset, previous_end);
    lemma_append_keeps_prefix(state.text, trim(segment.text@));
    assert(state.text.subrange(0, state.text.len() as int) =~= state.text);
    assert(next.segments.subrange(0, state.segments.len() as int) =~= state.segments);
}

proof fn lemma_merge_segments_extends(
    state: MergeState,
    segments: Seq<TranscriptSegment>,
    offset: u64,
    previous_end: u64,
)
    ensures
        extends(state, merge_segments(state, segments, offset, previous_end)),
    decreases segments.len(),
{
    if segments.len() == 0 {
        assert(state.text.subrange(0, state.text.len() as int) =~= state.text);
        assert(state.segments.subrange(0, state.segments.len() as int) =~= state.segments);
    } else {
        let mid = merge_segments(state, segments.drop_last(), offset, previous_end);
        lemma_merge_segments_extends(state, segments.drop_last(), offset, previous_end);
        lemma_merge_segment_extends(mid, segments.last(), offset, previous_end);
        lemma_extends_transitive(state, mid, merge_segment(mid, segments.last(), offset, previous_end));
    }
}

proof fn lemma_merge_chunk_extends(state: MergeState, chunk: StoredTranscriptionChunk)
    ensures
        extends(state, merge_chunk(state, chunk)),
{
    if chunk.segments@.len() == 0 {
        lemma_append_keeps_prefix(state.text, trim(chunk.text@));
        assert(state.segments.subrange(0, state.segments.len() as int) =~= state.segments);
    } else {
        lemma_merge_segments_extends(state, chunk.segments@, chunk.start_ms, state.previous_end);
    }
}

/// Joining more chunks never rewrites what the earlier chunks gave: the
/// text and segments merged from the first `k` chunks come first, unchanged,
/// in those merged from all of them.
pub proof fn lemma_merge_keeps_earlier_chunks(chunks: Seq<StoredTranscriptionChunk>, k: int)
    requires
        0 <= k <= chunks.len(),
    ensures
        extends(merge_all(chunks.take(k)), merge_all(chunks)),
    decreases chunks.len() - k,
{
    if k == chunks.len() {
        assert(chunks.take(k) =~= chunks);
        let m = merge_all(chunks);
        assert(m.text.subrange(0, m.text.len() as int) =~= m.text);
        assert(m.segments.subrange(0, m.segments.len() as int) =~= m.segments);
    } else {
        lemma_merge_keeps_earlier_chunks(chunks, k + 1);
        assert(chunks.take(k + 1).drop_last() =~= chunks.take(k));
        lemma_merge_chunk_extends(merge_all(chunks.take(k)), chunks[k]);
        lemma_extends_transitive(merge_all(chunks.take(k)), merge_all(chunks.take(k + 1)), merge_all(chunks));
    }
}

/// A chunk's segment with its times moved by the chunk's start.
pub open spec fn shifted(segment: TranscriptSegment, offset: u64) -> SegmentOut {
    SegmentOut {
        start_ms: sat_add(segment.start_ms, offset),
        end_ms: sat_add(segment.end_ms, offset),
        text: segment.text@,
        speaker: crate::models::opt_view(segment.speaker),
    }
}

proof fn lemma_merge_segments_from(
    state: MergeState,
    segments: Seq<TranscriptSegment>,
    offset: u64,
    previous_end: u64,
)
    ensures
        ({
            let result = merge_segments(state, segments, offset, previous_end);
            forall|i: int|
                #![trigger result.segments[i]]
                state.segments.len() <= i < result.segments.len() ==> exists|j: int|
                    0 <= j < segments.len() && result.segments[i] == #[trigger] shifted(
                        segments[j],
                        offset,
                    )
        }),
    decreases segments.len(),
{
    if segments.len() > 0 {
        let init = segments.drop_last();
        let mid = merge_segments(state, init, offset, previous_end);
        lemma_merge_segments_from(state, init, offset, previous_end);
        lemma_merge_segments_extends(state, init, offset, previous_end);
        let result = merge_segments(state, segments, offset, previous_end);
        let last = segments.len() - 1;
        assert(segments.last() == segments[last]);
        assert forall|i: int|
            #![trigger result.segments[i]]
            state.segments.len() <= i < result.segments.len() implies exists|j: int|
            0 <= j < segments.len() && result.segments[i] == #[trigger] shifted(
                segments[j],
                offset,
            ) by {
            if i < mid.segments.len() {
                assert(result.segments[i] == mid.segments[i]);
                let j = choose|j: int|
                    0 <= j < init.len() && mid.segments[i] == #[trigger] shifted(init[j], offset);
                assert(init[j] == segments[j]);
            } else {
                assert(result.segments[i] == shifted(segments[last], offset));
            }
        }
    }
}

/// `out` is segment `j` of chunk `c`, moved by that chunk's start.
pub open spec fn taken_from(out: SegmentOut, chunks: Seq<StoredTranscriptionChunk>, c: int, j: int) -> bool {
    0 <= c < chunks.len() && 0 <= j < chunks[c].segments@.len() && out == shifted(
        chunks[c].segments@[j],
        chunks[c].start_ms,
    )
}

/// Every segment of the merged transcript is a segment of one of the
/// chunks, moved by that chunk's start: merging invents no segment and
/// changes none beyond placing it in the recording.
pub proof fn lemma_merged_segments_come_from_chunks(chunks: Seq<StoredTranscriptionChunk>, i: int)
    requires
        0 <= i < merge_all(chunks).segments.len(),
    ensures
        exists|c: int, j: int| #[trigger] taken_from(merge_all(chunks).segments[i], chunks, c, j),
    decreases chunks.len(),
{
    let init = chunks.drop_last();
    let last = chunks.len() - 1;
    let chunk = chunks[last];
    assert(chunks.last() == chunk);
    let prev = merge_all(init);
    let result = merge_all(chunks);
    lemma_merge_chunk_extends(prev, chunk);
    if i < prev.segments.len() {
        lemma_merged_segments_come_from_chunks(init, i);
        assert(result.segments[i] == prev.segments[i]);
        let (c, j) = choose|c: int, j: int| #[trigger] taken_from(prev.segments[i], init, c, j);
        assert(init[c] == chunks[c]);
        assert(taken_from(result.segments[i], chunks, c, j));
    } else {
        lemma_merge_segments_from(prev, chunk.segments@, chunk.start_ms, prev.previous_end);
        assert(chunk.segments@.len() > 0);
        let j = choose|j: int|
            0 <= j < chunk.segments@.len() && result.segments[i] == #[trigger] shifted(
                chunk.segments@[j],
                chunk.start_ms,
            );
        assert(taken_from(result.segments[i], chunks, last, j));
    }
}

fn sat_add_exec(a: u64, b: u64) -> (r: u64)
    ensures
        r == sat_add(a, b),
{
    a.saturating_add(b)
}

pub open spec fn segments_view(s: Seq<TranscriptSegment>) -> Seq<SegmentOut> {
    s.map_values(|x: TranscriptSegment| segment_out(x))
}

fn clone_opt_string(value: &Option<String>) -> (r: Option<String>)
    ensures
        crate::models::opt_view(r) == crate::models::opt_view(*value),
{
    match value {
        Some(s) => Some(s.clone()),
        None => None,
    }
}

/// Joins the transcripts of consecutive chunks: segment times become
/// relative to the recording, segments repeated by the overlap are dropped,
/// and the text is joined without repeating the overlap. Returns the text,
/// the segments and the first language any chunk reported.
pub fn merge_chunks(chunks: Vec<StoredTranscriptionChunk>) -> (r: (
    String,
    Vec<TranscriptSegment>,
    Option<String>,
))
    ensures
        r.0@ == trim(merge_all(chunks@).text),
        segments_view(r.1@) == merge_all(chunks@).segments,
        crate::models::opt_view(r.2) == merge_all(chunks@).language,
{
    let mut text: Vec<char> = Vec::new();
    let mut segments: Vec<TranscriptSegment> = Vec::new();
    let mut language: Option<String> = None;
    let mut previous_end: u64 = 0;
    let ghost all = chunks@;
    let mut i: usize = 0;
    while i < chunks.len()
        invariant
            i <= chunks@.len(),
            all == chunks@,
            ({
                let st = merge_all(all.take(i as int));
                &&& st.text == text@
                &&& st.segments == segments_view(segments@)
                &&& st.language == crate::models::opt_view(language)
                &&& st.previous_end == previous_end
            }),
        decreases chunks@.len() - i,
    {
        let chunk = &chunks[i];
        let ghost before = merge_all(all.take(i as int));
        assert(all.take(i + 1).drop_last() =~= all.take(i as int));
        if language.is_none() {
            language = clone_opt_string(&chunk.language);
        }
        if chunk.segments.len() == 0 {
            let trimmed = trim_str(chunk.text.as_str());
            append_chars_without_overlap(&mut text, &trimmed);
        } else {
            let mut j: usize = 0;
            let ghost segs = chunk.segments@;
            while j < chunk.segments.len()
                invariant
                    j <= segs.len(),
                    segs == chunk.segments@,
                    ({
                        let st = merge_segments(before, segs.take(j as int), chunk.start_ms, before.previous_end);
                        &&& st.text == text@
                        &&& st.segments == segments_view(segments@)
                    }),
                    before.previous_end == previous_end,
                decreases segs.len() - j,
            {
                let segment = &chunk.segments[j];
                assert(segs.take(j + 1).drop_last() =~= segs.take(j as int));
                let start = sat_add_exec(segment.start_ms, chunk.start_ms);
                let end = sat_add_exec(segment.end_ms, chunk.start_ms);
                let midpoint = sat_add_exec(start, end) / 2;
                if !(segments.len() > 0 && midpoint <= previous_end) {
                    let trimmed = trim_str(segment.text.as_str());
                    append_chars_without_overlap(&mut text, &trimmed);
                    let out = TranscriptSegment {
                        start_ms: start,
                        end_ms: end,
                        text: segment.text.clone(),
                        speaker: clone_opt_string(&segment.speaker),
                    };
                    let ghost old_segments = segments@;
                    segments.push(out);
                    assert(segments_view(segments@) =~= segments_view(old_segments).push(segment_out(out)));
                }
                j = j + 1;
            }
            assert(segs.take(segs.len() as int) =~= segs);
        }
        if previous_end < chunk.end_ms {
            previous_end = chunk.end_ms;
        }
        i = i + 1;
    }
    assert(all.take(all.len() as int) =~= all);
    let trimmed = trim_chars(&text);
    (string_from_chars(&trimmed), segments, language)
}

// ---------------------------------------------------------------------------
// Error text
// ---------------------------------------------------------------------------

/// Longest error text kept for display.
pub const MAX_ERROR_CHARS: usize = 600;

/// Runs of whitespace collapsed to one space, leading and trailing
/// whitespace removed (`split_whitespace().join(" ")`).
pub open spec fn collapse_whitespace(s: Seq<char>) -> Seq<char>
    decreases s.len(),
{
    if s.len() == 0 {
        seq![]
    } else {
        let rest = collapse_whitespace(s.drop_last());
        let c = s.last();
        if crate::text::is_whitespace_spec(c) {
            rest
        } else if s.len() >= 2 && crate::text::is_whitespace_spec(s[s.len() - 2]) && rest.len() > 0 {
            rest.push(' ').push(c)
        } else {
            rest.push(c)
        }
    }
}

/// A compact, bounded error text: whitespace collapsed, at most 600 characters.
pub open spec fn sanitize_error_spec(s: Seq<char>) -> Seq<char> {
    let c = collapse_whitespace(s);
    if c.len() <= MAX_ERROR_CHARS {
        c
    } else {
        c.take(MAX_ERROR_CHARS as int)
    }
}

/// Collapses whitespace in an error text and bounds its length.
pub fn sanitize_error(value: &str) -> (r: String)
    ensures
        r@ == sanitize_error_spec(value@),
{
    let s = chars_of(value);
    let mut out: Vec<char> = Vec::new();
    let mut i: usize = 0;
    while i < s.len()
        invariant
            i <= s@.len(),
            out@ == collapse_whitespace(s@.take(i as int)),
        decreases s@.len() - i,
    {
        let ghost prefix = s@.take(i + 1);
        assert(prefix.drop_last() =~= s@.take(i as int));
        let c = s[i];
        if crate::text::is_whitespace(c) {
        } else if i >= 1 && crate::text::is_whitespace(s[i - 1]) && out.len() > 0 {
            out.push(' ');
            out.push(c);
        } else {
            out.push(c);
        }
        i = i + 1;
    }
    assert(s@.take(s@.len() as int) =~= s@);
    if out.len() > MAX_ERROR_CHARS {
        let bounded = crate::text::slice_to_vec(&out, 0, MAX_ERROR_CHARS);
        assert(bounded@ =~= out@.take(MAX_ERROR_CHARS as int));
        string_from_chars(&bounded)
    } else {
        string_from_chars(&out)
    }
}

/// Whitespace appears only as single spaces after text.
pub open spec fn spaced_words(c: Seq<char>) -> bool {
    forall|i: int|
        0 <= i < c.len() && #[trigger] crate::text::is_whitespace_spec(c[i]) ==> c[i] == ' ' && i > 0
            && !crate::text::is_whitespace_spec(c[i - 1])
}

proof fn lemma_collapsed_is_spaced(s: Seq<char>)
    ensures
        spaced_words(collapse_whitespace(s)),
        collapse_whitespace(s).len() > 0 ==> !crate::text::is_whitespace_spec(
            collapse_whitespace(s).last(),
        ),
    decreases s.len(),
{
    if s.len() > 0 {
        let rest = collapse_whitespace(s.drop_last());
        lemma_collapsed_is_spaced(s.drop_last());
        let c = s.last();
        let r = collapse_whitespace(s);
        assert(' ' as u32 == 0x20);
        if !crate::text::is_whitespace_spec(c) {
            assert forall|i: int|
                0 <= i < r.len() && #[trigger] crate::text::is_whitespace_spec(r[i]) implies r[i] == ' '
                && i > 0 && !crate::text::is_whitespace_spec(r[i - 1]) by {
                if i < rest.len() {
                    assert(r[i] == rest[i]);
                    if i > 0 {
                        assert(r[i - 1] == rest[i - 1]);
                    }
                } else if i == rest.len() && r.len() == rest.len() + 2 {
                    assert(r[i] == ' ');
                    assert(r[i - 1] == rest.last());
                }
            }
        }
    }
}

/// A stored error text is compact: at most 600 characters, on one line,
/// its words separated by single spaces.
pub proof fn lemma_sanitized_error_is_compact(s: Seq<char>)
    ensures
        sanitize_error_spec(s).len() <= MAX_ERROR_CHARS,
        spaced_words(sanitize_error_spec(s)),
{
    lemma_collapsed_is_spaced(s);
    let c = collapse_whitespace(s);
    let r = sanitize_error_spec(s);
    assert forall|i: int| 0 <= i < r.len() && #[trigger] crate::text::is_whitespace_spec(r[i]) implies r[i]
        == ' ' && i > 0 && !crate::text::is_whitespace_spec(r[i - 1]) by {
        assert(r[i] == c[i]);
        assert(crate::text::is_whitespace_spec(c[i]));
        if i > 0 {
            assert(r[i - 1] == c[i - 1]);
        }
    }
}

// ---------------------------------------------------------------------------
// Cutting the recording into chunks
// ---------------------------------------------------------------------------

/// Samples in one chunk at the transcription rate.
pub const CHUNK_SAMPLES: usize = 9_600_000;

/// Samples two consecutive chunks share.
pub const OVERLAP_SAMPLES: usize = 32_000;

/// Fresh samples to read for chunk `index`, given the overlap carried over.
pub fn chunk_samples_wanted(index: u32, overlap: usize) -> (r: usize)
    requires
        overlap <= CHUNK_SAMPLES,
    ensures
        r == (if index == 0 {
            CHUNK_SAMPLES as int
        } else {
            CHUNK_SAMPLES - overlap
        }),
{
    if index == 0 {
        CHUNK_SAMPLES
    } else {
        CHUNK_SAMPLES - overlap
    }
}

/// Where a chunk of `sample_count` samples starting at `start_ms` ends: its
/// own length, but not past the recording when the recording's length is
/// known.
pub open spec fn chunk_end_ms_spec(start_ms: u64, sample_count: u64, duration_ms: u64) -> u64 {
    let raw = sat_add(start_ms, (sample_count * 1000 / 16_000) as u64);
    if duration_ms == 0 {
        raw
    } else {
        let limit = if duration_ms > start_ms {
            duration_ms
        } else {
            start_ms
        };
        if raw < limit {
            raw
        } else {
            limit
        }
    }
}

pub fn chunk_end_ms(start_ms: u64, sample_count: u64, duration_ms: u64) -> (r: u64)
    requires
        sample_count <= u64::MAX / 1000,
    ensures
        r == chunk_end_ms_spec(start_ms, sample_count, duration_ms),
{
    let raw = start_ms.saturating_add(sample_count * 1000 / 16_000);
    if duration_ms == 0 {
        raw
    } else {
        let limit = if duration_ms > start_ms {
            duration_ms
        } else {
            start_ms
        };
        if raw < limit {
            raw
        } else {
            limit
        }
    }
}

/// The samples carried into the next chunk: the last two seconds, unless
/// this chunk is the last or is not longer than that.
pub fn overlap_to_keep(samples: &[i16], is_last: bool) -> (r: Vec<i16>)
    ensures
        r@ == (if samples@.len() > OVERLAP_SAMPLES && !is_last {
            samples@.skip(samples@.len() - OVERLAP_SAMPLES)
        } else {
            seq![]
        }),
{
    let mut out: Vec<i16> = Vec::new();
    if samples.len() > OVERLAP_SAMPLES && !is_last {
        let mut i = samples.len() - OVERLAP_SAMPLES;
        let start = i;
        while i < samples.len()
            invariant
                start == samples@.len() - OVERLAP_SAMPLES,
                start <= i <= samples@.len(),
                out@ == samples@.subrange(start as int, i as int),
            decreases samples@.len() - i,
        {
            out.push(samples[i]);
            i = i + 1;
            assert(out@ =~= samples@.subrange(start as int, i as int));
        }
        assert(out@ =~= samples@.skip(start as int));
    }
    assert(out@ =~= (if samples@.len() > OVERLAP_SAMPLES && !is_last {
        samples@.skip(samples@.len() - OVERLAP_SAMPLES)
    } else {
        seq![]
    }));
    out
}

/// The chunk count shown while chunk `index` is transcribed.
pub fn chunk_progress_total(declared: u32, index: u32) -> (r: u32)
    ensures
        r == (if declared > sat_inc_u32(index) {
            declared
        } else {
            sat_inc_u32(index)
        }),
{
    let next = index.saturating_add(1);
    if declared > next {
        declared
    } else {
        next
    }
}

pub open spec fn sat_inc_u32(n: u32) -> u32 {
    if n == u32::MAX {
        n
    } else {
        (n + 1) as u32
    }
}

/// All chunks must be stored before they are joined; the count of chunks
/// read is at least one.
pub fn check_chunks_complete(stored: u64, chunks_read: u32) -> (r: Result<u32, String>)
    ensures
        r is Ok <==> stored == (if chunks_read == 0 {
            1
        } else {
            chunks_read
        }),
        r is Ok ==> r->Ok_0 == (if chunks_read == 0 {
            1
        } else {
            chunks_read
        }),
        r is Err ==> r->Err_0@ == "分块转写尚未完成（"@ + crate::text::decimal(stored as nat) + "/"@
            + crate::text::decimal(
            (if chunks_read == 0 {
                1
            } else {
                chunks_read
            }) as nat,
        ) + "），可以稍后继续"@,
{
    let total: u32 = if chunks_read == 0 {
        1
    } else {
        chunks_read
    };
    if stored == total as u64 {
        return Ok(total);
    }
    let mut out = chars_of("分块转写尚未完成（");
    push_chars(&mut out, &crate::text::decimal_chars(stored));
    crate::text::push_str(&mut out, "/");
    push_chars(&mut out, &crate::text::decimal_chars(total as u64));
    crate::text::push_str(&mut out, "），可以稍后继续");
    Err(string_from_chars(&out))
}

// ---------------------------------------------------------------------------
// Transcription replies
// ---------------------------------------------------------------------------

/// The `speaker` of a reply segment.
#[derive(Debug, Clone)]
pub enum SpeakerValue {
    Text(String),
    /// A number, as it prints.
    Number(String),
    Other,
}

/// A text label that is not blank is kept as it is; a number is written
/// out; anything else gives no label.
pub open spec fn reply_speaker_spec(value: Option<SpeakerValue>) -> Option<Seq<char>> {
    match value {
        Some(SpeakerValue::Text(t)) => if is_blank(t@) {
            None
        } else {
            Some(t@)
        },
        Some(SpeakerValue::Number(n)) => Some(n@),
        _ => None,
    }
}

pub fn reply_speaker(value: Option<&SpeakerValue>) -> (r: Option<String>)
    ensures
        crate::models::opt_view(r) == reply_speaker_spec(
            match value {
                Some(v) => Some(*v),
                None => None,
            },
        ),
{
    match value {
        Some(SpeakerValue::Text(t)) => if crate::text::is_blank_str(t.as_str()) {
            None
        } else {
            Some(t.clone())
        },
        Some(SpeakerValue::Number(n)) => Some(n.clone()),
        _ => None,
    }
}

/// One segment of a transcription reply, its times already in milliseconds.
#[derive(Debug, Clone)]
pub struct ReplySegment {
    pub start_ms: u64,
    pub end_ms: u64,
    pub text: String,
    pub speaker: Option<SpeakerValue>,
}

/// A transcription reply that is JSON.
#[derive(Debug, Clone)]
pub struct ReplyTranscript {
    pub text: String,
    pub language: Option<String>,
    pub segments: Vec<ReplySegment>,
}

/// The segment kept for a reply segment: none when its text is blank, else
/// its trimmed text, an end no earlier than its start, and its label.
pub open spec fn reply_segment_view(segment: ReplySegment) -> Option<crate::models::SegmentView> {
    if is_blank(segment.text@) {
        None
    } else {
        Some(
            crate::models::SegmentView {
                start_ms: segment.start_ms,
                end_ms: if segment.end_ms < segment.start_ms {
                    segment.start_ms
                } else {
                    segment.end_ms
                },
                text: trim(segment.text@),
                speaker: reply_speaker_spec(segment.speaker),
            },
        )
    }
}

pub open spec fn reply_segments_view(segments: Seq<ReplySegment>) -> Seq<crate::models::SegmentView>
    decreases segments.len(),
{
    if segments.len() == 0 {
        seq![]
    } else {
        let previous = reply_segments_view(segments.drop_last());
        match reply_segment_view(segments.last()) {
            Some(v) => previous.push(v),
            None => previous,
        }
    }
}

pub open spec fn views_of(segments: Seq<TranscriptSegment>) -> Seq<crate::models::SegmentView> {
    segments.map_values(|s: TranscriptSegment| s@)
}

/// A JSON reply with neither text nor segments is refused; otherwise its
/// text is trimmed and its blank segments are left out.
pub fn normalize_reply(reply: &ReplyTranscript) -> (r: Result<ProviderTranscript, String>)
    ensures
        is_blank(reply.text@) && reply.segments@.len() == 0 <==> r is Err,
        r is Err ==> r->Err_0@ == "转写接口响应中没有文字"@,
        r is Ok ==> r->Ok_0.text@ == trim(reply.text@) && crate::models::opt_view(r->Ok_0.language)
            == crate::models::opt_view(reply.language) && views_of(r->Ok_0.segments@)
            == reply_segments_view(reply.segments@),
{
    let text = trim_str(reply.text.as_str());
    if text.len() == 0 && reply.segments.len() == 0 {
        return Err(String::from_str("转写接口响应中没有文字"));
    }
    let mut segments: Vec<TranscriptSegment> = Vec::new();
    let mut i: usize = 0;
    while i < reply.segments.len()
        invariant
            i <= reply.segments@.len(),
            views_of(segments@) == reply_segments_view(reply.segments@.take(i as int)),
        decreases reply.segments@.len() - i,
    {
        let segment = &reply.segments[i];
        assert(reply.segments@.take(i + 1).drop_last() =~= reply.segments@.take(i as int));
        let t = trim_str(segment.text.as_str());
        if t.len() > 0 {
            let out = TranscriptSegment {
                start_ms: segment.start_ms,
                end_ms: if segment.end_ms < segment.start_ms {
                    segment.start_ms
                } else {
                    segment.end_ms
                },
                text: string_from_chars(&t),
                speaker: reply_speaker(
                    match &segment.speaker {
                        Some(v) => Some(v),
                        None => None,
                    },
                ),
            };
            let ghost before = segments@;
            segments.push(out);
            assert(views_of(segments@) =~= views_of(before).push(out@));
        }
        i = i + 1;
    }
    assert(reply.segments@.take(reply.segments@.len() as int) =~= reply.segments@);
    let language = match &reply.language {
        Some(l) => Some(l.clone()),
        None => None,
    };
    Ok(ProviderTranscript { text: string_from_chars(&text), language, segments })
}

/// A reply that is not JSON is read as plain text, without surrounding
/// quotes; an empty one is refused.
pub open spec fn plain_reply_text(body: Seq<char>) -> Seq<char> {
    trim(crate::ai::trim_char(trim(body), '"'))
}

pub fn plain_reply(body: &str) -> (r: Result<ProviderTranscript, String>)
    ensures
        plain_reply_text(body@).len() == 0 <==> r is Err,
        r is Err ==> r->Err_0@ == "转写接口返回了空响应"@,
        r is Ok ==> r->Ok_0.text@ == plain_reply_text(body@) && r->Ok_0.language is None
            && r->Ok_0.segments@.len() == 0,
{
    let first = trim_str(body);
    let unquoted = crate::text::trim_end_char_chars(&first, '"');
    let unquoted = crate::text::trim_start_char_chars(&unquoted, '"');
    let text = trim_chars(&unquoted);
    if text.len() == 0 {
        return Err(String::from_str("转写接口返回了空响应"));
    }
    Ok(ProviderTranscript { text: string_from_chars(&text), language: None, segments: Vec::new() })
}

} // verus!
