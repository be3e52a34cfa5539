//! Importing audio files: which formats are accepted, what an import error
//! tells the user, how the batch snapshot follows each file, and what an
//! interrupted import becomes at the next start.
use crate::audio_format::SAMPLE_RATE;
use crate::file_names::{extension_chars, extension_spec, has_extension, has_extension_ignoring_case};
use crate::models::{AudioImportBatchSnapshot, AudioImportBatchStatus, AudioImportItemSnapshot, AudioImportItemStatus};
use crate::text::{ascii_lower_chars, ascii_lower_seq, chars_eq, chars_of, has_substring, str_contains, string_from_chars};
use vstd::prelude::*;

verus! {

/// Most files one import batch takes.
pub const MAX_IMPORT_FILES: usize = 100;

/// Free space the recordings directory must have before a file is imported.
pub const MINIMUM_FREE_BYTES: u64 = 64 * 1024 * 1024;

/// Longest error text shown for a file, in characters.
pub const MAX_IMPORT_ERROR_CHARS: usize = 500;

// ---------------------------------------------------------------------------
// Formats
// ---------------------------------------------------------------------------

pub open spec fn unsupported_format_message() -> Seq<char> {
    "暂不支持该音频格式；请选择 MP3、M4A、WAV 或 FLAC 文件"@
}

/// The format recorded for a source file, by its extension in any case.
pub open spec fn source_format_spec(path: Seq<char>) -> Option<Seq<char>> {
    match extension_spec(path) {
        Some(e) => {
            let l = ascii_lower_seq(e);
            if l == "mp3"@ {
                Some("MP3"@)
            } else if l == "m4a"@ {
                Some("M4A"@)
            } else if l == "wav"@ {
                Some("WAV"@)
            } else if l == "flac"@ {
                Some("FLAC"@)
            } else {
                None
            }
        },
        None => None,
    }
}

/// The format of an importable file, or the message that refuses it.
pub fn supported_source_format(path: &str) -> (r: Result<&'static str, String>)
    ensures
        match source_format_spec(path@) {
            Some(format) => r is Ok && r->Ok_0@ == format,
            None => r is Err && r->Err_0@ == unsupported_format_message(),
        },
{
    let refused = String::from_str("暂不支持该音频格式；请选择 MP3、M4A、WAV 或 FLAC 文件");
    let e = match extension_chars(path) {
        Some(e) => e,
        None => return Err(refused),
    };
    let l = ascii_lower_chars(&e);
    if chars_eq(&l, &chars_of("mp3")) {
        Ok("MP3")
    } else if chars_eq(&l, &chars_of("m4a")) {
        Ok("M4A")
    } else if chars_eq(&l, &chars_of("wav")) {
        Ok("WAV")
    } else if chars_eq(&l, &chars_of("flac")) {
        Ok("FLAC")
    } else {
        Err(refused)
    }
}

// ---------------------------------------------------------------------------
// Error text
// ---------------------------------------------------------------------------

pub open spec fn m4a_guidance() -> Seq<char> {
    "无法解码该音频；M4A 目前支持 AAC-LC 和 ALAC，暂不支持 HE-AAC 或受保护音频"@
}

/// What the user is told about a failed file: a decoding failure of an M4A
/// file names the codecs that are supported; anything else is the error
/// text, at most 500 characters of it.
pub open spec fn import_error_message_spec(message: Seq<char>, source: Seq<char>) -> Seq<char> {
    if has_extension_ignoring_case(source, "m4a"@) && (has_substring(message, "编码方式"@)
        || has_substring(message, "解码"@)) {
        m4a_guidance()
    } else if message.len() <= MAX_IMPORT_ERROR_CHARS {
        message
    } else {
        message.take(MAX_IMPORT_ERROR_CHARS as int)
    }
}

/// `message` is the error with its causes, as the error chain prints it.
pub fn import_error_message(message: &str, source: &str) -> (r: String)
    ensures
        r@ == import_error_message_spec(message@, source@),
{
    proof {
        reveal_strlit("m4a");
        assert(ascii_lower_seq("m4a"@) =~= "m4a"@);
    }
    if has_extension(source, "m4a") && (str_contains(message, "编码方式") || str_contains(
        message,
        "解码",
    )) {
        return String::from_str("无法解码该音频；M4A 目前支持 AAC-LC 和 ALAC，暂不支持 HE-AAC 或受保护音频");
    }
    let chars = chars_of(message);
    if chars.len() <= MAX_IMPORT_ERROR_CHARS {
        string_from_chars(&chars)
    } else {
        let kept = crate::text::slice_to_vec(&chars, 0, MAX_IMPORT_ERROR_CHARS);
        assert(kept@ =~= chars@.take(MAX_IMPORT_ERROR_CHARS as int));
        string_from_chars(&kept)
    }
}

// ---------------------------------------------------------------------------
// Resampling bookkeeping
// ---------------------------------------------------------------------------

/// Frames a source of `source_frames` frames at `source_rate` gives at the
/// recording rate.
pub fn target_output_frames(source_frames: u64, source_rate: u32) -> (r: u64)
    ensures
        r == (if source_frames * SAMPLE_RATE > u64::MAX {
            u64::MAX as int
        } else {
            source_frames * SAMPLE_RATE
        }) / (if source_rate == 0 {
            1
        } else {
            source_rate as int
        }),
{
    let rate: u64 = if source_rate == 0 {
        1
    } else {
        source_rate as u64
    };
    let scaled = match source_frames.checked_mul(SAMPLE_RATE as u64) {
        Some(v) => v,
        None => u64::MAX,
    };
    scaled / rate
}

/// How many of `available` resampled frames are still to be written when
/// `emitted` of `target` have been.
pub fn frames_to_emit(target: u64, emitted: u64, available: usize) -> (r: usize)
    ensures
        r <= available,
        r == (if emitted >= target {
            0
        } else if target - emitted < available {
            target - emitted
        } else {
            available as int
        }),
{
    let remaining = if emitted >= target {
        0
    } else {
        target - emitted
    };
    if remaining < available as u64 {
        remaining as usize
    } else {
        available
    }
}

// ---------------------------------------------------------------------------
// The batch snapshot
// ---------------------------------------------------------------------------

pub open spec fn with_status(
    item: AudioImportItemSnapshot,
    status: AudioImportItemStatus,
) -> AudioImportItemSnapshot {
    AudioImportItemSnapshot { status, ..item }
}

/// The snapshot's items with item `index` replaced by `f(item)`, when there
/// is such an item.
pub open spec fn items_after(
    items: Seq<AudioImportItemSnapshot>,
    index: int,
    item: AudioImportItemSnapshot,
) -> Seq<AudioImportItemSnapshot> {
    if 0 <= index < items.len() {
        items.update(index, item)
    } else {
        items
    }
}

pub open spec fn sat_inc(n: u32) -> u32 {
    if n == u32::MAX {
        n
    } else {
        (n + 1) as u32
    }
}

fn replace_item(items: &mut Vec<AudioImportItemSnapshot>, index: usize, item: AudioImportItemSnapshot)
    requires
        index < old(items)@.len(),
    ensures
        final(items)@ == old(items)@.update(index as int, item),
{
    let _ = items.remove(index);
    items.insert(index, item);
    assert(items@ =~= old(items)@.update(index as int, item));
}

fn take_item(items: &mut Vec<AudioImportItemSnapshot>, index: usize) -> (r: AudioImportItemSnapshot)
    requires
        index < old(items)@.len(),
    ensures
        r == old(items)@[index as int],
        final(items)@ == old(items)@.remove(index as int),
{
    items.remove(index)
}

/// The fields of a snapshot other than its items and counters stay as they were.
pub open spec fn same_batch(a: AudioImportBatchSnapshot, b: AudioImportBatchSnapshot) -> bool {
    a.id == b.id && a.status == b.status && a.total == b.total
}

/// Work starts on file `index`: it is the current one and is being probed.
pub fn start_item(snapshot: &mut AudioImportBatchSnapshot, index: usize)
    requires
        index < usize::MAX,
    ensures
        final(snapshot).current_index == (if index + 1 > u32::MAX {
            u32::MAX as int
        } else {
            index + 1
        }),
        final(snapshot).items@ == items_after(
            old(snapshot).items@,
            index as int,
            with_status(old(snapshot).items@[index as int], AudioImportItemStatus::Probing),
        ),
        same_batch(*old(snapshot), *final(snapshot)),
        final(snapshot).completed == old(snapshot).completed,
        final(snapshot).failed == old(snapshot).failed,
        final(snapshot).skipped == old(snapshot).skipped,
{
    let next = index + 1;
    snapshot.current_index = if next > u32::MAX as usize {
        u32::MAX
    } else {
        next as u32
    };
    if index < snapshot.items.len() {
        let mut item = take_item(&mut snapshot.items, index);
        item.status = AudioImportItemStatus::Probing;
        snapshot.items.insert(index, item);
        assert(snapshot.items@ =~= old(snapshot).items@.update(
            index as int,
            with_status(old(snapshot).items@[index as int], AudioImportItemStatus::Probing),
        ));
    }
}

/// Decoding progress of file `index`.
pub fn item_progress(snapshot: &mut AudioImportBatchSnapshot, index: usize, current_ms: u64, total_ms: u64)
    ensures
        final(snapshot).items@ == items_after(
            old(snapshot).items@,
            index as int,
            AudioImportItemSnapshot {
                status: AudioImportItemStatus::Decoding,
                progress_current_ms: current_ms,
                progress_total_ms: total_ms,
                ..old(snapshot).items@[index as int]
            },
        ),
        same_batch(*old(snapshot), *final(snapshot)),
        final(snapshot).current_index == old(snapshot).current_index,
        final(snapshot).completed == old(snapshot).completed,
        final(snapshot).failed == old(snapshot).failed,
        final(snapshot).skipped == old(snapshot).skipped,
{
    if index < snapshot.items.len() {
        let mut item = take_item(&mut snapshot.items, index);
        item.status = AudioImportItemStatus::Decoding;
        item.progress_current_ms = current_ms;
        item.progress_total_ms = total_ms;
        snapshot.items.insert(index, item);
        assert(snapshot.items@ =~= old(snapshot).items@.update(index as int, item));
    }
}

/// File `index` is decoded and being committed.
pub fn item_finalizing(snapshot: &mut AudioImportBatchSnapshot, index: usize)
    ensures
        final(snapshot).items@ == items_after(
            old(snapshot).items@,
            index as int,
            with_status(old(snapshot).items@[index as int], AudioImportItemStatus::Finalizing),
        ),
        same_batch(*old(snapshot), *final(snapshot)),
        final(snapshot).current_index == old(snapshot).current_index,
        final(snapshot).completed == old(snapshot).completed,
        final(snapshot).failed == old(snapshot).failed,
        final(snapshot).skipped == old(snapshot).skipped,
{
    if index < snapshot.items.len() {
        let mut item = take_item(&mut snapshot.items, index);
        item.status = AudioImportItemStatus::Finalizing;
        snapshot.items.insert(index, item);
        assert(snapshot.items@ =~= old(snapshot).items@.update(index as int, item));
    }
}

/// File `index` became the recording `recording_id`.
pub fn item_completed(snapshot: &mut AudioImportBatchSnapshot, index: usize, recording_id: String)
    ensures
        final(snapshot).completed == sat_inc(old(snapshot).completed),
        final(snapshot).items@ == items_after(
            old(snapshot).items@,
            index as int,
            AudioImportItemSnapshot {
                status: AudioImportItemStatus::Completed,
                recording_id: Some(recording_id),
                ..old(snapshot).items@[index as int]
            },
        ),
        same_batch(*old(snapshot), *final(snapshot)),
        final(snapshot).current_index == old(snapshot).current_index,
        final(snapshot).failed == old(snapshot).failed,
        final(snapshot).skipped == old(snapshot).skipped,
{
    snapshot.completed = snapshot.completed.saturating_add(1);
    if index < snapshot.items.len() {
        let mut item = take_item(&mut snapshot.items, index);
        item.status = AudioImportItemStatus::Completed;
        item.recording_id = Some(recording_id);
        snapshot.items.insert(index, item);
        assert(snapshot.items@ =~= old(snapshot).items@.update(index as int, item));
    }
}

pub open spec fn already_imported_message() -> Seq<char> {
    "该文件已经导入过"@
}

/// File `index` has the content of the earlier recording `recording_id`.
pub fn item_skipped(snapshot: &mut AudioImportBatchSnapshot, index: usize, recording_id: String)
    ensures
        final(snapshot).skipped == sat_inc(old(snapshot).skipped),
        0 <= index < old(snapshot).items@.len() ==> (final(snapshot).items@[index as int]
            .error_message matches Some(m) && m@ == already_imported_message()),
        final(snapshot).items@.len() == old(snapshot).items@.len(),
        forall|j: int|
            0 <= j < old(snapshot).items@.len() && j != index ==> final(snapshot).items@[j]
                == old(snapshot).items@[j],
        0 <= index < old(snapshot).items@.len() ==> ({
            let before = old(snapshot).items@[index as int];
            let after = final(snapshot).items@[index as int];
            &&& after.status == AudioImportItemStatus::Skipped
            &&& after.recording_id == Some(recording_id)
            &&& after.id == before.id
            &&& after.file_name == before.file_name
            &&& after.progress_current_ms == before.progress_current_ms
            &&& after.progress_total_ms == before.progress_total_ms
        }),
        same_batch(*old(snapshot), *final(snapshot)),
        final(snapshot).current_index == old(snapshot).current_index,
        final(snapshot).completed == old(snapshot).completed,
        final(snapshot).failed == old(snapshot).failed,
{
    snapshot.skipped = snapshot.skipped.saturating_add(1);
    if index < snapshot.items.len() {
        let mut item = take_item(&mut snapshot.items, index);
        item.status = AudioImportItemStatus::Skipped;
        item.recording_id = Some(recording_id);
        item.error_message = Some(String::from_str("该文件已经导入过"));
        snapshot.items.insert(index, item);
        assert(snapshot.items@ =~= old(snapshot).items@.update(index as int, item));
    }
}

/// File `index` was stopped by a cancellation.
pub fn item_cancelled(snapshot: &mut AudioImportBatchSnapshot, index: usize)
    ensures
        final(snapshot).items@ == items_after(
            old(snapshot).items@,
            index as int,
            AudioImportItemSnapshot {
                status: AudioImportItemStatus::Cancelled,
                error_message: None,
                ..old(snapshot).items@[index as int]
            },
        ),
        same_batch(*old(snapshot), *final(snapshot)),
        final(snapshot).current_index == old(snapshot).current_index,
        final(snapshot).completed == old(snapshot).completed,
        final(snapshot).failed == old(snapshot).failed,
        final(snapshot).skipped == old(snapshot).skipped,
{
    if index < snapshot.items.len() {
        let mut item = take_item(&mut snapshot.items, index);
        item.status = AudioImportItemStatus::Cancelled;
        item.error_message = None;
        snapshot.items.insert(index, item);
        assert(snapshot.items@ =~= old(snapshot).items@.update(index as int, item));
    }
}

/// File `index` failed with the error text `message`.
pub fn item_failed(snapshot: &mut AudioImportBatchSnapshot, index: usize, message: String)
    ensures
        final(snapshot).failed == sat_inc(old(snapshot).failed),
        final(snapshot).items@ == items_after(
            old(snapshot).items@,
            index as int,
            AudioImportItemSnapshot {
                status: AudioImportItemStatus::Failed,
                error_message: Some(message),
                ..old(snapshot).items@[index as int]
            },
        ),
        same_batch(*old(snapshot), *final(snapshot)),
        final(snapshot).current_index == old(snapshot).current_index,
        final(snapshot).completed == old(snapshot).completed,
        final(snapshot).skipped == old(snapshot).skipped,
{
    snapshot.failed = snapshot.failed.saturating_add(1);
    if index < snapshot.items.len() {
        let mut item = take_item(&mut snapshot.items, index);
        item.status = AudioImportItemStatus::Failed;
        item.error_message = Some(message);
        snapshot.items.insert(index, item);
        assert(snapshot.items@ =~= old(snapshot).items@.update(index as int, item));
    }
}

/// How importing one file ended.
#[derive(Debug, Clone, PartialEq, Eq)]
pub enum ItemOutcome {
    /// A new recording with this id.
    Completed(String),
    /// The content was imported before, as the recording with this id.
    Skipped(String),
    /// The import failed with this error text.
    Failed(String),
}

/// The batch takes the outcome of file `index`. A failure while the batch
/// is being cancelled marks the file cancelled and ends the batch; any
/// other outcome is recorded and the batch goes on (`true`).
pub fn record_item_outcome(
    snapshot: &mut AudioImportBatchSnapshot,
    index: usize,
    outcome: ItemOutcome,
    cancelled: bool,
) -> (go_on: bool)
    ensures
        go_on == !(outcome is Failed && cancelled),
        same_batch(*old(snapshot), *final(snapshot)),
        final(snapshot).current_index == old(snapshot).current_index,
        match outcome {
            ItemOutcome::Completed(id) => {
                &&& final(snapshot).completed == sat_inc(old(snapshot).completed)
                &&& final(snapshot).failed == old(snapshot).failed
                &&& final(snapshot).skipped == old(snapshot).skipped
                &&& final(snapshot).items@ == items_after(
                    old(snapshot).items@,
                    index as int,
                    AudioImportItemSnapshot {
                        status: AudioImportItemStatus::Completed,
                        recording_id: Some(id),
                        ..old(snapshot).items@[index as int]
                    },
                )
            },
            ItemOutcome::Skipped(id) => {
                &&& final(snapshot).skipped == sat_inc(old(snapshot).skipped)
                &&& final(snapshot).completed == old(snapshot).completed
                &&& final(snapshot).failed == old(snapshot).failed
                &&& final(snapshot).items@.len() == old(snapshot).items@.len()
                &&& forall|j: int|
                    0 <= j < old(snapshot).items@.len() && j != index ==> final(snapshot).items@[j]
                        == old(snapshot).items@[j]
                &&& 0 <= index < old(snapshot).items@.len() ==> ({
                    let before = old(snapshot).items@[index as int];
                    let after = final(snapshot).items@[index as int];
                    &&& after.status == AudioImportItemStatus::Skipped
                    &&& after.recording_id == Some(id)
                    &&& after.error_message matches Some(m) && m@ == already_imported_message()
                    &&& after.id == before.id
                    &&& after.file_name == before.file_name
                    &&& after.progress_current_ms == before.progress_current_ms
                    &&& after.progress_total_ms == before.progress_total_ms
                })
            },
            ItemOutcome::Failed(message) => {
                &&& final(snapshot).completed == old(snapshot).completed
                &&& final(snapshot).skipped == old(snapshot).skipped
                &&& if cancelled {
                    &&& final(snapshot).failed == old(snapshot).failed
                    &&& final(snapshot).items@ == items_after(
                        old(snapshot).items@,
                        index as int,
                        AudioImportItemSnapshot {
                            status: AudioImportItemStatus::Cancelled,
                            error_message: None,
                            ..old(snapshot).items@[index as int]
                        },
                    )
                } else {
                    &&& final(snapshot).failed == sat_inc(old(snapshot).failed)
                    &&& final(snapshot).items@ == items_after(
                        old(snapshot).items@,
                        index as int,
                        AudioImportItemSnapshot {
                            status: AudioImportItemStatus::Failed,
                            error_message: Some(message),
                            ..old(snapshot).items@[index as int]
                        },
                    )
                }
            },
        },
{
    match outcome {
        ItemOutcome::Completed(id) => {
            item_completed(snapshot, index, id);
            true
        },
        ItemOutcome::Skipped(id) => {
            item_skipped(snapshot, index, id);
            true
        },
        ItemOutcome::Failed(message) => {
            if cancelled {
                item_cancelled(snapshot, index);
                false
            } else {
                item_failed(snapshot, index, message);
                true
            }
        },
    }
}

/// An item waiting in a cancelled batch is cancelled; any other keeps its status.
pub open spec fn cancel_if_queued(item: AudioImportItemSnapshot) -> AudioImportItemSnapshot {
    if item.status == AudioImportItemStatus::Queued {
        with_status(item, AudioImportItemStatus::Cancelled)
    } else {
        item
    }
}

pub open spec fn cancel_queued_items(items: Seq<AudioImportItemSnapshot>) -> Seq<AudioImportItemSnapshot> {
    items.map_values(|item: AudioImportItemSnapshot| cancel_if_queued(item))
}

/// The batch ends: cancelled, with every file still waiting cancelled too,
/// or completed.
pub fn finish_batch(snapshot: &mut AudioImportBatchSnapshot, cancelled: bool)
    ensures
        final(snapshot).status == (if cancelled {
            AudioImportBatchStatus::Cancelled
        } else {
            AudioImportBatchStatus::Completed
        }),
        final(snapshot).items@ == (if cancelled {
            cancel_queued_items(old(snapshot).items@)
        } else {
            old(snapshot).items@
        }),
        final(snapshot).id == old(snapshot).id,
        final(snapshot).total == old(snapshot).total,
        final(snapshot).current_index == old(snapshot).current_index,
        final(snapshot).completed == old(snapshot).completed,
        final(snapshot).failed == old(snapshot).failed,
        final(snapshot).skipped == old(snapshot).skipped,
{
    if !cancelled {
        snapshot.status = AudioImportBatchStatus::Completed;
        return;
    }
    snapshot.status = AudioImportBatchStatus::Cancelled;
    let ghost before_items = old(snapshot).items@;
    let mut i: usize = 0;
    while i < snapshot.items.len()
        invariant
            i <= snapshot.items@.len(),
            snapshot.items@.len() == before_items.len(),
            snapshot.status == AudioImportBatchStatus::Cancelled,
            snapshot.id == old(snapshot).id,
            snapshot.total == old(snapshot).total,
            snapshot.current_index == old(snapshot).current_index,
            snapshot.completed == old(snapshot).completed,
            snapshot.failed == old(snapshot).failed,
            snapshot.skipped == old(snapshot).skipped,
            forall|j: int| 0 <= j < i ==> snapshot.items@[j] == cancel_if_queued(before_items[j]),
            forall|j: int| i <= j < before_items.len() ==> snapshot.items@[j] == before_items[j],
        decreases before_items.len() - i,
    {
        if snapshot.items[i].status == AudioImportItemStatus::Queued {
            let mut item = take_item(&mut snapshot.items, i);
            item.status = AudioImportItemStatus::Cancelled;
            snapshot.items.insert(i, item);
        }
        i = i + 1;
    }
    assert(snapshot.items@ =~= cancel_queued_items(before_items));
}

/// After a cancelled batch ends, no file is left waiting.
pub proof fn lemma_cancelled_batch_leaves_nothing_queued(items: Seq<AudioImportItemSnapshot>)
    ensures
        forall|j: int|
            0 <= j < items.len() ==> (#[trigger] cancel_queued_items(items)[j]).status
                != AudioImportItemStatus::Queued,
{
}

// ---------------------------------------------------------------------------
// Interrupted imports
// ---------------------------------------------------------------------------

/// What the next start does with an import that had not finished.
#[derive(Debug, Clone, Copy, PartialEq, Eq, Structural)]
pub enum ImportRecovery {
    /// Move the prepared file into place, then record the import as done.
    CommitThenComplete,
    /// The file is in place: record the import as done.
    Complete,
    /// Remove the partial file and forget the import.
    Discard,
}

/// `prepared`: the format, hash, duration and size were all recorded, so the
/// partial file was written completely.
pub fn import_recovery(prepared: bool, final_exists: bool, final_is_file: bool, partial_is_file: bool) -> (r:
    ImportRecovery)
    ensures
        r == (if prepared && !final_exists && partial_is_file {
            ImportRecovery::CommitThenComplete
        } else if prepared && final_is_file {
            ImportRecovery::Complete
        } else {
            ImportRecovery::Discard
        }),
        r != ImportRecovery::Discard ==> prepared,
{
    if prepared && !final_exists && partial_is_file {
        ImportRecovery::CommitThenComplete
    } else if prepared && final_is_file {
        ImportRecovery::Complete
    } else {
        ImportRecovery::Discard
    }
}

// ---------------------------------------------------------------------------
// Starting a batch
// ---------------------------------------------------------------------------

/// Why a batch cannot start, checked in this order: a recording is running,
/// another import is running, no file was chosen, too many were.
pub open spec fn import_request_spec(recording_active: bool, import_active: bool, count: usize) -> Result<(), Seq<char>> {
    if recording_active {
        Err("请先停止并保存当前录音，再导入音频文件"@)
    } else if import_active {
        Err("已有音频正在导入，请等待完成或先停止导入"@)
    } else if count == 0 {
        Err("请选择要导入的音频文件"@)
    } else if count > MAX_IMPORT_FILES {
        Err("一次最多导入 100 个音频文件"@)
    } else {
        Ok(())
    }
}

pub fn check_import_request(recording_active: bool, import_active: bool, count: usize) -> (r: Result<(), String>)
    ensures
        match import_request_spec(recording_active, import_active, count) {
            Ok(()) => r is Ok,
            Err(e) => r is Err && r->Err_0@ == e,
        },
{
    if recording_active {
        Err(String::from_str("请先停止并保存当前录音，再导入音频文件"))
    } else if import_active {
        Err(String::from_str("已有音频正在导入，请等待完成或先停止导入"))
    } else if count == 0 {
        Err(String::from_str("请选择要导入的音频文件"))
    } else if count > MAX_IMPORT_FILES {
        Err(String::from_str("一次最多导入 100 个音频文件"))
    } else {
        Ok(())
    }
}

/// The name shown for a chosen file: its file name, or a placeholder when
/// the path has none.
pub open spec fn item_file_name(path: Seq<char>) -> Seq<char> {
    let name = crate::file_names::file_name_spec(path);
    if name.len() == 0 {
        "音频文件"@
    } else {
        name
    }
}

/// The snapshot of a new batch: every file queued, in order, under the id
/// given for it.
pub fn new_batch_snapshot(batch_id: String, paths: &Vec<String>, item_ids: Vec<String>) -> (r: AudioImportBatchSnapshot)
    requires
        item_ids@.len() == paths@.len(),
    ensures
        r.id == batch_id,
        r.status == AudioImportBatchStatus::Running,
        r.current_index == 0,
        r.total == (if paths@.len() > u32::MAX {
            u32::MAX as int
        } else {
            paths@.len() as int
        }),
        r.completed == 0 && r.failed == 0 && r.skipped == 0,
        r.items@.len() == paths@.len(),
        forall|i: int|
            0 <= i < paths@.len() ==> {
                let item = #[trigger] r.items@[i];
                &&& item.id == item_ids@[i]
                &&& item.file_name@ == item_file_name(paths@[i]@)
                &&& item.status == AudioImportItemStatus::Queued
                &&& item.progress_current_ms == 0
                &&& item.progress_total_ms == 0
                &&& item.error_message is None
                &&& item.recording_id is None
            },
{
    let mut items: Vec<AudioImportItemSnapshot> = Vec::new();
    let mut ids = item_ids;
    let ghost all_ids = ids@;
    let mut i: usize = 0;
    while i < paths.len()
        invariant
            i <= paths@.len(),
            all_ids.len() == paths@.len(),
            ids@ == all_ids.skip(i as int),
            items@.len() == i,
            forall|k: int|
                0 <= k < i ==> {
                    let item = #[trigger] items@[k];
                    &&& item.id == all_ids[k]
                    &&& item.file_name@ == item_file_name(paths@[k]@)
                    &&& item.status == AudioImportItemStatus::Queued
                    &&& item.progress_current_ms == 0
                    &&& item.progress_total_ms == 0
                    &&& item.error_message is None
                    &&& item.recording_id is None
                },
        decreases paths@.len() - i,
    {
        let ghost before = ids@;
        let id = ids.remove(0);
        assert(ids@ =~= all_ids.skip(i + 1));
        let name = crate::file_names::file_name_chars(paths[i].as_str());
        let shown = if name.len() == 0 {
            String::from_str("音频文件")
        } else {
            string_from_chars(&name)
        };
        items.push(
            AudioImportItemSnapshot {
                id,
                file_name: shown,
                status: AudioImportItemStatus::Queued,
                progress_current_ms: 0,
                progress_total_ms: 0,
                error_message: None,
                recording_id: None,
            },
        );
        i = i + 1;
    }
    let total: u32 = if paths.len() > u32::MAX as usize {
        u32::MAX
    } else {
        paths.len() as u32
    };
    AudioImportBatchSnapshot {
        id: batch_id,
        status: AudioImportBatchStatus::Running,
        current_index: 0,
        total,
        completed: 0,
        failed: 0,
        skipped: 0,
        items,
    }
}

} // verus!
