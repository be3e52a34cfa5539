use nota::recovery::{newest_first, recoverable_id, RecoverableFile};
use nota::ogg::{eos_page, ogg_crc, plan_recovery, scan_pages, RecoveryError};

#[test]
fn eos_page_has_valid_crc() {
    let mut page = eos_page(42, 7, 960);
    let expected = u32::from_le_bytes(page[22..26].try_into().unwrap());
    page[22..26].fill(0);
    assert_eq!(ogg_crc(&page), expected);
}

#[test]
fn eos_pages_carry_the_end_of_stream_flag() {
    assert_eq!(ogg_crc(b""), 0);
    let page = eos_page(1, 2, 3);
    assert_eq!(&page[..4], b"OggS");
    assert_eq!(page[5], 0x04);
}

#[test]
fn recovery_keeps_complete_pages_and_closes_the_stream() {
    let first = eos_page(9, 0, 0);
    let mut second = eos_page(9, 1, 960);
    second[5] = 0;
    let crc_second = {
        let mut copy = second.clone();
        copy[22..26].fill(0);
        ogg_crc(&copy)
    };
    second[22..26].copy_from_slice(&crc_second.to_le_bytes());
    let mut file = first.clone();
    file.extend_from_slice(&second);
    let complete = file.len();
    file.extend_from_slice(b"OggS\0partial");
    let (end, last) = scan_pages(&file);
    assert_eq!(end, complete);
    let last = last.unwrap();
    assert_eq!(last.sequence, 1);
    let plan = plan_recovery(&file).unwrap();
    assert_eq!(plan.valid_end, complete);
    let closing = plan.eos_page.unwrap();
    assert_eq!(closing, eos_page(9, 2, 960));
    assert_eq!(plan_recovery(b"not an ogg file").unwrap_err(), RecoveryError::NoCompletePage);
}

#[test]
fn partial_recordings_are_found_by_name() {
    assert_eq!(recoverable_id("C:\\Recovery\\abc.partial.ogg").as_deref(), Some("abc"));
    assert_eq!(recoverable_id("C:\\Recovery\\abc.partial.ogg.partial.ogg").as_deref(), Some("abc"));
    assert_eq!(recoverable_id("C:\\Recovery\\abc.ogg"), None);
    assert_eq!(recoverable_id("C:\\Recovery\\abc.partial.OGG"), None);
    assert_eq!(recoverable_id("C:\\Recovery\\.partial.ogg").as_deref(), Some(""));
}

#[test]
fn recoverable_files_are_offered_newest_first() {
    let file = |id: &str, created: i128| RecoverableFile {
        id: id.into(),
        path: format!("{id}.partial.ogg"),
        created_at_nanos: created,
        size_bytes: 1,
    };
    let ordered = newest_first(vec![file("a", 10), file("b", 30), file("c", 10), file("d", 20)]);
    let ids: Vec<&str> = ordered.iter().map(|f| f.id.as_str()).collect();
    assert_eq!(ids, vec!["b", "d", "a", "c"]);
}
