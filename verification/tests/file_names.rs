use nota::file_names::{
    candidate_file_name, extension_chars, file_name_chars, has_extension, recording_stem,
};

fn text(chars: Vec<char>) -> String {
    chars.into_iter().collect()
}

#[test]
fn file_names_follow_either_separator() {
    assert_eq!(text(file_name_chars("C:\\Recordings\\meeting.ogg")), "meeting.ogg");
    assert_eq!(text(file_name_chars("/tmp/a/b.wav")), "b.wav");
    assert_eq!(text(file_name_chars("plain")), "plain");
    assert_eq!(text(file_name_chars("dir/")), "dir");
    assert_eq!(text(file_name_chars("C:\\dir\\.")), "dir");
    assert_eq!(text(file_name_chars("a/..")), "");
    assert_eq!(text(file_name_chars(".")), "");
    assert_eq!(text(file_name_chars("C:")), "");
    assert_eq!(text(file_name_chars("C:\\")), "");
    assert_eq!(text(file_name_chars("D:talk.mp3")), "talk.mp3");
}

#[test]
fn extensions_follow_the_last_dot() {
    assert_eq!(extension_chars("a/archive.tar.gz").map(text), Some("gz".to_string()));
    assert_eq!(extension_chars("a/.hidden").map(text), None);
    assert_eq!(extension_chars("a/noext").map(text), None);
    assert_eq!(extension_chars("a/..").map(text), None);
    assert!(has_extension("C:\\x\\Talk.MP3", "mp3"));
    assert!(!has_extension("C:\\x\\Talk.mp4", "mp3"));
}

#[test]
fn candidate_names_are_numbered_after_the_first() {
    assert_eq!(candidate_file_name("meeting", 1), "meeting.ogg");
    assert_eq!(candidate_file_name("meeting", 2), "meeting_2.ogg");
    assert_eq!(candidate_file_name("meeting", 0), "meeting.ogg");
}

#[test]
fn recording_stems_name_the_start_time() {
    assert_eq!(recording_stem(2026, 8, 2, 9, 5), "2026-08-02_09-05_会议录音");
    assert_eq!(recording_stem(987, 12, 31, 23, 59), "0987-12-31_23-59_会议录音");
}
