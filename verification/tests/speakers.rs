use garage::speakers::{parse_speaker_argument, speaker_status, SpeakerCommand};
use garage::text::{same_bytes, same_text};

#[test]
fn speaker_argument_knows_on_off_and_status() {
    assert_eq!(parse_speaker_argument(Some("on")), Some(SpeakerCommand::On));
    assert_eq!(parse_speaker_argument(Some("off")), Some(SpeakerCommand::Off));
    assert_eq!(parse_speaker_argument(Some("status")), Some(SpeakerCommand::Status));
}

#[test]
fn speaker_argument_takes_nothing_else() {
    assert_eq!(parse_speaker_argument(None), None);
    assert_eq!(parse_speaker_argument(Some("")), None);
    assert_eq!(parse_speaker_argument(Some("ON")), None);
    assert_eq!(parse_speaker_argument(Some("o")), None);
    assert_eq!(parse_speaker_argument(Some("onn")), None);
    assert_eq!(parse_speaker_argument(Some("open")), None);
}

#[test]
fn speaker_status_texts() {
    assert_eq!(speaker_status(true, true), "on");
    assert_eq!(speaker_status(true, false), "off");
    assert_eq!(speaker_status(false, true), "unknown");
    assert_eq!(speaker_status(false, false), "unknown");
}

#[test]
fn same_bytes_compares_length_and_content() {
    assert!(same_bytes(b"", b""));
    assert!(same_bytes(b"abc", b"abc"));
    assert!(!same_bytes(b"abc", b"abd"));
    assert!(!same_bytes(b"abc", b"ab"));
    assert!(!same_bytes(b"ab", b"abc"));
    assert!(!same_bytes(b"xbc", b"abc"));
}

#[test]
fn same_text_compares_text() {
    assert!(same_text("", ""));
    assert!(same_text("st\u{f6}p", "st\u{f6}p"));
    assert!(!same_text("stop", "st\u{f6}p"));
    assert!(!same_text("stop", "Stop"));
}
