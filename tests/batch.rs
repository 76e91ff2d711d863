use std::time::Duration;
use whisper_cli::batch::{is_control_text, transcript_from_segments, TranscribeError};
use whisper_cli::engine::{token_utterance, Segment, Token};

fn token(id: i32, text: &str, start: i64, stop: i64) -> Token {
    Token { id, text: text.to_string(), start, stop }
}

fn segment(start: i64, stop: i64, text: &str, tokens: Vec<Token>) -> Segment {
    Segment { start, stop, text: text.to_string(), tokens }
}

#[test]
fn no_segments_is_an_error() {
    let r = transcript_from_segments(&vec![], false, Duration::from_millis(1));
    assert!(matches!(r, Err(TranscribeError::NoSegmentsFound)));
    let r = transcript_from_segments(&vec![], true, Duration::from_millis(1));
    assert!(matches!(r, Err(TranscribeError::NoSegmentsFound)));
}

#[test]
fn two_segments_render_as_vtt() {
    let segments = vec![segment(0, 100, "hello", vec![]), segment(100, 250, "world", vec![])];
    let t = transcript_from_segments(&segments, false, Duration::from_millis(7)).unwrap();
    assert_eq!(t.processing_time, Duration::from_millis(7));
    assert!(t.word_utterances.is_none());
    assert_eq!(t.as_vtt(), "00:00.000 --> 00:01.000\nhello\n00:01.000 --> 00:02.500\nworld\n");
}

#[test]
fn engine_times_become_milliseconds() {
    let segments = vec![segment(12, 345, " hi", vec![])];
    let t = transcript_from_segments(&segments, false, Duration::from_millis(0)).unwrap();
    assert_eq!(t.utterances.len(), 1);
    assert_eq!(t.utterances[0].start, 120);
    assert_eq!(t.utterances[0].stop, 3450);
    assert_eq!(t.utterances[0].text, " hi");
}

#[test]
fn word_timestamps_skip_control_tokens() {
    let segments = vec![
        segment(0, 100, "hello there", vec![
            token(1, "[_BEG_]", 0, 0),
            token(2, " hello", 0, 40),
            token(3, " there", 40, 100),
        ]),
        segment(100, 150, "again", vec![token(4, "[_TT_50]", 100, 100), token(5, " again", 100, 150), token(6, "[x", 150, 150)]),
    ];
    let t = transcript_from_segments(&segments, true, Duration::from_millis(0)).unwrap();
    assert_eq!(t.utterances.len(), 2);
    let words = t.word_utterances.as_ref().unwrap();
    let texts: Vec<&str> = words.iter().map(|w| w.text.as_str()).collect();
    assert_eq!(texts, vec![" hello", " there", " again", "[x"]);
    assert_eq!((words[1].start, words[1].stop), (400, 1000));
    assert_eq!(t.as_vtt().lines().next(), Some("00:00.000 --> 00:00.400"));
}

#[test]
fn word_timestamps_off_leave_no_words() {
    let segments = vec![segment(0, 100, "a", vec![token(1, " a", 0, 100)])];
    let t = transcript_from_segments(&segments, false, Duration::from_millis(0)).unwrap();
    assert!(t.word_utterances.is_none());
}

#[test]
fn control_marker_detection() {
    assert!(is_control_text("[_BEG_]"));
    assert!(is_control_text("[_"));
    assert!(!is_control_text("["));
    assert!(!is_control_text(" [_"));
    assert!(!is_control_text(""));
}

#[test]
fn token_utterance_converts_times() {
    let u = token_utterance(&token(9, "x", 3, 7));
    assert_eq!((u.start, u.stop, u.text.as_str()), (30, 70, "x"));
}

#[test]
fn segment_timing_checks() {
    assert!(segment(0, 100, "a", vec![token(1, "a", 0, 100)]).is_well_timed());
    assert!(!segment(-1, 100, "a", vec![]).is_well_timed());
    assert!(!segment(0, 100, "a", vec![token(1, "a", 0, -5)]).is_well_timed());
    assert!(!segment(0, i64::MAX, "a", vec![]).is_well_timed());
    assert!(segment(0, i64::MAX / 10, "a", vec![]).is_well_timed());
}
