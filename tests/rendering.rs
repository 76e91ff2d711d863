use std::time::Duration;
use whisper_cli::timestamp::{format_millis, format_timestamp};
use whisper_cli::{Transcript, Utternace};

fn utterance(start: i64, stop: i64, text: &str) -> Utternace {
    Utternace { start, stop, text: text.to_string() }
}

fn transcript(utterances: Vec<Utternace>, words: Option<Vec<Utternace>>) -> Transcript {
    Transcript { processing_time: Duration::from_millis(3), utterances, word_utterances: words }
}

#[test]
fn timestamp_zero() {
    assert_eq!(format_timestamp(0, false, "."), "00:00.000");
}

#[test]
fn timestamp_one_hour_one_minute_one_second() {
    assert_eq!(format_timestamp(3661, true, ","), "1:01:01,000");
}

#[test]
fn timestamp_hours_omitted_when_zero() {
    assert_eq!(format_timestamp(59, false, "."), "00:59.000");
}

#[test]
fn timestamp_hours_shown_when_not_zero() {
    assert_eq!(format_timestamp(36000, false, "."), "10:00:00.000");
    assert_eq!(format_timestamp(0, true, "."), "0:00:00.000");
}

#[test]
fn timestamp_largest_seconds() {
    let largest = i64::MAX / 1000;
    assert_eq!(format_timestamp(largest, false, "."), "2562047788015:12:55.000");
}

#[test]
fn millis_keep_their_fraction() {
    assert_eq!(format_millis(2500, false, "."), "00:02.500");
    assert_eq!(format_millis(3_723_004, true, ","), "1:02:03,004");
    assert_eq!(format_millis(61_010, false, "."), "01:01.010");
}

#[test]
fn text_is_one_trimmed_line_per_utterance() {
    let t = transcript(
        vec![utterance(0, 10, "  Hello there \t"), utterance(10, 20, "\u{3000}world\n"), utterance(20, 30, "")],
        None,
    );
    assert_eq!(t.as_text(), "Hello there\nworld\n\n");
}

#[test]
fn text_of_no_utterances_is_empty() {
    assert_eq!(transcript(vec![], None).as_text(), "");
}

#[test]
fn text_is_stable_when_reserialized() {
    let t = transcript(vec![utterance(0, 10, "  one "), utterance(10, 20, " two")], None);
    let first = t.as_text();
    let lines: Vec<Utternace> = first.lines().map(|l| utterance(0, 0, l)).collect();
    assert_eq!(lines.len(), 2);
    let again = transcript(lines, None).as_text();
    assert_eq!(again, first);
}

#[test]
fn vtt_cues() {
    let t = transcript(vec![utterance(0, 1000, " hello "), utterance(1000, 2500, "world")], None);
    assert_eq!(t.as_vtt(), "00:00.000 --> 00:01.000\nhello\n00:01.000 --> 00:02.500\nworld\n");
}

#[test]
fn vtt_replaces_cue_arrows() {
    let t = transcript(vec![utterance(0, 1000, "a --> b-->c--->d")], None);
    assert_eq!(t.as_vtt(), "00:00.000 --> 00:01.000\na -> b->c-->d\n");
}

#[test]
fn srt_cues_are_numbered_with_hours() {
    let t = transcript(vec![utterance(0, 1000, "hello"), utterance(3_600_000, 3_601_500, "world")], None);
    assert_eq!(
        t.as_srt(),
        "1\n0:00:00,000 --> 0:00:01,000\nhello\n2\n1:00:00,000 --> 1:00:01,500\nworld\n"
    );
}

#[test]
fn cue_renderings_prefer_words() {
    let t = transcript(
        vec![utterance(0, 2000, "hello world")],
        Some(vec![utterance(0, 1000, "hello"), utterance(1000, 2000, " world")]),
    );
    assert_eq!(t.as_vtt(), "00:00.000 --> 00:01.000\nhello\n00:01.000 --> 00:02.000\nworld\n");
    assert_eq!(
        t.as_srt(),
        "1\n0:00:00,000 --> 0:00:01,000\nhello\n2\n0:00:01,000 --> 0:00:02,000\nworld\n"
    );
    assert_eq!(t.as_text(), "hello world\n");
}

#[test]
fn srt_numbers_past_nine() {
    let us: Vec<Utternace> = (0..11).map(|i| utterance(i * 1000, i * 1000 + 500, "x")).collect();
    let srt = transcript(us, None).as_srt();
    assert!(srt.contains("\n10\n0:00:09,000 --> 0:00:09,500\nx\n11\n0:00:10,000 --> 0:00:10,500\nx\n"));
    assert!(srt.starts_with("1\n0:00:00,000 --> 0:00:00,500\nx\n2\n"));
}
