use whisper_cli::capture::CaptureBuffer;
use whisper_cli::engine::{Segment, Token};
use whisper_cli::history::{SampleHistory, TokenHistory, NUM_ITERS};
use whisper_cli::session::{is_carried, pace, StreamSession, LATENCY_MS};
use whisper_cli::window::AudioWindow;

fn token(id: i32, text: &str, start: i64, stop: i64) -> Token {
    Token { id, text: text.to_string(), start, stop }
}

fn segment(stop: i64, tokens: Vec<Token>) -> Segment {
    Segment { start: 0, stop, text: String::new(), tokens }
}

#[test]
fn capture_push_then_drain_returns_the_samples() {
    let mut b = CaptureBuffer::new(8);
    assert!(!b.push_batch(&[1, 2, 3]));
    assert!(!b.push_batch(&[4, 5]));
    assert_eq!(b.len(), 5);
    assert_eq!(b.drain(), vec![1, 2, 3, 4, 5]);
    assert_eq!(b.len(), 0);
}

#[test]
fn capture_overflow_drops_newest_and_flags_once_per_batch() {
    let mut b = CaptureBuffer::new(4);
    assert!(!b.push_batch(&[1, 2]));
    assert!(b.push_batch(&[3, 4, 5, 6]));
    assert!(b.push_batch(&[7]));
    assert_eq!(b.drain(), vec![1, 2, 3, 4]);
    assert!(!b.push_batch(&[8, 9, 10, 11]));
    assert_eq!(b.drain(), vec![8, 9, 10, 11]);
}

#[test]
fn capture_drain_on_empty_is_empty() {
    let mut b = CaptureBuffer::new(3);
    assert_eq!(b.drain(), Vec::<u32>::new());
    assert!(!b.push_batch(&[]));
    assert_eq!(b.drain(), Vec::<u32>::new());
}

#[test]
fn sample_history_evicts_in_order() {
    let mut h = SampleHistory::new();
    assert_eq!(NUM_ITERS, 2);
    assert_eq!(h.push_and_evict(5), 0);
    assert_eq!(h.push_and_evict(7), 0);
    assert_eq!(h.push_and_evict(9), 5);
    assert_eq!(h.push_and_evict(11), 7);
    assert_eq!(h.push_and_evict(13), 9);
}

#[test]
fn token_history_flattens_oldest_first() {
    let mut h = TokenHistory::new();
    assert_eq!(h.context(), Vec::<i32>::new());
    assert_eq!(h.push_and_evict(vec![1, 2]), Vec::<i32>::new());
    assert_eq!(h.context(), vec![1, 2]);
    assert_eq!(h.push_and_evict(vec![3]), Vec::<i32>::new());
    assert_eq!(h.context(), vec![1, 2, 3]);
    assert_eq!(h.push_and_evict(vec![]), vec![1, 2]);
    assert_eq!(h.context(), vec![3]);
}

#[test]
fn window_evicts_and_appends() {
    let mut w = AudioWindow::new(6);
    w.append(&vec![1, 2, 3, 4]);
    w.evict(3);
    w.append(&vec![5, 6]);
    assert_eq!(w.contents(), vec![4, 5, 6]);
    w.evict(0);
    w.append(&vec![7, 8, 9]);
    assert_eq!(w.contents(), vec![4, 5, 6, 7, 8, 9]);
}

#[test]
fn carry_test_cross_multiplies() {
    // 5000 ms * 2 iterations over 100 engine units: a unit is 100 ms;
    // 2 samples at 1000 Hz are 2 ms.
    assert!(is_carried(0, 100, 2, 3, 1000));
    assert!(!is_carried(1, 100, 2, 3, 1000));
    // 1 unit is 100 ms; 150 samples at 1 kHz are 150 ms.
    assert!(is_carried(1, 100, 150, 3, 1000));
    assert!(!is_carried(1, 100, 100, 3, 1000));
    // exactly equal is not earlier
    assert!(!is_carried(2, 100, 200, 5, 1000));
    // a decode that ended at time zero carries nothing
    assert!(!is_carried(0, 0, 1000, 3, 1000));
    // before the window is full only `iteration` latency intervals count
    assert!(is_carried(1, 100, 51, 1, 1000));
    assert!(!is_carried(1, 100, 50, 1, 1000));
}

#[test]
fn pacing_sleeps_the_rest_or_reports_overrun() {
    assert_eq!(LATENCY_MS, 5000);
    assert_eq!(pace(0), Some(5_000_000));
    assert_eq!(pace(4_999_999), Some(1));
    assert_eq!(pace(5_000_000), None);
    assert_eq!(pace(u64::MAX), None);
}

#[test]
fn session_iterations_carry_tokens_and_offsets() {
    let mut s = StreamSession::new(4, 1000);

    let r1 = s.begin_iteration(&vec![1, 2]);
    assert_eq!(r1.samples, vec![1, 2]);
    assert_eq!(r1.context, Vec::<i32>::new());
    let p1 = s.finish_iteration(segment(100, vec![
        token(50257, "[_SOT_]", 0, 0),
        token(10, "Hi", 0, 50),
        token(11, " there", 50, 100),
        token(50256, "[_EOT_]", 100, 100),
    ]));
    assert_eq!(p1.text, "Hi there");
    assert_eq!(p1.offset, 0);
    assert_eq!(p1.utterances.len(), 2);
    assert_eq!((p1.utterances[1].start, p1.utterances[1].stop), (500, 1000));
    assert_eq!(p1.utterances[0].text, "Hi");

    let r2 = s.begin_iteration(&vec![3, 4]);
    assert_eq!(r2.samples, vec![1, 2, 3, 4]);
    assert_eq!(r2.context, Vec::<i32>::new());
    let p2 = s.finish_iteration(segment(100, vec![
        token(50257, "[_SOT_]", 0, 0),
        token(42, "ab", 0, 50),
        token(43, "cd", 60, 100),
        token(50256, "[_EOT_]", 100, 100),
    ]));
    assert_eq!(p2.text, "abcd");
    assert_eq!(p2.offset, 8);

    let r3 = s.begin_iteration(&vec![5]);
    assert_eq!(r3.samples, vec![3, 4, 5]);
    assert_eq!(r3.context, vec![42]);
    let p3 = s.finish_iteration(segment(100, vec![token(1, "x", 0, 0)]));
    assert_eq!(p3.offset, 2);
    assert_eq!(p3.text, "");
    assert!(p3.utterances.is_empty());

    let r4 = s.begin_iteration(&vec![6, 7]);
    assert_eq!(r4.samples, vec![5, 6, 7]);
    assert_eq!(r4.context, vec![42]);
    let p4 = s.finish_iteration(segment(0, vec![]));
    assert_eq!(p4.offset, 0);
}

#[test]
fn session_window_holds_two_iterations() {
    let mut s = StreamSession::new(2, 16000);
    s.begin_iteration(&vec![1, 2, 3, 4]);
    s.finish_iteration(segment(0, vec![]));
    let r = s.begin_iteration(&vec![5, 6, 7, 8]);
    assert_eq!(r.samples, vec![1, 2, 3, 4, 5, 6, 7, 8]);
    s.finish_iteration(segment(0, vec![]));
    let r = s.begin_iteration(&vec![9]);
    assert_eq!(r.samples, vec![5, 6, 7, 8, 9]);
}
