//! The streaming session: each iteration absorbs newly captured audio into
//! the window, decides which tokens of the previous decode are carried into
//! the next one, and turns each decode into a partial transcript.
//!
//! The caller runs the loop: it sleeps as `pace` says, drains and downmixes
//! the capture buffer, calls `begin_iteration`, decodes the returned window
//! with the returned context tokens, and hands the decode's first segment to
//! `finish_iteration`.

use vstd::prelude::*;
use crate::engine::{Segment, Token, time_ok, token_utterance, tokens_well_timed, utterances_of_tokens};
use crate::history::{NUM_ITERS, SampleHistory, TokenHistory, concat_all, push_evict};
use crate::text::push_char;
use crate::transcript::{PartialTranscript, Utternace};
use crate::window::AudioWindow;

verus! {

/// The wall-clock interval between iterations, in milliseconds.
pub const LATENCY_MS: u64 = 5000;

/// The tokens of a decode without the first and the last, which mark its
/// boundaries.
pub open spec fn inner_tokens(ts: Seq<Token>) -> Seq<Token> {
    if ts.len() >= 2 {
        ts.subrange(1, ts.len() - 1)
    } else {
        Seq::empty()
    }
}

/// The texts of `ts`, one after another.
pub open spec fn tokens_text(ts: Seq<Token>) -> Seq<char>
    decreases ts.len(),
{
    if ts.len() == 0 {
        Seq::empty()
    } else {
        tokens_text(ts.drop_last()) + ts.last().text@
    }
}

/// The ids of `ts`, in order.
pub open spec fn token_ids(ts: Seq<Token>) -> Seq<i32> {
    ts.map_values(|t: Token| t.id)
}

/// Whether iteration `iteration` (counted from 1) has a full window behind it.
pub open spec fn is_steady(iteration: int) -> bool {
    iteration > NUM_ITERS
}

/// Whether a token that starts at engine time `start` has fallen out of the
/// window. The previous decode ended at engine time `segment_end` and covered
/// `LATENCY_MS * min(iteration, NUM_ITERS)` milliseconds, so a token starts
/// `start * LATENCY_MS * min(iteration, NUM_ITERS) / segment_end` ms into it;
/// the `evicted` samples at `sample_rate` Hz covered `evicted * 1000 /
/// sample_rate` ms. The comparison is made exactly, by cross-multiplying;
/// a decode that ended at time zero carries nothing.
pub open spec fn token_carried(
    start: int,
    segment_end: int,
    evicted: int,
    iteration: int,
    sample_rate: int,
) -> bool {
    let iters = if iteration < NUM_ITERS {
        iteration
    } else {
        NUM_ITERS as int
    };
    segment_end > 0 && start * LATENCY_MS * iters * sample_rate < evicted * 1000 * segment_end
}

/// The tokens of `ts` that have fallen out of the window, in order.
pub open spec fn carried_tokens(
    ts: Seq<Token>,
    segment_end: int,
    evicted: int,
    iteration: int,
    sample_rate: int,
) -> Seq<Token>
    decreases ts.len(),
{
    if ts.len() == 0 {
        Seq::empty()
    } else {
        let rest = carried_tokens(ts.drop_last(), segment_end, evicted, iteration, sample_rate);
        if token_carried(ts.last().start as int, segment_end, evicted, iteration, sample_rate) {
            rest.push(ts.last())
        } else {
            rest
        }
    }
}

/// The sum of `counts`.
pub open spec fn total(counts: Seq<usize>) -> int
    decreases counts.len(),
{
    if counts.len() == 0 {
        0
    } else {
        total(counts.drop_last()) + counts.last()
    }
}

proof fn lemma_total_drop_first(counts: Seq<usize>)
    requires
        counts.len() > 0,
    ensures
        total(counts.drop_first()) == total(counts) - counts[0],
    decreases counts.len(),
{
    if counts.len() > 1 {
        lemma_total_drop_first(counts.drop_last());
        assert(counts.drop_first().drop_last() =~= counts.drop_last().drop_first());
    } else {
        assert(counts.drop_first() =~= Seq::<usize>::empty());
        assert(counts.drop_last() =~= Seq::<usize>::empty());
    }
}

proof fn lemma_total_push_evict(counts: Seq<usize>, x: usize)
    requires
        counts.len() > 0,
    ensures
        total(counts.drop_first().push(x)) == total(counts) - counts[0] + x,
{
    lemma_total_drop_first(counts);
    assert(counts.drop_first().push(x).drop_last() =~= counts.drop_first());
}

proof fn lemma_text_prefix(ts: Seq<Token>, k: int)
    requires
        0 <= k <= ts.len(),
    ensures
        tokens_text(ts.take(k)).len() <= tokens_text(ts).len(),
    decreases ts.len(),
{
    if k < ts.len() {
        lemma_text_prefix(ts.drop_last(), k);
        assert(ts.drop_last().take(k) =~= ts.take(k));
    } else {
        assert(ts.take(k) =~= ts);
    }
}

/// The carried tokens' text is never longer than the text of the tokens
/// they were picked from: the erase offset never exceeds the length of the
/// previously emitted text.
pub proof fn lemma_carried_text_within(
    ts: Seq<Token>,
    segment_end: int,
    evicted: int,
    iteration: int,
    sample_rate: int,
)
    ensures
        tokens_text(carried_tokens(ts, segment_end, evicted, iteration, sample_rate)).len()
            <= tokens_text(ts).len(),
    decreases ts.len(),
{
    if ts.len() > 0 {
        lemma_carried_text_within(ts.drop_last(), segment_end, evicted, iteration, sample_rate);
        let rest = carried_tokens(ts.drop_last(), segment_end, evicted, iteration, sample_rate);
        assert(rest.push(ts.last()).drop_last() =~= rest);
    }
}

/// Whether a token starting at `start` has fallen out of the window; see
/// `token_carried`.
pub fn is_carried(start: i64, segment_end: i64, evicted: usize, iteration: u64, sample_rate: u32) -> (r:
    bool)
    requires
        time_ok(start),
        time_ok(segment_end),
    ensures
        r == token_carried(start as int, segment_end as int, evicted as int, iteration as int, sample_rate as int),
{
    if segment_end <= 0 {
        return false;
    }
    let iters: u128 = if iteration < NUM_ITERS as u64 {
        iteration as u128
    } else {
        NUM_ITERS as u128
    };
    let s = start as u128;
    let rate = sample_rate as u128;
    assert(s * 5000 <= 922_337_203_685_477_580 * 5000) by (nonlinear_arith)
        requires
            s <= 922_337_203_685_477_580,
    ;
    let a: u128 = s * (LATENCY_MS as u128);
    assert(a * iters <= 922_337_203_685_477_580 * 5000 * 2) by (nonlinear_arith)
        requires
            a <= 922_337_203_685_477_580 * 5000,
            iters <= 2,
    ;
    let b: u128 = a * iters;
    assert(b * rate <= 922_337_203_685_477_580 * 5000 * 2 * 0xffff_ffff) by (nonlinear_arith)
        requires
            b <= 922_337_203_685_477_580 * 5000 * 2,
            rate <= 0xffff_ffff,
    ;
    let lhs: u128 = b * rate;
    let unit: u128 = 1000 * (segment_end as u128);
    let ev = evicted as u128;
    assert(ev * unit == evicted * 1000 * segment_end) by (nonlinear_arith)
        requires
            unit == 1000 * segment_end,
            ev == evicted,
    ;
    assert(lhs / unit < ev <==> lhs < ev * unit) by (nonlinear_arith)
        requires
            unit > 0,
    {
        if lhs / unit < ev {
            assert(lhs == unit * (lhs / unit) + lhs % unit);
            assert(unit * (lhs / unit) + unit <= unit * ev);
        } else {
            assert(lhs == unit * (lhs / unit) + lhs % unit);
            assert(unit * ev <= unit * (lhs / unit));
        }
    }
    lhs / unit < ev
}

/// What the next decode runs on: the window's samples, as `f32` bit
/// patterns, and the token ids carried from earlier iterations.
#[derive(Debug)]
pub struct DecodeRequest {
    pub samples: Vec<u32>,
    pub context: Vec<i32>,
}

/// How long to sleep before the next iteration, in microseconds, once
/// `elapsed_us` have passed since the previous one began; `None` when the
/// iteration overran the latency budget, which ends the session.
pub fn pace(elapsed_us: u64) -> (sleep_us: Option<u64>)
    ensures
        elapsed_us < LATENCY_MS * 1000 ==> sleep_us == Some((LATENCY_MS * 1000 - elapsed_us) as u64),
        elapsed_us >= LATENCY_MS * 1000 ==> sleep_us is None,
{
    let budget: u64 = LATENCY_MS * 1000;
    if elapsed_us < budget {
        Some(budget - elapsed_us)
    } else {
        None
    }
}

/// The state of one streaming session.
pub struct StreamSession {
    counts: SampleHistory,
    carried: TokenHistory,
    window: AudioWindow,
    latency_samples: usize,
    sample_rate: u32,
    iteration: u64,
    evicted: usize,
    offset: usize,
    previous: Vec<Token>,
    previous_end: i64,
    previous_len: usize,
}

impl StreamSession {
    /// The number of iterations begun.
    pub closed spec fn iteration(&self) -> nat {
        self.iteration as nat
    }

    /// The sample counts of the last iterations, oldest first.
    pub closed spec fn sample_counts(&self) -> Seq<usize> {
        self.counts@
    }

    /// The token ids carried by the last iterations, oldest first.
    pub closed spec fn carried_ids(&self) -> Seq<Seq<i32>> {
        self.carried@
    }

    /// The samples of the audio window, oldest first.
    pub closed spec fn window(&self) -> Seq<u32> {
        self.window@
    }

    /// How many samples the latest iteration evicted from the window.
    pub closed spec fn evicted(&self) -> usize {
        self.evicted
    }

    /// The erase offset that the next emission carries.
    pub closed spec fn offset(&self) -> nat {
        self.offset as nat
    }

    /// The tokens of the previous decode.
    pub closed spec fn previous(&self) -> Seq<Token> {
        self.previous@
    }

    /// When the previous decode's segment ended, in engine time.
    pub closed spec fn previous_end(&self) -> i64 {
        self.previous_end
    }

    /// The sample rate, in Hz, that eviction counts are measured at.
    pub closed spec fn sample_rate(&self) -> nat {
        self.sample_rate as nat
    }

    /// The number of samples one latency interval captures.
    pub closed spec fn latency_samples(&self) -> nat {
        self.latency_samples as nat
    }

    /// The text that the previous emission showed.
    pub open spec fn previous_text(&self) -> Seq<char> {
        tokens_text(inner_tokens(self.previous()))
    }

    pub closed spec fn wf(&self) -> bool {
        &&& self.counts.wf()
        &&& self.carried.wf()
        &&& self.window.wf()
        &&& 0 < self.latency_samples <= usize::MAX / 16
        &&& 0 < self.sample_rate
        &&& self.window.spec_capacity() == self.latency_samples * NUM_ITERS * 2
        &&& self.window@.len() == total(self.counts@)
        &&& forall|i: int|
            0 <= i < self.counts@.len() ==> #[trigger] self.counts@[i] <= self.latency_samples
                * 2
        &&& tokens_well_timed(self.previous@)
        &&& time_ok(self.previous_end)
        &&& self.previous_len == tokens_text(inner_tokens(self.previous@)).len()
    }

    /// A session for a capture source whose latency interval holds
    /// `latency_samples` samples, with evictions measured at `sample_rate` Hz.
    pub fn new(latency_samples: usize, sample_rate: u32) -> (s: StreamSession)
        requires
            0 < latency_samples <= usize::MAX / 16,
            0 < sample_rate,
        ensures
            s.wf(),
            s.iteration() == 0,
            s.sample_counts() == Seq::new(NUM_ITERS as nat, |i: int| 0usize),
            s.carried_ids() == Seq::new(
                crate::history::NUM_ITERS_SAVED as nat,
                |i: int| Seq::<i32>::empty(),
            ),
            s.window() == Seq::<u32>::empty(),
            s.previous() == Seq::<Token>::empty(),
            s.offset() == 0,
            s.sample_rate() == sample_rate,
            s.latency_samples() == latency_samples,
    {
        let counts = SampleHistory::new();
        let s = StreamSession {
            counts,
            carried: TokenHistory::new(),
            window: AudioWindow::new(latency_samples * NUM_ITERS * 2),
            latency_samples,
            sample_rate,
            iteration: 0,
            evicted: 0,
            offset: 0,
            previous: Vec::new(),
            previous_end: 0,
            previous_len: 0,
        };
        assert(total(s.counts@) == 0) by {
            reveal_with_fuel(total, 3);
            assert(s.counts@.drop_last().drop_last() =~= Seq::<usize>::empty());
        }
        assert(inner_tokens(s.previous@) =~= Seq::<Token>::empty());
        s
    }

    /// The number of iterations begun.
    pub fn iterations(&self) -> (n: u64)
        ensures
            n == self.iteration(),
    {
        self.iteration
    }

    /// The largest number of samples one iteration may bring.
    pub fn max_batch(&self) -> (n: usize)
        requires
            self.wf(),
        ensures
            n == self.latency_samples() * 2,
    {
        self.latency_samples * 2
    }

    /// Starts an iteration on the samples captured since the last one
    /// (downmixed to mono, as `f32` bit patterns): evicts the oldest
    /// iteration's samples from the window, appends the new ones, carries the
    /// previous decode's tokens whose audio left the window, and returns what
    /// the next decode runs on.
    pub fn begin_iteration(&mut self, samples: &Vec<u32>) -> (request: DecodeRequest)
        requires
            old(self).wf(),
            old(self).iteration() < u64::MAX,
            samples@.len() <= old(self).latency_samples() * 2,
        ensures
            final(self).wf(),
            final(self).iteration() == old(self).iteration() + 1,
            (final(self).sample_counts(), final(self).evicted()) == push_evict(
                old(self).sample_counts(),
                samples@.len() as usize,
            ),
            final(self).window() == old(self).window().skip(final(self).evicted() as int)
                + samples@,
            ({
                let carried = if is_steady(final(self).iteration() as int) {
                    carried_tokens(
                        inner_tokens(old(self).previous()),
                        old(self).previous_end() as int,
                        final(self).evicted() as int,
                        final(self).iteration() as int,
                        old(self).sample_rate() as int,
                    )
                } else {
                    Seq::empty()
                };
                &&& final(self).iteration() > 1 ==> final(self).carried_ids() == push_evict(
                    old(self).carried_ids(),
                    token_ids(carried),
                ).0
                &&& final(self).iteration() == 1 ==> final(self).carried_ids()
                    == old(self).carried_ids()
                &&& final(self).offset() + tokens_text(carried).len() == old(
                    self,
                ).previous_text().len()
            }),
            final(self).offset() <= old(self).previous_text().len(),
            request.samples@ == final(self).window(),
            request.context@ == concat_all(final(self).carried_ids()),
            final(self).previous() == old(self).previous(),
            final(self).previous_end() == old(self).previous_end(),
            final(self).sample_rate() == old(self).sample_rate(),
            final(self).latency_samples() == old(self).latency_samples(),
    {
        self.iteration = self.iteration + 1;
        let ghost counts = self.counts@;
        let evicted = self.counts.push_and_evict(samples.len());
        proof {
            lemma_total_push_evict(counts, samples@.len() as usize);
            assert(counts[0] <= total(counts)) by {
                reveal_with_fuel(total, 3);
                assert(counts.drop_last().drop_last() =~= Seq::<usize>::empty());
                assert(counts.drop_last().last() == counts[0]);
            }
            assert(total(counts) - counts[0] == counts[1]) by {
                lemma_total_drop_first(counts);
                reveal_with_fuel(total, 2);
                assert(counts.drop_first().drop_last() =~= Seq::<usize>::empty());
            }
            assert(forall|i: int|
                0 <= i < self.counts@.len() ==> #[trigger] self.counts@[i] == if i
                    < counts.len() - 1 {
                    counts[i + 1]
                } else {
                    samples@.len() as usize
                });
        }
        self.evicted = evicted;
        self.window.evict(evicted);
        self.window.append(samples);

        let ghost inner = inner_tokens(self.previous@);
        let steady = self.iteration > NUM_ITERS as u64;
        let mut ids: Vec<i32> = Vec::new();
        let mut carried_len: usize = 0;
        let ghost mut carried: Seq<Token> = Seq::empty();
        if steady && self.previous.len() >= 2 {
            let last = self.previous.len() - 1;
            let mut i: usize = 1;
            while i < last
                invariant
                    last == self.previous@.len() - 1,
                    1 <= i <= last,
                    inner == self.previous@.subrange(1, last as int),
                    tokens_well_timed(self.previous@),
                    time_ok(self.previous_end),
                    self.previous_len == tokens_text(inner).len(),
                    carried == carried_tokens(
                        inner.take(i - 1),
                        self.previous_end as int,
                        evicted as int,
                        self.iteration as int,
                        self.sample_rate as int,
                    ),
                    ids@ == token_ids(carried),
                    carried_len == tokens_text(carried).len(),
                decreases last - i,
            {
                let t = &self.previous[i];
                assert(inner.take(i as int) =~= inner.take(i - 1).push(*t));
                assert(inner.take(i as int).drop_last() =~= inner.take(i - 1));
                if is_carried(t.start, self.previous_end, evicted, self.iteration, self.sample_rate) {
                    proof {
                        lemma_carried_text_within(
                            inner.take(i as int),
                            self.previous_end as int,
                            evicted as int,
                            self.iteration as int,
                            self.sample_rate as int,
                        );
                        lemma_text_prefix(inner, i as int);
                        assert(carried.push(*t).drop_last() =~= carried);
                    }
                    ids.push(t.id);
                    carried_len = carried_len + t.text.unicode_len();
                    proof {
                        carried = carried.push(*t);
                    }
                    assert(ids@ =~= token_ids(carried));
                }
                i += 1;
            }
            assert(inner.take(i - 1) =~= inner);
        } else {
            proof {
                if steady {
                    assert(inner =~= Seq::<Token>::empty());
                }
            }
        }
        assert(ids@ =~= token_ids(carried));
        assert(carried == if is_steady(self.iteration as int) {
            carried_tokens(
                inner,
                self.previous_end as int,
                evicted as int,
                self.iteration as int,
                self.sample_rate as int,
            )
        } else {
            Seq::<Token>::empty()
        });
        proof {
            lemma_carried_text_within(
                inner,
                self.previous_end as int,
                evicted as int,
                self.iteration as int,
                self.sample_rate as int,
            );
        }
        self.offset = self.previous_len - carried_len;
        if self.iteration > 1 {
            let _ = self.carried.push_and_evict(ids);
        }
        let context = self.carried.context();
        let window = self.window.contents();
        DecodeRequest { samples: window, context }
    }

    /// Ends an iteration on the first segment of its decode: emits the
    /// utterances and text of the segment's tokens, boundary tokens left out,
    /// with the erase offset computed when the iteration began, and keeps the
    /// segment for the next iteration's carry-over.
    pub fn finish_iteration(&mut self, segment: Segment) -> (emitted: PartialTranscript)
        requires
            old(self).wf(),
            segment.well_timed(),
        ensures
            final(self).wf(),
            utterances_of_tokens(emitted.utterances@, inner_tokens(segment.tokens@)),
            emitted.text@ == tokens_text(inner_tokens(segment.tokens@)),
            emitted.offset == old(self).offset(),
            final(self).previous() == segment.tokens@,
            final(self).previous_end() == segment.stop,
            final(self).previous_text() == emitted.text@,
            final(self).iteration() == old(self).iteration(),
            final(self).sample_counts() == old(self).sample_counts(),
            final(self).carried_ids() == old(self).carried_ids(),
            final(self).window() == old(self).window(),
            final(self).evicted() == old(self).evicted(),
            final(self).offset() == old(self).offset(),
            final(self).sample_rate() == old(self).sample_rate(),
            final(self).latency_samples() == old(self).latency_samples(),
    {
        let tokens = &segment.tokens;
        let ghost inner = inner_tokens(tokens@);
        let mut utterances: Vec<Utternace> = Vec::new();
        let mut text = String::new();
        if tokens.len() >= 2 {
            let last = tokens.len() - 1;
            let mut i: usize = 1;
            while i < last
                invariant
                    last == tokens@.len() - 1,
                    1 <= i <= last,
                    inner == tokens@.subrange(1, last as int),
                    tokens_well_timed(tokens@),
                    utterances_of_tokens(utterances@, inner.take(i - 1)),
                    text@ == tokens_text(inner.take(i - 1)),
                decreases last - i,
            {
                let t = &tokens[i];
                assert(inner.take(i as int) =~= inner.take(i - 1).push(*t));
                assert(inner.take(i as int).drop_last() =~= inner.take(i - 1));
                assert(tokens@[i as int].well_timed());
                utterances.push(token_utterance(t));
                text.append(t.text.as_str());
                i += 1;
            }
            assert(inner.take(i - 1) =~= inner);
        } else {
            assert(inner =~= Seq::<Token>::empty());
        }
        let length = text.as_str().unicode_len();
        self.previous = segment.tokens;
        self.previous_end = segment.stop;
        self.previous_len = length;
        PartialTranscript { utterances, text, offset: self.offset }
    }
}

} // verus!
