//! What the inference engine hands back from one decode, as plain values.
//!
//! Engine times ("token time") are in centiseconds; utterances carry
//! milliseconds, so each engine time is multiplied by ten on the way out.

use vstd::prelude::*;
use crate::transcript::Utternace;

verus! {

/// The largest engine time whose value in milliseconds fits an `i64`.
pub const MAX_ENGINE_TIME: i64 = 922_337_203_685_477_580;

/// One token of a decode: its vocabulary id, text and time span.
#[derive(Debug)]
pub struct Token {
    pub id: i32,
    pub text: String,
    pub start: i64,
    pub stop: i64,
}

/// One segment of a decode: its span, its text and its tokens.
#[derive(Debug)]
pub struct Segment {
    pub start: i64,
    pub stop: i64,
    pub text: String,
    pub tokens: Vec<Token>,
}

/// An engine time that is non-negative and convertible to milliseconds.
pub open spec fn time_ok(t: i64) -> bool {
    0 <= t <= MAX_ENGINE_TIME
}

impl Token {
    pub open spec fn well_timed(&self) -> bool {
        time_ok(self.start) && time_ok(self.stop)
    }
}

/// Every token of `ts` is well timed.
pub open spec fn tokens_well_timed(ts: Seq<Token>) -> bool {
    forall|i: int| 0 <= i < ts.len() ==> (#[trigger] ts[i]).well_timed()
}

impl Segment {
    pub open spec fn well_timed(&self) -> bool {
        time_ok(self.start) && time_ok(self.stop) && tokens_well_timed(self.tokens@)
    }
}

/// Every segment of `ss` is well timed.
pub open spec fn segments_well_timed(ss: Seq<Segment>) -> bool {
    forall|i: int| 0 <= i < ss.len() ==> (#[trigger] ss[i]).well_timed()
}

/// `u` spans `start..stop` engine time, converted to milliseconds, and says `text`.
pub open spec fn utterance_of(u: Utternace, start: i64, stop: i64, text: Seq<char>) -> bool {
    u.start == start * 10 && u.stop == stop * 10 && u.text@ == text
}

/// `us` holds one utterance per token of `ts`, in order.
pub open spec fn utterances_of_tokens(us: Seq<Utternace>, ts: Seq<Token>) -> bool {
    &&& us.len() == ts.len()
    &&& forall|i: int|
        0 <= i < us.len() ==> utterance_of(#[trigger] us[i], ts[i].start, ts[i].stop, ts[i].text@)
}

fn is_time_ok(t: i64) -> (r: bool)
    ensures
        r == time_ok(t),
{
    0 <= t && t <= MAX_ENGINE_TIME
}

impl Segment {
    /// Whether the segment and all its tokens are well timed.
    pub fn is_well_timed(&self) -> (r: bool)
        ensures
            r == self.well_timed(),
    {
        if !is_time_ok(self.start) || !is_time_ok(self.stop) {
            return false;
        }
        let mut i: usize = 0;
        while i < self.tokens.len()
            invariant
                i <= self.tokens@.len(),
                forall|j: int| 0 <= j < i ==> (#[trigger] self.tokens@[j]).well_timed(),
            decreases self.tokens.len() - i,
        {
            let t = &self.tokens[i];
            if !is_time_ok(t.start) || !is_time_ok(t.stop) {
                return false;
            }
            i += 1;
        }
        true
    }
}

/// The utterance for one token, in milliseconds.
pub fn token_utterance(t: &Token) -> (u: Utternace)
    requires
        t.well_timed(),
    ensures
        utterance_of(u, t.start, t.stop, t.text@),
{
    Utternace { start: t.start * 10, stop: t.stop * 10, text: t.text.clone() }
}

} // verus!
