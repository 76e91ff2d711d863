//! One-shot transcription of a whole recording from one decode's segments.

use vstd::prelude::*;
use std::time::Duration;
use crate::engine::{
    Segment, Token, segments_well_timed, token_utterance, utterance_of, utterances_of_tokens,
};
use crate::transcript::{Transcript, Utternace};

verus! {

/// Why a batch transcription produced no transcript.
#[derive(Debug, PartialEq, Eq, Structural)]
pub enum TranscribeError {
    /// The engine returned no segment for the recording.
    NoSegmentsFound,
}

/// Whether a token text is one of the engine's control tokens, which start with `[_`.
pub open spec fn is_control(text: Seq<char>) -> bool {
    text.len() >= 2 && text[0] == '[' && text[1] == '_'
}

/// The tokens of `ts` that are not control tokens, in order.
pub open spec fn word_tokens(ts: Seq<Token>) -> Seq<Token>
    decreases ts.len(),
{
    if ts.len() == 0 {
        Seq::empty()
    } else if is_control(ts.last().text@) {
        word_tokens(ts.drop_last())
    } else {
        word_tokens(ts.drop_last()).push(ts.last())
    }
}

/// The word tokens of every segment of `ss`, segment after segment.
pub open spec fn segment_words(ss: Seq<Segment>) -> Seq<Token>
    decreases ss.len(),
{
    if ss.len() == 0 {
        Seq::empty()
    } else {
        segment_words(ss.drop_last()) + word_tokens(ss.last().tokens@)
    }
}

/// `us` holds one utterance per segment of `ss`, in order.
pub open spec fn utterances_of_segments(us: Seq<Utternace>, ss: Seq<Segment>) -> bool {
    &&& us.len() == ss.len()
    &&& forall|i: int|
        0 <= i < us.len() ==> utterance_of(#[trigger] us[i], ss[i].start, ss[i].stop, ss[i].text@)
}

/// Whether `text` starts with the control-token marker `[_`.
pub fn is_control_text(text: &str) -> (r: bool)
    ensures
        r == is_control(text@),
{
    text.unicode_len() >= 2 && text.get_char(0) == '[' && text.get_char(1) == '_'
}

/// Appends to `words` an utterance for each word token of `ts`.
fn push_words(words: &mut Vec<Utternace>, ts: &Vec<Token>)
    requires
        forall|i: int| 0 <= i < ts@.len() ==> (#[trigger] ts@[i]).well_timed(),
    ensures
        final(words)@.len() == old(words)@.len() + word_tokens(ts@).len(),
        final(words)@.take(old(words)@.len() as int) == old(words)@,
        utterances_of_tokens(final(words)@.skip(old(words)@.len() as int), word_tokens(ts@)),
{
    let ghost start = words@.len();
    let mut j: usize = 0;
    while j < ts.len()
        invariant
            j <= ts@.len(),
            forall|i: int| 0 <= i < ts@.len() ==> (#[trigger] ts@[i]).well_timed(),
            start == old(words)@.len(),
            words@.len() == start + word_tokens(ts@.take(j as int)).len(),
            words@.take(start as int) == old(words)@,
            utterances_of_tokens(words@.skip(start as int), word_tokens(ts@.take(j as int))),
        decreases ts.len() - j,
    {
        let t = &ts[j];
        assert(ts@.take(j + 1).drop_last() =~= ts@.take(j as int));
        assert(ts@.take(j + 1).last() == ts@[j as int]);
        if !is_control_text(t.text.as_str()) {
            let u = token_utterance(t);
            let ghost prev = words@;
            words.push(u);
            assert(words@.take(start as int) =~= prev.take(start as int));
            assert(words@.skip(start as int) =~= prev.skip(start as int).push(u));
        }
        j += 1;
    }
    assert(ts@.take(j as int) =~= ts@);
}

/// Builds the transcript of one decode from its segments. Engine times become
/// milliseconds; with `word_timestamps`, every non-control token also becomes
/// a word utterance.
pub fn transcript_from_segments(
    segments: &Vec<Segment>,
    word_timestamps: bool,
    processing_time: Duration,
) -> (r: Result<Transcript, TranscribeError>)
    requires
        segments_well_timed(segments@),
    ensures
        segments@.len() == 0 <==> r == Err::<Transcript, TranscribeError>(
            TranscribeError::NoSegmentsFound,
        ),
        r is Ok ==> {
            let t = r->Ok_0;
            &&& t.processing_time == processing_time
            &&& utterances_of_segments(t.utterances@, segments@)
            &&& word_timestamps <==> t.word_utterances is Some
            &&& word_timestamps ==> utterances_of_tokens(
                t.word_utterances->Some_0@,
                segment_words(segments@),
            )
        },
{
    if segments.len() == 0 {
        return Err(TranscribeError::NoSegmentsFound);
    }
    let mut utterances: Vec<Utternace> = Vec::new();
    let mut words: Vec<Utternace> = Vec::new();
    let mut s: usize = 0;
    while s < segments.len()
        invariant
            s <= segments@.len(),
            segments_well_timed(segments@),
            utterances_of_segments(utterances@, segments@.take(s as int)),
            word_timestamps ==> utterances_of_tokens(words@, segment_words(segments@.take(s as int))),
        decreases segments.len() - s,
    {
        let seg = &segments[s];
        assert(segments@.take(s + 1).drop_last() =~= segments@.take(s as int));
        assert(segments@.take(s + 1).last() == segments@[s as int]);
        assert(seg.well_timed());
        utterances.push(
            Utternace { start: seg.start * 10, stop: seg.stop * 10, text: seg.text.clone() },
        );
        if word_timestamps {
            let ghost before = words@;
            push_words(&mut words, &seg.tokens);
            assert(words@ =~= before + words@.skip(before.len() as int));
        }
        s += 1;
    }
    assert(segments@.take(s as int) =~= segments@);
    Ok(
        Transcript {
            processing_time,
            utterances,
            word_utterances: if word_timestamps {
                Some(words)
            } else {
                None
            },
        },
    )
}

} // verus!
