//! Transcripts and their plain-text, WebVTT and SubRip renderings.

use vstd::prelude::*;
use std::time::Duration;
use crate::text::{
    count_char, decimal, lemma_count_char_concat, lemma_one_newline, lemma_trimmed_idempotent,
    push_char, push_decimal, replace, replace_all, trim, trimmed,
};
use crate::timestamp::{clock_text, format_millis};

verus! {

/// One span of recognised speech. `start` and `stop` are in milliseconds.
#[derive(Debug)]
pub struct Utternace {
    pub start: i64,
    pub stop: i64,
    pub text: String,
}

/// The result of one batch transcription.
#[derive(Debug)]
pub struct Transcript {
    pub processing_time: Duration,
    pub utterances: Vec<Utternace>,
    /// One utterance per word, when word timestamps were asked for; cue
    /// renderings prefer it to `utterances`.
    pub word_utterances: Option<Vec<Utternace>>,
}

/// One emission of a streaming session: the utterances and text of the
/// latest decode, and how many characters of the previously emitted text are
/// stale and must be erased before `text` is shown.
#[derive(Debug)]
pub struct PartialTranscript {
    pub utterances: Vec<Utternace>,
    pub text: String,
    pub offset: usize,
}

/// One line of the plain-text rendering.
pub open spec fn text_line(text: Seq<char>) -> Seq<char> {
    trimmed(text) + seq!['\n']
}

/// The plain-text rendering: each utterance's trimmed text on a line of its own.
pub open spec fn plain_text(us: Seq<Utternace>) -> Seq<char>
    decreases us.len(),
{
    if us.len() == 0 {
        Seq::empty()
    } else {
        plain_text(us.drop_last()) + text_line(us.last().text@)
    }
}

/// The cue text of an utterance: trimmed, with `-->` turned into `->`.
pub open spec fn cue_text(text: Seq<char>) -> Seq<char> {
    replace_all(trimmed(text), seq!['-', '-', '>'], seq!['-', '>'])
}

/// The timing line and text of one cue, each ending in a newline.
pub open spec fn cue_body(u: Utternace, always_include_hours: bool, marker: Seq<char>) -> Seq<char> {
    clock_text(u.start as nat, always_include_hours, marker) + seq![' ', '-', '-', '>', ' ']
        + clock_text(u.stop as nat, always_include_hours, marker) + seq!['\n'] + cue_text(u.text@)
        + seq!['\n']
}

/// The WebVTT rendering: one cue per utterance, hours only where needed.
pub open spec fn vtt_text(us: Seq<Utternace>) -> Seq<char>
    decreases us.len(),
{
    if us.len() == 0 {
        Seq::empty()
    } else {
        vtt_text(us.drop_last()) + cue_body(us.last(), false, seq!['.'])
    }
}

/// The SubRip rendering: cues numbered from 1, hours always shown.
pub open spec fn srt_text(us: Seq<Utternace>) -> Seq<char>
    decreases us.len(),
{
    if us.len() == 0 {
        Seq::empty()
    } else {
        srt_text(us.drop_last()) + decimal(us.len()) + seq!['\n'] + cue_body(
            us.last(),
            true,
            seq![','],
        )
    }
}

/// No timestamp in `us` is negative.
pub open spec fn timestamps_valid(us: Seq<Utternace>) -> bool {
    forall|i: int| 0 <= i < us.len() ==> 0 <= #[trigger] us[i].start && 0 <= us[i].stop
}

/// The plain-text rendering has exactly one line per utterance: when no
/// trimmed text holds a newline, the rendering holds one newline per utterance.
pub proof fn lemma_plain_text_lines(us: Seq<Utternace>)
    requires
        forall|i: int| 0 <= i < us.len() ==> !(#[trigger] trimmed(us[i].text@)).contains('\n'),
    ensures
        count_char(plain_text(us), '\n') == us.len(),
    decreases us.len(),
{
    if us.len() > 0 {
        assert forall|i: int| 0 <= i < us.drop_last().len() implies !(#[trigger] trimmed(
            us.drop_last()[i].text@,
        )).contains('\n') by {
            assert(us.drop_last()[i] == us[i]);
        }
        lemma_plain_text_lines(us.drop_last());
        assert(!trimmed(us[us.len() - 1].text@).contains('\n'));
        lemma_one_newline(trimmed(us.last().text@));
        lemma_count_char_concat(plain_text(us.drop_last()), text_line(us.last().text@), '\n');
    }
}

/// Rendering is idempotent under re-serialisation: utterances whose texts
/// are the lines of a plain-text rendering render to that same text.
pub proof fn lemma_plain_text_reserialized(us: Seq<Utternace>, lines: Seq<Utternace>)
    requires
        lines.len() == us.len(),
        forall|i: int| 0 <= i < us.len() ==> (#[trigger] lines[i]).text@ == trimmed(us[i].text@),
    ensures
        plain_text(lines) == plain_text(us),
    decreases us.len(),
{
    if us.len() > 0 {
        assert forall|i: int| 0 <= i < us.drop_last().len() implies (#[trigger] lines.drop_last()[
            i
        ]).text@ == trimmed(us.drop_last()[i].text@) by {
            assert(lines.drop_last()[i] == lines[i]);
            assert(us.drop_last()[i] == us[i]);
        }
        lemma_plain_text_reserialized(us.drop_last(), lines.drop_last());
        lemma_trimmed_idempotent(us.last().text@);
        assert(lines.last().text@ == trimmed(us.last().text@));
    }
}

/// Appends the timing line and text of one cue.
fn push_cue(out: &mut String, u: &Utternace, always_include_hours: bool, marker: &str)
    requires
        0 <= u.start,
        0 <= u.stop,
    ensures
        final(out)@ == old(out)@ + cue_body(*u, always_include_hours, marker@),
{
    let start = format_millis(u.start, always_include_hours, marker);
    let stop = format_millis(u.stop, always_include_hours, marker);
    out.append(start.as_str());
    out.append(" --> ");
    out.append(stop.as_str());
    push_char(out, '\n');
    proof {
        reveal_strlit(" --> ");
        reveal_strlit("-->");
        reveal_strlit("->");
        assert(" --> "@ =~= seq![' ', '-', '-', '>', ' ']);
        assert("-->"@ =~= seq!['-', '-', '>']);
        assert("->"@ =~= seq!['-', '>']);
    }
    let cleaned = replace(trim(u.text.as_str()), "-->", "->");
    out.append(cleaned.as_str());
    push_char(out, '\n');
    assert(out@ =~= old(out)@ + cue_body(*u, always_include_hours, marker@));
}

impl Transcript {
    /// The utterances that the cue renderings use.
    pub open spec fn cues(&self) -> Seq<Utternace> {
        match self.word_utterances {
            Some(words) => words@,
            None => self.utterances@,
        }
    }

    pub fn as_text(&self) -> (r: String)
        ensures
            r@ == plain_text(self.utterances@),
    {
        let mut out = String::new();
        let mut i: usize = 0;
        while i < self.utterances.len()
            invariant
                i <= self.utterances.len(),
                out@ == plain_text(self.utterances@.take(i as int)),
            decreases self.utterances.len() - i,
        {
            out.append(trim(self.utterances[i].text.as_str()));
            push_char(&mut out, '\n');
            assert(self.utterances@.take(i + 1).drop_last() =~= self.utterances@.take(i as int));
            assert(self.utterances@.take(i + 1).last() == self.utterances@[i as int]);
            assert(out@ =~= plain_text(self.utterances@.take(i + 1)));
            i += 1;
        }
        assert(self.utterances@.take(i as int) =~= self.utterances@);
        out
    }

    pub fn as_vtt(&self) -> (r: String)
        requires
            timestamps_valid(self.cues()),
        ensures
            r@ == vtt_text(self.cues()),
    {
        let cues = match &self.word_utterances {
            Some(words) => words,
            None => &self.utterances,
        };
        let mut out = String::new();
        let mut i: usize = 0;
        while i < cues.len()
            invariant
                cues@ == self.cues(),
                timestamps_valid(cues@),
                i <= cues.len(),
                out@ == vtt_text(cues@.take(i as int)),
            decreases cues.len() - i,
        {
            proof {
                reveal_strlit(".");
                assert("."@ =~= seq!['.']);
            }
            push_cue(&mut out, &cues[i], false, ".");
            assert(cues@.take(i + 1).drop_last() =~= cues@.take(i as int));
            assert(cues@.take(i + 1).last() == cues@[i as int]);
            assert(out@ =~= vtt_text(cues@.take(i + 1)));
            i += 1;
        }
        assert(cues@.take(i as int) =~= cues@);
        out
    }

    pub fn as_srt(&self) -> (r: String)
        requires
            timestamps_valid(self.cues()),
        ensures
            r@ == srt_text(self.cues()),
    {
        let cues = match &self.word_utterances {
            Some(words) => words,
            None => &self.utterances,
        };
        let mut out = String::new();
        let mut i: usize = 0;
        while i < cues.len()
            invariant
                cues@ == self.cues(),
                timestamps_valid(cues@),
                i <= cues.len(),
                out@ == srt_text(cues@.take(i as int)),
            decreases cues.len() - i,
        {
            push_decimal(&mut out, (i + 1) as u64);
            push_char(&mut out, '\n');
            proof {
                reveal_strlit(",");
                assert(","@ =~= seq![',']);
            }
            push_cue(&mut out, &cues[i], true, ",");
            assert(cues@.take(i + 1).drop_last() =~= cues@.take(i as int));
            assert(cues@.take(i + 1).last() == cues@[i as int]);
            assert(out@ =~= srt_text(cues@.take(i + 1)));
            i += 1;
        }
        assert(cues@.take(i as int) =~= cues@);
        out
    }
}

} // verus!
