//! What the recognisers' output is turned into, and how they are set up:
//! segment clean-up and joining, thread count, GPU setting.

use vstd::prelude::*;
use vstd::string::*;
use crate::text::{trim, trimmed, white_space, lemma_trimmed_ends, ascii_fold, eq_ignore_ascii_case, equal_ignoring_ascii_case, lowercase, to_lowercase};

verus! {

/// Whether a trimmed segment is one of the recogniser's non-speech
/// markers, `[BLANK_AUDIO]` or `(silence)`, in any ASCII case.
pub open spec fn is_filler(t: Seq<char>) -> bool {
    equal_ignoring_ascii_case(t, "[blank_audio]"@) || equal_ignoring_ascii_case(t, "(silence)"@)
}

/// Whether a trimmed segment carries speech: it is neither empty nor a
/// non-speech marker.
pub open spec fn is_speech(t: Seq<char>) -> bool {
    t.len() > 0 && !is_filler(t)
}

/// The trimmed segments that carry speech, in order.
pub open spec fn speech_parts(segments: Seq<Seq<char>>) -> Seq<Seq<char>>
    decreases segments.len(),
{
    if segments.len() == 0 {
        Seq::empty()
    } else {
        let earlier = speech_parts(segments.drop_last());
        let t = trimmed(segments.last());
        if is_speech(t) {
            earlier.push(t)
        } else {
            earlier
        }
    }
}

/// Pieces of text joined by single spaces.
pub open spec fn join_spaced(parts: Seq<Seq<char>>) -> Seq<char>
    decreases parts.len(),
{
    if parts.len() == 0 {
        Seq::empty()
    } else if parts.len() == 1 {
        parts[0]
    } else {
        join_spaced(parts.drop_last()) + " "@ + parts.last()
    }
}

/// The transcript of a list of recognised segments.
pub open spec fn transcript(segments: Seq<Seq<char>>) -> Seq<char> {
    join_spaced(speech_parts(segments))
}

proof fn lemma_speech_parts_trimmed(segments: Seq<Seq<char>>)
    ensures
        forall|k: int| 0 <= k < speech_parts(segments).len() ==> {
            &&& #[trigger] speech_parts(segments)[k].len() > 0
            &&& !white_space(speech_parts(segments)[k][0])
            &&& !white_space(speech_parts(segments)[k].last())
        },
    decreases segments.len(),
{
    if segments.len() > 0 {
        let earlier = speech_parts(segments.drop_last());
        lemma_speech_parts_trimmed(segments.drop_last());
        let t = trimmed(segments.last());
        lemma_trimmed_ends(segments.last());
        if is_speech(t) {
            assert forall|k: int| 0 <= k < earlier.push(t).len() implies {
                &&& #[trigger] earlier.push(t)[k].len() > 0
                &&& !white_space(earlier.push(t)[k][0])
                &&& !white_space(earlier.push(t)[k].last())
            } by {
                if k < earlier.len() {
                    assert(earlier.push(t)[k] == earlier[k]);
                }
            }
        }
    }
}

proof fn lemma_join_ends(parts: Seq<Seq<char>>)
    requires
        parts.len() > 0,
        forall|k: int| 0 <= k < parts.len() ==> #[trigger] parts[k].len() > 0,
    ensures
        join_spaced(parts).len() > 0,
        join_spaced(parts)[0] == parts[0][0],
        join_spaced(parts).last() == parts.last().last(),
    decreases parts.len(),
{
    if parts.len() > 1 {
        let rest = parts.drop_last();
        lemma_join_ends(rest);
        assert(rest[0] == parts[0]);
        assert(parts[parts.len() - 1].len() > 0);
    }
}

/// A transcript never begins or ends with whitespace: every piece of it is
/// a trimmed segment.
pub proof fn lemma_transcript_has_no_outer_whitespace(segments: Seq<Seq<char>>)
    ensures
        transcript(segments).len() > 0 ==> !white_space(transcript(segments)[0])
            && !white_space(transcript(segments).last()),
{
    let parts = speech_parts(segments);
    lemma_speech_parts_trimmed(segments);
    if parts.len() > 0 {
        assert(speech_parts(segments)[0].len() > 0);
        assert(speech_parts(segments)[parts.len() - 1].len() > 0);
        lemma_join_ends(parts);
    }
}

/// Whether a trimmed segment is a non-speech marker.
pub fn is_filler_segment(t: &str) -> (r: bool)
    ensures
        r == is_filler(t@),
{
    eq_ignore_ascii_case(t, "[blank_audio]") || eq_ignore_ascii_case(t, "(silence)")
}

/// Joining one more piece appends a single space and the piece.
pub proof fn lemma_join_pushed(parts: Seq<Seq<char>>, t: Seq<char>)
    requires
        parts.len() > 0,
    ensures
        join_spaced(parts.push(t)) == join_spaced(parts) + " "@ + t,
{
    assert(parts.push(t).drop_last() =~= parts);
}

proof fn lemma_join_empty_iff(parts: Seq<Seq<char>>)
    requires
        forall|k: int| 0 <= k < parts.len() ==> #[trigger] parts[k].len() > 0,
    ensures
        (join_spaced(parts).len() == 0) <==> (parts.len() == 0),
    decreases parts.len(),
{
    if parts.len() > 1 {
        lemma_join_empty_iff(parts.drop_last());
    }
}

proof fn lemma_speech_parts_nonempty(segments: Seq<Seq<char>>)
    ensures
        forall|k: int| 0 <= k < speech_parts(segments).len() ==> #[trigger] speech_parts(segments)[k].len() > 0,
    decreases segments.len(),
{
    if segments.len() > 0 {
        let earlier = speech_parts(segments.drop_last());
        lemma_speech_parts_nonempty(segments.drop_last());
        let t = trimmed(segments.last());
        if is_speech(t) {
            assert forall|k: int| 0 <= k < earlier.push(t).len() implies #[trigger] earlier.push(t)[k].len() > 0 by {
                if k < earlier.len() {
                    assert(earlier.push(t)[k] == earlier[k]);
                }
            }
        }
    }
}

/// Joins recognised segments into one transcript: each segment is trimmed,
/// empty segments and non-speech markers are dropped, and the rest are
/// joined with single spaces.
pub fn join_segments(segments: &Vec<String>) -> (r: String)
    ensures
        r@ == transcript(segments@.map_values(|s: String| s@)),
{
    let ghost views = segments@.map_values(|s: String| s@);
    let mut text = String::from_str("");
    let mut i: usize = 0;
    proof {
        reveal_strlit("");
        assert(views.subrange(0, 0) =~= Seq::<Seq<char>>::empty());
    }
    while i < segments.len()
        invariant
            views == segments@.map_values(|s: String| s@),
            i <= segments@.len(),
            text@ == join_spaced(speech_parts(views.subrange(0, i as int))),
            (text@.len() == 0) <==> (speech_parts(views.subrange(0, i as int)).len() == 0),
        decreases segments@.len() - i,
    {
        let ghost before = views.subrange(0, i as int);
        let ghost after = views.subrange(0, i + 1);
        proof {
            assert(after.drop_last() =~= before);
            assert(after.last() == segments@[i as int]@);
            lemma_speech_parts_nonempty(before);
        }
        let t = trim(segments[i].as_str());
        if t.unicode_len() > 0 && !is_filler_segment(t.as_str()) {
            if text.unicode_len() > 0 {
                text.append(" ");
                proof { lemma_join_pushed(speech_parts(before), t@); }
            } else {
                proof {
                    lemma_join_empty_iff(speech_parts(before));
                    assert(speech_parts(after) =~= seq![t@]);
                }
            }
            text.append(t.as_str());
        }
        i = i + 1;
    }
    proof {
        assert(views.subrange(0, segments@.len() as int) =~= views);
    }
    text
}

/// The number of threads the recogniser runs with on a machine with `cpus`
/// processors: half of them, at least one and at most four.
pub fn num_threads(cpus: usize) -> (r: i32)
    ensures
        r as int == (if cpus / 2 < 1 { 1 } else if cpus / 2 > 4 { 4 } else { (cpus / 2) as int }),
{
    let half = cpus / 2;
    if half < 1 {
        1
    } else if half > 4 {
        4
    } else {
        half as i32
    }
}

/// Whether a `TEN_FOUR_USE_GPU` value, given also in lower case, asks for
/// the GPU: it is `1`, or `true` in any case.
pub open spec fn gpu_value_enables(value: Seq<char>, lowered: Seq<char>) -> bool {
    value == "1"@ || lowered == "true"@
}

/// Decides the GPU setting from a `TEN_FOUR_USE_GPU` value and its lower-cased form.
pub fn gpu_enabled_by(value: &str, lowered: &str) -> (r: bool)
    ensures
        r == gpu_value_enables(value@, lowered@),
{
    String::from_str(value) == String::from_str("1") || String::from_str(lowered) == String::from_str("true")
}

/// Whether the GPU is used: only when `TEN_FOUR_USE_GPU` is set to `1` or
/// to `true` in any case.
pub fn gpu_requested(setting: Option<String>) -> (r: bool)
    ensures
        r == match setting {
            Some(v) => gpu_value_enables(v@, lowercase(v@)),
            None => false,
        },
{
    match setting {
        Some(v) => {
            let lowered = to_lowercase(v.as_str());
            gpu_enabled_by(v.as_str(), lowered.as_str())
        },
        None => false,
    }
}

/// A segment whose trimmed text is not empty and not a non-speech marker
/// always reaches the transcript, whatever its length: it is added, trimmed,
/// after the speech of the segments before it, separated from it by a
/// single space; on its own it is the whole transcript.
pub proof fn lemma_speech_segment_kept(segments: Seq<Seq<char>>, s: Seq<char>)
    requires
        trimmed(s).len() > 0,
        !is_filler(trimmed(s)),
    ensures
        speech_parts(segments.push(s)) == speech_parts(segments).push(trimmed(s)),
        transcript(seq![s]) == trimmed(s),
        transcript(segments.push(s)) == if speech_parts(segments).len() == 0 {
            trimmed(s)
        } else {
            transcript(segments) + " "@ + trimmed(s)
        },
{
    assert(segments.push(s).drop_last() =~= segments);
    assert(seq![s].drop_last() =~= Seq::<Seq<char>>::empty());
    assert(seq![s].last() == s);
    assert(speech_parts(Seq::<Seq<char>>::empty()) =~= Seq::<Seq<char>>::empty());
    assert(speech_parts(seq![s]) == speech_parts(Seq::<Seq<char>>::empty()).push(trimmed(s)));
    assert(speech_parts(seq![s]) =~= seq![trimmed(s)]);
    if speech_parts(segments).len() > 0 {
        lemma_join_pushed(speech_parts(segments), trimmed(s));
    } else {
        assert(speech_parts(segments).push(trimmed(s)) =~= seq![trimmed(s)]);
    }
}

/// A segment that is blank after trimming, or a non-speech marker, leaves
/// the transcript as it was.
pub proof fn lemma_non_speech_segment_dropped(segments: Seq<Seq<char>>, s: Seq<char>)
    requires
        trimmed(s).len() == 0 || is_filler(trimmed(s)),
    ensures
        speech_parts(segments.push(s)) == speech_parts(segments),
        transcript(segments.push(s)) == transcript(segments),
{
    assert(segments.push(s).drop_last() =~= segments);
}

/// Only the two markers count as non-speech: a marker is 13 characters long
/// and enclosed in `[` `]` (`[blank_audio]`), or 9 long and enclosed in
/// `(` `)` (`(silence)`); and the markers are recognised in any ASCII case.
pub proof fn lemma_filler_shape(t: Seq<char>)
    ensures
        is_filler(t) ==> (t.len() == 13 && t[0] as u32 == 0x5B && t[12] as u32 == 0x5D) || (t.len() == 9
            && t[0] as u32 == 0x28 && t[8] as u32 == 0x29),
        is_filler("[blank_audio]"@),
        is_filler("[BLANK_AUDIO]"@),
        is_filler("(silence)"@),
{
    reveal_strlit("[blank_audio]");
    reveal_strlit("[BLANK_AUDIO]");
    reveal_strlit("(silence)");
    if equal_ignoring_ascii_case(t, "[blank_audio]"@) {
        assert(ascii_fold(t[0]) == ascii_fold("[blank_audio]"@[0]));
        assert(ascii_fold(t[12]) == ascii_fold("[blank_audio]"@[12]));
    }
    if equal_ignoring_ascii_case(t, "(silence)"@) {
        assert(ascii_fold(t[0]) == ascii_fold("(silence)"@[0]));
        assert(ascii_fold(t[8]) == ascii_fold("(silence)"@[8]));
    }
    assert(equal_ignoring_ascii_case("[blank_audio]"@, "[blank_audio]"@));
    assert(equal_ignoring_ascii_case("(silence)"@, "(silence)"@));
    assert(equal_ignoring_ascii_case("[BLANK_AUDIO]"@, "[blank_audio]"@));
}

} // verus!
