//! Recognising transcriptions that carry no speech: empty text and the
//! markers speech-to-text models emit for silence (`[BLANK_AUDIO]`,
//! `(silence)`, ...).
use vstd::prelude::*;

use crate::text;
use crate::text::CharClass;

verus! {

/// The lower-cased marker texts that stand for "no speech".
pub open spec fn is_silence_marker(s: Seq<char>) -> bool {
    ||| s.len() == 0
    ||| s == "blank_audio"@
    ||| s == "blank audio"@
    ||| s == "silence"@
    ||| s == "silent"@
    ||| s == "no speech"@
    ||| s == "no_speech"@
    ||| s == "inaudible"@
    ||| s == "music"@
    ||| s == "background noise"@
}

/// The text inside any run of opening and closing wrappers, trimmed and
/// lower-cased.
pub open spec fn marker_core(t: Seq<char>) -> Seq<char> {
    text::ascii_lower(
        text::trim(
            text::trim_end_by(
                text::trim_start_by(t, CharClass::OpenWrapper),
                CharClass::CloseWrapper,
            ),
        ),
    )
}

/// Whether a transcription carries no speech.
pub open spec fn blank_transcription(raw: Seq<char>) -> bool {
    let t = text::trim(raw);
    t.len() == 0 || is_silence_marker(marker_core(t))
}

/// Whether `raw` is empty, white space, or one of the silence markers,
/// possibly wrapped in brackets, parentheses, braces or angle brackets and
/// in any ASCII case.
pub fn is_blank_transcription(raw: &str) -> (res: bool)
    ensures
        res == blank_transcription(raw@),
        text::is_blank(raw@) ==> res,
{
    let v = text::chars_of(raw);
    let t = text::trim_chars(&v);
    if t.len() == 0 {
        return true;
    }
    let a = text::trim_start_class(&t, CharClass::OpenWrapper);
    let b = text::trim_end_class(&a, CharClass::CloseWrapper);
    let c = text::trim_chars(&b);
    let inner = text::ascii_lower_chars(&c);
    inner.len() == 0 || text::chars_eq_str(&inner, "blank_audio") || text::chars_eq_str(
        &inner,
        "blank audio",
    ) || text::chars_eq_str(&inner, "silence") || text::chars_eq_str(&inner, "silent")
        || text::chars_eq_str(&inner, "no speech") || text::chars_eq_str(&inner, "no_speech")
        || text::chars_eq_str(&inner, "inaudible") || text::chars_eq_str(&inner, "music")
        || text::chars_eq_str(&inner, "background noise")
}

/// Silence markers are recognised in any ASCII case: folding the case of a
/// transcription never changes whether it is blank.
pub proof fn law_blank_transcription_ignores_case(raw: Seq<char>)
    ensures
        blank_transcription(text::ascii_lower(raw)) == blank_transcription(raw),
{
    let t = text::trim(raw);
    text::lemma_trim_lower(raw);
    text::lemma_lower_len(t);
    let a = text::trim_start_by(t, CharClass::OpenWrapper);
    text::lemma_trim_start_by_lower(t, CharClass::OpenWrapper);
    let b = text::trim_end_by(a, CharClass::CloseWrapper);
    text::lemma_trim_end_by_lower(a, CharClass::CloseWrapper);
    text::lemma_trim_lower(b);
    text::lemma_lower_idempotent(text::trim(b));
}

/// The nine silence markers, as their lower-cased core reads.
pub open spec fn listed_marker(core: Seq<char>) -> bool {
    core == "blank_audio"@ || core == "blank audio"@ || core == "silence"@ || core == "silent"@
        || core == "no speech"@ || core == "no_speech"@ || core == "inaudible"@ || core == "music"@
        || core == "background noise"@
}

/// A transcription is blank exactly when its trimmed text is empty, or when
/// what is left after unwrapping, trimming and lower-casing it is empty or
/// one of the nine listed markers. Any other text, however short ("No.",
/// "OK.", "Hi."), is speech.
pub proof fn law_blank_only_for_listed_markers(raw: Seq<char>)
    ensures
        blank_transcription(raw) <==> (text::trim(raw).len() == 0 || marker_core(text::trim(raw)).len()
            == 0 || listed_marker(marker_core(text::trim(raw)))),
{
}

/// Which characters a marker is made of: lower-case ASCII letters, spaces
/// and underscores.
pub open spec fn marker_char(c: char) -> bool {
    ('a' <= c && c <= 'z') || c == ' ' || c == '_'
}

/// Text whose unwrapped, trimmed, lower-cased core holds any other
/// character (a digit, a full stop, a comma, an apostrophe, ...) is never
/// taken for silence.
pub proof fn law_punctuated_speech_is_not_blank(raw: Seq<char>, k: int)
    requires
        0 <= k < marker_core(text::trim(raw)).len(),
        !marker_char(marker_core(text::trim(raw))[k]),
    ensures
        !blank_transcription(raw),
{
    let core = marker_core(text::trim(raw));
    reveal_strlit("blank_audio");
    reveal_strlit("blank audio");
    reveal_strlit("silence");
    reveal_strlit("silent");
    reveal_strlit("no speech");
    reveal_strlit("no_speech");
    reveal_strlit("inaudible");
    reveal_strlit("music");
    reveal_strlit("background noise");
    if text::trim(raw).len() == 0 {
        assert(text::trim(raw) =~= Seq::<char>::empty());
        assert(text::trim_start_by(text::trim(raw), CharClass::OpenWrapper).len() == 0);
    }
    if listed_marker(core) {
        assert(marker_char(core[k]));
    }
}

} // verus!
