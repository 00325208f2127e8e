//! Text-to-speech: the rules a text must meet before it is synthesized, and
//! the choice of voice.

use vstd::prelude::*;
use crate::text;

verus! {

/// The longest text, in characters, accepted for synthesis.
pub const MAX_TTS_TEXT_CHARS: usize = 4000;

/// What synthesis is given for `t`: the text without surrounding whitespace,
/// provided it is neither empty nor longer than the limit.
pub open spec fn tts_verdict(t: Seq<char>) -> Result<Seq<char>, Seq<char>> {
    let trimmed = text::trim(t);
    if trimmed.len() == 0 {
        Err("TTS text is empty."@)
    } else if trimmed.len() > MAX_TTS_TEXT_CHARS {
        Err(
            "TTS text is too long ("@ + text::dec(trimmed.len()) + " characters). Please keep it under "@
                + text::dec(MAX_TTS_TEXT_CHARS as nat) + " characters."@,
        )
    } else {
        Ok(trimmed)
    }
}

/// Checks a text against `tts_verdict` and hands back its trimmed form.
pub fn validate_tts_text(text: &str) -> (r: Result<&str, String>)
    ensures
        match tts_verdict(text@) {
            Ok(t) => r is Ok && r->Ok_0@ == t,
            Err(m) => r is Err && r->Err_0@ == m,
        },
{
    let trimmed = text::trim_str(text);
    let count = trimmed.unicode_len();
    if count == 0 {
        return Err(text::owned("TTS text is empty."));
    }
    if count > MAX_TTS_TEXT_CHARS {
        let mut m = text::owned("TTS text is too long (");
        text::push_dec(&mut m, count as u64);
        m.append(" characters). Please keep it under ");
        text::push_dec(&mut m, MAX_TTS_TEXT_CHARS as u64);
        m.append(" characters.");
        return Err(m);
    }
    Ok(trimmed)
}

/// Which listed voice a synthesis uses.
#[derive(Debug, Clone, Copy, PartialEq, Eq, Structural)]
pub struct VoiceChoice {
    /// The position of the voice in the list.
    pub index: usize,
    /// Whether the voice's settings are used under the requested name,
    /// because no voice has that name.
    pub renamed: bool,
}

/// The voice for a requested name: the first voice of that name; else the
/// first voice, renamed; none when the list is empty.
pub open spec fn voice_choice(names: Seq<Seq<char>>, requested: Seq<char>) -> Option<VoiceChoice> {
    if exists|i: int| 0 <= i < names.len() && names[i] == requested {
        let i = choose|i: int| 0 <= i < names.len() && names[i] == requested && forall|j: int| 0 <= j < i ==> names[j] != requested;
        Some(VoiceChoice { index: i as usize, renamed: false })
    } else if names.len() > 0 {
        Some(VoiceChoice { index: 0, renamed: true })
    } else {
        None
    }
}

/// Picks the voice for `requested` among the listed voice names.
pub fn choose_voice(names: &Vec<String>, requested: &str) -> (r: Result<VoiceChoice, String>)
    ensures
        match voice_choice(crate::cli::strs_view(names@), requested@) {
            Some(c) => r == Ok::<VoiceChoice, String>(c),
            None => r is Err && r->Err_0@ == "No voices available from Edge TTS"@,
        },
{
    let ghost v = crate::cli::strs_view(names@);
    let mut i: usize = 0;
    while i < names.len()
        invariant
            i <= names.len(),
            v == crate::cli::strs_view(names@),
            forall|j: int| 0 <= j < i ==> v[j] != requested@,
        decreases names.len() - i,
    {
        if text::str_eq(names[i].as_str(), requested) {
            proof {
                assert(v[i as int] == requested@);
                let k = choose|k: int| 0 <= k < v.len() && v[k] == requested@ && forall|j: int| 0 <= j < k ==> v[j] != requested@;
                if k < i {
                    assert(v[k] != requested@);
                }
                if k > i {
                    assert(v[i as int] != requested@);
                }
            }
            return Ok(VoiceChoice { index: i, renamed: false });
        }
        i = i + 1;
    }
    if names.len() > 0 {
        Ok(VoiceChoice { index: 0, renamed: true })
    } else {
        Err(text::owned("No voices available from Edge TTS"))
    }
}

/// A text that passed the checks passes them again unchanged.
pub proof fn lemma_tts_validation_idempotent(t: Seq<char>)
    ensures
        tts_verdict(t) matches Ok(x) ==> tts_verdict(x) == Ok::<Seq<char>, Seq<char>>(x),
{
    text::lemma_trim_idempotent(t);
}

} // verus!
