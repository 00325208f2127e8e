//! Speech-to-text: the rules a recording must meet before it is sent for
//! transcription, and the shape of the transcription request.

use vstd::prelude::*;
use crate::text;

verus! {

/// The largest recording accepted for transcription: 25 MiB.
pub const MAX_STT_AUDIO_BYTES: usize = 25 * 1024 * 1024;

/// Whether a recording of `len` bytes with MIME type `mime_type` may be sent:
/// it must not be empty, must not exceed the size limit, and its MIME type,
/// trimmed and lower-cased, must be present and start with `audio/`.
pub open spec fn audio_verdict(len: nat, mime_type: Seq<char>) -> Result<(), Seq<char>> {
    let n = text::lower(text::trim(mime_type));
    if len == 0 {
        Err("Audio recording is empty."@)
    } else if len > MAX_STT_AUDIO_BYTES {
        Err(
            "Audio recording is too large ("@ + text::dec(len) + " bytes). Please keep recordings under "@
                + text::dec(25) + " MB."@,
        )
    } else if n.len() == 0 {
        Err("Audio MIME type is missing."@)
    } else if !text::has_prefix(n, "audio/"@) {
        Err("Unsupported audio MIME type: "@ + mime_type)
    } else {
        Ok(())
    }
}

/// Checks a recording against `audio_verdict`.
pub fn validate_audio_payload(audio_data: &[u8], mime_type: &str) -> (r: Result<(), String>)
    ensures
        match audio_verdict(audio_data@.len(), mime_type@) {
            Ok(_) => r is Ok,
            Err(m) => r is Err && r->Err_0@ == m,
        },
{
    if audio_data.len() == 0 {
        return Err(text::owned("Audio recording is empty."));
    }
    if audio_data.len() > MAX_STT_AUDIO_BYTES {
        let mut m = text::owned("Audio recording is too large (");
        text::push_dec(&mut m, audio_data.len() as u64);
        m.append(" bytes). Please keep recordings under ");
        text::push_dec(&mut m, (MAX_STT_AUDIO_BYTES / 1024 / 1024) as u64);
        m.append(" MB.");
        return Err(m);
    }
    let n = crate::state::normalized(mime_type);
    if n.len() == 0 {
        return Err(text::owned("Audio MIME type is missing."));
    }
    let prefix = text::to_chars("audio/");
    if !text::chars_starts_with(n.as_slice(), prefix.as_slice()) {
        return Err(crate::error::prefixed("Unsupported audio MIME type: ", mime_type));
    }
    Ok(())
}

/// The file extension a recording is uploaded under: `m4a` for MP4 audio,
/// `mp3` for MPEG audio, `webm` otherwise (what browsers record).
pub open spec fn audio_extension(mime_type: Seq<char>) -> Seq<char> {
    if text::contains(mime_type, "mp4"@) {
        "m4a"@
    } else if text::contains(mime_type, "mpeg"@) {
        "mp3"@
    } else {
        "webm"@
    }
}

/// The upload file name for a recording: `audio.` and its extension.
pub fn audio_file_name(mime_type: &str) -> (r: String)
    ensures
        r@ == "audio."@ + audio_extension(mime_type@),
{
    let ext = if text::str_contains(mime_type, "mp4") {
        "m4a"
    } else if text::str_contains(mime_type, "mpeg") {
        "mp3"
    } else {
        "webm"
    };
    crate::error::prefixed("audio.", ext)
}

/// The transcription endpoint under a base URL (trailing slashes dropped).
pub fn transcription_url(base_url: &str) -> (r: String)
    ensures
        r@ == text::strip_end_all(base_url@, '/') + "/audio/transcriptions"@,
{
    let mut s = text::trim_end_char(base_url, '/');
    s.append("/audio/transcriptions");
    s
}

} // verus!
