//! What a finished conversion reports, and the names it works with.
use vstd::prelude::*;
use crate::conv::AudioOption;

use crate::profiles::{Profile, ProfileView};
use crate::text::{append_str, chars_of, owned, string_of};

verus! {

/// The outcome of converting one file.
pub struct ConvertResult {
    pub filename: String,
    pub original_size: u64,
    pub new_size: u64,
    pub saved: u64,
}

/// The report of a conversion: how much smaller the file got (never below zero).
pub fn conversion_result(filename: String, original_size: u64, new_size: u64) -> (r: ConvertResult)
    ensures
        r.filename == filename,
        r.original_size == original_size,
        r.new_size == new_size,
        r.saved == if original_size >= new_size {
            original_size - new_size
        } else {
            0
        },
{
    let saved = if original_size >= new_size {
        original_size - new_size
    } else {
        0
    };
    ConvertResult { filename, original_size, new_size, saved }
}

/// The name the original file is kept under while it is converted.
pub fn backup_file_name(name: &str) -> (r: String)
    ensures
        r@ == name@ + ".bak"@,
{
    let mut v = chars_of(name);
    append_str(&mut v, ".bak");
    string_of(&v)
}

/// A file name for display: "?" when there is none.
pub fn display_name(name: Option<String>) -> (r: String)
    ensures
        r@ == match name {
            Some(n) => n@,
            None => "?"@,
        },
{
    match name {
        Some(n) => n,
        None => owned("?"),
    }
}

/// The profile with the audio option put in: its codec, and its bitrate or none.
pub fn with_audio(profile: &Profile, audio: &AudioOption) -> (r: Profile)
    ensures
        r@ == (ProfileView {
            audio_codec: Some(audio.codec@),
            audio_bitrate: match audio.bitrate {
                Some(b) => Some(b@),
                None => None,
            },
            ..profile@
        }),
{
    let mut p = profile.duplicate();
    p.audio_codec = Some(owned(audio.codec));
    p.audio_bitrate = match audio.bitrate {
        Some(b) => Some(owned(b)),
        None => None,
    };
    p
}

/// The glob pattern for what is given on the command line: a pattern is kept; a
/// folder ending in `/` gets its MKV files, any other folder all MKV files below it.
pub open spec fn glob_pattern(p: Seq<char>) -> Seq<char> {
    if p.contains('*') {
        p
    } else if p.len() > 0 && p.last() == '/' {
        p + "*.mkv"@
    } else {
        p + "/**/*.mkv"@
    }
}

/// The glob pattern for a command-line argument.
pub fn expand_pattern(pattern: &str) -> (r: String)
    ensures
        r@ == glob_pattern(pattern@),
{
    let v = chars_of(pattern);
    let mut i: usize = 0;
    while i < v.len()
        invariant
            i <= v.len(),
            v@ == pattern@,
            forall|k: int| 0 <= k < i ==> v@[k] != '*',
        decreases v.len() - i,
    {
        if v[i] == '*' {
            assert(pattern@[i as int] == '*');
            assert(pattern@.contains('*'));
            return owned(pattern);
        }
        i = i + 1;
    }
    assert(!pattern@.contains('*'));
    let mut out = v;
    if out.len() > 0 && out[out.len() - 1] == '/' {
        append_str(&mut out, "*.mkv");
    } else {
        append_str(&mut out, "/**/*.mkv");
    }
    string_of(&out)
}

} // verus!

verus! {

/// Expanding a pattern twice gives the same pattern as once.
pub proof fn law_pattern_expansion_idempotent(p: Seq<char>)
    ensures
        glob_pattern(glob_pattern(p)) == glob_pattern(p),
{
    if !p.contains('*') {
        reveal_strlit("*.mkv");
        reveal_strlit("/**/*.mkv");
        let g = glob_pattern(p);
        if p.len() > 0 && p.last() == '/' {
            assert(g[p.len() as int] == '*');
        } else {
            assert(g[p.len() as int + 1] == '*');
        }
        assert(g.contains('*'));
    }
}

/// Nothing is reported saved when the new file is not smaller, and what is saved
/// and what is left add up to the original size otherwise.
pub proof fn law_saved_space(original_size: u64, new_size: u64)
    ensures
        ({
            let saved: int = if original_size >= new_size {
                original_size - new_size
            } else {
                0
            };
            &&& new_size >= original_size ==> saved == 0
            &&& new_size < original_size ==> saved + new_size == original_size
        }),
{
}

} // verus!
