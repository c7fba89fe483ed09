//! The ffmpeg command line built from a profile, and the progress bookkeeping.
use vstd::prelude::*;
use crate::numfmt::{dec, decimal_string};
use crate::profiles::{Profile, ProfileView};
use crate::strings::{clone_strings, extend_strings, push_text, strs};
use crate::text::{chars_of, ends_with, owned, same_text, text_ends_with};

verus! {

/// The ffmpeg video encoder that a profile's codec name stands for.
pub open spec fn video_encoder(v: Seq<char>) -> Seq<char> {
    if v == "h264"@ || v == "x264"@ {
        "libx264"@
    } else if v == "h265"@ || v == "x265"@ {
        "libx265"@
    } else if v == "nvenc"@ {
        "h264_nvenc"@
    } else if v == "qsv_h264"@ {
        "h264_qsv"@
    } else if v == "qsv_h265"@ {
        "hevc_qsv"@
    } else {
        v
    }
}

/// The ffmpeg audio encoder that a profile's codec name stands for.
pub open spec fn audio_encoder(a: Seq<char>) -> Seq<char> {
    if a == "mp3"@ {
        "libmp3lame"@
    } else {
        a
    }
}

/// An encoder of Intel Quick Sync.
pub open spec fn is_qsv_encoder(e: Seq<char>) -> bool {
    ends_with(e, "_qsv"@)
}

/// `flag` followed by the value, when there is one.
pub open spec fn flag_pair(flag: Seq<char>, v: Option<Seq<char>>) -> Seq<Seq<char>> {
    match v {
        Some(x) => seq![flag, x],
        None => Seq::<Seq<char>>::empty(),
    }
}

/// The quality number as text.
pub open spec fn crf_text(c: Option<u32>) -> Option<Seq<char>> {
    match c {
        Some(n) => Some(dec(n as nat)),
        None => None,
    }
}

/// The video arguments of a profile.
pub open spec fn video_args(p: ProfileView) -> Seq<Seq<char>> {
    match p.video_codec {
        None => Seq::<Seq<char>>::empty(),
        Some(v) => {
            let enc = video_encoder(v);
            let quality = if is_qsv_encoder(enc) {
                flag_pair("-global_quality"@, crf_text(p.crf))
            } else if enc != "copy"@ {
                flag_pair("-crf"@, crf_text(p.crf))
            } else {
                Seq::<Seq<char>>::empty()
            };
            seq!["-c:v"@, enc] + flag_pair("-preset"@, p.preset) + quality + flag_pair(
                "-b:v"@,
                p.video_bitrate,
            )
        },
    }
}

/// The audio arguments of a profile.
pub open spec fn audio_args(p: ProfileView) -> Seq<Seq<char>> {
    match p.audio_codec {
        None => Seq::<Seq<char>>::empty(),
        Some(a) => seq!["-c:a"@, audio_encoder(a)] + flag_pair("-b:a"@, p.audio_bitrate),
    }
}

/// Hardware decoding with `e`, for both the decoder and its output frames.
pub open spec fn hwaccel_pair(e: Seq<char>) -> Seq<Seq<char>> {
    seq!["-hwaccel"@, e, "-hwaccel_output_format"@, e]
}

/// The hardware decoding arguments: the profile's own, else Quick Sync when its
/// video codec is a Quick Sync one.
pub open spec fn hwaccel_args(p: ProfileView) -> Seq<Seq<char>> {
    match p.hwaccel {
        Some(h) => hwaccel_pair(h),
        None => if p.video_codec == Some("qsv_h265"@) || p.video_codec == Some("qsv_h264"@) {
            hwaccel_pair("qsv"@)
        } else {
            Seq::<Seq<char>>::empty()
        },
    }
}

/// The extra arguments of a profile, as given.
pub open spec fn extra_args(p: ProfileView) -> Seq<Seq<char>> {
    match p.extra_flags {
        Some(f) => f,
        None => Seq::<Seq<char>>::empty(),
    }
}

/// The whole ffmpeg command for converting `input` into `output`.
pub open spec fn ffmpeg_command(p: ProfileView, input: Seq<char>, output: Seq<char>) -> Seq<
    Seq<char>,
> {
    seq!["ffmpeg"@] + hwaccel_args(p) + seq![
        "-i"@,
        input,
        "-map_metadata"@,
        "0"@,
        "-movflags"@,
        "faststart"@,
    ] + video_args(p) + audio_args(p) + extra_args(p) + seq![output]
}

fn is_qsv(encoder: &str) -> (r: bool)
    ensures
        r == is_qsv_encoder(encoder@),
{
    let e = chars_of(encoder);
    let s = chars_of("_qsv");
    text_ends_with(&e, &s)
}

fn push_flag_pair(v: &mut Vec<String>, flag: &str, value: &Option<String>)
    ensures
        strs(final(v)@) == strs(old(v)@) + flag_pair(
            flag@,
            match value {
                Some(x) => Some(x@),
                None => None,
            },
        ),
{
    if let Some(x) = value {
        push_text(v, flag);
        let ghost mid = v@;
        v.push(x.clone());
        assert(strs(v@) =~= strs(mid).push(x@));
    }
    assert(strs(v@) =~= strs(old(v)@) + flag_pair(
        flag@,
        match value {
            Some(x) => Some(x@),
            None => None,
        },
    ));
}

fn video_codec_flags(profile: &Profile) -> (r: Vec<String>)
    ensures
        strs(r@) == video_args(profile@),
{
    let v = match &profile.video_codec {
        Some(v) => v,
        None => {
            let r: Vec<String> = Vec::new();
            assert(strs(r@) =~= Seq::<Seq<char>>::empty());
            return r;
        },
    };
    let vs = v.as_str();
    let encoder: String = if same_text(vs, "h264") || same_text(vs, "x264") {
        owned("libx264")
    } else if same_text(vs, "h265") || same_text(vs, "x265") {
        owned("libx265")
    } else if same_text(vs, "nvenc") {
        owned("h264_nvenc")
    } else if same_text(vs, "qsv_h264") {
        owned("h264_qsv")
    } else if same_text(vs, "qsv_h265") {
        owned("hevc_qsv")
    } else {
        owned(vs)
    };
    let ghost enc = encoder@;
    assert(enc == video_encoder(v@));
    let mut flags: Vec<String> = Vec::new();
    push_text(&mut flags, "-c:v");
    push_text(&mut flags, encoder.as_str());
    assert(strs(flags@) =~= seq!["-c:v"@, enc]);
    push_flag_pair(&mut flags, "-preset", &profile.preset);
    let crf_str: Option<String> = match profile.crf {
        Some(c) => Some(decimal_string(c as u64)),
        None => None,
    };
    assert(match crf_str {
        Some(x) => Some(x@),
        None => None,
    } == crf_text(profile.crf));
    if is_qsv(encoder.as_str()) {
        push_flag_pair(&mut flags, "-global_quality", &crf_str);
    } else if !same_text(encoder.as_str(), "copy") {
        push_flag_pair(&mut flags, "-crf", &crf_str);
    }
    push_flag_pair(&mut flags, "-b:v", &profile.video_bitrate);
    assert(strs(flags@) =~= video_args(profile@));
    flags
}

fn audio_codec_flags(profile: &Profile) -> (r: Vec<String>)
    ensures
        strs(r@) == audio_args(profile@),
{
    let a = match &profile.audio_codec {
        Some(a) => a,
        None => {
            let r: Vec<String> = Vec::new();
            assert(strs(r@) =~= Seq::<Seq<char>>::empty());
            return r;
        },
    };
    let s = a.as_str();
    let encoder: String = if same_text(s, "copy") {
        owned("copy")
    } else if same_text(s, "aac") {
        owned("aac")
    } else if same_text(s, "ac3") {
        owned("ac3")
    } else if same_text(s, "mp3") {
        owned("libmp3lame")
    } else {
        owned(s)
    };
    proof {
        reveal_strlit("copy");
        reveal_strlit("aac");
        reveal_strlit("ac3");
        reveal_strlit("mp3");
        assert("copy"@ != "mp3"@) by {
            assert("copy"@.len() != "mp3"@.len());
        }
        assert("aac"@ != "mp3"@) by {
            assert("aac"@[0] != "mp3"@[0]);
        }
        assert("ac3"@ != "mp3"@) by {
            assert("ac3"@[0] != "mp3"@[0]);
        }
    }
    assert(encoder@ == audio_encoder(a@));
    let mut flags: Vec<String> = Vec::new();
    push_text(&mut flags, "-c:a");
    push_text(&mut flags, encoder.as_str());
    assert(strs(flags@) =~= seq!["-c:a"@, audio_encoder(a@)]);
    push_flag_pair(&mut flags, "-b:a", &profile.audio_bitrate);
    assert(strs(flags@) =~= audio_args(profile@));
    flags
}

fn push_hwaccel(flags: &mut Vec<String>, e: &str)
    ensures
        strs(final(flags)@) == strs(old(flags)@) + hwaccel_pair(e@),
{
    push_text(flags, "-hwaccel");
    push_text(flags, e);
    push_text(flags, "-hwaccel_output_format");
    push_text(flags, e);
    assert(strs(flags@) =~= strs(old(flags)@) + hwaccel_pair(e@));
}

fn hwaccel_flags(profile: &Profile) -> (r: Vec<String>)
    ensures
        strs(r@) == hwaccel_args(profile@),
{
    let is_qsv_codec = match &profile.video_codec {
        Some(c) => same_text(c.as_str(), "qsv_h265") || same_text(c.as_str(), "qsv_h264"),
        None => false,
    };
    let mut flags: Vec<String> = Vec::new();
    match &profile.hwaccel {
        Some(hw) => {
            push_hwaccel(&mut flags, hw.as_str());
        },
        None => {
            if is_qsv_codec {
                push_hwaccel(&mut flags, "qsv");
            }
        },
    }
    assert(strs(flags@) =~= hwaccel_args(profile@));
    flags
}

fn extra_flags(profile: &Profile) -> (r: Vec<String>)
    ensures
        strs(r@) == extra_args(profile@),
{
    match &profile.extra_flags {
        Some(flags) => clone_strings(flags),
        None => {
            let r: Vec<String> = Vec::new();
            assert(strs(r@) =~= Seq::<Seq<char>>::empty());
            r
        },
    }
}

/// The ffmpeg command (program name first) that converts `input` into `output`
/// with the settings of `profile`.
pub fn build_cmd(profile: &Profile, input: &str, output: &str) -> (r: Vec<String>)
    ensures
        strs(r@) == ffmpeg_command(profile@, input@, output@),
{
    let mut cmd: Vec<String> = Vec::new();
    push_text(&mut cmd, "ffmpeg");
    extend_strings(&mut cmd, hwaccel_flags(profile));
    push_text(&mut cmd, "-i");
    push_text(&mut cmd, input);
    push_text(&mut cmd, "-map_metadata");
    push_text(&mut cmd, "0");
    push_text(&mut cmd, "-movflags");
    push_text(&mut cmd, "faststart");
    extend_strings(&mut cmd, video_codec_flags(profile));
    extend_strings(&mut cmd, audio_codec_flags(profile));
    extend_strings(&mut cmd, extra_flags(profile));
    push_text(&mut cmd, output);
    assert(strs(cmd@) =~= ffmpeg_command(profile@, input@, output@));
    cmd
}

} // verus!

verus! {

/// The arguments given to ffmpeg when its progress is followed: the progress
/// report goes to standard output, and those flags stand before the output file.
pub open spec fn progress_arguments(args: Seq<Seq<char>>) -> Seq<Seq<char>> {
    if args.len() == 0 {
        args
    } else {
        args.drop_last() + seq!["-progress"@, "pipe:1"@, "-nostats"@, args.last()]
    }
}

/// The value of an `out_time=` progress line, once trimmed.
pub open spec fn out_time_value(line: Seq<char>) -> Option<Seq<char>> {
    let t = crate::text::trimmed(line);
    if crate::text::starts_with(t, "out_time="@) {
        Some(t.subrange("out_time="@.len() as int, t.len() as int))
    } else {
        None
    }
}

/// The length of the progress bar in seconds: at least one.
pub fn progress_total(duration_secs: u64) -> (r: u64)
    ensures
        r == if duration_secs < 1 { 1 } else { duration_secs },
{
    if duration_secs < 1 {
        1
    } else {
        duration_secs
    }
}

/// The ffmpeg arguments (program name left out) with the progress flags put
/// before the last one, the output file.
pub fn progress_args(ffmpeg_args: &Vec<String>) -> (r: Vec<String>)
    ensures
        strs(r@) == progress_arguments(strs(ffmpeg_args@)),
{
    let n = ffmpeg_args.len();
    if n == 0 {
        let r: Vec<String> = Vec::new();
        assert(strs(r@) =~= strs(ffmpeg_args@));
        return r;
    }
    let mut r: Vec<String> = Vec::new();
    let mut i: usize = 0;
    while i < n - 1
        invariant
            n == ffmpeg_args.len(),
            n > 0,
            i <= n - 1,
            strs(r@) == strs(ffmpeg_args@).take(i as int),
        decreases n - 1 - i,
    {
        let ghost before = r@;
        let c = ffmpeg_args[i].clone();
        r.push(c);
        assert(strs(r@) =~= strs(before).push(ffmpeg_args@[i as int]@));
        assert(strs(ffmpeg_args@).take(i + 1) =~= strs(ffmpeg_args@).take(i as int).push(
            ffmpeg_args@[i as int]@,
        ));
        i = i + 1;
    }
    push_text(&mut r, "-progress");
    push_text(&mut r, "pipe:1");
    push_text(&mut r, "-nostats");
    let ghost before = r@;
    let last = ffmpeg_args[n - 1].clone();
    r.push(last);
    assert(strs(r@) =~= strs(before).push(ffmpeg_args@[n - 1]@));
    assert(strs(ffmpeg_args@).drop_last() =~= strs(ffmpeg_args@).take(n - 1));
    assert(strs(r@) =~= progress_arguments(strs(ffmpeg_args@)));
    r
}

/// The value of an `out_time=` progress line, if the line is one.
pub fn out_time_of(line: &str) -> (r: Option<String>)
    ensures
        match r {
            Some(v) => out_time_value(line@) == Some(v@),
            None => out_time_value(line@) is None,
        },
{
    let cs = chars_of(line);
    let t = crate::text::trim_text(&cs);
    let key = chars_of("out_time=");
    if crate::text::text_starts_with(&t, &key) {
        let mut out: Vec<char> = Vec::new();
        let mut k: usize = key.len();
        while k < t.len()
            invariant
                key.len() <= k <= t.len(),
                out@ == t@.subrange(key.len() as int, k as int),
            decreases t.len() - k,
        {
            out.push(t[k]);
            k = k + 1;
            assert(out@ =~= t@.subrange(key.len() as int, k as int));
        }
        Some(crate::text::string_of(&out))
    } else {
        None
    }
}

/// The bar position after a reported time: the time capped at the total, or the
/// old position when that is further.
pub open spec fn advanced(last: u64, secs: u64, total: u64) -> u64 {
    let current = if secs < total {
        secs
    } else {
        total
    };
    if last < current {
        current
    } else {
        last
    }
}

/// Moves the progress bar to `secs` (capped at `total`), never backwards.
/// Gives the new position and by how many seconds the bar moved.
pub fn advance_progress(last_secs: u64, secs: u64, total_secs: u64) -> (r: (u64, u64))
    ensures
        r.0 == advanced(last_secs, secs, total_secs),
        r.1 == r.0 - last_secs,
{
    let current = if secs < total_secs {
        secs
    } else {
        total_secs
    };
    if last_secs < current {
        (current, current - last_secs)
    } else {
        (last_secs, 0)
    }
}

} // verus!

verus! {

/// Every command starts with the program name, ends with the output file, and
/// gives the input file right after `-i`.
pub proof fn law_command_shape(p: ProfileView, input: Seq<char>, output: Seq<char>)
    ensures
        ffmpeg_command(p, input, output)[0] == "ffmpeg"@,
        ffmpeg_command(p, input, output).last() == output,
        ({
            let c = ffmpeg_command(p, input, output);
            let k = 1 + hwaccel_args(p).len() as int;
            c[k] == "-i"@ && c[k + 1] == input
        }),
{
}

/// Without a hardware decoder and without a Quick Sync codec, the command asks
/// for no hardware decoding.
pub proof fn law_no_hwaccel_by_default(p: ProfileView)
    requires
        p.hwaccel is None,
        p.video_codec != Some("qsv_h265"@),
        p.video_codec != Some("qsv_h264"@),
    ensures
        hwaccel_args(p).len() == 0,
{
}

/// The progress bar never passes its end, never moves back, and moving it to
/// the same time twice moves it only once.
pub proof fn law_progress_bounded_and_monotone(last: u64, secs: u64, total: u64)
    requires
        last <= total,
    ensures
        ({
            let current = if secs < total {
                secs
            } else {
                total
            };
            let next = if last < current {
                current
            } else {
                last
            };
            &&& last <= next <= total
            &&& (if next < current {
                current
            } else {
                next
            }) == next
        }),
{
}

/// With a video codec set, the command asks for its encoder right after the
/// input and metadata flags: `-c:v` then libx264 for h264 or x264, libx265 for
/// h265 or x265, h264_nvenc for nvenc, h264_qsv for qsv_h264, hevc_qsv for
/// qsv_h265, and any other name as it is. With a quality and no preset, the
/// quality follows as `-global_quality` for Quick Sync, `-crf` for other
/// encoders, and not at all when the video is copied.
pub proof fn law_video_encoder_named(p: ProfileView, input: Seq<char>, output: Seq<char>, v: Seq<char>)
    requires
        p.video_codec == Some(v),
    ensures
        ({
            let c = ffmpeg_command(p, input, output);
            let k: int = 7 + hwaccel_args(p).len() as int;
            let enc = if v == "h264"@ || v == "x264"@ {
                "libx264"@
            } else if v == "h265"@ || v == "x265"@ {
                "libx265"@
            } else if v == "nvenc"@ {
                "h264_nvenc"@
            } else if v == "qsv_h264"@ {
                "h264_qsv"@
            } else if v == "qsv_h265"@ {
                "hevc_qsv"@
            } else {
                v
            };
            &&& c[k] == "-c:v"@
            &&& c[k + 1] == enc
            &&& (p.preset is None ==> (p.crf matches Some(n) ==> (if ends_with(enc, "_qsv"@) {
                c[k + 2] == "-global_quality"@ && c[k + 3] == dec(n as nat)
            } else if enc != "copy"@ {
                c[k + 2] == "-crf"@ && c[k + 3] == dec(n as nat)
            } else {
                true
            })))
            &&& (enc == "copy"@ && p.preset is None && p.video_bitrate is None ==> c.skip(k + 2) == audio_args(p)
                + extra_args(p) + seq![output])
        }),
{
    let c = ffmpeg_command(p, input, output);
    let k: int = 7 + hwaccel_args(p).len() as int;
    let pre = seq!["ffmpeg"@] + hwaccel_args(p) + seq![
        "-i"@,
        input,
        "-map_metadata"@,
        "0"@,
        "-movflags"@,
        "faststart"@,
    ];
    assert(pre.len() == k);
    assert(c =~= pre + video_args(p) + (audio_args(p) + extra_args(p) + seq![output]));
    assert(c[k] == video_args(p)[0]);
    assert(c[k + 1] == video_args(p)[1]);
    let enc = video_encoder(v);
    if p.preset is None && p.crf is Some {
        if is_qsv_encoder(enc) || enc != "copy"@ {
            assert(c[k + 2] == video_args(p)[2]);
            assert(c[k + 3] == video_args(p)[3]);
        }
    }
    if enc == "copy"@ && p.preset is None && p.video_bitrate is None {
        reveal_strlit("copy");
        reveal_strlit("_qsv");
        assert("copy"@.subrange(0, 4)[0] != "_qsv"@[0]);
        assert(!is_qsv_encoder(enc));
        assert(video_args(p) =~= seq!["-c:v"@, enc]);
        assert(c.skip(k + 2) =~= audio_args(p) + extra_args(p) + seq![output]);
    }
}

/// With an audio codec set, the command asks for that very codec: after the
/// video arguments come `-c:a` and the codec's own name (MP3 alone is named by
/// its encoder, libmp3lame), then `-b:a` and the bitrate when one is set.
pub proof fn law_audio_encoder_is_the_codec(p: ProfileView, input: Seq<char>, output: Seq<char>, a: Seq<char>)
    requires
        p.audio_codec == Some(a),
    ensures
        ({
            let c = ffmpeg_command(p, input, output);
            let k: int = 7 + hwaccel_args(p).len() as int + video_args(p).len() as int;
            &&& c[k] == "-c:a"@
            &&& c[k + 1] == (if a == "mp3"@ {
                "libmp3lame"@
            } else {
                a
            })
            &&& (p.audio_bitrate matches Some(b) ==> c[k + 2] == "-b:a"@ && c[k + 3] == b)
        }),
{
    let c = ffmpeg_command(p, input, output);
    let k: int = 7 + hwaccel_args(p).len() as int + video_args(p).len() as int;
    let pre = seq!["ffmpeg"@] + hwaccel_args(p) + seq![
        "-i"@,
        input,
        "-map_metadata"@,
        "0"@,
        "-movflags"@,
        "faststart"@,
    ] + video_args(p);
    assert(pre.len() == k);
    assert(c =~= pre + audio_args(p) + extra_args(p) + seq![output]);
    assert(c[k] == audio_args(p)[0]);
    assert(c[k + 1] == audio_args(p)[1]);
    if p.audio_bitrate is Some {
        assert(c[k + 2] == audio_args(p)[2]);
        assert(c[k + 3] == audio_args(p)[3]);
    }
}

/// The progress flags never change the output file, which stays last.
pub proof fn law_progress_keeps_output_last(args: Seq<Seq<char>>)
    requires
        args.len() > 0,
    ensures
        progress_arguments(args).last() == args.last(),
        progress_arguments(args).len() == args.len() + 3,
{
}

} // verus!

verus! {

/// The bar position after the lines of a run, each line given by the time it
/// reports (none for lines that report no time), starting from zero.
pub open spec fn position_after(times: Seq<Option<u64>>, total: u64) -> u64
    decreases times.len(),
{
    if times.len() == 0 {
        0
    } else {
        let before = position_after(times.drop_last(), total);
        match times.last() {
            Some(t) => advanced(before, t, total),
            None => before,
        }
    }
}

/// The latest time reported by any of the lines, zero when none reports one.
pub open spec fn latest_time(times: Seq<Option<u64>>) -> u64
    decreases times.len(),
{
    if times.len() == 0 {
        0
    } else {
        let before = latest_time(times.drop_last());
        match times.last() {
            Some(t) => if t > before {
                t
            } else {
                before
            },
            None => before,
        }
    }
}

/// Over a whole run the bar stands at the latest reported time capped at its
/// length, and it never moves back from one line to the next.
pub proof fn law_progress_over_a_run(times: Seq<Option<u64>>, total: u64, k: int)
    requires
        0 <= k <= times.len(),
    ensures
        position_after(times, total) == if latest_time(times) < total {
            latest_time(times)
        } else {
            total
        },
        position_after(times.take(k), total) <= position_after(times, total),
    decreases times.len(),
{
    if times.len() > 0 {
        let prev = times.drop_last();
        if k < times.len() {
            assert(times.take(k) =~= prev.take(k));
            law_progress_over_a_run(prev, total, k);
        } else {
            assert(times.take(k) =~= times);
            law_progress_over_a_run(prev, total, 0);
        }
    }
}

} // verus!
