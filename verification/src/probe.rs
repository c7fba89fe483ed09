//! The report shown for a file: its container and the streams it holds.
use vstd::prelude::*;
use crate::conv_view::{display_file_name, shown_name};
use crate::numfmt::{dec, dec2, human_size, human_size_text, push_decimal};
use crate::strings::{join_strings, joined, opt_str, strs};
use crate::text::{append_str, chars_of, owned, same_text, string_of};

verus! {

/// What `str::to_uppercase` returns for `s`: its Unicode uppercase mapping.
pub uninterp spec fn uppercase_of(s: Seq<char>) -> Seq<char>;

/// Calls `str::to_uppercase`; the result is named by `uppercase_of`, as a function
/// of the argument's chars alone.
#[verifier::external_body]
fn to_uppercase(s: &str) -> (r: String)
    ensures
        r@ == uppercase_of(s@),
{
    s.to_uppercase()
}

/// The container of a probed file. The duration is split into hours, minutes and
/// seconds, and the bitrate is already given in kbps as text.
pub struct ProbeFormat {
    pub format_name: Option<String>,
    pub duration: Option<(u64, u64, u64)>,
    pub bit_rate_kbps: Option<String>,
}

/// A stream of a probed file. Rates are already given as text (kbps and kHz).
pub struct ProbeStream {
    pub codec_type: Option<String>,
    pub codec_name: Option<String>,
    pub profile: Option<String>,
    pub width: u64,
    pub height: u64,
    pub bit_rate_kbps: Option<String>,
    pub sample_rate_khz: Option<String>,
    pub channels: u64,
}

/// The name of a channel layout, or nothing for other counts.
pub open spec fn channel_name(ch: u64) -> Seq<char> {
    if ch == 1 {
        "Mono"@
    } else if ch == 2 {
        "Stereo"@
    } else if ch == 6 {
        "5.1"@
    } else if ch == 8 {
        "7.1"@
    } else {
        Seq::<char>::empty()
    }
}

/// `v` when present, else nothing.
pub open spec fn opt_part(v: Option<Seq<char>>) -> Seq<Seq<char>> {
    match v {
        Some(x) => seq![x],
        None => Seq::<Seq<char>>::empty(),
    }
}

/// The codec of a stream ("?" when unknown), indented.
pub open spec fn codec_part(s: ProbeStream) -> Seq<char> {
    "  "@ + match opt_str(s.codec_name) {
        Some(c) => c,
        None => "?"@,
    }
}

/// The stream with its codec name put in capitals ("?" when unknown), all else kept.
pub open spec fn codec_capitalized(before: ProbeStream, after: ProbeStream) -> bool {
    &&& opt_str(after.codec_name) == Some(
        uppercase_of(
            match opt_str(before.codec_name) {
                Some(c) => c,
                None => "?"@,
            },
        ),
    )
    &&& after.codec_type == before.codec_type
    &&& after.profile == before.profile
    &&& after.width == before.width
    &&& after.height == before.height
    &&& after.bit_rate_kbps == before.bit_rate_kbps
    &&& after.sample_rate_khz == before.sample_rate_khz
    &&& after.channels == before.channels
}

/// The bitrate part of a stream line.
pub open spec fn rate_part(s: ProbeStream) -> Seq<Seq<char>> {
    opt_part(
        match opt_str(s.bit_rate_kbps) {
            Some(b) => Some("@ "@ + b + " kbps"@),
            None => None,
        },
    )
}

/// The line of a video stream.
pub open spec fn video_line(s: ProbeStream) -> Seq<char> {
    joined(
        seq![codec_part(s)] + opt_part(
            match opt_str(s.profile) {
                Some(p) => if p.len() > 0 {
                    Some("("@ + p + ")"@)
                } else {
                    None
                },
                None => None,
            },
        ) + (if s.width > 0 && s.height > 0 {
            seq![dec(s.width as nat) + "x"@ + dec(s.height as nat)]
        } else {
            Seq::<Seq<char>>::empty()
        }) + rate_part(s),
        " "@,
    )
}

/// The line of an audio stream.
pub open spec fn audio_line(s: ProbeStream) -> Seq<char> {
    joined(
        seq![codec_part(s)] + (if channel_name(s.channels).len() > 0 {
            seq![channel_name(s.channels)]
        } else if s.channels > 0 {
            seq![dec(s.channels as nat) + "ch"@]
        } else {
            Seq::<Seq<char>>::empty()
        }) + opt_part(
            match opt_str(s.sample_rate_khz) {
                Some(r) => Some(r + "kHz"@),
                None => None,
            },
        ) + rate_part(s),
        " "@,
    )
}

/// The lines of the streams of one kind.
pub open spec fn stream_lines(streams: Seq<ProbeStream>, kind: Seq<char>) -> Seq<Seq<char>>
    decreases streams.len(),
{
    if streams.len() == 0 {
        Seq::<Seq<char>>::empty()
    } else {
        let r = stream_lines(streams.drop_last(), kind);
        let s = streams.last();
        if opt_str(s.codec_type) != Some(kind) {
            r
        } else if kind == "video"@ {
            r.push(video_line(s))
        } else if kind == "audio"@ {
            r.push(audio_line(s))
        } else if kind == "subtitle"@ {
            r.push(codec_part(s))
        } else {
            r
        }
    }
}

/// How many streams are of this kind.
pub open spec fn count_of_kind(streams: Seq<ProbeStream>, kind: Seq<char>) -> nat
    decreases streams.len(),
{
    if streams.len() == 0 {
        0
    } else {
        count_of_kind(streams.drop_last(), kind) + if opt_str(streams.last().codec_type) == Some(
            kind,
        ) {
            1nat
        } else {
            0nat
        }
    }
}

/// The section of the report for one kind of stream: a heading, a line per
/// stream and a blank line; nothing when there is no stream of that kind.
pub open spec fn stream_section(streams: Seq<ProbeStream>, kind: Seq<char>, label: Seq<char>) -> Seq<
    Seq<char>,
> {
    if count_of_kind(streams, kind) == 0 {
        Seq::<Seq<char>>::empty()
    } else {
        seq![label + ":"@] + stream_lines(streams, kind) + seq![Seq::<char>::empty()]
    }
}

/// The lines about the container, ending with a blank line.
pub open spec fn format_lines(f: ProbeFormat) -> Seq<Seq<char>> {
    opt_part(
        match opt_str(f.format_name) {
            Some(n) => Some("Format: "@ + n),
            None => None,
        },
    ) + opt_part(
        match f.duration {
            Some(d) => Some(
                "Duration: "@ + dec2(d.0 as nat) + ":"@ + dec2(d.1 as nat) + ":"@ + dec2(
                    d.2 as nat,
                ),
            ),
            None => None,
        },
    ) + opt_part(
        match opt_str(f.bit_rate_kbps) {
            Some(b) => Some("Overall bitrate: "@ + b + " kbps"@),
            None => None,
        },
    ) + seq![Seq::<char>::empty()]
}

/// The whole report, one line per entry, joined with newlines.
pub open spec fn probe_report_text(
    path: Seq<char>,
    size: u64,
    format: Option<ProbeFormat>,
    streams: Seq<ProbeStream>,
) -> Seq<char> {
    joined(
        seq![shown_name(path) + "  ("@ + human_size_text(size as nat) + ")"@, Seq::<char>::empty()]
            + (match format {
            Some(f) => format_lines(f),
            None => Seq::<Seq<char>>::empty(),
        }) + stream_section(streams, "video"@, "Video"@) + stream_section(
            streams,
            "audio"@,
            "Audio"@,
        ) + stream_section(streams, "subtitle"@, "Subtitles"@),
        "\n"@,
    )
}

fn concat3(a: &str, b: &str, c: &str) -> (r: String)
    ensures
        r@ == a@ + b@ + c@,
{
    let mut v = chars_of(a);
    append_str(&mut v, b);
    append_str(&mut v, c);
    string_of(&v)
}

fn codec_text(s: &ProbeStream) -> (r: String)
    ensures
        r@ == codec_part(*s),
{
    let mut v = chars_of("  ");
    match &s.codec_name {
        Some(c) => append_str(&mut v, c.as_str()),
        None => append_str(&mut v, "?"),
    }
    string_of(&v)
}

fn push_rate(parts: &mut Vec<String>, s: &ProbeStream)
    ensures
        strs(final(parts)@) == strs(old(parts)@) + rate_part(*s),
{
    if let Some(b) = &s.bit_rate_kbps {
        let t = concat3("@ ", b.as_str(), " kbps");
        let ghost o = parts@;
        parts.push(t);
        assert(strs(parts@) =~= strs(o).push(t@));
    }
    assert(strs(parts@) =~= strs(old(parts)@) + rate_part(*s));
}

fn video_text(s: &ProbeStream) -> (r: String)
    ensures
        r@ == video_line(*s),
{
    let mut parts: Vec<String> = Vec::new();
    parts.push(codec_text(s));
    if let Some(p) = &s.profile {
        if p.as_str().unicode_len() > 0 {
            let ghost o = parts@;
            let t = concat3("(", p.as_str(), ")");
            parts.push(t);
            assert(strs(parts@) =~= strs(o).push(t@));
        }
    }
    if s.width > 0 && s.height > 0 {
        let mut v: Vec<char> = Vec::new();
        push_decimal(&mut v, s.width);
        v.push('x');
        push_decimal(&mut v, s.height);
        let ghost o = parts@;
        let t = string_of(&v);
        parts.push(t);
        assert(t@ =~= dec(s.width as nat) + "x"@ + dec(s.height as nat)) by {
            reveal_strlit("x");
        }
        assert(strs(parts@) =~= strs(o).push(t@));
    }
    push_rate(&mut parts, s);
    assert(strs(parts@) =~= seq![codec_part(*s)] + opt_part(
        match opt_str(s.profile) {
            Some(p) => if p.len() > 0 {
                Some("("@ + p + ")"@)
            } else {
                None
            },
            None => None,
        },
    ) + (if s.width > 0 && s.height > 0 {
        seq![dec(s.width as nat) + "x"@ + dec(s.height as nat)]
    } else {
        Seq::<Seq<char>>::empty()
    }) + rate_part(*s));
    join_strings(&parts, " ")
}

fn channel_text(ch: u64) -> (r: String)
    ensures
        r@ == channel_name(ch),
{
    if ch == 1 {
        owned("Mono")
    } else if ch == 2 {
        owned("Stereo")
    } else if ch == 6 {
        owned("5.1")
    } else if ch == 8 {
        owned("7.1")
    } else {
        String::new()
    }
}

fn audio_text(s: &ProbeStream) -> (r: String)
    ensures
        r@ == audio_line(*s),
{
    let mut parts: Vec<String> = Vec::new();
    parts.push(codec_text(s));
    let ch = channel_text(s.channels);
    let ghost o = parts@;
    if ch.as_str().unicode_len() > 0 {
        let ghost t = ch@;
        parts.push(ch);
        assert(strs(parts@) =~= strs(o).push(t));
    } else if s.channels > 0 {
        let mut v: Vec<char> = Vec::new();
        push_decimal(&mut v, s.channels);
        append_str(&mut v, "ch");
        let t = string_of(&v);
        parts.push(t);
        assert(strs(parts@) =~= strs(o).push(t@));
    } else {
        assert(strs(parts@) =~= strs(o));
    }
    if let Some(r) = &s.sample_rate_khz {
        let ghost o2 = parts@;
        let mut rv = chars_of(r.as_str());
        append_str(&mut rv, "kHz");
        let t = string_of(&rv);
        parts.push(t);
        assert(strs(parts@) =~= strs(o2).push(t@));
    }
    push_rate(&mut parts, s);
    assert(strs(parts@) =~= seq![codec_part(*s)] + (if channel_name(s.channels).len() > 0 {
        seq![channel_name(s.channels)]
    } else if s.channels > 0 {
        seq![dec(s.channels as nat) + "ch"@]
    } else {
        Seq::<Seq<char>>::empty()
    }) + opt_part(
        match opt_str(s.sample_rate_khz) {
            Some(r) => Some(r + "kHz"@),
            None => None,
        },
    ) + rate_part(*s));
    join_strings(&parts, " ")
}

fn kind_is(t: &Option<String>, kind: &str) -> (r: bool)
    ensures
        r == (opt_str(*t) == Some(kind@)),
{
    match t {
        Some(x) => same_text(x.as_str(), kind),
        None => false,
    }
}

/// The section of the report for one kind of stream.
pub fn stream_section_lines(streams: &Vec<ProbeStream>, kind: &str, label: &str) -> (r: Vec<String>)
    ensures
        strs(r@) == stream_section(streams@, kind@, label@),
{
    let mut lines: Vec<String> = Vec::new();
    let mut count: usize = 0;
    let is_video = same_text(kind, "video");
    let is_audio = same_text(kind, "audio");
    let is_sub = same_text(kind, "subtitle");
    let mut i: usize = 0;
    while i < streams.len()
        invariant
            i <= streams.len(),
            count <= i,
            count == count_of_kind(streams@.take(i as int), kind@),
            strs(lines@) == stream_lines(streams@.take(i as int), kind@),
            is_video == (kind@ == "video"@),
            is_audio == (kind@ == "audio"@),
            is_sub == (kind@ == "subtitle"@),
        decreases streams.len() - i,
    {
        proof {
            assert(streams@.take(i + 1).drop_last() =~= streams@.take(i as int));
            assert(streams@.take(i + 1).last() == streams@[i as int]);
        }
        let st = &streams[i];
        if kind_is(&st.codec_type, kind) {
            count = count + 1;
            let ghost o = lines@;
            if is_video {
                let t = video_text(st);
                lines.push(t);
                assert(strs(lines@) =~= strs(o).push(t@));
            } else if is_audio {
                let t = audio_text(st);
                lines.push(t);
                assert(strs(lines@) =~= strs(o).push(t@));
            } else if is_sub {
                let t = codec_text(st);
                lines.push(t);
                assert(strs(lines@) =~= strs(o).push(t@));
            }
        }
        i = i + 1;
    }
    assert(streams@.take(streams.len() as int) =~= streams@);
    if count == 0 {
        let r: Vec<String> = Vec::new();
        assert(strs(r@) =~= Seq::<Seq<char>>::empty());
        return r;
    }
    let mut out: Vec<String> = Vec::new();
    let head = concat3(label, ":", "");
    out.push(head);
    assert(strs(out@) =~= seq![label@ + ":"@]) by {
        reveal_strlit("");
        assert(""@ =~= Seq::<char>::empty());
        assert(head@ =~= label@ + ":"@);
    }
    crate::strings::extend_strings(&mut out, lines);
    let ghost o = out@;
    out.push(String::new());
    assert(strs(out@) =~= strs(o).push(Seq::<char>::empty()));
    assert(strs(out@) =~= stream_section(streams@, kind@, label@));
    out
}

fn push_opt(v: &mut Vec<String>, o: Option<String>)
    ensures
        strs(final(v)@) == strs(old(v)@) + opt_part(opt_str(o)),
{
    if let Some(t) = o {
        let ghost x = t@;
        v.push(t);
        assert(strs(v@) =~= strs(old(v)@).push(x));
    }
    assert(strs(v@) =~= strs(old(v)@) + opt_part(opt_str(o)));
}

fn format_text_lines(f: &ProbeFormat) -> (r: Vec<String>)
    ensures
        strs(r@) == format_lines(*f),
{
    let mut out: Vec<String> = Vec::new();
    let name = match &f.format_name {
        Some(n) => Some(concat3("Format: ", n.as_str(), "")),
        None => None,
    };
    proof {
        reveal_strlit("");
        assert(""@ =~= Seq::<char>::empty());
    }
    assert(opt_str(name) == match opt_str(f.format_name) {
        Some(n) => Some("Format: "@ + n),
        None => None,
    }) by {
        if let Some(n) = f.format_name {
            assert("Format: "@ + n@ + ""@ =~= "Format: "@ + n@);
        }
    }
    push_opt(&mut out, name);
    let dur = match f.duration {
        Some((h, m, s)) => {
            let mut v = chars_of("Duration: ");
            if h < 10 {
                v.push('0');
            }
            push_decimal(&mut v, h);
            v.push(':');
            if m < 10 {
                v.push('0');
            }
            push_decimal(&mut v, m);
            v.push(':');
            if s < 10 {
                v.push('0');
            }
            push_decimal(&mut v, s);
            proof {
                reveal_strlit(":");
                assert(v@ =~= "Duration: "@ + dec2(h as nat) + ":"@ + dec2(m as nat) + ":"@ + dec2(s as nat));
            }
            Some(string_of(&v))
        },
        None => None,
    };
    push_opt(&mut out, dur);
    let br = match &f.bit_rate_kbps {
        Some(b) => Some(concat3("Overall bitrate: ", b.as_str(), " kbps")),
        None => None,
    };
    push_opt(&mut out, br);
    let ghost o = out@;
    out.push(String::new());
    assert(strs(out@) =~= strs(o).push(Seq::<char>::empty()));
    assert(strs(out@) =~= format_lines(*f));
    out
}

/// The report shown for a probed file: its name and size, what is known of its
/// container, then its video, audio and subtitle streams, one entry per line.
pub fn probe_report(path: &str, size: u64, format: &Option<ProbeFormat>, streams: &Vec<ProbeStream>) -> (r:
    String)
    ensures
        r@ == probe_report_text(path@, size, *format, streams@),
{
    let mut lines: Vec<String> = Vec::new();
    let name = display_file_name(path);
    let sz = human_size(size);
    let mut first = chars_of(name.as_str());
    append_str(&mut first, "  (");
    append_str(&mut first, sz.as_str());
    append_str(&mut first, ")");
    lines.push(string_of(&first));
    lines.push(String::new());
    assert(strs(lines@) =~= seq![shown_name(path@) + "  ("@ + human_size_text(size as nat) + ")"@, Seq::<char>::empty()]);
    match format {
        Some(f) => {
            crate::strings::extend_strings(&mut lines, format_text_lines(f));
        },
        None => {},
    }
    crate::strings::extend_strings(&mut lines, stream_section_lines(streams, "video", "Video"));
    crate::strings::extend_strings(&mut lines, stream_section_lines(streams, "audio", "Audio"));
    crate::strings::extend_strings(&mut lines, stream_section_lines(streams, "subtitle", "Subtitles"));
    assert(strs(lines@) =~= seq![shown_name(path@) + "  ("@ + human_size_text(size as nat) + ")"@, Seq::<char>::empty()]
            + (match *format {
            Some(f) => format_lines(f),
            None => Seq::<Seq<char>>::empty(),
        }) + stream_section(streams@, "video"@, "Video"@) + stream_section(
            streams@,
            "audio"@,
            "Audio"@,
        ) + stream_section(streams@, "subtitle"@, "Subtitles"@));
    join_strings(&lines, "\n")
}

/// The streams with their codec names in capitals ("?" when unknown), as the
/// report shows them.
pub fn capitalize_codecs(streams: Vec<ProbeStream>) -> (r: Vec<ProbeStream>)
    ensures
        r.len() == streams.len(),
        forall|i: int| 0 <= i < r.len() ==> codec_capitalized(streams@[i], #[trigger] r@[i]),
{
    let mut out: Vec<ProbeStream> = Vec::new();
    let ghost all = streams@;
    for st in it: streams.into_iter()
        invariant
            it.seq() == all,
            out.len() == it.index(),
            forall|i: int| 0 <= i < out.len() ==> codec_capitalized(all[i], #[trigger] out@[i]),
    {
        let name = match &st.codec_name {
            Some(c) => c.clone(),
            None => owned("?"),
        };
        let up = to_uppercase(name.as_str());
        let ProbeStream {
            codec_type,
            codec_name: _,
            profile,
            width,
            height,
            bit_rate_kbps,
            sample_rate_khz,
            channels,
        } = st;
        out.push(
            ProbeStream {
                codec_type,
                codec_name: Some(up),
                profile,
                width,
                height,
                bit_rate_kbps,
                sample_rate_khz,
                channels,
            },
        );
    }
    out
}

/// Each channel name names one channel count: "Mono" exactly one channel,
/// "Stereo" exactly two, "5.1" exactly six, "7.1" exactly eight; other counts
/// have no name. So two different counts never show the same name.
pub proof fn law_channel_names(ch: u64, other: u64)
    ensures
        (channel_name(ch) == "Mono"@) <==> ch == 1,
        (channel_name(ch) == "Stereo"@) <==> ch == 2,
        (channel_name(ch) == "5.1"@) <==> ch == 6,
        (channel_name(ch) == "7.1"@) <==> ch == 8,
        channel_name(ch).len() > 0 <==> (ch == 1 || ch == 2 || ch == 6 || ch == 8),
        ch != other && channel_name(ch).len() > 0 ==> channel_name(ch) != channel_name(other),
{
    reveal_strlit("Mono");
    reveal_strlit("Stereo");
    reveal_strlit("5.1");
    reveal_strlit("7.1");
    assert("5.1"@[0] != "7.1"@[0]);
    assert("5.1"@ != "7.1"@);
    assert("Mono"@.len() == 4 && "Stereo"@.len() == 6 && "5.1"@.len() == 3 && "7.1"@.len() == 3);
    assert("Mono"@ != "Stereo"@ && "Mono"@ != "5.1"@ && "Mono"@ != "7.1"@);
    assert("Stereo"@ != "5.1"@ && "Stereo"@ != "7.1"@);
    assert(Seq::<char>::empty() != "Mono"@ && Seq::<char>::empty() != "Stereo"@);
    assert(Seq::<char>::empty() != "5.1"@ && Seq::<char>::empty() != "7.1"@);
}

} // verus!
