use jellyname::probe::{capitalize_codecs, probe_report, stream_section_lines, ProbeFormat, ProbeStream};

fn stream(kind: &str, codec: Option<&str>) -> ProbeStream {
    ProbeStream {
        codec_type: Some(kind.to_string()),
        codec_name: codec.map(|c| c.to_string()),
        profile: None,
        width: 0,
        height: 0,
        bit_rate_kbps: None,
        sample_rate_khz: None,
        channels: 0,
    }
}

#[test]
fn video_and_audio_lines() {
    let mut v = stream("video", Some("hevc"));
    v.profile = Some("Main 10".into());
    v.width = 1920;
    v.height = 1080;
    v.bit_rate_kbps = Some("8000".into());
    let mut a = stream("audio", Some("ac3"));
    a.channels = 6;
    a.sample_rate_khz = Some("48".into());
    let mut a2 = stream("audio", None);
    a2.channels = 3;
    let s = stream("subtitle", Some("subrip"));
    let streams = capitalize_codecs(vec![v, a, a2, s]);
    assert_eq!(
        stream_section_lines(&streams, "video", "Video"),
        vec!["Video:", "  HEVC (Main 10) 1920x1080 @ 8000 kbps", ""]
    );
    assert_eq!(
        stream_section_lines(&streams, "audio", "Audio"),
        vec!["Audio:", "  AC3 5.1 48kHz", "  ? 3ch", ""]
    );
    assert_eq!(stream_section_lines(&streams, "data", "Data"), Vec::<String>::new());
    let format = ProbeFormat {
        format_name: Some("matroska,webm".into()),
        duration: Some((1, 2, 3)),
        bit_rate_kbps: Some("9000".into()),
    };
    assert_eq!(
        probe_report("/v/film.mkv", 2048, &Some(format), &streams),
        "film.mkv  (2.0KB)\n\nFormat: matroska,webm\nDuration: 01:02:03\nOverall bitrate: 9000 kbps\n\nVideo:\n  HEVC (Main 10) 1920x1080 @ 8000 kbps\n\nAudio:\n  AC3 5.1 48kHz\n  ? 3ch\n\nSubtitles:\n  SUBRIP\n"
    );
    assert_eq!(probe_report("/v/x.mkv", 0, &None, &Vec::new()), "x.mkv  (0.0B)\n");
}

#[test]
fn empty_profile_is_not_shown() {
    let mut v = stream("video", Some("h264"));
    v.profile = Some(String::new());
    v.width = 640;
    assert_eq!(stream_section_lines(&capitalize_codecs(vec![v]), "video", "Video"), vec!["Video:", "  H264", ""]);
}

#[test]
fn report_keeps_codec_names_as_given() {
    let s = stream("subtitle", Some("subrip"));
    assert_eq!(stream_section_lines(&vec![s], "subtitle", "Subtitles"), vec!["Subtitles:", "  subrip", ""]);
    let caps = capitalize_codecs(vec![stream("audio", None), stream("video", Some("vp9"))]);
    assert_eq!(caps[0].codec_name.as_deref(), Some("?"));
    assert_eq!(caps[1].codec_name.as_deref(), Some("VP9"));
    assert_eq!(caps[1].codec_type.as_deref(), Some("video"));
}
