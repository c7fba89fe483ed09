use jellyname::ffmpeg::{advance_progress, build_cmd, out_time_of, progress_args, progress_total};
use jellyname::profiles::Profile;

fn empty_profile() -> Profile {
    Profile {
        description: None,
        video_codec: None,
        audio_codec: None,
        preset: None,
        crf: None,
        video_bitrate: None,
        audio_bitrate: None,
        extra_flags: None,
        hwaccel: None,
    }
}

fn s(v: &[&str]) -> Vec<String> {
    v.iter().map(|x| x.to_string()).collect()
}

#[test]
fn build_cmd_with_empty_profile() {
    let p = empty_profile();
    assert_eq!(
        build_cmd(&p, "in.mkv.bak", "in.mkv"),
        s(&["ffmpeg", "-i", "in.mkv.bak", "-map_metadata", "0", "-movflags", "faststart", "in.mkv"])
    );
}

#[test]
fn build_cmd_x265_with_crf_and_preset() {
    let mut p = empty_profile();
    p.video_codec = Some("x265".into());
    p.preset = Some("slow".into());
    p.crf = Some(22);
    p.audio_codec = Some("mp3".into());
    p.audio_bitrate = Some("192k".into());
    p.extra_flags = Some(s(&["-map", "0"]));
    assert_eq!(
        build_cmd(&p, "a", "b"),
        s(&[
            "ffmpeg", "-i", "a", "-map_metadata", "0", "-movflags", "faststart", "-c:v", "libx265",
            "-preset", "slow", "-crf", "22", "-c:a", "libmp3lame", "-b:a", "192k", "-map", "0", "b"
        ])
    );
}

#[test]
fn build_cmd_qsv_uses_global_quality_and_hwaccel() {
    let mut p = empty_profile();
    p.video_codec = Some("qsv_h265".into());
    p.crf = Some(25);
    p.video_bitrate = Some("4M".into());
    assert_eq!(
        build_cmd(&p, "x", "y"),
        s(&[
            "ffmpeg", "-hwaccel", "qsv", "-hwaccel_output_format", "qsv", "-i", "x",
            "-map_metadata", "0", "-movflags", "faststart", "-c:v", "hevc_qsv",
            "-global_quality", "25", "-b:v", "4M", "y"
        ])
    );
}

#[test]
fn build_cmd_copy_has_no_crf() {
    let mut p = empty_profile();
    p.video_codec = Some("copy".into());
    p.crf = Some(20);
    p.audio_codec = Some("copy".into());
    p.hwaccel = Some("cuda".into());
    assert_eq!(
        build_cmd(&p, "x", "y"),
        s(&[
            "ffmpeg", "-hwaccel", "cuda", "-hwaccel_output_format", "cuda", "-i", "x",
            "-map_metadata", "0", "-movflags", "faststart", "-c:v", "copy", "-c:a", "copy", "y"
        ])
    );
}

#[test]
fn build_cmd_encoder_names() {
    for (name, enc) in [
        ("h264", "libx264"),
        ("x264", "libx264"),
        ("h265", "libx265"),
        ("nvenc", "h264_nvenc"),
        ("qsv_h264", "h264_qsv"),
        ("libsvtav1", "libsvtav1"),
    ] {
        let mut p = empty_profile();
        p.video_codec = Some(name.into());
        let cmd = build_cmd(&p, "i", "o");
        let pos = cmd.iter().position(|a| a == "-c:v").unwrap();
        assert_eq!(cmd[pos + 1], enc);
    }
    let mut p = empty_profile();
    p.video_codec = Some("libsvtav1".into());
    p.crf = Some(30);
    let cmd = build_cmd(&p, "i", "o");
    assert!(cmd.contains(&"-crf".to_string()));
}

#[test]
fn build_cmd_explicit_hwaccel_wins_over_qsv() {
    let mut p = empty_profile();
    p.video_codec = Some("qsv_h264".into());
    p.hwaccel = Some("vaapi".into());
    let cmd = build_cmd(&p, "i", "o");
    assert_eq!(&cmd[1..5], &s(&["-hwaccel", "vaapi", "-hwaccel_output_format", "vaapi"])[..]);
}

#[test]
fn progress_args_put_flags_before_output() {
    assert_eq!(
        progress_args(&s(&["-i", "in", "out"])),
        s(&["-i", "in", "-progress", "pipe:1", "-nostats", "out"])
    );
    assert_eq!(progress_args(&s(&["only"])), s(&["-progress", "pipe:1", "-nostats", "only"]));
    assert_eq!(progress_args(&Vec::new()), Vec::<String>::new());
}

#[test]
fn out_time_lines() {
    assert_eq!(out_time_of("out_time=00:01:02.5\n"), Some("00:01:02.5".to_string()));
    assert_eq!(out_time_of("  out_time=12 "), Some("12".to_string()));
    assert_eq!(out_time_of("out_time_ms=1000"), None);
    assert_eq!(out_time_of("progress=end"), None);
    assert_eq!(out_time_of("\u{3000}out_time=\u{a0}"), Some("".to_string()));
}

#[test]
fn progress_moves_forward_only() {
    assert_eq!(progress_total(0), 1);
    assert_eq!(progress_total(90), 90);
    assert_eq!(advance_progress(0, 10, 100), (10, 10));
    assert_eq!(advance_progress(10, 5, 100), (10, 0));
    assert_eq!(advance_progress(10, 500, 100), (100, 90));
    assert_eq!(advance_progress(100, 500, 100), (100, 0));
}
