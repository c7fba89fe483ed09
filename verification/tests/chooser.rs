use jellyname::conv::{
    audio_options, conv_step, fresh_entries, profile_listing, ConvKey, ConvScreen, ConvStep,
    KeyInput,
};
use jellyname::conv_view::{conv_rows, conv_title, lines_of, sample_command_text, RowStyle};
use jellyname::convert::with_audio;
use jellyname::profiles::Profile;

fn profile(desc: Option<&str>, codec: Option<&str>) -> Profile {
    Profile {
        description: desc.map(|d| d.to_string()),
        video_codec: codec.map(|c| c.to_string()),
        audio_codec: None,
        preset: None,
        crf: Some(23),
        video_bitrate: None,
        audio_bitrate: None,
        extra_flags: None,
        hwaccel: None,
    }
}

fn key(code: ConvKey) -> KeyInput {
    KeyInput { code, press: true, ctrl: false }
}

fn profiles() -> Vec<(String, Profile)> {
    vec![
        ("fast".to_string(), profile(Some("quick h264"), Some("h264"))),
        ("small".to_string(), profile(None, Some("x265"))),
    ]
}

fn start() -> ConvScreen {
    let entries = fresh_entries(
        vec!["/v/a.mkv".to_string(), "/v/b.mkv".to_string(), "/v/c.mkv".to_string()],
        vec![1024, 2048, 10],
    );
    ConvScreen::SelectFiles { entries, idx: 0 }
}

fn show(step: ConvStep) -> ConvScreen {
    match step {
        ConvStep::Show(s) => s,
        _ => panic!("expected a screen"),
    }
}

#[test]
fn moving_and_ticking_files() {
    let ps = profiles();
    let s = show(conv_step(start(), &key(ConvKey::Up), &ps));
    let s = show(conv_step(s, &key(ConvKey::Down), &ps));
    let s = show(conv_step(s, &key(ConvKey::Char('j')), &ps));
    let s = show(conv_step(s, &key(ConvKey::Down), &ps));
    match &s {
        ConvScreen::SelectFiles { idx, .. } => assert_eq!(*idx, 2),
        _ => panic!(),
    }
    let s = show(conv_step(s, &key(ConvKey::Char(' ')), &ps));
    match &s {
        ConvScreen::SelectFiles { entries, .. } => {
            let ticks: Vec<bool> = entries.iter().map(|e| e.selected).collect();
            assert_eq!(ticks, vec![true, true, false]);
        }
        _ => panic!(),
    }
    let s = show(conv_step(s, &key(ConvKey::Enter), &ps));
    match &s {
        ConvScreen::SelectProfile { files, profile_names, profile_descs, idx } => {
            assert_eq!(files, &vec!["/v/a.mkv".to_string(), "/v/b.mkv".to_string()]);
            assert_eq!(profile_names, &vec!["fast".to_string(), "small".to_string()]);
            assert_eq!(profile_descs, &vec!["quick h264".to_string(), String::new()]);
            assert_eq!(*idx, 0);
        }
        _ => panic!(),
    }
}

#[test]
fn nothing_ticked_stays() {
    let ps = profiles();
    let mut s = start();
    for _ in 0..3 {
        s = show(conv_step(s, &key(ConvKey::Char(' ')), &ps));
        s = show(conv_step(s, &key(ConvKey::Down), &ps));
    }
    let s = show(conv_step(s, &key(ConvKey::Enter), &ps));
    assert!(matches!(s, ConvScreen::SelectFiles { .. }));
}

#[test]
fn full_walk_to_selection() {
    let ps = profiles();
    let s = show(conv_step(start(), &key(ConvKey::Enter), &ps));
    let s = show(conv_step(s, &key(ConvKey::Down), &ps));
    let s = show(conv_step(s, &key(ConvKey::Enter), &ps));
    match &s {
        ConvScreen::SelectAudio { video_profile_name, video_profile, idx, .. } => {
            assert_eq!(video_profile_name, "small");
            assert_eq!(video_profile.video_codec.as_deref(), Some("x265"));
            assert_eq!(*idx, 0);
        }
        _ => panic!(),
    }
    let s = show(conv_step(s, &key(ConvKey::Down), &ps));
    let s = show(conv_step(s, &key(ConvKey::Enter), &ps));
    match conv_step(s, &key(ConvKey::Enter), &ps) {
        ConvStep::Done(sel) => {
            assert_eq!(sel.files.len(), 3);
            assert_eq!(sel.profile_name, "small");
            assert_eq!(sel.audio_option.label, "AAC 256k");
            assert_eq!(sel.audio_option.bitrate, Some("256k"));
        }
        _ => panic!("expected a selection"),
    }
}

#[test]
fn escape_goes_back() {
    let ps = profiles();
    let s = show(conv_step(start(), &key(ConvKey::Enter), &ps));
    match conv_step(s, &key(ConvKey::Esc), &ps) {
        ConvStep::Rescan { files } => assert_eq!(files.len(), 3),
        _ => panic!(),
    }
    let s = show(conv_step(start(), &key(ConvKey::Enter), &ps));
    let s = show(conv_step(s, &key(ConvKey::Enter), &ps));
    let s = show(conv_step(s, &key(ConvKey::Esc), &ps));
    assert!(matches!(s, ConvScreen::SelectProfile { idx: 0, .. }));
    let s = show(conv_step(s, &key(ConvKey::Enter), &ps));
    let s = show(conv_step(s, &key(ConvKey::Enter), &ps));
    let s = show(conv_step(s, &key(ConvKey::Esc), &ps));
    assert!(matches!(s, ConvScreen::SelectAudio { idx: 0, .. }));
    assert!(matches!(conv_step(start(), &key(ConvKey::Esc), &ps), ConvStep::Quit));
}

#[test]
fn control_c_and_releases() {
    let ps = profiles();
    let ctrl_c = KeyInput { code: ConvKey::Char('c'), press: true, ctrl: true };
    assert!(matches!(conv_step(start(), &ctrl_c, &ps), ConvStep::Quit));
    let release = KeyInput { code: ConvKey::Esc, press: false, ctrl: false };
    assert!(matches!(conv_step(start(), &release, &ps), ConvStep::Show(ConvScreen::SelectFiles { .. })));
    let plain_c = key(ConvKey::Char('c'));
    assert!(matches!(conv_step(start(), &plain_c, &ps), ConvStep::Show(_)));
}

#[test]
fn info_key_asks_for_a_probe() {
    let ps = profiles();
    let s = show(conv_step(start(), &key(ConvKey::Down), &ps));
    match conv_step(s, &key(ConvKey::Char('i')), &ps) {
        ConvStep::Inspect { path, idx, entries } => {
            assert_eq!(path, "/v/b.mkv");
            assert_eq!(idx, 1);
            assert_eq!(entries.len(), 3);
        }
        _ => panic!(),
    }
}

#[test]
fn audio_option_list() {
    let labels: Vec<&str> = audio_options().iter().map(|a| a.label).collect();
    assert_eq!(labels, vec!["AAC 128k", "AAC 256k", "AAC 320k", "AC3 640k", "Copy (passthrough)"]);
    let (names, descs) = profile_listing(&profiles());
    assert_eq!(names, vec!["fast".to_string(), "small".to_string()]);
    assert_eq!(descs, vec!["quick h264".to_string(), String::new()]);
}

#[test]
fn screen_rows_text() {
    let rows = conv_rows(&start(), 10);
    assert_eq!(rows[0], ("▸ [x] a.mkv  [1.0KB]".to_string(), RowStyle::Current));
    assert_eq!(rows[2], ("  [x] c.mkv  [10.0B]".to_string(), RowStyle::Plain));
    assert_eq!(conv_title(&start()), "Select files to convert  [Space: toggle  i: info  Enter: confirm  Esc: cancel]");
    let ps = profiles();
    let s = show(conv_step(start(), &key(ConvKey::Enter), &ps));
    let rows = conv_rows(&s, 10);
    assert_eq!(rows[0].0, "▸ fast — quick h264");
    assert_eq!(rows[1].0, "  small");
    let s = show(conv_step(s, &key(ConvKey::Enter), &ps));
    assert_eq!(conv_title(&s), "Select audio option  [Enter: confirm  Esc: back]  Video: fast");
    assert_eq!(conv_rows(&s, 2).len(), 2);
    let s = show(conv_step(s, &key(ConvKey::Enter), &ps));
    let rows = conv_rows(&s, 10);
    assert_eq!(rows.len(), 10);
    assert_eq!(rows[1].0, "  • a.mkv\n  • b.mkv\n  • c.mkv");
    assert_eq!(rows[4].0, "Audio: AAC 128k");
    assert_eq!(
        rows[7].0,
        "ffmpeg -i <input_file>.bak -map_metadata 0 -movflags faststart -c:v libx264 -crf 23 -c:a aac -b:a 128k <input_file>"
    );
    assert_eq!(rows[9].1, RowStyle::Hint);
}

#[test]
fn info_screen_rows() {
    let s = ConvScreen::ShowFileInfo {
        entries: Vec::new(),
        idx: 0,
        info: "a.mkv  (1.0KB)\n\nVideo:\n  HEVC 1920x1080\n".to_string(),
    };
    let rows = conv_rows(&s, 5);
    assert_eq!(
        rows,
        vec![
            ("a.mkv  (1.0KB)".to_string(), RowStyle::Bold),
            (String::new(), RowStyle::Plain),
            ("Video:".to_string(), RowStyle::Bold),
            ("  HEVC 1920x1080".to_string(), RowStyle::Plain),
        ]
    );
}

#[test]
fn lines_like_std() {
    for text in ["", "a", "a\n", "a\r\nb", "a\n\nb\r", "\n", "x\r\n\r\n", "\r"] {
        let ours = lines_of(text);
        let std_lines: Vec<String> = text.lines().map(|l| l.to_string()).collect();
        assert_eq!(ours, std_lines, "text {:?}", text);
    }
}

#[test]
fn sample_command_uses_audio_option() {
    let opts = audio_options();
    let p = profile(None, None);
    assert_eq!(
        sample_command_text(&p, &opts[4]),
        "ffmpeg -i <input_file>.bak -map_metadata 0 -movflags faststart -c:a copy <input_file>"
    );
    let merged = with_audio(&p, &opts[3]);
    assert_eq!(merged.audio_codec.as_deref(), Some("ac3"));
    assert_eq!(merged.audio_bitrate.as_deref(), Some("640k"));
    assert_eq!(merged.crf, Some(23));
}
