use jellyname::tui::{
    confirm_button_rows, confirm_buttons, confirm_lines, file_list_rows, list_window_start, loading_text, log_window, search_prompt,
    select_list_lines, select_list_title, status_title, tag_prompt, FileState, Mode, TuiApp,
};

#[test]
fn new_app_has_pending_files() {
    let app = TuiApp::new(Mode::Movies, vec!["/a.mkv".to_string(), "/b.mkv".to_string()]);
    assert_eq!(app.files.len(), 2);
    assert!(matches!(&app.files[1], FileState::Pending { path } if path == "/b.mkv"));
    assert_eq!(app.current, 0);
    assert!(!app.should_quit);
    assert!(app.mode == Mode::Movies);
    assert_eq!(status_title(&app), "jellyname-rs  [file 1/2]");
    let empty = TuiApp::new(Mode::Shows, Vec::new());
    assert_eq!(status_title(&empty), "jellyname-rs  [file 1/0]");
}

#[test]
fn list_windows() {
    assert_eq!(list_window_start(0, 10), 0);
    assert_eq!(list_window_start(7, 10), 2);
    assert_eq!(list_window_start(3, 10), 0);
    assert_eq!(list_window_start(9, 0), 9);
}

#[test]
fn select_list_rows() {
    let items: Vec<String> = (0..6).map(|i| format!("item{i}")).collect();
    let rows = select_list_lines(&items, 4, 4, true);
    assert_eq!(
        rows,
        vec![
            ("  item3".to_string(), false),
            ("▸ item4".to_string(), true),
            ("  item5".to_string(), false),
            ("  None of the above".to_string(), false),
        ]
    );
    let rows = select_list_lines(&items, 6, 3, true);
    assert_eq!(rows.last().unwrap(), &("▸ None of the above".to_string(), true));
    assert_eq!(select_list_lines(&items, 0, 1, false), Vec::<(String, bool)>::new());
    assert_eq!(select_list_title("Pick", true), "Pick [Esc: skip]");
    assert_eq!(select_list_title("Pick", false), "Pick");
}

#[test]
fn dialog_texts() {
    assert_eq!(confirm_buttons(false), vec!["Yes", "Skip", "Delete"]);
    assert_eq!(confirm_buttons(true), vec!["Yes", "Yes to All", "Skip", "Delete"]);
    assert_eq!(confirm_lines("a", "b", true), vec!["src: a", "dst: b", " ⚠ Destination exists!"]);
    assert_eq!(confirm_lines("a", "b", false), vec!["src: a", "dst: b", ""]);
    assert_eq!(tag_prompt(""), "Enter a tag:");
    assert_eq!(tag_prompt("CD1"), "Enter a tag (default: CD1):");
    assert_eq!(loading_text("Searching"), "Searching...");
    assert_eq!(search_prompt("Title?"), "Title?\n\n");
}

#[test]
fn log_panel_shows_the_newest() {
    let log: Vec<String> = (0..5).map(|i| format!("m{i}")).collect();
    assert_eq!(log_window(&log, 2), vec!["m3", "m4"]);
    assert_eq!(log_window(&log, 9).len(), 5);
    assert_eq!(log_window(&log, 0).len(), 0);
}

#[test]
fn dialog_buttons_highlight_the_selected_one() {
    let b = |t: &str, on: bool| (t.to_string(), on);
    assert_eq!(
        confirm_button_rows(true, 1),
        vec![b("[Yes]", false), b("[Yes to All]", true), b("[Skip]", false), b("[Delete]", false)]
    );
    assert_eq!(confirm_button_rows(false, 0), vec![b("[Yes]", true), b("[Skip]", false), b("[Delete]", false)]);
    assert!(confirm_button_rows(false, 3).iter().all(|(_, on)| !on));
}

#[test]
fn file_list_marks_the_current_file() {
    let files = vec![
        FileState::Done { path: "/rips/a.mkv".to_string() },
        FileState::Failed { path: "/rips/b.mkv".to_string(), error: "no match".to_string() },
        FileState::Pending { path: "/rips/c.mkv".to_string() },
        FileState::Selecting,
        FileState::Confirming { src: "/rips/e.mkv".to_string(), dst: "/out/E.mkv".to_string() },
        FileState::Pending { path: "/".to_string() },
    ];
    let b = |t: &str, on: bool| (t.to_string(), on);
    assert_eq!(
        file_list_rows(&files, 0, 3),
        vec![b("▸  ✓ a.mkv", true), b("   ✗ b.mkv", false), b("   ◌ c.mkv", false)]
    );
    assert_eq!(
        file_list_rows(&files, 4, 4),
        vec![b("   ◌ c.mkv", false), b("   ◌ ?", false), b("▸  ◌ e.mkv", true), b("   ◌ ?", false)]
    );
    assert_eq!(file_list_rows(&files, 0, 0), Vec::<(String, bool)>::new());
    assert_eq!(file_list_rows(&files, 20, 4), Vec::<(String, bool)>::new());
}
