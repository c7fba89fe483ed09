//! The state of the renaming screen, and the text its panels show.
use vstd::prelude::*;
use crate::numfmt::{dec, push_decimal};
use crate::strings::{push_text, strs};
use crate::paths::{file_name, file_name_of};
use crate::text::{append_chars, append_str, chars_of, owned, string_of};

verus! {

/// What kind of files are being renamed.
#[derive(Clone, Copy, Debug, PartialEq, Eq, Structural)]
pub enum Mode {
    Movies,
    Shows,
}

/// Where a file is in its renaming.
#[derive(Clone, Debug)]
pub enum FileState {
    Pending { path: String },
    ReadMkv { path: String },
    Searching { path: String, query: String, loading: bool },
    Selecting,
    Tagging { default: String },
    Confirming { src: String, dst: String },
    Done { path: String },
    Failed { path: String, error: String },
}

/// The renaming screen: the files, which one is current, and whether to leave.
pub struct TuiApp {
    pub mode: Mode,
    pub files: Vec<FileState>,
    pub current: usize,
    pub should_quit: bool,
}

impl TuiApp {
    /// A screen over these files, all pending, the first one current.
    pub fn new(mode: Mode, files: Vec<String>) -> (r: Self)
        ensures
            r.mode == mode,
            r.files.len() == files.len(),
            forall|i: int|
                0 <= i < files.len() ==> (#[trigger] r.files@[i] matches FileState::Pending {
                    path,
                } && path == files@[i]),
            r.current == 0,
            !r.should_quit,
    {
        let mut states: Vec<FileState> = Vec::new();
        let ghost all = files@;
        for p in it: files.into_iter()
            invariant
                it.seq() == all,
                states.len() == it.index(),
                forall|i: int|
                    0 <= i < states.len() ==> (#[trigger] states@[i] matches FileState::Pending {
                        path,
                    } && path == all[i]),
        {
            states.push(FileState::Pending { path: p });
        }
        TuiApp { mode, files: states, current: 0, should_quit: false }
    }
}

/// The title line of the renaming screen.
pub open spec fn status_title_text(current: nat, total: nat) -> Seq<char> {
    "jellyname-rs  [file "@ + dec(current + 1) + "/"@ + dec(total) + "]"@
}

/// The title line of the renaming screen: which file, of how many.
pub fn status_title(app: &TuiApp) -> (r: String)
    requires
        app.current < usize::MAX,
    ensures
        r@ == status_title_text(app.current as nat, app.files.len() as nat),
{
    let mut v = chars_of("jellyname-rs  [file ");
    push_decimal(&mut v, (app.current + 1) as u64);
    append_str(&mut v, "/");
    push_decimal(&mut v, app.files.len() as u64);
    append_str(&mut v, "]");
    string_of(&v)
}

/// The first row shown of a list when `current` is kept near the middle of
/// `max_rows` rows.
pub open spec fn window_start(current: nat, max_rows: nat) -> nat {
    if current >= max_rows / 2 {
        (current - max_rows / 2) as nat
    } else {
        0
    }
}

/// The first row shown of a list, keeping `current` near the middle.
pub fn list_window_start(current: usize, max_rows: usize) -> (r: usize)
    ensures
        r == window_start(current as nat, max_rows as nat),
{
    let half = max_rows / 2;
    if current >= half {
        current - half
    } else {
        0
    }
}

/// The rows of a selection list: the items from the window start, each marked
/// when selected, then a "None of the above" row when offered.
pub open spec fn select_rows(items: Seq<Seq<char>>, selected: nat, max_rows: nat, show_none: bool) -> Seq<
    (Seq<char>, bool),
> {
    let start = window_start(selected, max_rows);
    let end: int = if start + max_rows < items.len() {
        (start + max_rows) as int
    } else {
        items.len() as int
    };
    let shown = if start < items.len() {
        Seq::new(
            (end - start) as nat,
            |j: int|
                {
                    let i = start + j;
                    (
                        (if i == selected {
                            "▸ "@
                        } else {
                            "  "@
                        }) + items[i],
                        i == selected,
                    )
                },
        )
    } else {
        Seq::<(Seq<char>, bool)>::empty()
    };
    if show_none {
        shown.push(
            (
                (if selected >= items.len() {
                    "▸ "@
                } else {
                    "  "@
                }) + "None of the above"@,
                selected >= items.len(),
            ),
        )
    } else {
        shown
    }
}

/// The text of rows with their highlight.
pub open spec fn row_views(v: Seq<(String, bool)>) -> Seq<(Seq<char>, bool)> {
    v.map_values(|r: (String, bool)| (r.0@, r.1))
}

fn marked(item: &str, on: bool) -> (r: String)
    ensures
        r@ == (if on {
            "▸ "@
        } else {
            "  "@
        }) + item@,
{
    let mut v = if on {
        chars_of("▸ ")
    } else {
        chars_of("  ")
    };
    append_str(&mut v, item);
    string_of(&v)
}

/// The rows of a list from the window start, each marked when it is `selected`.
pub fn window_lines(items: &Vec<String>, selected: usize, max_rows: usize) -> (r: Vec<(String, bool)>)
    ensures
        row_views(r@) == select_rows(strs(items@), selected as nat, max_rows as nat, false),
{
    let start = list_window_start(selected, max_rows);
    let end = if start < items.len() && max_rows < items.len() - start {
        start + max_rows
    } else {
        items.len()
    };
    let mut rows: Vec<(String, bool)> = Vec::new();
    let ghost want = select_rows(strs(items@), selected as nat, max_rows as nat, false);
    if start < items.len() {
        let mut i = start;
        while i < end
            invariant
                start <= i <= end,
                end <= items.len(),
                start < items.len(),
                end == (if start + max_rows < items.len() { start + max_rows } else { items.len() as int }),
                start == window_start(selected as nat, max_rows as nat),
                want == select_rows(strs(items@), selected as nat, max_rows as nat, false),
                want.len() == end - start,
                row_views(rows@) == want.take(i - start),
            decreases end - i,
        {
            let ghost r0 = rows@;
            let line = marked(items[i].as_str(), i == selected);
            rows.push((line, i == selected));
            assert(row_views(rows@) =~= row_views(r0).push(want[i - start]));
            assert(want.take(i + 1 - start) =~= want.take(i - start).push(want[i - start]));
            i = i + 1;
        }
        assert(want.take(end - start) =~= want);
    } else {
        assert(row_views(rows@) =~= want);
    }
    rows
}

/// The rows of a selection list in a panel `inner_height` rows high (one row is
/// kept free): each shown item marked when selected, then "None of the above"
/// when offered, highlighted when the selection is past the items.
pub fn select_list_lines(items: &Vec<String>, selected: usize, inner_height: usize, show_none: bool) -> (r: Vec<
    (String, bool),
>)
    requires
        inner_height >= 1,
    ensures
        row_views(r@) == select_rows(strs(items@), selected as nat, (inner_height - 1) as nat, show_none),
{
    let max_rows = inner_height - 1;
    let mut rows = window_lines(items, selected, max_rows);
    if show_none {
        let past = selected >= items.len();
        let ghost r0 = rows@;
        let line = marked("None of the above", past);
        rows.push((line, past));
        assert(row_views(rows@) =~= row_views(r0).push((line@, past)));
        assert(row_views(rows@) =~= select_rows(strs(items@), selected as nat, max_rows as nat, true));
    }
    rows
}

/// The title of a selection list: "[Esc: skip]" added when "None of the above"
/// is offered.
pub fn select_list_title(title: &str, show_none: bool) -> (r: String)
    ensures
        r@ == title@ + (if show_none { " [Esc: skip]"@ } else { Seq::<char>::empty() }),
{
    let mut v = chars_of(title);
    if show_none {
        append_str(&mut v, " [Esc: skip]");
    }
    assert(v@ =~= title@ + (if show_none { " [Esc: skip]"@ } else { Seq::<char>::empty() }));
    string_of(&v)
}

/// The buttons of the confirmation dialog, in order.
pub open spec fn confirm_button_labels(show_approve_all: bool) -> Seq<Seq<char>> {
    if show_approve_all {
        seq!["Yes"@, "Yes to All"@, "Skip"@, "Delete"@]
    } else {
        seq!["Yes"@, "Skip"@, "Delete"@]
    }
}

/// The buttons of the confirmation dialog: "Yes to All" second when offered.
pub fn confirm_buttons(show_approve_all: bool) -> (r: Vec<String>)
    ensures
        strs(r@) == confirm_button_labels(show_approve_all),
{
    let mut b: Vec<String> = Vec::new();
    push_text(&mut b, "Yes");
    if show_approve_all {
        push_text(&mut b, "Yes to All");
    }
    push_text(&mut b, "Skip");
    push_text(&mut b, "Delete");
    assert(strs(b@) =~= confirm_button_labels(show_approve_all));
    b
}

/// The buttons of the confirmation dialog as shown: each label in brackets, the
/// one at `selected` highlighted (none when `selected` is past the last).
pub open spec fn confirm_button_row_text(show_approve_all: bool, selected: nat) -> Seq<(Seq<char>, bool)> {
    let labels = confirm_button_labels(show_approve_all);
    Seq::new(labels.len(), |i: int| ("["@ + labels[i] + "]"@, i == selected))
}

/// The buttons of the confirmation dialog, each with whether it is highlighted.
pub fn confirm_button_rows(show_approve_all: bool, selected: usize) -> (r: Vec<(String, bool)>)
    ensures
        row_views(r@) == confirm_button_row_text(show_approve_all, selected as nat),
{
    let labels = confirm_buttons(show_approve_all);
    let ghost want = confirm_button_row_text(show_approve_all, selected as nat);
    let mut out: Vec<(String, bool)> = Vec::new();
    let mut i: usize = 0;
    while i < labels.len()
        invariant
            i <= labels.len(),
            strs(labels@) == confirm_button_labels(show_approve_all),
            want == confirm_button_row_text(show_approve_all, selected as nat),
            want.len() == labels.len(),
            row_views(out@) == want.take(i as int),
        decreases labels.len() - i,
    {
        let ghost o = out@;
        let mut v = chars_of("[");
        append_str(&mut v, labels[i].as_str());
        append_str(&mut v, "]");
        let t = string_of(&v);
        out.push((t, i == selected));
        assert(strs(labels@)[i as int] == labels@[i as int]@);
        assert(row_views(out@) =~= row_views(o).push(want[i as int]));
        assert(want.take(i + 1) =~= want.take(i as int).push(want[i as int]));
        i = i + 1;
    }
    assert(want.take(labels.len() as int) =~= want);
    out
}

/// The icon of a file's row: a tick when done, a cross when failed, else a
/// circle for a file still in hand.
pub open spec fn file_icon(s: FileState) -> Seq<char> {
    match s {
        FileState::Done { .. } => " ✓"@,
        FileState::Failed { .. } => " ✗"@,
        _ => " ◌"@,
    }
}

/// The path whose name a file's row shows: the source while a move is being
/// confirmed, none while a match or a tag is being chosen.
pub open spec fn file_path(s: FileState) -> Option<Seq<char>> {
    match s {
        FileState::Pending { path } => Some(path@),
        FileState::ReadMkv { path } => Some(path@),
        FileState::Searching { path, .. } => Some(path@),
        FileState::Selecting => None,
        FileState::Tagging { .. } => None,
        FileState::Confirming { src, .. } => Some(src@),
        FileState::Done { path } => Some(path@),
        FileState::Failed { path, .. } => Some(path@),
    }
}

/// The name a row shows for a path: its file name, or "?" when it has none.
pub open spec fn shown_name(p: Option<Seq<char>>) -> Seq<char> {
    match p {
        Some(q) => match file_name(q) {
            Some(n) => n,
            None => "?"@,
        },
        None => "?"@,
    }
}

/// The text of a file's row: the marker, the icon, a space and the name.
pub open spec fn file_row_text(s: FileState, on: bool) -> Seq<char> {
    (if on {
        "▸ "@
    } else {
        "  "@
    }) + file_icon(s) + " "@ + shown_name(file_path(s))
}

/// The rows of the file list in a panel `inner_height` rows high: the files
/// from the window start, the current one marked and highlighted.
pub open spec fn file_rows(files: Seq<FileState>, current: nat, inner_height: nat) -> Seq<(Seq<char>, bool)> {
    let start = window_start(current, inner_height);
    let end: int = if start + inner_height < files.len() {
        (start + inner_height) as int
    } else {
        files.len() as int
    };
    if start < files.len() {
        Seq::new(
            (end - start) as nat,
            |j: int| (file_row_text(files[start + j], start + j == current), start + j == current),
        )
    } else {
        Seq::<(Seq<char>, bool)>::empty()
    }
}

fn shown_file_name(p: &str) -> (r: String)
    ensures
        r@ == shown_name(Some(p@)),
{
    match file_name_of(p) {
        Some(n) => n,
        None => owned("?"),
    }
}

fn file_row(state: &FileState, on: bool) -> (r: String)
    ensures
        r@ == file_row_text(*state, on),
{
    let mut v = if on {
        chars_of("▸ ")
    } else {
        chars_of("  ")
    };
    let name = match state {
        FileState::Pending { path } => shown_file_name(path.as_str()),
        FileState::ReadMkv { path } => shown_file_name(path.as_str()),
        FileState::Searching { path, .. } => shown_file_name(path.as_str()),
        FileState::Selecting => owned("?"),
        FileState::Tagging { .. } => owned("?"),
        FileState::Confirming { src, .. } => shown_file_name(src.as_str()),
        FileState::Done { path } => shown_file_name(path.as_str()),
        FileState::Failed { path, .. } => shown_file_name(path.as_str()),
    };
    match state {
        FileState::Done { .. } => append_str(&mut v, " ✓"),
        FileState::Failed { .. } => append_str(&mut v, " ✗"),
        _ => append_str(&mut v, " ◌"),
    }
    append_str(&mut v, " ");
    append_str(&mut v, name.as_str());
    assert(v@ =~= file_row_text(*state, on));
    string_of(&v)
}

/// The rows of the file list in a panel `inner_height` rows high, each with
/// whether it is the current file.
pub fn file_list_rows(files: &Vec<FileState>, current: usize, inner_height: usize) -> (r: Vec<
    (String, bool),
>)
    ensures
        row_views(r@) == file_rows(files@, current as nat, inner_height as nat),
{
    let start = list_window_start(current, inner_height);
    let end = if start < files.len() && inner_height < files.len() - start {
        start + inner_height
    } else {
        files.len()
    };
    let mut rows: Vec<(String, bool)> = Vec::new();
    let ghost want = file_rows(files@, current as nat, inner_height as nat);
    if start < files.len() {
        let mut i = start;
        while i < end
            invariant
                start <= i <= end,
                end <= files.len(),
                start < files.len(),
                end == (if start + inner_height < files.len() { start + inner_height } else { files.len() as int }),
                start == window_start(current as nat, inner_height as nat),
                want == file_rows(files@, current as nat, inner_height as nat),
                want.len() == end - start,
                row_views(rows@) == want.take(i - start),
            decreases end - i,
        {
            let ghost r0 = rows@;
            let line = file_row(&files[i], i == current);
            rows.push((line, i == current));
            assert(row_views(rows@) =~= row_views(r0).push(want[i - start]));
            assert(want.take(i + 1 - start) =~= want.take(i - start).push(want[i - start]));
            i = i + 1;
        }
        assert(want.take(end - start) =~= want);
    } else {
        assert(row_views(rows@) =~= want);
    }
    rows
}

/// The prompt of the tag input, naming the default tag when there is one.
pub open spec fn tag_prompt_text(default_tag: Seq<char>) -> Seq<char> {
    "Enter a tag"@ + (if default_tag.len() > 0 {
        " (default: "@ + default_tag + ")"@
    } else {
        Seq::<char>::empty()
    }) + ":"@
}

/// The prompt of the tag input.
pub fn tag_prompt(default_tag: &str) -> (r: String)
    ensures
        r@ == tag_prompt_text(default_tag@),
{
    let d = chars_of(default_tag);
    let mut v = chars_of("Enter a tag");
    if d.len() > 0 {
        append_str(&mut v, " (default: ");
        append_chars(&mut v, &d);
        append_str(&mut v, ")");
    }
    append_str(&mut v, ":");
    assert(v@ =~= tag_prompt_text(default_tag@));
    string_of(&v)
}

/// The messages the log panel shows: the last `max_rows` of them.
pub open spec fn log_tail(log: Seq<Seq<char>>, max_rows: nat) -> Seq<Seq<char>> {
    if log.len() > max_rows {
        log.subrange(log.len() - max_rows, log.len() as int)
    } else {
        log
    }
}

/// The messages the log panel shows, oldest first.
pub fn log_window(log: &Vec<String>, max_rows: usize) -> (r: Vec<String>)
    ensures
        strs(r@) == log_tail(strs(log@), max_rows as nat),
{
    let start = if log.len() > max_rows {
        log.len() - max_rows
    } else {
        0
    };
    let mut out: Vec<String> = Vec::new();
    let mut i = start;
    while i < log.len()
        invariant
            start <= i <= log.len(),
            start == (if log.len() > max_rows { log.len() - max_rows } else { 0 }),
            strs(out@) == strs(log@).subrange(start as int, i as int),
        decreases log.len() - i,
    {
        let ghost o = out@;
        out.push(log[i].clone());
        assert(strs(out@) =~= strs(o).push(log@[i as int]@));
        assert(strs(log@).subrange(start as int, i + 1) =~= strs(log@).subrange(start as int, i as int).push(log@[i as int]@));
        i = i + 1;
    }
    assert(strs(log@).subrange(0, log.len() as int) =~= strs(log@));
    out
}

/// The text of the waiting panel.
pub fn loading_text(msg: &str) -> (r: String)
    ensures
        r@ == msg@ + "..."@,
{
    let mut v = chars_of(msg);
    append_str(&mut v, "...");
    string_of(&v)
}

/// The prompt line of the search panel, followed by a blank line.
pub fn search_prompt(prompt: &str) -> (r: String)
    ensures
        r@ == prompt@ + "\n\n"@,
{
    let mut v = chars_of(prompt);
    append_str(&mut v, "\n\n");
    string_of(&v)
}

/// The text lines of the confirmation dialog: the source, the destination, and
/// a warning when the destination exists already (else an empty line).
pub open spec fn confirm_text(src: Seq<char>, dst: Seq<char>, exists: bool) -> Seq<Seq<char>> {
    seq![
        "src: "@ + src,
        "dst: "@ + dst,
        if exists {
            " ⚠ Destination exists!"@
        } else {
            Seq::<char>::empty()
        },
    ]
}

/// The text lines of the confirmation dialog.
pub fn confirm_lines(src: &str, dst: &str, exists: bool) -> (r: Vec<String>)
    ensures
        strs(r@) == confirm_text(src@, dst@, exists),
{
    let mut out: Vec<String> = Vec::new();
    let mut a = chars_of("src: ");
    append_str(&mut a, src);
    out.push(string_of(&a));
    let mut b = chars_of("dst: ");
    append_str(&mut b, dst);
    out.push(string_of(&b));
    if exists {
        push_text(&mut out, " ⚠ Destination exists!");
    } else {
        out.push(String::new());
    }
    assert(strs(out@) =~= confirm_text(src@, dst@, exists));
    out
}

/// The log panel shows the newest messages, as many as fit, in their order.
pub proof fn law_log_shows_newest(log: Seq<Seq<char>>, max_rows: nat)
    ensures
        log_tail(log, max_rows).len() == if log.len() < max_rows {
            log.len()
        } else {
            max_rows
        },
        forall|i: int|
            0 <= i < log_tail(log, max_rows).len() ==> #[trigger] log_tail(log, max_rows)[i]
                == log[log.len() - log_tail(log, max_rows).len() + i],
{
}

/// The current row is among the rows shown whenever there is room for a row.
pub proof fn law_window_shows_current(current: nat, max_rows: nat)
    requires
        max_rows > 0,
    ensures
        window_start(current, max_rows) <= current < window_start(current, max_rows) + max_rows,
{
}

} // verus!
