//! The text shown on each screen of the conversion chooser.
use vstd::prelude::*;
use crate::conv::{
    audio_option_list, audio_options, entry_views, AudioOption, AudioOptionView, ConvScreen,
    ConvScreenView, FileEntry, FileEntryView,
};
use crate::convert::with_audio;
use crate::ffmpeg::{build_cmd, ffmpeg_command};
use crate::numfmt::{human_size, human_size_text};
use crate::paths::{file_name, file_name_of, split_on, split_text, views};
use crate::profiles::ProfileView;
use crate::strings::{join_strings, joined, push_text, strs};
use crate::text::{append_str, chars_of, ends_with, owned, starts_with, string_of};
use crate::tui::{row_views, select_rows, window_lines};

verus! {

/// How a row is drawn.
#[derive(Clone, Copy, Debug, PartialEq, Eq, Structural)]
pub enum RowStyle {
    Plain,
    Current,
    Bold,
    Hint,
}

/// The text of styled rows.
pub open spec fn styled_views(v: Seq<(String, RowStyle)>) -> Seq<(Seq<char>, RowStyle)> {
    v.map_values(|r: (String, RowStyle)| (r.0@, r.1))
}

/// Highlighted rows drawn as the current row, the others plain.
pub open spec fn styled(rows: Seq<(Seq<char>, bool)>) -> Seq<(Seq<char>, RowStyle)> {
    rows.map_values(
        |r: (Seq<char>, bool)|
            (
                r.0,
                if r.1 {
                    RowStyle::Current
                } else {
                    RowStyle::Plain
                },
            ),
    )
}

/// The name shown for a path: its file name, or "?".
pub open spec fn shown_name(path: Seq<char>) -> Seq<char> {
    match file_name(path) {
        Some(n) => n,
        None => "?"@,
    }
}

/// The row text of a file entry: tick box, name and size.
pub open spec fn entry_label(e: FileEntryView) -> Seq<char> {
    (if e.selected {
        "[x]"@
    } else {
        "[ ]"@
    }) + " "@ + shown_name(e.path) + "  ["@ + human_size_text(e.size as nat) + "]"@
}

/// The row text of a profile: its name, and its description after a dash.
pub open spec fn profile_label(name: Seq<char>, desc: Seq<char>) -> Seq<char> {
    if desc.len() == 0 {
        name
    } else {
        name + " — "@ + desc
    }
}

/// The profile rows, as many as there are both names and descriptions.
pub open spec fn profile_labels(names: Seq<Seq<char>>, descs: Seq<Seq<char>>) -> Seq<Seq<char>> {
    let n = if names.len() < descs.len() {
        names.len()
    } else {
        descs.len()
    };
    Seq::new(n, |i: int| profile_label(names[i], descs[i]))
}

/// A line of `str::lines` with the `\r` of a `\r\n` ending dropped.
pub open spec fn without_cr(l: Seq<char>) -> Seq<char> {
    if l.len() > 0 && l.last() == '\r' {
        l.drop_last()
    } else {
        l
    }
}

/// The lines of a text (`str::lines`): split at `\n` (a `\r` before it dropped),
/// with no empty line after a final line ending.
pub open spec fn text_lines(s: Seq<char>) -> Seq<Seq<char>> {
    let ps = split_on(s, '\n');
    let body = ps.drop_last().map_values(|l: Seq<char>| without_cr(l));
    if ps.last().len() == 0 {
        body
    } else {
        body.push(ps.last())
    }
}

/// A heading line of the file information: one ending with `:`, or one that is
/// not empty and not indented.
pub open spec fn is_heading(l: Seq<char>) -> bool {
    ends_with(l, ":"@) || (!starts_with(l, " "@) && l.len() > 0)
}

/// The rows of the file information screen.
pub open spec fn info_rows(info: Seq<char>) -> Seq<(Seq<char>, RowStyle)> {
    text_lines(info).map_values(
        |l: Seq<char>|
            (
                l,
                if is_heading(l) {
                    RowStyle::Bold
                } else {
                    RowStyle::Plain
                },
            ),
    )
}

/// The profile with the audio option's codec and bitrate put in.
pub open spec fn with_audio_view(p: ProfileView, a: AudioOptionView) -> ProfileView {
    ProfileView { audio_codec: Some(a.codec), audio_bitrate: a.bitrate, ..p }
}

/// The example command shown before converting.
pub open spec fn sample_command(p: ProfileView, a: AudioOptionView) -> Seq<char> {
    joined(ffmpeg_command(with_audio_view(p, a), "<input_file>.bak"@, "<input_file>"@), " "@)
}

/// The rows of the confirmation screen.
pub open spec fn confirm_rows(
    files: Seq<Seq<char>>,
    profile_name: Seq<char>,
    profile: ProfileView,
    audio: AudioOptionView,
) -> Seq<(Seq<char>, RowStyle)> {
    seq![
        ("Files to convert:"@, RowStyle::Bold),
        (joined(files.map_values(|f: Seq<char>| "  • "@ + shown_name(f)), "\n"@), RowStyle::Plain),
        (Seq::<char>::empty(), RowStyle::Plain),
        ("Video: "@ + profile_name, RowStyle::Bold),
        ("Audio: "@ + audio.label, RowStyle::Bold),
        (Seq::<char>::empty(), RowStyle::Plain),
        ("Example ffmpeg command:"@, RowStyle::Bold),
        (sample_command(profile, audio), RowStyle::Plain),
        (Seq::<char>::empty(), RowStyle::Plain),
        ("[Enter] start  [Esc] back"@, RowStyle::Hint),
    ]
}

/// The rows a screen shows in a panel of `max_rows` rows.
pub open spec fn screen_rows(s: ConvScreenView, max_rows: nat) -> Seq<(Seq<char>, RowStyle)> {
    match s {
        ConvScreenView::SelectFiles { entries, idx } => styled(
            select_rows(entries.map_values(|e: FileEntryView| entry_label(e)), idx as nat, max_rows, false),
        ),
        ConvScreenView::SelectProfile { profile_names, profile_descs, idx, .. } => styled(
            select_rows(profile_labels(profile_names, profile_descs), idx as nat, max_rows, false),
        ),
        ConvScreenView::SelectAudio { idx, .. } => styled(
            select_rows(
                audio_option_list().map_values(|a: AudioOptionView| a.label),
                idx as nat,
                max_rows,
                false,
            ),
        ),
        ConvScreenView::Confirm { files, profile_name, profile, audio_option } => confirm_rows(
            files,
            profile_name,
            profile,
            audio_option,
        ),
        ConvScreenView::ShowFileInfo { info, .. } => info_rows(info),
    }
}

/// The title of a screen.
pub open spec fn screen_title(s: ConvScreenView) -> Seq<char> {
    match s {
        ConvScreenView::SelectFiles { .. } =>
            "Select files to convert  [Space: toggle  i: info  Enter: confirm  Esc: cancel]"@,
        ConvScreenView::SelectProfile { .. } => "Select profile  [Enter: confirm  Esc: back]"@,
        ConvScreenView::SelectAudio { video_profile_name, .. } =>
            "Select audio option  [Enter: confirm  Esc: back]  Video: "@ + video_profile_name,
        ConvScreenView::Confirm { profile_name, .. } =>
            "Confirm conversion  [Enter: start  Esc: back]  Profile: "@ + profile_name,
        ConvScreenView::ShowFileInfo { .. } => "File info  [Esc: back]"@,
    }
}

/// The name shown for a path: its file name, or "?".
pub fn display_file_name(path: &str) -> (r: String)
    ensures
        r@ == shown_name(path@),
{
    match file_name_of(path) {
        Some(n) => n,
        None => owned("?"),
    }
}

fn styled_rows(rows: &Vec<(String, bool)>) -> (r: Vec<(String, RowStyle)>)
    ensures
        styled_views(r@) == styled(row_views(rows@)),
{
    let mut out: Vec<(String, RowStyle)> = Vec::new();
    let ghost want = styled(row_views(rows@));
    let mut i: usize = 0;
    while i < rows.len()
        invariant
            i <= rows.len(),
            want == styled(row_views(rows@)),
            styled_views(out@) == want.take(i as int),
        decreases rows.len() - i,
    {
        let ghost o = out@;
        let text = rows[i].0.clone();
        let style = if rows[i].1 {
            RowStyle::Current
        } else {
            RowStyle::Plain
        };
        out.push((text, style));
        assert(styled_views(out@) =~= styled_views(o).push(want[i as int]));
        assert(want.take(i + 1) =~= want.take(i as int).push(want[i as int]));
        i = i + 1;
    }
    assert(want.take(rows.len() as int) =~= want);
    out
}

/// The row text of a file entry.
pub fn entry_text(e: &FileEntry) -> (r: String)
    ensures
        r@ == entry_label(e@),
{
    let mut v = if e.selected {
        chars_of("[x]")
    } else {
        chars_of("[ ]")
    };
    append_str(&mut v, " ");
    let name = display_file_name(e.path.as_str());
    append_str(&mut v, name.as_str());
    append_str(&mut v, "  [");
    let size = human_size(e.size);
    append_str(&mut v, size.as_str());
    append_str(&mut v, "]");
    assert(v@ =~= entry_label(e@));
    string_of(&v)
}

fn profile_text(name: &str, desc: &str) -> (r: String)
    ensures
        r@ == profile_label(name@, desc@),
{
    let d = chars_of(desc);
    if d.len() == 0 {
        owned(name)
    } else {
        let mut v = chars_of(name);
        append_str(&mut v, " — ");
        append_str(&mut v, desc);
        string_of(&v)
    }
}

/// The lines of a text, as `str::lines` gives them.
pub fn lines_of(s: &str) -> (r: Vec<String>)
    ensures
        strs(r@) == text_lines(s@),
{
    let cs = chars_of(s);
    let pieces = split_text(&cs, '\n');
    proof {
        assert(views(pieces@).len() >= 1) by {
            crate::paths::lemma_split_nonempty(s@, '\n');
        }
    }
    let n = pieces.len();
    let mut out: Vec<String> = Vec::new();
    let ghost ps = views(pieces@);
    let mut i: usize = 0;
    while i + 1 < n
        invariant
            n == pieces.len(),
            n >= 1,
            i + 1 <= n,
            ps == views(pieces@),
            strs(out@) == ps.drop_last().map_values(|l: Seq<char>| without_cr(l)).take(i as int),
        decreases n - i,
    {
        let p = &pieces[i];
        let mut line: Vec<char> = p.clone();
        if line.len() > 0 && line[line.len() - 1] == '\r' {
            line.pop();
        }
        assert(line@ == without_cr(ps[i as int]));
        let ghost o = out@;
        let ghost body = ps.drop_last().map_values(|l: Seq<char>| without_cr(l));
        assert(body[i as int] == without_cr(ps[i as int]));
        out.push(string_of(&line));
        assert(strs(out@) =~= strs(o).push(line@));
        assert(body.take(i + 1) =~= body.take(i as int).push(body[i as int]));
        assert(strs(out@) =~= body.take(i + 1));
        i = i + 1;
    }
    assert(ps.drop_last().map_values(|l: Seq<char>| without_cr(l)).take(i as int) =~= ps.drop_last().map_values(|l: Seq<char>| without_cr(l)));
    let last = &pieces[n - 1];
    if last.len() > 0 {
        let ghost o = out@;
        out.push(string_of(last));
        assert(strs(out@) =~= strs(o).push(ps.last()));
    }
    out
}

fn entry_texts(entries: &Vec<FileEntry>) -> (r: Vec<String>)
    ensures
        strs(r@) == entry_views(entries@).map_values(|e: FileEntryView| entry_label(e)),
{
    let mut out: Vec<String> = Vec::new();
    let ghost want = entry_views(entries@).map_values(|e: FileEntryView| entry_label(e));
    let mut i: usize = 0;
    while i < entries.len()
        invariant
            i <= entries.len(),
            want == entry_views(entries@).map_values(|e: FileEntryView| entry_label(e)),
            strs(out@) == want.take(i as int),
        decreases entries.len() - i,
    {
        let ghost o = out@;
        let t = entry_text(&entries[i]);
        out.push(t);
        assert(strs(out@) =~= strs(o).push(want[i as int]));
        assert(want.take(i + 1) =~= want.take(i as int).push(want[i as int]));
        i = i + 1;
    }
    assert(want.take(entries.len() as int) =~= want);
    out
}

fn profile_texts(names: &Vec<String>, descs: &Vec<String>) -> (r: Vec<String>)
    ensures
        strs(r@) == profile_labels(strs(names@), strs(descs@)),
{
    let n = if names.len() < descs.len() {
        names.len()
    } else {
        descs.len()
    };
    let ghost want = profile_labels(strs(names@), strs(descs@));
    let mut out: Vec<String> = Vec::new();
    let mut i: usize = 0;
    while i < n
        invariant
            i <= n,
            n <= names.len(),
            n <= descs.len(),
            want == profile_labels(strs(names@), strs(descs@)),
            want.len() == n,
            strs(out@) == want.take(i as int),
        decreases n - i,
    {
        let ghost o = out@;
        let t = profile_text(names[i].as_str(), descs[i].as_str());
        out.push(t);
        assert(strs(out@) =~= strs(o).push(want[i as int]));
        assert(want.take(i + 1) =~= want.take(i as int).push(want[i as int]));
        i = i + 1;
    }
    assert(want.take(n as int) =~= want);
    out
}

fn audio_labels() -> (r: Vec<String>)
    ensures
        strs(r@) == audio_option_list().map_values(|a: AudioOptionView| a.label),
{
    let opts = audio_options();
    let mut out: Vec<String> = Vec::new();
    let ghost want = audio_option_list().map_values(|a: AudioOptionView| a.label);
    let mut i: usize = 0;
    proof {
        assert(opts@.map_values(|a: AudioOption| a@).len() == 5);
    }
    while i < opts.len()
        invariant
            i <= opts.len(),
            opts@.map_values(|a: AudioOption| a@) == audio_option_list(),
            want == audio_option_list().map_values(|a: AudioOptionView| a.label),
            want.len() == opts.len(),
            strs(out@) == want.take(i as int),
        decreases opts.len() - i,
    {
        let ghost o = out@;
        assert(opts@[i as int]@ == audio_option_list()[i as int]);
        push_text(&mut out, opts[i].label);
        assert(want.take(i + 1) =~= want.take(i as int).push(want[i as int]));
        i = i + 1;
    }
    assert(want.take(opts.len() as int) =~= want);
    out
}

fn bold(text: &str) -> (r: (String, RowStyle))
    ensures
        r.0@ == text@,
        r.1 == RowStyle::Bold,
{
    (owned(text), RowStyle::Bold)
}

fn plain(text: String) -> (r: (String, RowStyle))
    ensures
        r.0@ == text@,
        r.1 == RowStyle::Plain,
{
    (text, RowStyle::Plain)
}

fn prefixed(prefix: &str, text: &str) -> (r: String)
    ensures
        r@ == prefix@ + text@,
{
    let mut v = chars_of(prefix);
    append_str(&mut v, text);
    string_of(&v)
}

/// The sample ffmpeg command of the confirmation screen.
pub fn sample_command_text(profile: &crate::profiles::Profile, audio: &AudioOption) -> (r: String)
    ensures
        r@ == sample_command(profile@, audio@),
{
    let merged = with_audio(profile, audio);
    let cmd = build_cmd(&merged, "<input_file>.bak", "<input_file>");
    join_strings(&cmd, " ")
}

fn file_bullets(files: &Vec<String>) -> (r: String)
    ensures
        r@ == joined(strs(files@).map_values(|f: Seq<char>| "  • "@ + shown_name(f)), "\n"@),
{
    let mut items: Vec<String> = Vec::new();
    let ghost want = strs(files@).map_values(|f: Seq<char>| "  • "@ + shown_name(f));
    let mut i: usize = 0;
    while i < files.len()
        invariant
            i <= files.len(),
            want == strs(files@).map_values(|f: Seq<char>| "  • "@ + shown_name(f)),
            strs(items@) == want.take(i as int),
        decreases files.len() - i,
    {
        let ghost o = items@;
        let name = display_file_name(files[i].as_str());
        let t = prefixed("  • ", name.as_str());
        items.push(t);
        assert(strs(items@) =~= strs(o).push(want[i as int]));
        assert(want.take(i + 1) =~= want.take(i as int).push(want[i as int]));
        i = i + 1;
    }
    assert(want.take(files.len() as int) =~= want);
    join_strings(&items, "\n")
}

/// The rows a screen shows in a panel of `max_rows` rows, each with how it is drawn.
pub fn conv_rows(screen: &ConvScreen, max_rows: usize) -> (r: Vec<(String, RowStyle)>)
    ensures
        styled_views(r@) == screen_rows(screen@, max_rows as nat),
{
    match screen {
        ConvScreen::SelectFiles { entries, idx } => {
            let labels = entry_texts(entries);
            let rows = window_lines(&labels, *idx, max_rows);
            styled_rows(&rows)
        },
        ConvScreen::SelectProfile { profile_names, profile_descs, idx, .. } => {
            let labels = profile_texts(profile_names, profile_descs);
            let rows = window_lines(&labels, *idx, max_rows);
            styled_rows(&rows)
        },
        ConvScreen::SelectAudio { idx, .. } => {
            let labels = audio_labels();
            let rows = window_lines(&labels, *idx, max_rows);
            styled_rows(&rows)
        },
        ConvScreen::Confirm { files, profile_name, profile, audio_option } => {
            let mut out: Vec<(String, RowStyle)> = Vec::new();
            out.push(bold("Files to convert:"));
            out.push(plain(file_bullets(files)));
            out.push(plain(String::new()));
            out.push((prefixed("Video: ", profile_name.as_str()), RowStyle::Bold));
            out.push((prefixed("Audio: ", audio_option.label), RowStyle::Bold));
            out.push(plain(String::new()));
            out.push(bold("Example ffmpeg command:"));
            out.push(plain(sample_command_text(profile, audio_option)));
            out.push(plain(String::new()));
            out.push((owned("[Enter] start  [Esc] back"), RowStyle::Hint));
            assert(styled_views(out@) =~= screen_rows(screen@, max_rows as nat));
            out
        },
        ConvScreen::ShowFileInfo { info, .. } => {
            let ls = lines_of(info.as_str());
            let mut out: Vec<(String, RowStyle)> = Vec::new();
            let ghost want = info_rows(info@);
            let colon = chars_of(":");
            let space = chars_of(" ");
            let mut i: usize = 0;
            while i < ls.len()
                invariant
                    i <= ls.len(),
                    strs(ls@) == text_lines(info@),
                    want == info_rows(info@),
                    colon@ == ":"@,
                    space@ == " "@,
                    styled_views(out@) == want.take(i as int),
                decreases ls.len() - i,
            {
                let ghost o = out@;
                let l = chars_of(ls[i].as_str());
                let heading = crate::text::text_ends_with(&l, &colon) || (
                !crate::text::text_starts_with(&l, &space) && l.len() > 0);
                let style = if heading {
                    RowStyle::Bold
                } else {
                    RowStyle::Plain
                };
                assert(strs(ls@)[i as int] == ls@[i as int]@);
                out.push((ls[i].clone(), style));
                assert(styled_views(out@) =~= styled_views(o).push(want[i as int]));
                assert(want.take(i + 1) =~= want.take(i as int).push(want[i as int]));
                i = i + 1;
            }
            assert(want.take(ls.len() as int) =~= want);
            out
        },
    }
}

/// The title of a screen.
pub fn conv_title(screen: &ConvScreen) -> (r: String)
    ensures
        r@ == screen_title(screen@),
{
    match screen {
        ConvScreen::SelectFiles { .. } => owned(
            "Select files to convert  [Space: toggle  i: info  Enter: confirm  Esc: cancel]",
        ),
        ConvScreen::SelectProfile { .. } => owned("Select profile  [Enter: confirm  Esc: back]"),
        ConvScreen::SelectAudio { video_profile_name, .. } => prefixed(
            "Select audio option  [Enter: confirm  Esc: back]  Video: ",
            video_profile_name.as_str(),
        ),
        ConvScreen::Confirm { profile_name, .. } => prefixed(
            "Confirm conversion  [Enter: start  Esc: back]  Profile: ",
            profile_name.as_str(),
        ),
        ConvScreen::ShowFileInfo { .. } => owned("File info  [Esc: back]"),
    }
}

} // verus!

verus! {

/// The tick box of a file row shows whether the file is ticked: its row starts
/// with "[x]" exactly when it is, and with "[ ]" exactly when it is not.
/// Ticking or unticking a file changes its row, and only in the box.
pub proof fn law_tick_box_shows_selection(e: FileEntryView)
    ensures
        entry_label(e).len() >= 3,
        (entry_label(e).take(3) == "[x]"@) <==> e.selected,
        (entry_label(e).take(3) == "[ ]"@) <==> !e.selected,
        ({
            let f = FileEntryView { path: e.path, selected: !e.selected, size: e.size };
            &&& entry_label(f) != entry_label(e)
            &&& entry_label(f).skip(3) == entry_label(e).skip(3)
        }),
{
    reveal_strlit("[x]");
    reveal_strlit("[ ]");
    let f = FileEntryView { path: e.path, selected: !e.selected, size: e.size };
    let rest = " "@ + shown_name(e.path) + "  ["@ + human_size_text(e.size as nat) + "]"@;
    assert(entry_label(e) =~= (if e.selected { "[x]"@ } else { "[ ]"@ }) + rest);
    assert(entry_label(f) =~= (if f.selected { "[x]"@ } else { "[ ]"@ }) + rest);
    assert(entry_label(e).take(3) =~= (if e.selected { "[x]"@ } else { "[ ]"@ }));
    assert(entry_label(f).take(3) =~= (if f.selected { "[x]"@ } else { "[ ]"@ }));
    assert(entry_label(e).skip(3) =~= rest);
    assert(entry_label(f).skip(3) =~= rest);
    assert("[x]"@[1] != "[ ]"@[1]);
    assert(entry_label(f)[1] != entry_label(e)[1]);
}

/// On the file list, every row shown gives after its two-char marker the tick
/// box of its file: "[x]" exactly when that file is ticked.
pub proof fn law_file_list_shows_ticks(entries: Seq<FileEntryView>, idx: usize, max_rows: nat, j: int)
    requires
        0 <= j < screen_rows(ConvScreenView::SelectFiles { entries, idx }, max_rows).len(),
    ensures
        ({
            let row = screen_rows(ConvScreenView::SelectFiles { entries, idx }, max_rows)[j].0;
            let i = crate::tui::window_start(idx as nat, max_rows) + j;
            &&& 0 <= i < entries.len()
            &&& (row.subrange(2, 5) == "[x]"@) <==> entries[i].selected
            &&& (row.subrange(2, 5) == "[ ]"@) <==> !entries[i].selected
        }),
{
    reveal_strlit("▸ ");
    reveal_strlit("  ");
    let items = entries.map_values(|e: FileEntryView| entry_label(e));
    let start = crate::tui::window_start(idx as nat, max_rows);
    let i = start + j;
    let rows = select_rows(items, idx as nat, max_rows, false);
    assert(screen_rows(ConvScreenView::SelectFiles { entries, idx }, max_rows)[j].0 == rows[j].0);
    assert(start < items.len());
    assert(rows[j].0 == (if i == idx { "▸ "@ } else { "  "@ }) + items[i]);
    assert(items[i] == entry_label(entries[i]));
    law_tick_box_shows_selection(entries[i]);
    assert(rows[j].0.subrange(2, 5) =~= entry_label(entries[i]).take(3));
}

} // verus!
