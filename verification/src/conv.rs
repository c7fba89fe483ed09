//! The choices made before a batch conversion: which files, which video profile,
//! which audio option, then a confirmation. Each key press moves the screen on.
use vstd::prelude::*;
use crate::profiles::{Profile, ProfileView};
use crate::strings::strs;

verus! {

/// An audio setting offered for the conversion.
#[derive(Clone, Copy, Debug)]
pub struct AudioOption {
    pub label: &'static str,
    pub codec: &'static str,
    pub bitrate: Option<&'static str>,
}

/// The text of an audio option.
pub struct AudioOptionView {
    pub label: Seq<char>,
    pub codec: Seq<char>,
    pub bitrate: Option<Seq<char>>,
}

impl View for AudioOption {
    type V = AudioOptionView;

    open spec fn view(&self) -> AudioOptionView {
        AudioOptionView {
            label: self.label@,
            codec: self.codec@,
            bitrate: match self.bitrate {
                Some(b) => Some(b@),
                None => None,
            },
        }
    }
}

/// The audio options, in the order they are offered.
pub open spec fn audio_option_list() -> Seq<AudioOptionView> {
    seq![
        AudioOptionView { label: "AAC 128k"@, codec: "aac"@, bitrate: Some("128k"@) },
        AudioOptionView { label: "AAC 256k"@, codec: "aac"@, bitrate: Some("256k"@) },
        AudioOptionView { label: "AAC 320k"@, codec: "aac"@, bitrate: Some("320k"@) },
        AudioOptionView { label: "AC3 640k"@, codec: "ac3"@, bitrate: Some("640k"@) },
        AudioOptionView { label: "Copy (passthrough)"@, codec: "copy"@, bitrate: None },
    ]
}

/// The audio options offered for the conversion.
pub fn audio_options() -> (r: Vec<AudioOption>)
    ensures
        r@.map_values(|a: AudioOption| a@) == audio_option_list(),
{
    let r = vec![
        AudioOption { label: "AAC 128k", codec: "aac", bitrate: Some("128k") },
        AudioOption { label: "AAC 256k", codec: "aac", bitrate: Some("256k") },
        AudioOption { label: "AAC 320k", codec: "aac", bitrate: Some("320k") },
        AudioOption { label: "AC3 640k", codec: "ac3", bitrate: Some("640k") },
        AudioOption { label: "Copy (passthrough)", codec: "copy", bitrate: None },
    ];
    assert(r@.map_values(|a: AudioOption| a@) =~= audio_option_list());
    r
}

/// A file offered for conversion, with whether it is ticked and its size.
#[derive(Clone, Debug)]
pub struct FileEntry {
    pub path: String,
    pub selected: bool,
    pub size: u64,
}

/// The text of a file entry.
pub struct FileEntryView {
    pub path: Seq<char>,
    pub selected: bool,
    pub size: u64,
}

impl View for FileEntry {
    type V = FileEntryView;

    open spec fn view(&self) -> FileEntryView {
        FileEntryView { path: self.path@, selected: self.selected, size: self.size }
    }
}

/// The views of file entries.
pub open spec fn entry_views(v: Seq<FileEntry>) -> Seq<FileEntryView> {
    v.map_values(|e: FileEntry| e@)
}

/// What was chosen for the conversion.
pub struct ConvSelection {
    pub files: Vec<String>,
    pub profile_name: String,
    pub profile: Profile,
    pub audio_option: AudioOption,
}

/// The text of a selection.
pub struct ConvSelectionView {
    pub files: Seq<Seq<char>>,
    pub profile_name: Seq<char>,
    pub profile: ProfileView,
    pub audio_option: AudioOptionView,
}

impl View for ConvSelection {
    type V = ConvSelectionView;

    open spec fn view(&self) -> ConvSelectionView {
        ConvSelectionView {
            files: strs(self.files@),
            profile_name: self.profile_name@,
            profile: self.profile@,
            audio_option: self.audio_option@,
        }
    }
}

/// The screens of the conversion chooser.
pub enum ConvScreen {
    SelectFiles { entries: Vec<FileEntry>, idx: usize },
    SelectProfile {
        files: Vec<String>,
        profile_names: Vec<String>,
        profile_descs: Vec<String>,
        idx: usize,
    },
    SelectAudio {
        files: Vec<String>,
        video_profile_name: String,
        video_profile: Profile,
        idx: usize,
    },
    Confirm {
        files: Vec<String>,
        profile_name: String,
        profile: Profile,
        audio_option: AudioOption,
    },
    ShowFileInfo { entries: Vec<FileEntry>, idx: usize, info: String },
}

/// The text of a screen.
pub enum ConvScreenView {
    SelectFiles { entries: Seq<FileEntryView>, idx: usize },
    SelectProfile {
        files: Seq<Seq<char>>,
        profile_names: Seq<Seq<char>>,
        profile_descs: Seq<Seq<char>>,
        idx: usize,
    },
    SelectAudio {
        files: Seq<Seq<char>>,
        video_profile_name: Seq<char>,
        video_profile: ProfileView,
        idx: usize,
    },
    Confirm {
        files: Seq<Seq<char>>,
        profile_name: Seq<char>,
        profile: ProfileView,
        audio_option: AudioOptionView,
    },
    ShowFileInfo { entries: Seq<FileEntryView>, idx: usize, info: Seq<char> },
}

impl View for ConvScreen {
    type V = ConvScreenView;

    open spec fn view(&self) -> ConvScreenView {
        match self {
            ConvScreen::SelectFiles { entries, idx } => ConvScreenView::SelectFiles {
                entries: entry_views(entries@),
                idx: *idx,
            },
            ConvScreen::SelectProfile { files, profile_names, profile_descs, idx } =>
                ConvScreenView::SelectProfile {
                files: strs(files@),
                profile_names: strs(profile_names@),
                profile_descs: strs(profile_descs@),
                idx: *idx,
            },
            ConvScreen::SelectAudio { files, video_profile_name, video_profile, idx } =>
                ConvScreenView::SelectAudio {
                files: strs(files@),
                video_profile_name: video_profile_name@,
                video_profile: video_profile@,
                idx: *idx,
            },
            ConvScreen::Confirm { files, profile_name, profile, audio_option } =>
                ConvScreenView::Confirm {
                files: strs(files@),
                profile_name: profile_name@,
                profile: profile@,
                audio_option: audio_option@,
            },
            ConvScreen::ShowFileInfo { entries, idx, info } => ConvScreenView::ShowFileInfo {
                entries: entry_views(entries@),
                idx: *idx,
                info: info@,
            },
        }
    }
}

/// A key as the chooser sees it.
#[derive(Clone, Copy, Debug, PartialEq, Eq, Structural)]
pub enum ConvKey {
    Up,
    Down,
    Enter,
    Esc,
    Char(char),
    Other,
}

/// A key event: the key, whether it was a press (not a release or repeat), and
/// whether Control alone was held.
#[derive(Clone, Copy, Debug)]
pub struct KeyInput {
    pub code: ConvKey,
    pub press: bool,
    pub ctrl: bool,
}

/// What the chooser does after a key.
pub enum ConvStep {
    /// Show this screen next.
    Show(ConvScreen),
    /// Leave without a selection.
    Quit,
    /// Leave with this selection.
    Done(ConvSelection),
    /// Probe the file at `path`, then show what was found over these entries.
    Inspect { entries: Vec<FileEntry>, idx: usize, path: String },
    /// Read the sizes of these files again and offer them all, ticked.
    Rescan { files: Vec<String> },
}

/// The text of a step.
pub enum ConvStepView {
    Show(ConvScreenView),
    Quit,
    Done(ConvSelectionView),
    Inspect { entries: Seq<FileEntryView>, idx: usize, path: Seq<char> },
    Rescan { files: Seq<Seq<char>> },
}

impl View for ConvStep {
    type V = ConvStepView;

    open spec fn view(&self) -> ConvStepView {
        match self {
            ConvStep::Show(s) => ConvStepView::Show(s@),
            ConvStep::Quit => ConvStepView::Quit,
            ConvStep::Done(sel) => ConvStepView::Done(sel@),
            ConvStep::Inspect { entries, idx, path } => ConvStepView::Inspect {
                entries: entry_views(entries@),
                idx: *idx,
                path: path@,
            },
            ConvStep::Rescan { files } => ConvStepView::Rescan { files: strs(files@) },
        }
    }
}

/// The profiles by name, as text.
pub open spec fn profile_views(p: Seq<(String, Profile)>) -> Seq<(Seq<char>, ProfileView)> {
    p.map_values(|e: (String, Profile)| (e.0@, e.1@))
}

/// The names of the profiles, in order.
pub open spec fn profile_names_of(p: Seq<(Seq<char>, ProfileView)>) -> Seq<Seq<char>> {
    p.map_values(|e: (Seq<char>, ProfileView)| e.0)
}

/// The descriptions of the profiles, in order; empty where there is none.
pub open spec fn profile_descs_of(p: Seq<(Seq<char>, ProfileView)>) -> Seq<Seq<char>> {
    p.map_values(
        |e: (Seq<char>, ProfileView)|
            match e.1.description {
                Some(d) => d,
                None => Seq::<char>::empty(),
            },
    )
}

/// The first profile with this name.
pub open spec fn profile_named(p: Seq<(Seq<char>, ProfileView)>, name: Seq<char>) -> ProfileView
    decreases p.len(),
{
    if p.len() == 0 {
        arbitrary()
    } else if p[0].0 == name {
        p[0].1
    } else {
        profile_named(p.subrange(1, p.len() as int), name)
    }
}

/// No two profiles share a name, as with the keys of a map.
pub open spec fn names_unique(p: Seq<(Seq<char>, ProfileView)>) -> bool {
    forall|i: int, j: int| 0 <= i < p.len() && 0 <= j < p.len() && i != j ==> #[trigger] p[i].0 != #[trigger] p[j].0
}

/// With unique names, looking a profile up by its name finds that very profile.
pub proof fn law_profile_lookup_by_name(p: Seq<(Seq<char>, ProfileView)>, i: int)
    requires
        names_unique(p),
        0 <= i < p.len(),
    ensures
        profile_named(p, p[i].0) == p[i].1,
    decreases i,
{
    if i > 0 {
        let rest = p.subrange(1, p.len() as int);
        assert(rest[i - 1] == p[i]);
        assert(p[0].0 != p[i].0);
        assert(names_unique(rest)) by {
            assert forall|a: int, b: int| 0 <= a < rest.len() && 0 <= b < rest.len() && a != b implies #[trigger] rest[a].0 != #[trigger] rest[b].0 by {
                assert(rest[a] == p[a + 1]);
                assert(rest[b] == p[b + 1]);
            }
        }
        law_profile_lookup_by_name(rest, i - 1);
    }
}

/// One step up a list: towards the top, stopping there.
pub open spec fn step_up(idx: usize) -> usize {
    if idx > 0 {
        (idx - 1) as usize
    } else {
        0
    }
}

/// One step down a list of `len` rows, stopping at the last.
pub open spec fn step_down(idx: usize, len: nat) -> usize {
    let last: int = if len > 0 {
        len - 1
    } else {
        0
    };
    if idx + 1 < last {
        (idx + 1) as usize
    } else {
        last as usize
    }
}

/// The paths of the ticked entries, in order.
pub open spec fn ticked(entries: Seq<FileEntryView>) -> Seq<Seq<char>>
    decreases entries.len(),
{
    if entries.len() == 0 {
        Seq::<Seq<char>>::empty()
    } else {
        let r = ticked(entries.drop_last());
        if entries.last().selected {
            r.push(entries.last().path)
        } else {
            r
        }
    }
}

/// The entries with the one at `idx` ticked or unticked.
pub open spec fn toggled(entries: Seq<FileEntryView>, idx: int) -> Seq<FileEntryView> {
    entries.update(
        idx,
        FileEntryView {
            path: entries[idx].path,
            selected: !entries[idx].selected,
            size: entries[idx].size,
        },
    )
}

/// A key that moves up: the arrow or `k`.
pub open spec fn is_up(k: ConvKey) -> bool {
    k == ConvKey::Up || k == ConvKey::Char('k')
}

/// A key that moves down: the arrow or `j`.
pub open spec fn is_down(k: ConvKey) -> bool {
    k == ConvKey::Down || k == ConvKey::Char('j')
}

/// What the chooser does on a key.
pub open spec fn conv_next(
    s: ConvScreenView,
    k: KeyInput,
    profiles: Seq<(Seq<char>, ProfileView)>,
) -> ConvStepView {
    if !k.press {
        ConvStepView::Show(s)
    } else if k.code == ConvKey::Char('c') && k.ctrl {
        ConvStepView::Quit
    } else {
        match s {
            ConvScreenView::SelectFiles { entries, idx } => if is_up(k.code) {
                ConvStepView::Show(ConvScreenView::SelectFiles { entries, idx: step_up(idx) })
            } else if is_down(k.code) {
                ConvStepView::Show(
                    ConvScreenView::SelectFiles { entries, idx: step_down(idx, entries.len()) },
                )
            } else if k.code == ConvKey::Char(' ') && idx < entries.len() {
                ConvStepView::Show(
                    ConvScreenView::SelectFiles { entries: toggled(entries, idx as int), idx },
                )
            } else if k.code == ConvKey::Enter {
                if ticked(entries).len() == 0 {
                    ConvStepView::Show(s)
                } else {
                    ConvStepView::Show(
                        ConvScreenView::SelectProfile {
                            files: ticked(entries),
                            profile_names: profile_names_of(profiles),
                            profile_descs: profile_descs_of(profiles),
                            idx: 0,
                        },
                    )
                }
            } else if k.code == ConvKey::Char('i') && idx < entries.len() {
                ConvStepView::Inspect { entries, idx, path: entries[idx as int].path }
            } else if k.code == ConvKey::Esc {
                ConvStepView::Quit
            } else {
                ConvStepView::Show(s)
            },
            ConvScreenView::SelectProfile { files, profile_names, profile_descs, idx } => if is_up(
                k.code,
            ) {
                ConvStepView::Show(
                    ConvScreenView::SelectProfile {
                        files,
                        profile_names,
                        profile_descs,
                        idx: step_up(idx),
                    },
                )
            } else if is_down(k.code) {
                ConvStepView::Show(
                    ConvScreenView::SelectProfile {
                        files,
                        profile_names,
                        profile_descs,
                        idx: step_down(idx, profile_names.len()),
                    },
                )
            } else if k.code == ConvKey::Enter && idx < profile_names.len() {
                ConvStepView::Show(
                    ConvScreenView::SelectAudio {
                        files,
                        video_profile_name: profile_names[idx as int],
                        video_profile: profile_named(profiles, profile_names[idx as int]),
                        idx: 0,
                    },
                )
            } else if k.code == ConvKey::Esc {
                ConvStepView::Rescan { files }
            } else {
                ConvStepView::Show(s)
            },
            ConvScreenView::SelectAudio { files, video_profile_name, video_profile, idx } => if is_up(
                k.code,
            ) {
                ConvStepView::Show(
                    ConvScreenView::SelectAudio {
                        files,
                        video_profile_name,
                        video_profile,
                        idx: step_up(idx),
                    },
                )
            } else if is_down(k.code) {
                ConvStepView::Show(
                    ConvScreenView::SelectAudio {
                        files,
                        video_profile_name,
                        video_profile,
                        idx: step_down(idx, audio_option_list().len()),
                    },
                )
            } else if k.code == ConvKey::Enter && idx < audio_option_list().len() {
                ConvStepView::Show(
                    ConvScreenView::Confirm {
                        files,
                        profile_name: video_profile_name,
                        profile: video_profile,
                        audio_option: audio_option_list()[idx as int],
                    },
                )
            } else if k.code == ConvKey::Esc {
                ConvStepView::Show(
                    ConvScreenView::SelectProfile {
                        files,
                        profile_names: profile_names_of(profiles),
                        profile_descs: profile_descs_of(profiles),
                        idx: 0,
                    },
                )
            } else {
                ConvStepView::Show(s)
            },
            ConvScreenView::Confirm { files, profile_name, profile, audio_option } => if k.code
                == ConvKey::Enter {
                ConvStepView::Done(ConvSelectionView { files, profile_name, profile, audio_option })
            } else if k.code == ConvKey::Esc {
                ConvStepView::Show(
                    ConvScreenView::SelectAudio {
                        files,
                        video_profile_name: profile_name,
                        video_profile: profile,
                        idx: 0,
                    },
                )
            } else {
                ConvStepView::Show(s)
            },
            ConvScreenView::ShowFileInfo { entries, idx, info } => if k.code == ConvKey::Esc {
                ConvStepView::Show(ConvScreenView::SelectFiles { entries, idx })
            } else {
                ConvStepView::Show(s)
            },
        }
    }
}

/// A screen that the chooser can be on: positions within their lists (or at 0),
/// chosen files never empty, profile names among the profiles.
pub open spec fn screen_ok(s: ConvScreenView, profiles: Seq<(Seq<char>, ProfileView)>) -> bool {
    match s {
        ConvScreenView::SelectFiles { entries, idx } => idx <= entries.len() && entries.len()
            < usize::MAX,
        ConvScreenView::SelectProfile { files, profile_names, profile_descs, idx } => {
            &&& files.len() > 0
            &&& idx <= profile_names.len()
            &&& profile_names.len() < usize::MAX
            &&& forall|i: int|
                0 <= i < profile_names.len() ==> profile_names_of(profiles).contains(
                    #[trigger] profile_names[i],
                )
        },
        ConvScreenView::SelectAudio { files, idx, .. } => files.len() > 0 && idx
            <= audio_option_list().len(),
        ConvScreenView::Confirm { files, .. } => files.len() > 0,
        ConvScreenView::ShowFileInfo { entries, idx, .. } => idx <= entries.len() && entries.len()
            < usize::MAX,
    }
}

/// The names and descriptions of the profiles, in order (a missing description
/// is empty).
pub fn profile_listing(profiles: &Vec<(String, Profile)>) -> (r: (Vec<String>, Vec<String>))
    ensures
        strs(r.0@) == profile_names_of(profile_views(profiles@)),
        strs(r.1@) == profile_descs_of(profile_views(profiles@)),
{
    let mut names: Vec<String> = Vec::new();
    let mut descs: Vec<String> = Vec::new();
    let ghost pv = profile_views(profiles@);
    let mut i: usize = 0;
    while i < profiles.len()
        invariant
            i <= profiles.len(),
            pv == profile_views(profiles@),
            strs(names@) == profile_names_of(pv).take(i as int),
            strs(descs@) == profile_descs_of(pv).take(i as int),
        decreases profiles.len() - i,
    {
        let ghost n0 = names@;
        let ghost d0 = descs@;
        let name = profiles[i].0.clone();
        names.push(name);
        let desc = match &profiles[i].1.description {
            Some(d) => d.clone(),
            None => String::new(),
        };
        descs.push(desc);
        assert(strs(names@) =~= strs(n0).push(pv[i as int].0));
        assert(profile_names_of(pv).take(i + 1) =~= profile_names_of(pv).take(i as int).push(
            pv[i as int].0,
        ));
        assert(strs(descs@) =~= strs(d0).push(profile_descs_of(pv)[i as int]));
        assert(profile_descs_of(pv).take(i + 1) =~= profile_descs_of(pv).take(i as int).push(
            profile_descs_of(pv)[i as int],
        ));
        i = i + 1;
    }
    assert(profile_names_of(pv).take(profiles.len() as int) =~= profile_names_of(pv));
    assert(profile_descs_of(pv).take(profiles.len() as int) =~= profile_descs_of(pv));
    (names, descs)
}

/// A copy of the first profile with this name, which must be among them.
pub fn find_profile(profiles: &Vec<(String, Profile)>, name: &str) -> (r: Profile)
    requires
        profile_names_of(profile_views(profiles@)).contains(name@),
    ensures
        r@ == profile_named(profile_views(profiles@), name@),
{
    let ghost pv = profile_views(profiles@);
    let mut i: usize = 0;
    assert(pv.subrange(0, pv.len() as int) =~= pv);
    while i < profiles.len()
        invariant
            i <= profiles.len(),
            pv == profile_views(profiles@),
            profile_named(pv, name@) == profile_named(pv.subrange(i as int, pv.len() as int), name@),
            forall|k: int| 0 <= k < i ==> pv[k].0 != name@,
            profile_names_of(pv).contains(name@),
        decreases profiles.len() - i,
    {
        let ghost rest = pv.subrange(i as int, pv.len() as int);
        if crate::text::same_text(profiles[i].0.as_str(), name) {
            assert(rest[0] == pv[i as int]);
            return profiles[i].1.duplicate();
        }
        assert(rest.subrange(1, rest.len() as int) =~= pv.subrange(i + 1, pv.len() as int));
        i = i + 1;
    }
    proof {
        let j = choose|j: int| 0 <= j < profile_names_of(pv).len() && profile_names_of(pv)[j] == name@;
        assert(pv[j].0 == name@);
    }
    profiles[0].1.duplicate()
}

/// The paths of the ticked entries, in order.
pub fn ticked_paths(entries: &Vec<FileEntry>) -> (r: Vec<String>)
    ensures
        strs(r@) == ticked(entry_views(entries@)),
{
    let mut out: Vec<String> = Vec::new();
    let ghost ev = entry_views(entries@);
    let mut i: usize = 0;
    while i < entries.len()
        invariant
            i <= entries.len(),
            ev == entry_views(entries@),
            strs(out@) == ticked(ev.take(i as int)),
        decreases entries.len() - i,
    {
        proof {
            assert(ev.take(i + 1).drop_last() =~= ev.take(i as int));
        }
        if entries[i].selected {
            let ghost o = out@;
            out.push(entries[i].path.clone());
            assert(strs(out@) =~= strs(o).push(ev[i as int].path));
        }
        i = i + 1;
    }
    assert(ev.take(entries.len() as int) =~= ev);
    out
}

/// The entries offered at the start, all ticked, with the sizes given.
pub fn fresh_entries(files: Vec<String>, sizes: Vec<u64>) -> (r: Vec<FileEntry>)
    requires
        files.len() == sizes.len(),
    ensures
        r.len() == files.len(),
        forall|i: int|
            0 <= i < r.len() ==> (#[trigger] r@[i])@ == (FileEntryView {
                path: files@[i]@,
                selected: true,
                size: sizes@[i],
            }),
{
    let mut out: Vec<FileEntry> = Vec::new();
    let mut i: usize = 0;
    while i < files.len()
        invariant
            i <= files.len(),
            files.len() == sizes.len(),
            out.len() == i,
            forall|k: int|
                0 <= k < i ==> (#[trigger] out@[k])@ == (FileEntryView {
                    path: files@[k]@,
                    selected: true,
                    size: sizes@[k],
                }),
        decreases files.len() - i,
    {
        out.push(FileEntry { path: files[i].clone(), selected: true, size: sizes[i] });
        i = i + 1;
    }
    out
}

/// The step taken on a key press.
pub fn conv_step(screen: ConvScreen, key: &KeyInput, profiles: &Vec<(String, Profile)>) -> (r:
    ConvStep)
    requires
        screen_ok(screen@, profile_views(profiles@)),
        names_unique(profile_views(profiles@)),
    ensures
        r@ == conv_next(screen@, *key, profile_views(profiles@)),
{
    if !key.press {
        return ConvStep::Show(screen);
    }
    if key.code == ConvKey::Char('c') && key.ctrl {
        return ConvStep::Quit;
    }
    let up = key.code == ConvKey::Up || key.code == ConvKey::Char('k');
    let down = key.code == ConvKey::Down || key.code == ConvKey::Char('j');
    match screen {
        ConvScreen::SelectFiles { mut entries, idx } => {
            if up {
                let i = if idx > 0 { idx - 1 } else { 0 };
                ConvStep::Show(ConvScreen::SelectFiles { entries, idx: i })
            } else if down {
                let last = if entries.len() > 0 { entries.len() - 1 } else { 0 };
                let i = if idx + 1 < last { idx + 1 } else { last };
                ConvStep::Show(ConvScreen::SelectFiles { entries, idx: i })
            } else if key.code == ConvKey::Char(' ') && idx < entries.len() {
                let ghost e0 = entry_views(entries@);
                let e = FileEntry {
                    path: entries[idx].path.clone(),
                    selected: !entries[idx].selected,
                    size: entries[idx].size,
                };
                entries.set(idx, e);
                assert(entry_views(entries@) =~= toggled(e0, idx as int));
                ConvStep::Show(ConvScreen::SelectFiles { entries, idx })
            } else if key.code == ConvKey::Enter {
                let selected = ticked_paths(&entries);
                if selected.len() == 0 {
                    ConvStep::Show(ConvScreen::SelectFiles { entries, idx })
                } else {
                    let (profile_names, profile_descs) = profile_listing(profiles);
                    ConvStep::Show(
                        ConvScreen::SelectProfile { files: selected, profile_names, profile_descs, idx: 0 },
                    )
                }
            } else if key.code == ConvKey::Char('i') && idx < entries.len() {
                let path = entries[idx].path.clone();
                ConvStep::Inspect { entries, idx, path }
            } else if key.code == ConvKey::Esc {
                ConvStep::Quit
            } else {
                ConvStep::Show(ConvScreen::SelectFiles { entries, idx })
            }
        },
        ConvScreen::SelectProfile { files, profile_names, profile_descs, idx } => {
            if up {
                let i = if idx > 0 { idx - 1 } else { 0 };
                ConvStep::Show(ConvScreen::SelectProfile { files, profile_names, profile_descs, idx: i })
            } else if down {
                let last = if profile_names.len() > 0 { profile_names.len() - 1 } else { 0 };
                let i = if idx + 1 < last { idx + 1 } else { last };
                ConvStep::Show(ConvScreen::SelectProfile { files, profile_names, profile_descs, idx: i })
            } else if key.code == ConvKey::Enter && idx < profile_names.len() {
                let name = profile_names[idx].clone();
                assert(strs(profile_names@)[idx as int] == name@);
                let profile = find_profile(profiles, name.as_str());
                ConvStep::Show(
                    ConvScreen::SelectAudio {
                        files,
                        video_profile_name: name,
                        video_profile: profile,
                        idx: 0,
                    },
                )
            } else if key.code == ConvKey::Esc {
                ConvStep::Rescan { files }
            } else {
                ConvStep::Show(ConvScreen::SelectProfile { files, profile_names, profile_descs, idx })
            }
        },
        ConvScreen::SelectAudio { files, video_profile_name, video_profile, idx } => {
            let options = audio_options();
            proof {
                assert(options@.map_values(|a: AudioOption| a@).len() == 5);
            }
            if up {
                let i = if idx > 0 { idx - 1 } else { 0 };
                ConvStep::Show(ConvScreen::SelectAudio { files, video_profile_name, video_profile, idx: i })
            } else if down {
                let last = options.len() - 1;
                let i = if idx + 1 < last { idx + 1 } else { last };
                ConvStep::Show(ConvScreen::SelectAudio { files, video_profile_name, video_profile, idx: i })
            } else if key.code == ConvKey::Enter && idx < options.len() {
                let audio = options[idx];
                assert(audio@ == audio_option_list()[idx as int]);
                ConvStep::Show(
                    ConvScreen::Confirm {
                        files,
                        profile_name: video_profile_name,
                        profile: video_profile,
                        audio_option: audio,
                    },
                )
            } else if key.code == ConvKey::Esc {
                let (profile_names, profile_descs) = profile_listing(profiles);
                ConvStep::Show(ConvScreen::SelectProfile { files, profile_names, profile_descs, idx: 0 })
            } else {
                ConvStep::Show(ConvScreen::SelectAudio { files, video_profile_name, video_profile, idx })
            }
        },
        ConvScreen::Confirm { files, profile_name, profile, audio_option } => {
            if key.code == ConvKey::Enter {
                ConvStep::Done(ConvSelection { files, profile_name, profile, audio_option })
            } else if key.code == ConvKey::Esc {
                ConvStep::Show(
                    ConvScreen::SelectAudio {
                        files,
                        video_profile_name: profile_name,
                        video_profile: profile,
                        idx: 0,
                    },
                )
            } else {
                ConvStep::Show(ConvScreen::Confirm { files, profile_name, profile, audio_option })
            }
        },
        ConvScreen::ShowFileInfo { entries, idx, info } => {
            if key.code == ConvKey::Esc {
                ConvStep::Show(ConvScreen::SelectFiles { entries, idx })
            } else {
                ConvStep::Show(ConvScreen::ShowFileInfo { entries, idx, info })
            }
        },
    }
}

proof fn lemma_ticked_within(entries: Seq<FileEntryView>)
    ensures
        ticked(entries).len() <= entries.len(),
    decreases entries.len(),
{
    if entries.len() > 0 {
        lemma_ticked_within(entries.drop_last());
    }
}

/// Every key leaves the chooser on a screen it can be on: positions stay within
/// their lists, and the files chosen are never empty. A finished selection always
/// holds at least one file, and a probe is always of an offered entry.
pub proof fn law_chooser_keeps_screens_sound(
    s: ConvScreenView,
    k: KeyInput,
    profiles: Seq<(Seq<char>, ProfileView)>,
)
    requires
        screen_ok(s, profiles),
        profiles.len() < usize::MAX,
    ensures
        match conv_next(s, k, profiles) {
            ConvStepView::Show(next) => screen_ok(next, profiles),
            ConvStepView::Done(sel) => sel.files.len() > 0,
            ConvStepView::Inspect { entries, idx, .. } => idx < entries.len() && entries.len()
                < usize::MAX,
            ConvStepView::Rescan { files } => files.len() > 0,
            ConvStepView::Quit => true,
        },
{
    match s {
        ConvScreenView::SelectFiles { entries, idx } => {
            lemma_ticked_within(entries);
        },
        _ => {},
    }
    assert forall|i: int|
        0 <= i < profile_names_of(profiles).len() implies profile_names_of(profiles).contains(
        #[trigger] profile_names_of(profiles)[i],
    ) by {}
}

/// Esc steps back one screen: from the file information back to the file list
/// with the same entries and position, from the confirmation back to the audio
/// choice with the same files and video profile, from the audio choice back to
/// the video profiles with the same files.
pub proof fn law_esc_steps_back(s: ConvScreenView, k: KeyInput, profiles: Seq<(Seq<char>, ProfileView)>)
    requires
        k.press,
        k.code == ConvKey::Esc,
    ensures
        (s matches ConvScreenView::ShowFileInfo { entries, idx, .. } ==> conv_next(s, k, profiles)
            == ConvStepView::Show(ConvScreenView::SelectFiles { entries, idx })),
        (s matches ConvScreenView::Confirm { files, profile_name, profile, .. } ==> conv_next(s, k, profiles)
            == ConvStepView::Show(
            ConvScreenView::SelectAudio { files, video_profile_name: profile_name, video_profile: profile, idx: 0 },
        )),
        (s matches ConvScreenView::SelectAudio { files, .. } ==> (conv_next(s, k, profiles) matches ConvStepView::Show(
            ConvScreenView::SelectProfile { files: f, idx: 0, .. },
        ) && f == files)),
        (s matches ConvScreenView::SelectProfile { files, .. } ==> conv_next(s, k, profiles)
            == ConvStepView::Rescan { files }),
{
}

/// The chooser is left without a selection only by Ctrl-C, or by Esc on the
/// file list; no other key on any screen quits.
pub proof fn law_only_ctrl_c_or_esc_on_files_quits(
    s: ConvScreenView,
    k: KeyInput,
    profiles: Seq<(Seq<char>, ProfileView)>,
)
    ensures
        conv_next(s, k, profiles) is Quit ==> k.press && ((k.code == ConvKey::Char('c') && k.ctrl) || (
        s is SelectFiles && k.code == ConvKey::Esc)),
{
}

/// The ticked files are the paths of the entries whose box is ticked, in list order.
pub proof fn law_ticked_are_the_selected_entries(entries: Seq<FileEntryView>)
    ensures
        ticked(entries) == entries.filter(|e: FileEntryView| e.selected).map_values(|e: FileEntryView| e.path),
    decreases entries.len(),
{
    reveal(Seq::filter);
    if entries.len() > 0 {
        law_ticked_are_the_selected_entries(entries.drop_last());
        let f = entries.drop_last().filter(|e: FileEntryView| e.selected);
        if entries.last().selected {
            assert(f.push(entries.last()).map_values(|e: FileEntryView| e.path) =~= f.map_values(
                |e: FileEntryView| e.path,
            ).push(entries.last().path));
        }
    } else {
        assert(entries.filter(|e: FileEntryView| e.selected).map_values(|e: FileEntryView| e.path)
            =~= Seq::<Seq<char>>::empty());
    }
}

/// Space on the file list flips the tick of the current file and of no other,
/// keeping the position; pressing it again gives back the same screen.
pub proof fn law_space_toggles_only_current(
    entries: Seq<FileEntryView>,
    idx: usize,
    k: KeyInput,
    profiles: Seq<(Seq<char>, ProfileView)>,
)
    requires
        k.press,
        k.code == ConvKey::Char(' '),
        idx < entries.len(),
    ensures
        ({
            let s = ConvScreenView::SelectFiles { entries, idx };
            &&& (conv_next(s, k, profiles) matches ConvStepView::Show(
                ConvScreenView::SelectFiles { entries: e2, idx: i2 },
            ) && {
                &&& i2 == idx
                &&& e2.len() == entries.len()
                &&& e2[idx as int].selected == !entries[idx as int].selected
                &&& e2[idx as int].path == entries[idx as int].path
                &&& e2[idx as int].size == entries[idx as int].size
                &&& forall|j: int| 0 <= j < entries.len() && j != idx ==> #[trigger] e2[j] == entries[j]
            })
            &&& (conv_next(s, k, profiles) matches ConvStepView::Show(s2) && conv_next(s2, k, profiles)
                == ConvStepView::Show(s))
        }),
{
    let e2 = toggled(entries, idx as int);
    assert(toggled(e2, idx as int) =~= entries);
}

/// Enter on the file list goes on to the video profiles with exactly the
/// ticked files, in list order, when at least one is ticked; with none ticked
/// it stays on the list.
pub proof fn law_enter_takes_the_ticked_files(
    entries: Seq<FileEntryView>,
    idx: usize,
    k: KeyInput,
    profiles: Seq<(Seq<char>, ProfileView)>,
)
    requires
        k.press,
        k.code == ConvKey::Enter,
    ensures
        ({
            let s = ConvScreenView::SelectFiles { entries, idx };
            let chosen = entries.filter(|e: FileEntryView| e.selected).map_values(|e: FileEntryView| e.path);
            &&& chosen.len() == 0 ==> conv_next(s, k, profiles) == ConvStepView::Show(s)
            &&& chosen.len() > 0 ==> (conv_next(s, k, profiles) matches ConvStepView::Show(
                ConvScreenView::SelectProfile { files, idx: 0, .. },
            ) && files == chosen)
        }),
{
    law_ticked_are_the_selected_entries(entries);
}

} // verus!
