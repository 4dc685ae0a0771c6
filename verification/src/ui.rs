//! Decisions behind the menu-bar interface: the tray icon and tooltip for
//! each status, what a hotkey or tray click does to the recording, the menu
//! commands, the windows, the model file picker, and the update check's
//! answer.
use vstd::prelude::*;

use crate::text;
use crate::text::CharClass;
use crate::version;

verus! {

/// The pipeline's status as the tray shows it.
#[derive(Clone, Copy, Debug, PartialEq, Eq, Structural)]
pub enum StatusKind {
    Idle,
    Recording,
    Transcribing,
    Refining,
    Injecting,
    Error,
}

pub open spec fn tooltip_of(kind: StatusKind) -> Seq<char> {
    match kind {
        StatusKind::Idle => "OpenWhisper — click to dictate"@,
        StatusKind::Recording => "Recording… click to stop"@,
        StatusKind::Transcribing => "Transcribing"@,
        StatusKind::Refining => "Refining"@,
        StatusKind::Injecting => "Pasting"@,
        StatusKind::Error => "Error — see logs"@,
    }
}

/// The tray tooltip for a status.
pub fn tooltip(kind: StatusKind) -> (res: &'static str)
    ensures
        res@ == tooltip_of(kind),
{
    match kind {
        StatusKind::Idle => "OpenWhisper — click to dictate",
        StatusKind::Recording => "Recording… click to stop",
        StatusKind::Transcribing => "Transcribing",
        StatusKind::Refining => "Refining",
        StatusKind::Injecting => "Pasting",
        StatusKind::Error => "Error — see logs",
    }
}

/// Which tray icon to show.
#[derive(Clone, Copy, Debug, PartialEq, Eq, Structural)]
pub enum TrayIcon {
    /// The idle microphone glyph.
    Template,
    /// Frame `n` of the recording animation (taken modulo the frame count).
    RecordingFrame(usize),
}

/// What the tray remembers between updates.
#[derive(Clone, Copy, Debug)]
pub struct TrayState {
    /// Next animation frame while recording; zero otherwise.
    pub frame: usize,
    /// The tooltip last set.
    pub last_tooltip: &'static str,
}

/// One tray update: the tooltip to set, if it changes, and the icon.
#[derive(Clone, Copy, Debug)]
pub struct TrayUpdate {
    pub tooltip: Option<&'static str>,
    pub icon: TrayIcon,
}

impl TrayState {
    /// The tray before any update: frame zero, no tooltip set.
    pub fn new() -> (res: TrayState)
        ensures
            res.frame == 0,
            res.last_tooltip@.len() == 0,
    {
        proof {
            reveal_strlit("");
        }
        TrayState { frame: 0, last_tooltip: "" }
    }
}

/// Updates the tray for `kind`. While recording, each update shows the next
/// animation frame and sets the tooltip only on the first frame; any other
/// status shows the idle icon, restarts the animation, and sets its tooltip
/// only when it differs from the last one set.
pub fn tray_update(state: &mut TrayState, kind: StatusKind) -> (res: TrayUpdate)
    ensures
        kind == StatusKind::Recording ==> {
            &&& res.icon == TrayIcon::RecordingFrame(old(state).frame)
            &&& final(state).frame == (if old(state).frame == usize::MAX {
                0
            } else {
                old(state).frame + 1
            })
            &&& if old(state).frame == 0 {
                &&& res.tooltip matches Some(t) && t@ == tooltip_of(kind)
                &&& final(state).last_tooltip@ == tooltip_of(kind)
            } else {
                res.tooltip is None && final(state).last_tooltip == old(state).last_tooltip
            }
        },
        kind != StatusKind::Recording ==> {
            &&& res.icon == TrayIcon::Template
            &&& final(state).frame == 0
            &&& final(state).last_tooltip@ == tooltip_of(kind)
            &&& if old(state).last_tooltip@ == tooltip_of(kind) {
                res.tooltip is None
            } else {
                res.tooltip matches Some(t) && t@ == tooltip_of(kind)
            }
        },
{
    if kind == StatusKind::Recording {
        let frame = state.frame;
        state.frame = if frame == usize::MAX {
            0
        } else {
            frame + 1
        };
        let mut tip: Option<&'static str> = None;
        if frame == 0 {
            let t = tooltip(kind);
            state.last_tooltip = t;
            tip = Some(t);
        }
        return TrayUpdate { tooltip: tip, icon: TrayIcon::RecordingFrame(frame) };
    }
    state.frame = 0;
    let t = tooltip(kind);
    let same = {
        let a = text::chars_of(state.last_tooltip);
        text::chars_eq_str(&a, t)
    };
    if same {
        TrayUpdate { tooltip: None, icon: TrayIcon::Template }
    } else {
        state.last_tooltip = t;
        TrayUpdate { tooltip: Some(t), icon: TrayIcon::Template }
    }
}

/// Which of `n_frames` decoded animation frames shows frame `frame`; none
/// when no frame decoded.
pub fn recording_frame_index(frame: usize, n_frames: usize) -> (res: Option<usize>)
    ensures
        n_frames == 0 ==> res is None,
        n_frames > 0 ==> res == Some((frame % n_frames) as usize),
{
    if n_frames == 0 {
        None
    } else {
        Some(frame % n_frames)
    }
}

/// What started a dictation request.
#[derive(Clone, Copy, Debug, PartialEq, Eq, Structural)]
pub enum Trigger {
    HotkeyPressed,
    HotkeyReleased,
    /// The tray's "Start / Stop Dictation".
    Toggle,
}

/// What to do with the recorder.
#[derive(Clone, Copy, Debug, PartialEq, Eq, Structural)]
pub enum RecorderAction {
    Ignore,
    /// Start recording and show the level meter.
    Start,
    /// Stop recording and hand the samples to the pipeline.
    Stop,
}

/// Hold-to-talk and toggle: pressing the hotkey starts a recording unless
/// one runs, releasing it stops a running one, the tray toggle flips.
pub fn recorder_action(trigger: Trigger, recording: bool) -> (res: RecorderAction)
    ensures
        res == (match trigger {
            Trigger::HotkeyPressed => if recording {
                RecorderAction::Ignore
            } else {
                RecorderAction::Start
            },
            Trigger::HotkeyReleased => if recording {
                RecorderAction::Stop
            } else {
                RecorderAction::Ignore
            },
            Trigger::Toggle => if recording {
                RecorderAction::Stop
            } else {
                RecorderAction::Start
            },
        }),
        res == RecorderAction::Start ==> !recording,
        res == RecorderAction::Stop ==> recording,
{
    match trigger {
        Trigger::HotkeyPressed => if recording {
            RecorderAction::Ignore
        } else {
            RecorderAction::Start
        },
        Trigger::HotkeyReleased => if recording {
            RecorderAction::Stop
        } else {
            RecorderAction::Ignore
        },
        Trigger::Toggle => if recording {
            RecorderAction::Stop
        } else {
            RecorderAction::Start
        },
    }
}

/// Error shown when the pipeline's queue is full and a recording is dropped.
pub const PIPELINE_BUSY: &'static str = "Pipeline busy; recording dropped.";

/// A tray menu command.
#[derive(Clone, Copy, Debug, PartialEq, Eq, Structural)]
pub enum MenuCommand {
    Dictate,
    OpenSettings,
    About,
    Help,
    Quit,
}

/// The command behind a tray menu item id.
pub fn menu_command(id: &str) -> (res: Option<MenuCommand>)
    ensures
        res == (if id@ == "dictate"@ {
            Some(MenuCommand::Dictate)
        } else if id@ == "open"@ {
            Some(MenuCommand::OpenSettings)
        } else if id@ == "about"@ {
            Some(MenuCommand::About)
        } else if id@ == "help"@ {
            Some(MenuCommand::Help)
        } else if id@ == "quit"@ {
            Some(MenuCommand::Quit)
        } else {
            None
        }),
{
    let v = text::chars_of(id);
    if text::chars_eq_str(&v, "dictate") {
        Some(MenuCommand::Dictate)
    } else if text::chars_eq_str(&v, "open") {
        Some(MenuCommand::OpenSettings)
    } else if text::chars_eq_str(&v, "about") {
        Some(MenuCommand::About)
    } else if text::chars_eq_str(&v, "help") {
        Some(MenuCommand::Help)
    } else if text::chars_eq_str(&v, "quit") {
        Some(MenuCommand::Quit)
    } else {
        None
    }
}

/// Whether closing the window `label` only hides it (the settings, about
/// and help windows live for the whole session).
pub fn hides_on_close(label: &str) -> (res: bool)
    ensures
        res == (label@ == "settings"@ || label@ == "about"@ || label@ == "help"@),
{
    let v = text::chars_of(label);
    text::chars_eq_str(&v, "settings") || text::chars_eq_str(&v, "about") || text::chars_eq_str(
        &v,
        "help",
    )
}

/// Title and logical size of a window created on demand.
#[derive(Clone, Copy, Debug)]
pub struct WindowSpec {
    pub title: &'static str,
    pub width: u32,
    pub height: u32,
}

pub open spec fn window_spec_of(label: Seq<char>) -> (Seq<char>, u32, u32) {
    if label == "about"@ {
        ("About OpenWhisper"@, 480, 420)
    } else if label == "help"@ {
        ("OpenWhisper Help"@, 640, 640)
    } else if label == "settings"@ {
        ("OpenWhisper Settings"@, 560, 720)
    } else {
        ("OpenWhisper"@, 560, 480)
    }
}

/// The title and size of the window `label`.
pub fn window_spec(label: &str) -> (res: WindowSpec)
    ensures
        (res.title@, res.width, res.height) == window_spec_of(label@),
{
    let v = text::chars_of(label);
    if text::chars_eq_str(&v, "about") {
        WindowSpec { title: "About OpenWhisper", width: 480, height: 420 }
    } else if text::chars_eq_str(&v, "help") {
        WindowSpec { title: "OpenWhisper Help", width: 640, height: 640 }
    } else if text::chars_eq_str(&v, "settings") {
        WindowSpec { title: "OpenWhisper Settings", width: 560, height: 720 }
    } else {
        WindowSpec { title: "OpenWhisper", width: 560, height: 480 }
    }
}

/// The file picker's filter for a model kind.
#[derive(Clone, Debug)]
pub struct FileFilter {
    pub name: &'static str,
    pub extensions: Vec<&'static str>,
}

/// The filter for picking a model file of kind `kind` (`"whisper"` or
/// `"llm"`; anything else gets an unfiltered picker).
pub fn file_filter(kind: &str) -> (res: FileFilter)
    ensures
        kind@ == "whisper"@ ==> res.name@ == "Whisper GGML model"@ && res.extensions@.len() == 2
            && res.extensions@[0]@ == "bin"@ && res.extensions@[1]@ == "ggml"@,
        kind@ != "whisper"@ && kind@ == "llm"@ ==> res.name@ == "GGUF model"@
            && res.extensions@.len() == 1 && res.extensions@[0]@ == "gguf"@,
        kind@ != "whisper"@ && kind@ != "llm"@ ==> res.name@ == "Model"@ && res.extensions@.len()
            == 0,
{
    let v = text::chars_of(kind);
    if text::chars_eq_str(&v, "whisper") {
        let mut e: Vec<&'static str> = Vec::new();
        e.push("bin");
        e.push("ggml");
        FileFilter { name: "Whisper GGML model", extensions: e }
    } else if text::chars_eq_str(&v, "llm") {
        let mut e: Vec<&'static str> = Vec::new();
        e.push("gguf");
        FileFilter { name: "GGUF model", extensions: e }
    } else {
        FileFilter { name: "Model", extensions: Vec::new() }
    }
}

/// The application's version and what the update check found.
#[derive(Clone, Debug)]
pub struct VersionInfo {
    pub current: String,
    pub latest: Option<String>,
    pub update_available: bool,
    pub release_url: Option<String>,
}

/// The version info before (or without) an update check.
pub fn version_info_unchecked(current: &str) -> (res: VersionInfo)
    ensures
        res.current@ == current@,
        res.latest is None,
        !res.update_available,
        res.release_url is None,
{
    VersionInfo { current: text::owned(current), latest: None, update_available: false, release_url: None }
}

/// The release tag without its leading `v`s.
pub open spec fn release_version(tag: Seq<char>) -> Seq<char> {
    text::trim_start_by(tag, CharClass::Only('v'))
}

/// The version info from the latest published release: drafts and
/// pre-releases are ignored; otherwise the tag without its `v` prefix is the
/// latest version, and an update is available when it is newer than
/// `current`.
pub fn version_info_from_release(
    current: &str,
    tag_name: &str,
    html_url: &str,
    draft: bool,
    prerelease: bool,
) -> (res: VersionInfo)
    ensures
        res.current@ == current@,
        draft || prerelease ==> res.latest is None && !res.update_available && res.release_url
            is None,
        !(draft || prerelease) ==> {
            &&& res.latest matches Some(l) && l@ == release_version(tag_name@)
            &&& res.update_available == version::version_newer(
                release_version(tag_name@),
                current@,
            )
            &&& res.release_url matches Some(u) && u@ == html_url@
        },
{
    if draft || prerelease {
        return version_info_unchecked(current);
    }
    let t = text::chars_of(tag_name);
    let l = text::trim_start_class(&t, CharClass::Only('v'));
    let latest = text::string_from_chars(&l);
    let update_available = version::is_newer(latest.as_str(), current);
    VersionInfo {
        current: text::owned(current),
        latest: Some(latest),
        update_available,
        release_url: Some(text::owned(html_url)),
    }
}

/// An available update is strictly newer than the running version, so the
/// running version never offers itself as an update.
pub proof fn law_update_is_strictly_newer(current: Seq<char>, tag: Seq<char>)
    requires
        version::version_newer(release_version(tag), current),
    ensures
        !version::version_newer(current, release_version(tag)),
        release_version(tag) != current,
{
    version::law_is_newer_asymmetric(release_version(tag), current);
    if release_version(tag) == current {
        version::law_is_newer_irreflexive(current);
    }
}

} // verus!
