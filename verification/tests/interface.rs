use openwhisper::audio::{frames_to_keep, recording_limits};
use openwhisper::engines::{
    engine_threads, llm_load_plan, load_outcome, record_engines, record_hotkey, whisper_language,
    whisper_load_plan, worth_transcribing, EngineStatus, LoadPlan, LLM_MISSING, WHISPER_MISSING,
};
use openwhisper::config::Config;
use openwhisper::fn_hotkey::{
    classify_tap_event, event_mask, fn_tap_step, on_event, start, stop, tap_ready, FnListener,
    TapEvent, LISTEN_FAILED,
};
use openwhisper::injector::{paste_sync, role_accepts_text, should_paste, snapshot_clipboard};
use openwhisper::ui::{
    file_filter, hides_on_close, menu_command, recorder_action, recording_frame_index, tooltip,
    tray_update, version_info_from_release, version_info_unchecked, window_spec, MenuCommand,
    RecorderAction, StatusKind, TrayIcon, TrayState, Trigger,
};

#[test]
fn engines_load_what_is_configured() {
    let mut c = Config::default();
    assert_eq!(whisper_load_plan(&c), LoadPlan::Missing);
    assert_eq!(llm_load_plan(&c), LoadPlan::Missing);
    c.whisper_model_path = "/w.bin".to_string();
    c.llm_model_path = "/l.gguf".to_string();
    assert_eq!(whisper_load_plan(&c), LoadPlan::Load);
    assert_eq!(llm_load_plan(&c), LoadPlan::Load);
    c.use_llm_refinement = false;
    assert_eq!(llm_load_plan(&c), LoadPlan::Skip);

    assert_eq!(load_outcome(LoadPlan::Skip, LLM_MISSING, None), (false, None));
    assert_eq!(
        load_outcome(LoadPlan::Missing, WHISPER_MISSING, None),
        (false, Some("No Whisper model configured. Open Settings → Models.".to_string()))
    );
    assert_eq!(load_outcome(LoadPlan::Load, LLM_MISSING, Some(Ok(()))), (true, None));
    assert_eq!(
        load_outcome(LoadPlan::Load, LLM_MISSING, Some(Err("bad file".to_string()))),
        (false, Some("bad file".to_string()))
    );
}

#[test]
fn engine_status_records_models_and_hotkey_separately() {
    let mut s = EngineStatus::new();
    record_hotkey(&mut s, "Fn", Err("taken".to_string()));
    record_engines(&mut s, (true, None), (false, Some("x".to_string())));
    assert_eq!(s.hotkey, "Fn");
    assert!(!s.hotkey_registered);
    assert_eq!(s.hotkey_error, Some("taken".to_string()));
    assert!(s.whisper_loaded);
    assert_eq!(s.llm_error, Some("x".to_string()));
    record_hotkey(&mut s, "Ctrl+A", Ok(()));
    assert!(s.hotkey_registered);
    assert_eq!(s.hotkey_error, None);
    assert!(s.whisper_loaded);
}

#[test]
fn speech_to_text_options() {
    assert_eq!(whisper_language(""), None);
    assert_eq!(whisper_language("auto"), None);
    assert_eq!(whisper_language("en"), Some("en".to_string()));
    assert!(!worth_transcribing(1599));
    assert!(worth_transcribing(1600));
    assert_eq!(engine_threads(0), 1);
    assert_eq!(engine_threads(6), 6);
}

#[test]
fn tray_animates_while_recording_and_sets_tooltips_once() {
    let mut t = TrayState::new();
    let u = tray_update(&mut t, StatusKind::Recording);
    assert_eq!(u.icon, TrayIcon::RecordingFrame(0));
    assert_eq!(u.tooltip, Some("Recording… click to stop"));
    let u = tray_update(&mut t, StatusKind::Recording);
    assert_eq!(u.icon, TrayIcon::RecordingFrame(1));
    assert_eq!(u.tooltip, None);
    let u = tray_update(&mut t, StatusKind::Transcribing);
    assert_eq!(u.icon, TrayIcon::Template);
    assert_eq!(u.tooltip, Some("Transcribing"));
    assert_eq!(t.frame, 0);
    let u = tray_update(&mut t, StatusKind::Transcribing);
    assert_eq!(u.tooltip, None);
    assert_eq!(tooltip(StatusKind::Injecting), "Pasting");
    assert_eq!(recording_frame_index(9, 8), Some(1));
    assert_eq!(recording_frame_index(9, 0), None);
}

#[test]
fn hotkey_and_tray_drive_the_recorder() {
    assert_eq!(recorder_action(Trigger::HotkeyPressed, false), RecorderAction::Start);
    assert_eq!(recorder_action(Trigger::HotkeyPressed, true), RecorderAction::Ignore);
    assert_eq!(recorder_action(Trigger::HotkeyReleased, true), RecorderAction::Stop);
    assert_eq!(recorder_action(Trigger::HotkeyReleased, false), RecorderAction::Ignore);
    assert_eq!(recorder_action(Trigger::Toggle, true), RecorderAction::Stop);
    assert_eq!(recorder_action(Trigger::Toggle, false), RecorderAction::Start);
}

#[test]
fn menu_windows_and_pickers() {
    assert_eq!(menu_command("dictate"), Some(MenuCommand::Dictate));
    assert_eq!(menu_command("open"), Some(MenuCommand::OpenSettings));
    assert_eq!(menu_command("quit"), Some(MenuCommand::Quit));
    assert_eq!(menu_command("other"), None);
    assert!(hides_on_close("help"));
    assert!(!hides_on_close("main"));
    let w = window_spec("about");
    assert_eq!((w.title, w.width, w.height), ("About OpenWhisper", 480, 420));
    let w = window_spec("elsewhere");
    assert_eq!((w.title, w.width, w.height), ("OpenWhisper", 560, 480));
    let f = file_filter("whisper");
    assert_eq!(f.name, "Whisper GGML model");
    assert_eq!(f.extensions, vec!["bin", "ggml"]);
    let f = file_filter("llm");
    assert_eq!(f.extensions, vec!["gguf"]);
    let f = file_filter("x");
    assert_eq!(f.name, "Model");
    assert!(f.extensions.is_empty());
}

#[test]
fn update_check_reads_the_release() {
    let v = version_info_from_release("0.1.0", "v0.2.0", "https://r/0.2.0", false, false);
    assert_eq!(v.latest, Some("0.2.0".to_string()));
    assert!(v.update_available);
    assert_eq!(v.release_url, Some("https://r/0.2.0".to_string()));
    let v = version_info_from_release("0.2.0", "vv0.2.0", "u", false, false);
    assert_eq!(v.latest, Some("0.2.0".to_string()));
    assert!(!v.update_available);
    let v = version_info_from_release("0.1.0", "v9.0.0", "u", false, true);
    assert_eq!(v.latest, None);
    assert!(!v.update_available);
    let v = version_info_unchecked("0.1.0");
    assert_eq!(v.current, "0.1.0");
    assert!(v.release_url.is_none());
}

#[test]
fn paste_length_counts_utf16_units() {
    assert_eq!(paste_sync(""), 0);
    assert_eq!(paste_sync("hello"), 5);
    assert_eq!(paste_sync("héllo"), 5);
    assert_eq!(paste_sync("a😀"), 3);
    assert!(!should_paste(None));
    assert!(should_paste(Some(true)));
    assert!(!should_paste(Some(false)));
    assert!(!role_accepts_text(Some("AXButton")));
    assert!(role_accepts_text(Some("AXTextArea")));
    assert!(role_accepts_text(None));
    let _ = snapshot_clipboard();
}

#[test]
fn fn_key_edges() {
    assert_eq!(event_mask(), 0x1c00);
    assert_eq!(classify_tap_event(12), TapEvent::FlagsChanged);
    assert_eq!(classify_tap_event(0xFFFF_FFFE), TapEvent::Disabled);
    assert_eq!(classify_tap_event(3), TapEvent::Other);
    let s = fn_tap_step(false, TapEvent::FlagsChanged, 0x0080_0000, 0);
    assert!(s.fn_down);
    assert_eq!(s.edge, Some(true));
    let s = fn_tap_step(true, TapEvent::FlagsChanged, 0x0080_0000, 0);
    assert_eq!(s.edge, None);
    let s = fn_tap_step(true, TapEvent::KeyUp, 0, 0x3F);
    assert_eq!(s.edge, Some(false));
    let s = fn_tap_step(true, TapEvent::KeyUp, 0, 0x10);
    assert!(s.fn_down);
    assert_eq!(s.edge, None);
    let s = fn_tap_step(true, TapEvent::Disabled, 0, 0);
    assert!(s.reenable);
    assert!(s.fn_down);
}

#[test]
fn recording_buffer_is_bounded() {
    let l = recording_limits(48_000, 120);
    assert_eq!(l.max_frames, 5_760_000);
    assert_eq!(l.initial_capacity, 192_000);
    let l = recording_limits(16_000, 0);
    assert_eq!(l.max_frames, 16_000);
    assert_eq!(l.initial_capacity, 16_000);
    assert_eq!(frames_to_keep(960, 2, 1000, 0), 480);
    assert_eq!(frames_to_keep(960, 2, 1000, 900), 100);
    assert_eq!(frames_to_keep(960, 0, 1000, 1200), 0);
    assert_eq!(frames_to_keep(7, 0, 100, 0), 7);
}

#[test]
fn stop_without_start_is_ok() {
    let mut l = FnListener::new();
    stop(&mut l);
    stop(&mut l);
    assert_eq!(l, FnListener::new());
}

#[test]
fn fn_listener_delivers_edges_only_while_subscribed() {
    let mut l = FnListener::new();
    assert_eq!(on_event(&mut l, TapEvent::FlagsChanged, 0x0080_0000, 0), None);
    assert!(l.fn_down);
    start(&mut l);
    assert!(l.subscribed && !l.fn_down && !l.running);
    assert_eq!(tap_ready(&mut l, false), Err(LISTEN_FAILED));
    assert!(!l.running);
    assert_eq!(tap_ready(&mut l, true), Ok(()));
    assert!(l.running);
    assert_eq!(on_event(&mut l, TapEvent::KeyDown, 0, 0x3F), Some(true));
    assert_eq!(on_event(&mut l, TapEvent::Disabled, 0, 0), None);
    assert_eq!(on_event(&mut l, TapEvent::FlagsChanged, 0, 0), Some(false));
    assert_eq!(on_event(&mut l, TapEvent::KeyUp, 0, 0x3F), None);
    stop(&mut l);
    assert_eq!(on_event(&mut l, TapEvent::KeyDown, 0, 0x3F), None);
    assert!(!l.subscribed);
}

#[test]
fn fn_edges_alternate_from_start() {
    let mut l = FnListener::new();
    start(&mut l);
    let events = [
        (TapEvent::FlagsChanged, 0x0080_0000u64, 0i64),
        (TapEvent::FlagsChanged, 0x0080_0000, 0),
        (TapEvent::KeyDown, 0, 0x10),
        (TapEvent::KeyUp, 0, 0x3F),
        (TapEvent::KeyDown, 0, 0x3F),
        (TapEvent::FlagsChanged, 0, 0),
    ];
    let mut delivered = Vec::new();
    for (e, f, k) in events {
        if let Some(d) = on_event(&mut l, e, f, k) {
            delivered.push(d);
        }
    }
    assert_eq!(delivered, vec![true, false, true, false]);
    assert!(!l.fn_down);
}
