use openwhisper::config::{
    default_hotkey, default_max_recording_seconds, fill_model_paths, resolve_inference_threads,
    Config, DEFAULT_REFINE_PROMPT,
};
use openwhisper::models::{
    existing_model_path, model_path, record_downloaded_model, should_emit_progress, status,
    status_with_config, ModelKind,
};

#[test]
fn defaults_match_the_documented_settings() {
    let c = Config::default();
    assert_eq!(c.hotkey, "Fn");
    assert_eq!(default_hotkey(), "Fn");
    assert_eq!(c.whisper_model_path, "");
    assert_eq!(c.llm_model_path, "");
    assert_eq!(c.refine_prompt, DEFAULT_REFINE_PROMPT);
    assert!(c.use_llm_refinement);
    assert_eq!(c.language, "auto");
    assert!(!c.fast_paste);
    assert!(!c.restore_clipboard);
    assert_eq!(c.max_recording_seconds, 120);
    assert_eq!(default_max_recording_seconds(), 120);
    assert_eq!(c.inference_threads, 0);
}

#[test]
fn inference_threads_are_clamped_or_derived() {
    assert_eq!(resolve_inference_threads(8, Some(2)), 8);
    assert_eq!(resolve_inference_threads(100, None), 32);
    assert_eq!(resolve_inference_threads(1, None), 1);
    assert_eq!(resolve_inference_threads(0, Some(16)), 8);
    assert_eq!(resolve_inference_threads(0, Some(3)), 2);
    assert_eq!(resolve_inference_threads(0, None), 2);
}

#[test]
fn found_models_fill_only_unset_paths() {
    let mut c = Config::default();
    fill_model_paths(
        &mut c,
        Some("/m/ggml-base.en.bin".to_string()),
        &vec![None, Some("/m/gemma-4-E2B-it-Q4_K_M.gguf".to_string())],
    );
    assert_eq!(c.whisper_model_path, "/m/ggml-base.en.bin");
    assert_eq!(c.llm_model_path, "/m/gemma-4-E2B-it-Q4_K_M.gguf");

    let mut c = Config::default();
    c.llm_model_path = "/mine.gguf".to_string();
    fill_model_paths(&mut c, None, &vec![Some("/m/a.gguf".to_string()), Some("/m/b.gguf".to_string())]);
    assert_eq!(c.whisper_model_path, "");
    assert_eq!(c.llm_model_path, "/mine.gguf");

    let mut c = Config::default();
    fill_model_paths(&mut c, None, &vec![Some("/m/a.gguf".to_string()), Some("/m/b.gguf".to_string())]);
    assert_eq!(c.llm_model_path, "/m/a.gguf");
}

#[test]
fn model_kinds_know_their_files() {
    assert_eq!(ModelKind::Whisper.filename(), "ggml-base.en.bin");
    assert_eq!(ModelKind::Llm.filename(), "gemma-4-E4B-it-Q4_K_M.gguf");
    assert_eq!(ModelKind::Whisper.key(), "whisper");
    assert_eq!(ModelKind::Llm.key(), "llm");
    assert!(ModelKind::Whisper.url().ends_with("/ggml-base.en.bin"));
    assert!(ModelKind::Llm.url().starts_with("https://huggingface.co/unsloth/"));
}

#[test]
fn model_path_joins_like_a_path() {
    assert_eq!(model_path("/data/models", ModelKind::Whisper), "/data/models/ggml-base.en.bin");
    assert_eq!(model_path("/data/models/", ModelKind::Llm), "/data/models/gemma-4-E4B-it-Q4_K_M.gguf");
    assert_eq!(model_path("", ModelKind::Whisper), "ggml-base.en.bin");
}

#[test]
fn model_status_prefers_an_existing_configured_file() {
    let s = status_with_config(ModelKind::Llm, "/mine.gguf", Some(42), "/d/x.gguf", Some(7));
    assert_eq!((s.path.as_str(), s.exists, s.size), ("/mine.gguf", true, 42));
    assert_eq!(s.key, "llm");
    let s = status_with_config(ModelKind::Llm, "/mine.gguf", None, "/d/x.gguf", Some(7));
    assert_eq!((s.path.as_str(), s.exists, s.size), ("/d/x.gguf", true, 7));
    let s = status_with_config(ModelKind::Llm, "/mine.gguf", None, "/d/x.gguf", None);
    assert_eq!((s.path.as_str(), s.exists, s.size), ("/mine.gguf", false, 0));
    let s = status(ModelKind::Whisper, "/d/w.bin", None);
    assert_eq!((s.path.as_str(), s.exists, s.size), ("/d/w.bin", false, 0));
    assert_eq!(s.filename, "ggml-base.en.bin");
    let s = status(ModelKind::Whisper, "/d/w.bin", Some(148));
    assert_eq!((s.path.as_str(), s.exists, s.size), ("/d/w.bin", true, 148));
}

#[test]
fn downloads_are_skipped_for_models_on_disk_and_recorded_once() {
    assert_eq!(existing_model_path("/mine", true, "/d", true), Some("/mine".to_string()));
    assert_eq!(existing_model_path("/mine", false, "/d", true), Some("/d".to_string()));
    assert_eq!(existing_model_path("", true, "/d", false), None);
    let mut c = Config::default();
    assert!(record_downloaded_model(&mut c, ModelKind::Whisper, "/d/w.bin"));
    assert_eq!(c.whisper_model_path, "/d/w.bin");
    assert!(!record_downloaded_model(&mut c, ModelKind::Whisper, "/other"));
    assert_eq!(c.whisper_model_path, "/d/w.bin");
    assert_eq!(c.llm_model_path, "");
}

#[test]
fn progress_is_reported_every_256_kib_and_at_the_end() {
    assert!(!should_emit_progress(262144, 0, 1_000_000));
    assert!(should_emit_progress(262145, 0, 1_000_000));
    assert!(should_emit_progress(1_000_000, 999_999, 1_000_000));
    assert!(!should_emit_progress(500, 400, 0));
}
