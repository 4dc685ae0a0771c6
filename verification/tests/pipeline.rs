use openwhisper::pipeline::{
    dictation_text, pipeline_step, PipelineAction, PipelineEvent, PipelineSettings, Stage,
};

fn settings(use_llm: bool, fast: bool, restore: bool) -> PipelineSettings {
    PipelineSettings { use_llm_refinement: use_llm, fast_paste: fast, restore_clipboard: restore }
}

#[test]
fn missing_speech_model_fails_the_pipeline() {
    let (st, act) = pipeline_step(Stage::Start, settings(true, false, false), PipelineEvent::Begin {
        whisper_loaded: false,
    });
    assert!(matches!(st, Stage::Done));
    match act {
        PipelineAction::Fail(m) => {
            assert_eq!(m, "Whisper model not loaded. Open Settings to configure.")
        },
        _ => panic!("expected failure"),
    }
}

#[test]
fn silence_markers_end_the_pipeline_quietly() {
    let s = settings(true, true, true);
    let (st, act) = pipeline_step(Stage::Start, s, PipelineEvent::Begin { whisper_loaded: true });
    assert!(matches!(st, Stage::Transcribing));
    assert!(matches!(act, PipelineAction::Transcribe));
    let (st, act) = pipeline_step(st, s, PipelineEvent::Transcribed {
        result: Ok("[BLANK_AUDIO]".to_string()),
        llm_loaded: true,
    });
    assert!(matches!(st, Stage::Done));
    assert!(matches!(act, PipelineAction::Finish { settle: false, restore_snapshot: false }));
}

#[test]
fn refine_then_paste_falls_back_to_the_raw_transcript() {
    let s = settings(true, false, true);
    let (st, act) = pipeline_step(Stage::Transcribing, s, PipelineEvent::Transcribed {
        result: Ok("um hi".to_string()),
        llm_loaded: true,
    });
    assert!(matches!(act, PipelineAction::Refine { ref raw } if raw == "um hi"));
    let (st2, act) = pipeline_step(st, s, PipelineEvent::Refined {
        result: Ok("  ".to_string()),
        elapsed_nanos: 5,
    });
    assert!(matches!(st2, Stage::Typing));
    match act {
        PipelineAction::Type { text, restore_clipboard } => {
            assert_eq!(text, "um hi");
            assert!(restore_clipboard);
        },
        _ => panic!("expected typing"),
    }
    let (st3, act) = pipeline_step(st2, s, PipelineEvent::Typed(Ok(())));
    assert!(matches!(st3, Stage::Done));
    assert!(matches!(act, PipelineAction::Finish { settle: true, restore_snapshot: false }));
}

#[test]
fn refined_text_is_pasted_when_refinement_succeeds() {
    let s = settings(true, false, false);
    let st = Stage::Refining { raw: "um hi".to_string() };
    let (_, act) = pipeline_step(st, s, PipelineEvent::Refined {
        result: Ok("Hi.".to_string()),
        elapsed_nanos: 0,
    });
    assert!(matches!(act, PipelineAction::Type { ref text, .. } if text == "Hi."));
    let st = Stage::Refining { raw: "um hi".to_string() };
    let (_, act) = pipeline_step(st, s, PipelineEvent::Refined {
        result: Err("boom".to_string()),
        elapsed_nanos: 0,
    });
    assert!(matches!(act, PipelineAction::Type { ref text, .. } if text == "um hi"));
}

#[test]
fn without_refinement_the_raw_transcript_is_pasted() {
    let (st, act) = pipeline_step(Stage::Transcribing, settings(true, true, false), PipelineEvent::Transcribed {
        result: Ok("hello".to_string()),
        llm_loaded: false,
    });
    assert!(matches!(st, Stage::Typing));
    assert!(matches!(act, PipelineAction::Type { ref text, .. } if text == "hello"));
    let (_, act) = pipeline_step(Stage::Transcribing, settings(false, true, false), PipelineEvent::Transcribed {
        result: Ok("hello".to_string()),
        llm_loaded: true,
    });
    assert!(matches!(act, PipelineAction::Type { .. }));
}

#[test]
fn fast_paste_replaces_only_prompt_different_refinements() {
    let s = settings(true, true, true);
    let (st, act) = pipeline_step(Stage::Transcribing, s, PipelineEvent::Transcribed {
        result: Ok("um hi".to_string()),
        llm_loaded: true,
    });
    assert!(matches!(act, PipelineAction::PasteRaw { ref text, snapshot_clipboard: true } if text == "um hi"));
    let (st, act) = pipeline_step(st, s, PipelineEvent::RawPasted(Ok(5)));
    assert!(matches!(act, PipelineAction::Refine { .. }));
    let st_again = match &st {
        Stage::RefiningAfterPaste { raw, units } => Stage::RefiningAfterPaste { raw: raw.clone(), units: *units },
        _ => panic!("expected refining"),
    };
    let (st2, act) = pipeline_step(st, s, PipelineEvent::Refined {
        result: Ok("Hi.".to_string()),
        elapsed_nanos: 2_000_000_000,
    });
    assert!(matches!(st2, Stage::Replacing));
    assert!(matches!(act, PipelineAction::Replace { units: 5, ref text } if text == "Hi."));
    let (_, act) = pipeline_step(st_again, s, PipelineEvent::Refined {
        result: Ok("Hi.".to_string()),
        elapsed_nanos: 2_000_000_001,
    });
    assert!(matches!(act, PipelineAction::Finish { settle: true, restore_snapshot: true }));
    let (_, act) = pipeline_step(Stage::RefiningAfterPaste { raw: "same".to_string(), units: 4 }, s, PipelineEvent::Refined {
        result: Ok("same".to_string()),
        elapsed_nanos: 1,
    });
    assert!(matches!(act, PipelineAction::Finish { settle: true, restore_snapshot: true }));
    let (_, act) = pipeline_step(Stage::PastingRaw { raw: "x".to_string() }, s, PipelineEvent::RawPasted(Err("no paste".to_string())));
    assert!(matches!(act, PipelineAction::Fail(ref m) if m == "no paste"));
}

#[test]
fn test_dictation_keeps_raw_unless_refinement_has_text() {
    assert_eq!(dictation_text("raw".to_string(), None), "raw");
    assert_eq!(dictation_text("raw".to_string(), Some(Ok("Fine.".to_string()))), "Fine.");
    assert_eq!(dictation_text("raw".to_string(), Some(Ok(String::new()))), "raw");
    assert_eq!(dictation_text("raw".to_string(), Some(Err("e".to_string()))), "raw");
    assert_eq!(dictation_text("raw".to_string(), Some(Ok(" ".to_string()))), " ");
}

#[test]
fn clipboard_is_put_back_after_a_fast_paste() {
    let s = settings(true, true, false);
    let (_, act) = pipeline_step(Stage::Transcribing, s, PipelineEvent::Transcribed {
        result: Ok("note".to_string()),
        llm_loaded: true,
    });
    assert!(matches!(act, PipelineAction::PasteRaw { snapshot_clipboard: false, .. }));
    let s = settings(true, true, true);
    let (_, act) = pipeline_step(
        Stage::RefiningAfterPaste { raw: "note".to_string(), units: 4 },
        s,
        PipelineEvent::Refined { result: Err("model failed".to_string()), elapsed_nanos: 10 },
    );
    assert!(matches!(act, PipelineAction::Finish { settle: true, restore_snapshot: true }));
    let (_, act) = pipeline_step(Stage::Replacing, s, PipelineEvent::Replaced(Ok(())));
    assert!(matches!(act, PipelineAction::Finish { settle: true, restore_snapshot: true }));
    let (_, act) = pipeline_step(Stage::Refining { raw: "note".to_string() }, settings(true, false, false), PipelineEvent::Refined {
        result: Ok("Note.".to_string()),
        elapsed_nanos: 10,
    });
    assert!(matches!(act, PipelineAction::Type { ref text, restore_clipboard: false } if text == "Note."));
}
