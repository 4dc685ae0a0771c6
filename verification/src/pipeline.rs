//! The dictation pipeline as a state machine: after a recording it decides
//! when to transcribe, whether to refine, whether to paste the raw transcript
//! first and replace it later, and what finally gets pasted. The caller runs
//! each action (speech-to-text, the language model, the clipboard and
//! keyboard) and feeds its outcome back as the next event.
use vstd::prelude::*;

use crate::text;
use crate::transcript;

verus! {

/// Longest refinement, in nanoseconds, after which a fast-pasted raw
/// transcript is still replaced.
pub const MAX_REPLACE_DELAY_NANOS: u64 = 2_000_000_000;

/// Pause after pasting before the pipeline reports idle, in milliseconds.
pub const SETTLE_MILLIS: u64 = 150;

/// Message of the failure when no speech-to-text model is loaded.
pub const WHISPER_NOT_LOADED: &'static str = "Whisper model not loaded. Open Settings to configure.";

/// The settings the pipeline reads.
#[derive(Clone, Copy, Debug)]
pub struct PipelineSettings {
    pub use_llm_refinement: bool,
    pub fast_paste: bool,
    pub restore_clipboard: bool,
}

/// Where the pipeline is.
#[derive(Clone, Debug)]
pub enum Stage {
    /// A recording is ready.
    Start,
    /// Waiting for the transcript.
    Transcribing,
    /// Fast paste: waiting for the raw transcript to be pasted.
    PastingRaw { raw: String },
    /// Fast paste: raw transcript pasted (`units` UTF-16 units); waiting for
    /// the refinement.
    RefiningAfterPaste { raw: String, units: usize },
    /// Fast paste: waiting for the raw text to be replaced.
    Replacing,
    /// Waiting for the refinement before pasting.
    Refining { raw: String },
    /// Waiting for the final text to be pasted.
    Typing,
    /// Finished.
    Done,
}

/// What happened since the last action.
#[derive(Debug)]
pub enum PipelineEvent {
    /// The pipeline starts; whether a speech-to-text model is loaded.
    Begin { whisper_loaded: bool },
    /// The transcript (or the transcription error), and whether a
    /// refinement model is loaded.
    Transcribed { result: Result<String, String>, llm_loaded: bool },
    /// The raw transcript was pasted: its UTF-16 length, or the error.
    RawPasted(Result<usize, String>),
    /// The refinement (or its error) and how long it took, in nanoseconds.
    Refined { result: Result<String, String>, elapsed_nanos: u64 },
    /// Replacing the raw text was handed off, or failed.
    Replaced(Result<(), String>),
    /// Pasting the final text was handed off, or failed.
    Typed(Result<(), String>),
}

/// What the caller does next.
#[derive(Clone, Debug)]
pub enum PipelineAction {
    /// Show "transcribing" and transcribe the recording.
    Transcribe,
    /// Show "pasting"; take a snapshot of the clipboard when
    /// `snapshot_clipboard`; paste `text` synchronously.
    PasteRaw { text: String, snapshot_clipboard: bool },
    /// Show "refining" and refine `raw` with the refinement prompt.
    Refine { raw: String },
    /// Delete `units` UTF-16 units and paste `text` in their place.
    Replace { units: usize, text: String },
    /// Show "pasting" and paste `text`, restoring the clipboard afterwards
    /// when `restore_clipboard`.
    Type { text: String, restore_clipboard: bool },
    /// Put back the clipboard snapshot, if one was taken and
    /// `restore_snapshot`; wait `SETTLE_MILLIS` when `settle`; show idle and
    /// end successfully.
    Finish { settle: bool, restore_snapshot: bool },
    /// End with this error.
    Fail(String),
}

/// Whether `event` is the outcome of the action that led to `stage`.
pub open spec fn accepts(stage: Stage, event: PipelineEvent) -> bool {
    match stage {
        Stage::Start => event is Begin,
        Stage::Transcribing => event is Transcribed,
        Stage::PastingRaw { .. } => event is RawPasted,
        Stage::RefiningAfterPaste { .. } => event is Refined,
        Stage::Replacing => event is Replaced,
        Stage::Refining { .. } => event is Refined,
        Stage::Typing => event is Typed,
        Stage::Done => false,
    }
}

/// A transcript the pipeline works on: not blank and no silence marker.
pub open spec fn speech(raw: Seq<char>) -> bool {
    !transcript::blank_transcription(raw)
}

/// The stages' invariant: the transcript they carry is speech.
pub open spec fn stage_wf(stage: Stage) -> bool {
    match stage {
        Stage::PastingRaw { raw } => speech(raw@),
        Stage::RefiningAfterPaste { raw, .. } => speech(raw@),
        Stage::Refining { raw } => speech(raw@),
        _ => true,
    }
}

/// Whether a refinement is worth pasting over the raw transcript.
pub open spec fn useful_refinement(refined: Seq<char>, raw: Seq<char>) -> bool {
    !text::is_blank(refined) && refined != raw
}

/// The text pasted after a refinement: a non-blank refinement, else the raw
/// transcript.
pub open spec fn refined_or_raw(result: Result<String, String>, raw: String) -> String {
    match result {
        Ok(r) => if !text::is_blank(r@) {
            r
        } else {
            raw
        },
        Err(_) => raw,
    }
}

pub open spec fn finish(settle: bool, restore_snapshot: bool) -> PipelineAction {
    PipelineAction::Finish { settle, restore_snapshot }
}

/// The step function: whether `next` and `action` are what `event` at
/// `stage` leads to.
pub open spec fn step_result(
    stage: Stage,
    settings: PipelineSettings,
    event: PipelineEvent,
    next: Stage,
    action: PipelineAction,
) -> bool {
    match (stage, event) {
        (Stage::Start, PipelineEvent::Begin { whisper_loaded }) => if whisper_loaded {
            next is Transcribing && action is Transcribe
        } else {
            next is Done && (action matches PipelineAction::Fail(m) && m@ == WHISPER_NOT_LOADED@)
        },
        (Stage::Transcribing, PipelineEvent::Transcribed { result, llm_loaded }) => match result {
            Err(e) => next is Done && action == PipelineAction::Fail(e),
            Ok(raw) => if !speech(raw@) {
                next is Done && action == finish(false, false)
            } else if settings.use_llm_refinement && llm_loaded && settings.fast_paste {
                next == (Stage::PastingRaw { raw }) && action == (PipelineAction::PasteRaw {
                    text: raw,
                    snapshot_clipboard: settings.restore_clipboard,
                })
            } else if settings.use_llm_refinement && llm_loaded {
                next == (Stage::Refining { raw }) && action == (PipelineAction::Refine { raw })
            } else {
                next is Typing && action == (PipelineAction::Type {
                    text: raw,
                    restore_clipboard: settings.restore_clipboard,
                })
            },
        },
        (Stage::PastingRaw { raw }, PipelineEvent::RawPasted(r)) => match r {
            Err(e) => next is Done && action == PipelineAction::Fail(e),
            Ok(units) => next == (Stage::RefiningAfterPaste { raw, units }) && action == (
            PipelineAction::Refine { raw }),
        },
        (
            Stage::RefiningAfterPaste { raw, units },
            PipelineEvent::Refined { result, elapsed_nanos },
        ) => match result {
            Ok(refined) => if useful_refinement(refined@, raw@) && elapsed_nanos
                <= MAX_REPLACE_DELAY_NANOS {
                next is Replacing && action == (PipelineAction::Replace { units, text: refined })
            } else {
                next is Done && action == finish(true, true)
            },
            Err(_) => next is Done && action == finish(true, true),
        },
        (Stage::Replacing, PipelineEvent::Replaced(r)) => match r {
            Err(e) => next is Done && action == PipelineAction::Fail(e),
            Ok(_) => next is Done && action == finish(true, true),
        },
        (Stage::Refining { raw }, PipelineEvent::Refined { result, .. }) => next is Typing
            && action == (PipelineAction::Type {
            text: refined_or_raw(result, raw),
            restore_clipboard: settings.restore_clipboard,
        }),
        (Stage::Typing, PipelineEvent::Typed(r)) => match r {
            Err(e) => next is Done && action == PipelineAction::Fail(e),
            Ok(_) => next is Done && action == finish(true, false),
        },
        _ => false,
    }
}

/// Advances the pipeline by one event.
///
/// The action's text is exact: the raw transcript, the refinement, or (in
/// refine-then-paste) a non-blank refinement falling back to the raw
/// transcript. Blank transcripts and silence markers finish at once;
/// refinement runs only when it is enabled and a model is loaded; a
/// fast-pasted transcript is replaced only by a different, non-blank
/// refinement that took at most two seconds.
pub fn pipeline_step(stage: Stage, settings: PipelineSettings, event: PipelineEvent) -> (res: (
    Stage,
    PipelineAction,
))
    requires
        accepts(stage, event),
        stage_wf(stage),
    ensures
        stage_wf(res.0),
        step_result(stage, settings, event, res.0, res.1),
        // What is pasted is never blank.
        res.1 matches PipelineAction::PasteRaw { text, .. } ==> !text::is_blank(text@),
        res.1 matches PipelineAction::Type { text, .. } ==> !text::is_blank(text@),
        res.1 matches PipelineAction::Replace { text, .. } ==> !text::is_blank(text@),
{
    match (stage, event) {
        (Stage::Start, PipelineEvent::Begin { whisper_loaded }) => {
            if whisper_loaded {
                (Stage::Transcribing, PipelineAction::Transcribe)
            } else {
                (Stage::Done, PipelineAction::Fail(text::owned(WHISPER_NOT_LOADED)))
            }
        },
        (Stage::Transcribing, PipelineEvent::Transcribed { result, llm_loaded }) => {
            match result {
                Err(e) => (Stage::Done, PipelineAction::Fail(e)),
                Ok(raw) => {
                    if transcript::is_blank_transcription(raw.as_str()) {
                        (Stage::Done, PipelineAction::Finish { settle: false, restore_snapshot: false })
                    } else {
                        proof {
                            text_not_blank_if_speech(raw@);
                        }
                        if settings.use_llm_refinement && llm_loaded && settings.fast_paste {
                            let text = raw.clone();
                            (
                                Stage::PastingRaw { raw },
                                PipelineAction::PasteRaw {
                                    text,
                                    snapshot_clipboard: settings.restore_clipboard,
                                },
                            )
                        } else if settings.use_llm_refinement && llm_loaded {
                            let r2 = raw.clone();
                            (Stage::Refining { raw }, PipelineAction::Refine { raw: r2 })
                        } else {
                            (
                                Stage::Typing,
                                PipelineAction::Type {
                                    text: raw,
                                    restore_clipboard: settings.restore_clipboard,
                                },
                            )
                        }
                    }
                },
            }
        },
        (Stage::PastingRaw { raw }, PipelineEvent::RawPasted(r)) => {
            match r {
                Err(e) => (Stage::Done, PipelineAction::Fail(e)),
                Ok(units) => {
                    let r2 = raw.clone();
                    (Stage::RefiningAfterPaste { raw, units }, PipelineAction::Refine { raw: r2 })
                },
            }
        },
        (
            Stage::RefiningAfterPaste { raw, units },
            PipelineEvent::Refined { result, elapsed_nanos },
        ) => {
            match result {
                Ok(refined) => {
                    if !text::blank(refined.as_str()) && refined != raw && elapsed_nanos
                        <= MAX_REPLACE_DELAY_NANOS {
                        (Stage::Replacing, PipelineAction::Replace { units, text: refined })
                    } else {
                        (Stage::Done, PipelineAction::Finish { settle: true, restore_snapshot: true })
                    }
                },
                Err(_) => (
                    Stage::Done,
                    PipelineAction::Finish { settle: true, restore_snapshot: true },
                ),
            }
        },
        (Stage::Replacing, PipelineEvent::Replaced(r)) => {
            match r {
                Err(e) => (Stage::Done, PipelineAction::Fail(e)),
                Ok(_) => (Stage::Done, PipelineAction::Finish { settle: true, restore_snapshot: true }),
            }
        },
        (Stage::Refining { raw }, PipelineEvent::Refined { result, .. }) => {
            proof {
                text_not_blank_if_speech(raw@);
            }
            let final_text = match result {
                Ok(r) => {
                    if !text::blank(r.as_str()) {
                        r
                    } else {
                        raw
                    }
                },
                Err(_) => raw,
            };
            (
                Stage::Typing,
                PipelineAction::Type { text: final_text, restore_clipboard: settings.restore_clipboard },
            )
        },
        (Stage::Typing, PipelineEvent::Typed(r)) => {
            match r {
                Err(e) => (Stage::Done, PipelineAction::Fail(e)),
                Ok(_) => (Stage::Done, PipelineAction::Finish { settle: true, restore_snapshot: false }),
            }
        },
        _ => (Stage::Done, PipelineAction::Finish { settle: false, restore_snapshot: false }),
    }
}

/// A blank transcript or a silence marker ends the pipeline at once:
/// nothing is refined or pasted.
pub proof fn law_silence_is_never_refined_or_pasted(
    settings: PipelineSettings,
    raw: String,
    llm_loaded: bool,
    next: Stage,
    action: PipelineAction,
)
    requires
        transcript::blank_transcription(raw@),
        step_result(
            Stage::Transcribing,
            settings,
            PipelineEvent::Transcribed { result: Ok(raw), llm_loaded },
            next,
            action,
        ),
    ensures
        next is Done,
        action == finish(false, false),
{
}

/// Refinement runs only when it is enabled and a model is loaded; without
/// it, a transcript that is speech is pasted verbatim.
pub proof fn law_refinement_needs_enabled_model(
    settings: PipelineSettings,
    raw: String,
    llm_loaded: bool,
    next: Stage,
    action: PipelineAction,
)
    requires
        step_result(
            Stage::Transcribing,
            settings,
            PipelineEvent::Transcribed { result: Ok(raw), llm_loaded },
            next,
            action,
        ),
        !(settings.use_llm_refinement && llm_loaded),
    ensures
        !(next is Refining),
        !(next is PastingRaw),
        !(action is Refine),
        speech(raw@) ==> action == (PipelineAction::Type {
            text: raw,
            restore_clipboard: settings.restore_clipboard,
        }),
{
}

/// The clipboard is put back after pasting: the final paste restores it
/// whenever the setting asks for it, a fast paste takes a snapshot whenever
/// the setting asks for it, and once the raw transcript is pasted, every
/// successful end puts that snapshot back.
pub proof fn law_clipboard_restored_after_paste(
    stage: Stage,
    settings: PipelineSettings,
    event: PipelineEvent,
    next: Stage,
    action: PipelineAction,
)
    requires
        step_result(stage, settings, event, next, action),
    ensures
        action matches PipelineAction::Type { restore_clipboard, .. } ==> restore_clipboard
            == settings.restore_clipboard,
        action matches PipelineAction::PasteRaw { snapshot_clipboard, .. } ==> snapshot_clipboard
            == settings.restore_clipboard,
        (stage is RefiningAfterPaste || stage is Replacing) && action is Finish ==> (
        action matches PipelineAction::Finish { restore_snapshot, .. } && restore_snapshot),
{
}

/// A fast-pasted transcript is only replaced by a different, non-blank
/// refinement that arrived within two seconds.
pub proof fn law_replacement_is_prompt_and_different(
    settings: PipelineSettings,
    raw: String,
    units: usize,
    result: Result<String, String>,
    elapsed_nanos: u64,
    next: Stage,
    action: PipelineAction,
)
    requires
        step_result(
            Stage::RefiningAfterPaste { raw, units },
            settings,
            PipelineEvent::Refined { result, elapsed_nanos },
            next,
            action,
        ),
        action is Replace,
    ensures
        elapsed_nanos <= MAX_REPLACE_DELAY_NANOS,
        action matches PipelineAction::Replace { units: u, text } && u == units && text@ != raw@
            && !text::is_blank(text@),
{
}

/// With refinement on, a model loaded and fast paste off, a transcript that
/// is speech goes to the model before anything is pasted, whatever the
/// clipboard setting; with fast paste on, it is pasted raw first.
pub proof fn law_enabled_refinement_runs(
    settings: PipelineSettings,
    raw: String,
    next: Stage,
    action: PipelineAction,
)
    requires
        settings.use_llm_refinement,
        !transcript::blank_transcription(raw@),
        step_result(
            Stage::Transcribing,
            settings,
            PipelineEvent::Transcribed { result: Ok(raw), llm_loaded: true },
            next,
            action,
        ),
    ensures
        !settings.fast_paste ==> next == (Stage::Refining { raw }) && action == (
        PipelineAction::Refine { raw }),
        settings.fast_paste ==> next == (Stage::PastingRaw { raw }) && action
            == (PipelineAction::PasteRaw { text: raw, snapshot_clipboard: settings.restore_clipboard }),
{
}

/// Whether two actions are the same apart from their clipboard flags
/// (failure messages compared by their text).
pub open spec fn same_apart_from_clipboard(a1: PipelineAction, a2: PipelineAction) -> bool {
    match (a1, a2) {
        (
            PipelineAction::PasteRaw { text: t1, .. },
            PipelineAction::PasteRaw { text: t2, .. },
        ) => t1 == t2,
        (PipelineAction::Type { text: t1, .. }, PipelineAction::Type { text: t2, .. }) => t1 == t2,
        (PipelineAction::Fail(m1), PipelineAction::Fail(m2)) => m1@ == m2@,
        _ => a1 == a2,
    }
}

/// The clipboard setting never steers the pipeline: two runs of a step that
/// differ only in `restore_clipboard` reach the same stage and take the same
/// action, apart from the action's clipboard flags.
pub proof fn law_clipboard_setting_only_touches_clipboard(
    stage: Stage,
    settings1: PipelineSettings,
    settings2: PipelineSettings,
    event: PipelineEvent,
    next1: Stage,
    action1: PipelineAction,
    next2: Stage,
    action2: PipelineAction,
)
    requires
        settings1.use_llm_refinement == settings2.use_llm_refinement,
        settings1.fast_paste == settings2.fast_paste,
        step_result(stage, settings1, event, next1, action1),
        step_result(stage, settings2, event, next2, action2),
    ensures
        next1 == next2,
        same_apart_from_clipboard(action1, action2),
{
}

proof fn text_not_blank_if_speech(raw: Seq<char>)
    requires
        speech(raw),
    ensures
        !text::is_blank(raw),
{
}

/// The text a one-off test dictation ends with: the refinement when one ran
/// and returned non-empty text, else the raw transcript.
pub fn dictation_text(raw: String, refined: Option<Result<String, String>>) -> (res: String)
    ensures
        res@ == (match refined {
            Some(Ok(r)) => if r@.len() > 0 {
                r@
            } else {
                raw@
            },
            _ => raw@,
        }),
{
    match refined {
        Some(Ok(r)) => {
            if text::string_chars(&r).len() > 0 {
                r
            } else {
                raw
            }
        },
        _ => raw,
    }
}

} // verus!
