//! Engine readiness: which models get loaded, what the settings window is
//! told about them and about the hotkey, and the speech-to-text options.
use vstd::prelude::*;

use crate::config::Config;
use crate::text;

verus! {

/// Message shown when no speech-to-text model is configured.
pub const WHISPER_MISSING: &'static str = "No Whisper model configured. Open Settings → Models.";

/// Message shown when refinement is on but no refinement model is configured.
pub const LLM_MISSING: &'static str = "No Gemma/LLM model configured. Open Settings → Models.";

/// Recordings shorter than this many samples (0.1 s at 16 kHz) are not
/// transcribed.
pub const MIN_TRANSCRIBE_SAMPLES: usize = 1600;

/// What to do about one model when (re)loading.
#[derive(Clone, Copy, Debug, PartialEq, Eq, Structural)]
pub enum LoadPlan {
    /// Not wanted (refinement switched off); not an error.
    Skip,
    /// Wanted but no path is configured.
    Missing,
    /// Load it from the configured path.
    Load,
}

/// Readiness shown in the settings window.
#[derive(Clone, Debug)]
pub struct EngineStatus {
    pub whisper_loaded: bool,
    pub whisper_error: Option<String>,
    pub llm_loaded: bool,
    pub llm_error: Option<String>,
    pub hotkey: String,
    pub hotkey_registered: bool,
    pub hotkey_error: Option<String>,
}

impl EngineStatus {
    /// Nothing loaded, no hotkey, no errors.
    pub fn new() -> (res: EngineStatus)
        ensures
            !res.whisper_loaded,
            res.whisper_error is None,
            !res.llm_loaded,
            res.llm_error is None,
            res.hotkey@.len() == 0,
            !res.hotkey_registered,
            res.hotkey_error is None,
    {
        EngineStatus {
            whisper_loaded: false,
            whisper_error: None,
            llm_loaded: false,
            llm_error: None,
            hotkey: String::new(),
            hotkey_registered: false,
            hotkey_error: None,
        }
    }
}

/// The speech-to-text model is loaded whenever a path is configured.
pub fn whisper_load_plan(cfg: &Config) -> (res: LoadPlan)
    ensures
        res == (if cfg.whisper_model_path@.len() == 0 {
            LoadPlan::Missing
        } else {
            LoadPlan::Load
        }),
{
    if text::string_chars(&cfg.whisper_model_path).len() == 0 {
        LoadPlan::Missing
    } else {
        LoadPlan::Load
    }
}

/// The refinement model is loaded when refinement is on and a path is
/// configured.
pub fn llm_load_plan(cfg: &Config) -> (res: LoadPlan)
    ensures
        res == (if !cfg.use_llm_refinement {
            LoadPlan::Skip
        } else if cfg.llm_model_path@.len() == 0 {
            LoadPlan::Missing
        } else {
            LoadPlan::Load
        }),
{
    if !cfg.use_llm_refinement {
        LoadPlan::Skip
    } else if text::string_chars(&cfg.llm_model_path).len() == 0 {
        LoadPlan::Missing
    } else {
        LoadPlan::Load
    }
}

/// Whether the model ended up loaded and the error to show: `missing` when
/// it is wanted but not configured, the load error when loading failed.
/// `loaded` is the outcome of loading, present exactly when the plan was to
/// load.
pub fn load_outcome(plan: LoadPlan, missing: &str, loaded: Option<Result<(), String>>) -> (res: (
    bool,
    Option<String>,
))
    requires
        (plan == LoadPlan::Load) == (loaded is Some),
    ensures
        res.0 == (loaded matches Some(Ok(_))),
        match plan {
            LoadPlan::Skip => res.1 is None,
            LoadPlan::Missing => res.1 matches Some(m) && m@ == missing@,
            LoadPlan::Load => match loaded {
                Some(Err(e)) => res.1 == Some(e),
                _ => res.1 is None,
            },
        },
{
    match plan {
        LoadPlan::Skip => (false, None),
        LoadPlan::Missing => (false, Some(text::owned(missing))),
        LoadPlan::Load => match loaded {
            Some(Ok(_)) => (true, None),
            Some(Err(e)) => (false, Some(e)),
            None => (false, None),
        },
    }
}

/// Records the models' readiness, leaving the hotkey fields as they are.
pub fn record_engines(
    status: &mut EngineStatus,
    whisper: (bool, Option<String>),
    llm: (bool, Option<String>),
)
    ensures
        final(status).whisper_loaded == whisper.0,
        final(status).whisper_error == whisper.1,
        final(status).llm_loaded == llm.0,
        final(status).llm_error == llm.1,
        final(status).hotkey == old(status).hotkey,
        final(status).hotkey_registered == old(status).hotkey_registered,
        final(status).hotkey_error == old(status).hotkey_error,
{
    status.whisper_loaded = whisper.0;
    status.whisper_error = whisper.1;
    status.llm_loaded = llm.0;
    status.llm_error = llm.1;
}

/// Records the outcome of registering `hotkey`, leaving the model fields as
/// they are.
pub fn record_hotkey(status: &mut EngineStatus, hotkey: &str, result: Result<(), String>)
    ensures
        final(status).hotkey@ == hotkey@,
        final(status).hotkey_registered == (result is Ok),
        final(status).hotkey_error == (match result {
            Ok(_) => None,
            Err(e) => Some(e),
        }),
        final(status).whisper_loaded == old(status).whisper_loaded,
        final(status).whisper_error == old(status).whisper_error,
        final(status).llm_loaded == old(status).llm_loaded,
        final(status).llm_error == old(status).llm_error,
{
    status.hotkey = text::owned(hotkey);
    match result {
        Ok(_) => {
            status.hotkey_registered = true;
            status.hotkey_error = None;
        },
        Err(e) => {
            status.hotkey_registered = false;
            status.hotkey_error = Some(e);
        },
    }
}

/// The language hint for speech-to-text: none (detect) for an empty setting
/// or `"auto"`, else the setting.
pub fn whisper_language(language: &str) -> (res: Option<String>)
    ensures
        match res {
            None => language@.len() == 0 || language@ == "auto"@,
            Some(l) => language@.len() != 0 && language@ != "auto"@ && l@ == language@,
        },
{
    let v = text::chars_of(language);
    if v.len() == 0 || text::chars_eq_str(&v, "auto") {
        None
    } else {
        Some(text::owned(language))
    }
}

/// Whether a recording of `samples` samples is long enough to transcribe.
pub fn worth_transcribing(samples: usize) -> (res: bool)
    ensures
        res == (samples >= MIN_TRANSCRIBE_SAMPLES),
{
    samples >= MIN_TRANSCRIBE_SAMPLES
}

/// Thread count handed to an engine: at least one.
pub fn engine_threads(n_threads: i32) -> (res: i32)
    ensures
        res == (if n_threads >= 1 {
            n_threads
        } else {
            1
        }),
{
    if n_threads >= 1 {
        n_threads
    } else {
        1
    }
}

} // verus!
