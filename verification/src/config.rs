//! User settings: their defaults, the inference thread count they resolve
//! to, and filling in model paths from models found in the data directory.
use vstd::prelude::*;

use crate::text;

verus! {

/// Refinement instructions used until the user edits them.
pub const DEFAULT_REFINE_PROMPT: &'static str = "You are a dictation refinement assistant. Rewrite the following raw speech-to-text transcription as a clean, well-punctuated message. Remove filler words (um, uh, like, you know), false starts, and verbal tics. Preserve the speaker's intent, tone, and meaning exactly. Do not add new information. Output ONLY the rewritten message, with no preamble, no quotes, and no explanation.";

/// File name of the default speech-to-text model in the models directory.
pub const WHISPER_MODEL_FILE: &'static str = "ggml-base.en.bin";

/// File name of the current default refinement model.
pub const LLM_MODEL_FILE: &'static str = "gemma-4-E4B-it-Q4_K_M.gguf";

/// File name of the earlier default refinement model, still picked up.
pub const LEGACY_LLM_MODEL_FILE: &'static str = "gemma-4-E2B-it-Q4_K_M.gguf";

/// The user's settings.
#[derive(Clone, Debug)]
pub struct Config {
    /// Push-to-talk hotkey, e.g. `"Fn"` or `"Cmd+Shift+Space"`.
    pub hotkey: String,
    pub whisper_model_path: String,
    pub llm_model_path: String,
    /// Instructions given to the refinement model.
    pub refine_prompt: String,
    pub use_llm_refinement: bool,
    /// Speech-to-text language hint; empty or `"auto"` lets the model detect it.
    pub language: String,
    /// Paste the raw transcript at once and replace it with the refined text
    /// when that arrives quickly enough.
    pub fast_paste: bool,
    /// Put the user's earlier clipboard contents back after pasting.
    pub restore_clipboard: bool,
    /// Longest recording kept, in seconds.
    pub max_recording_seconds: u32,
    /// Inference threads; `0` picks a number from the machine's cores.
    pub inference_threads: u32,
}

/// Longest recording kept unless the user says otherwise, in seconds.
pub fn default_max_recording_seconds() -> (res: u32)
    ensures
        res == 120,
{
    120
}

/// The default push-to-talk hotkey.
pub fn default_hotkey() -> (res: String)
    ensures
        res@ == "Fn"@,
{
    text::owned("Fn")
}

pub open spec fn is_default_config(c: Config) -> bool {
    &&& c.hotkey@ == "Fn"@
    &&& c.whisper_model_path@.len() == 0
    &&& c.llm_model_path@.len() == 0
    &&& c.refine_prompt@ == DEFAULT_REFINE_PROMPT@
    &&& c.use_llm_refinement
    &&& c.language@ == "auto"@
    &&& !c.fast_paste
    &&& !c.restore_clipboard
    &&& c.max_recording_seconds == 120
    &&& c.inference_threads == 0
}

impl Default for Config {
    fn default() -> (c: Self)
        ensures
            is_default_config(c),
    {
        Config {
            hotkey: default_hotkey(),
            whisper_model_path: String::new(),
            llm_model_path: String::new(),
            refine_prompt: text::owned(DEFAULT_REFINE_PROMPT),
            use_llm_refinement: true,
            language: text::owned("auto"),
            fast_paste: false,
            restore_clipboard: false,
            max_recording_seconds: default_max_recording_seconds(),
            inference_threads: 0,
        }
    }
}

/// The thread count inference runs with.
pub open spec fn inference_threads_for(configured: u32, available: Option<usize>) -> i32 {
    if configured > 0 {
        if configured > 32 {
            32
        } else {
            configured as i32
        }
    } else {
        match available {
            Some(n) => (if n / 2 >= 2 {
                n / 2
            } else {
                2
            }) as i32,
            None => 2,
        }
    }
}

/// Inference threads: a configured count is held to `1..=32`; with `0`
/// ("auto"), half the machine's available parallelism but at least two, or
/// two when it is unknown.
pub fn resolve_inference_threads(configured: u32, available: Option<usize>) -> (res: i32)
    ensures
        res == inference_threads_for(configured, available),
        configured > 0 ==> 1 <= res <= 32,
{
    if configured > 0 {
        if configured > 32 {
            32
        } else {
            configured as i32
        }
    } else {
        match available {
            Some(n) => {
                let half = n / 2;
                let t = if half >= 2 {
                    half
                } else {
                    2
                };
                t as i32
            },
            None => 2,
        }
    }
}

/// The first path among `found` that is present.
pub open spec fn first_found(found: Seq<Option<String>>) -> Option<Seq<char>>
    decreases found.len(),
{
    if found.len() == 0 {
        None
    } else {
        match found[0] {
            Some(p) => Some(p@),
            None => first_found(found.drop_first()),
        }
    }
}

/// The model paths after filling in unset ones: an empty speech-to-text
/// path takes `whisper_found`, an empty refinement path the first present
/// entry of `llm_found`; set paths stay.
pub open spec fn filled_paths(
    c: Config,
    whisper_found: Option<String>,
    llm_found: Seq<Option<String>>,
) -> (Seq<char>, Seq<char>) {
    let w = if c.whisper_model_path@.len() == 0 {
        match whisper_found {
            Some(p) => p@,
            None => c.whisper_model_path@,
        }
    } else {
        c.whisper_model_path@
    };
    let l = if c.llm_model_path@.len() == 0 {
        match first_found(llm_found) {
            Some(p) => p,
            None => c.llm_model_path@,
        }
    } else {
        c.llm_model_path@
    };
    (w, l)
}

/// Points unset model paths at models already in the data directory.
/// `whisper_found` is the default speech-to-text model's path when that file
/// exists; `llm_found` holds, in order of preference (`LLM_MODEL_FILE`, then
/// `LEGACY_LLM_MODEL_FILE`), each refinement model's path when it exists.
pub fn fill_model_paths(
    cfg: &mut Config,
    whisper_found: Option<String>,
    llm_found: &Vec<Option<String>>,
)
    ensures
        (final(cfg).whisper_model_path@, final(cfg).llm_model_path@) == filled_paths(
            *old(cfg),
            whisper_found,
            llm_found@,
        ),
        final(cfg).hotkey == old(cfg).hotkey,
        final(cfg).refine_prompt == old(cfg).refine_prompt,
        final(cfg).use_llm_refinement == old(cfg).use_llm_refinement,
        final(cfg).language == old(cfg).language,
        final(cfg).fast_paste == old(cfg).fast_paste,
        final(cfg).restore_clipboard == old(cfg).restore_clipboard,
        final(cfg).max_recording_seconds == old(cfg).max_recording_seconds,
        final(cfg).inference_threads == old(cfg).inference_threads,
{
    if text::string_chars(&cfg.whisper_model_path).len() == 0 {
        match whisper_found {
            Some(p) => {
                cfg.whisper_model_path = p;
            },
            None => {},
        }
    }
    if text::string_chars(&cfg.llm_model_path).len() == 0 {
        match first_found_path(llm_found) {
            Some(p) => {
                cfg.llm_model_path = p;
            },
            None => {},
        }
    }
}

fn first_found_path(found: &Vec<Option<String>>) -> (res: Option<String>)
    ensures
        match res {
            Some(p) => first_found(found@) == Some(p@),
            None => first_found(found@) is None,
        },
{
    let mut i: usize = 0;
    assert(found@.skip(0) =~= found@);
    while i < found.len()
        invariant
            i <= found.len(),
            first_found(found@) == first_found(found@.skip(i as int)),
        decreases found.len() - i,
    {
        assert(found@.skip(i as int).drop_first() =~= found@.skip(i + 1));
        match &found[i] {
            Some(p) => {
                return Some(p.clone());
            },
            None => {},
        }
        i = i + 1;
    }
    None
}

} // verus!
