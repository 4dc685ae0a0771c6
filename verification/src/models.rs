//! The downloadable default models: where each comes from, where it is
//! kept, whether the user already has it, and how a download reports
//! progress and is wired into the settings.
use vstd::prelude::*;

use crate::config::Config;
use crate::text;

verus! {

/// Which of the two models.
#[derive(Clone, Copy, Debug, PartialEq, Eq, Structural)]
pub enum ModelKind {
    /// The speech-to-text model.
    Whisper,
    /// The refinement language model.
    Llm,
}

pub open spec fn kind_url(kind: ModelKind) -> Seq<char> {
    match kind {
        ModelKind::Whisper => "https://huggingface.co/ggerganov/whisper.cpp/resolve/main/ggml-base.en.bin"@,
        ModelKind::Llm => "https://huggingface.co/unsloth/gemma-4-E4B-it-GGUF/resolve/main/gemma-4-E4B-it-Q4_K_M.gguf"@,
    }
}

pub open spec fn kind_filename(kind: ModelKind) -> Seq<char> {
    match kind {
        ModelKind::Whisper => "ggml-base.en.bin"@,
        ModelKind::Llm => "gemma-4-E4B-it-Q4_K_M.gguf"@,
    }
}

pub open spec fn kind_key(kind: ModelKind) -> Seq<char> {
    match kind {
        ModelKind::Whisper => "whisper"@,
        ModelKind::Llm => "llm"@,
    }
}

impl ModelKind {
    /// Where the model is downloaded from.
    pub fn url(self) -> (res: &'static str)
        ensures
            res@ == kind_url(self),
    {
        match self {
            ModelKind::Whisper => "https://huggingface.co/ggerganov/whisper.cpp/resolve/main/ggml-base.en.bin",
            ModelKind::Llm => "https://huggingface.co/unsloth/gemma-4-E4B-it-GGUF/resolve/main/gemma-4-E4B-it-Q4_K_M.gguf",
        }
    }

    /// The model's file name in the models directory.
    pub fn filename(self) -> (res: &'static str)
        ensures
            res@ == kind_filename(self),
    {
        match self {
            ModelKind::Whisper => "ggml-base.en.bin",
            ModelKind::Llm => "gemma-4-E4B-it-Q4_K_M.gguf",
        }
    }

    /// The key the settings window knows the model by.
    pub fn key(self) -> (res: &'static str)
        ensures
            res@ == kind_key(self),
    {
        match self {
            ModelKind::Whisper => "whisper",
            ModelKind::Llm => "llm",
        }
    }
}

/// What the settings window shows about a model.
#[derive(Clone, Debug)]
pub struct ModelStatus {
    pub key: &'static str,
    pub filename: &'static str,
    pub path: String,
    pub exists: bool,
    pub size: u64,
}

/// `dir` joined with the relative file name `name`: a `/` goes between
/// them unless `dir` is empty or already ends in one.
pub open spec fn path_join(dir: Seq<char>, name: Seq<char>) -> Seq<char> {
    if dir.len() == 0 || dir.last() == '/' {
        dir + name
    } else {
        dir + seq!['/'] + name
    }
}

/// Where a model of `kind` is kept inside the models directory `models_dir`.
pub fn model_path(models_dir: &str, kind: ModelKind) -> (res: String)
    ensures
        res@ == path_join(models_dir@, kind_filename(kind)),
{
    let mut v = text::chars_of(models_dir);
    let mut name = text::chars_of(kind.filename());
    if v.len() > 0 && v[v.len() - 1] == '/' {
        v.append(&mut name);
    } else if v.len() == 0 {
        v.append(&mut name);
    } else {
        v.push('/');
        v.append(&mut name);
    }
    text::string_from_chars(&v)
}

/// Path, presence and size reported for a model: a configured path that
/// exists wins; otherwise the default location when it exists; otherwise
/// the configured path (or, with none configured, the default location) as
/// missing with size zero. `*_size` is the file's size when it exists.
pub open spec fn status_of(
    configured: Seq<char>,
    configured_size: Option<u64>,
    default_path: Seq<char>,
    default_size: Option<u64>,
) -> (Seq<char>, bool, u64) {
    if configured.len() != 0 {
        match configured_size {
            Some(n) => (configured, true, n),
            None => match default_size {
                Some(n) => (default_path, true, n),
                None => (configured, false, 0),
            },
        }
    } else {
        match default_size {
            Some(n) => (default_path, true, n),
            None => (default_path, false, 0),
        }
    }
}

pub open spec fn status_matches(s: ModelStatus, kind: ModelKind, r: (Seq<char>, bool, u64)) -> bool {
    &&& s.key@ == kind_key(kind)
    &&& s.filename@ == kind_filename(kind)
    &&& s.path@ == r.0
    &&& s.exists == r.1
    &&& s.size == r.2
}

/// The status of the model at its default location `default_path`, whose
/// size is `default_size` when the file exists.
pub fn status(kind: ModelKind, default_path: &str, default_size: Option<u64>) -> (res: ModelStatus)
    ensures
        status_matches(res, kind, status_of(Seq::<char>::empty(), None, default_path@, default_size)),
{
    proof {
        reveal_strlit("");
    }
    status_with_config(kind, "", None, default_path, default_size)
}

/// Like `status`, but a configured path that points at an existing file
/// (size `configured_size`) also counts as installed, so a model the user
/// supplied is not offered for download again.
pub fn status_with_config(
    kind: ModelKind,
    configured_path: &str,
    configured_size: Option<u64>,
    default_path: &str,
    default_size: Option<u64>,
) -> (res: ModelStatus)
    ensures
        status_matches(
            res,
            kind,
            status_of(configured_path@, configured_size, default_path@, default_size),
        ),
{
    let configured = text::chars_of(configured_path);
    let (path, exists, size) = if configured.len() != 0 {
        match configured_size {
            Some(n) => (text::owned(configured_path), true, n),
            None => match default_size {
                Some(n) => (text::owned(default_path), true, n),
                None => (text::owned(configured_path), false, 0),
            },
        }
    } else {
        match default_size {
            Some(n) => (text::owned(default_path), true, n),
            None => (text::owned(default_path), false, 0),
        }
    };
    ModelStatus { key: kind.key(), filename: kind.filename(), path, exists, size }
}

/// With nothing configured, the configured path's size is never consulted:
/// `status` is `status_with_config` with an empty configured path.
pub proof fn law_status_is_unconfigured_status(
    configured_size: Option<u64>,
    default_path: Seq<char>,
    default_size: Option<u64>,
)
    ensures
        status_of(Seq::<char>::empty(), configured_size, default_path, default_size) == status_of(
            Seq::<char>::empty(),
            None,
            default_path,
            default_size,
        ),
{
}

/// An existing model file that makes a download unnecessary: the configured
/// path when set and present, else the default location when present.
pub open spec fn existing_model(
    configured: Seq<char>,
    configured_exists: bool,
    default_path: Seq<char>,
    default_exists: bool,
) -> Option<Seq<char>> {
    if configured.len() != 0 && configured_exists {
        Some(configured)
    } else if default_exists {
        Some(default_path)
    } else {
        None
    }
}

/// The model file already on disk, if any, for a download request.
pub fn existing_model_path(
    configured: &str,
    configured_exists: bool,
    default_path: &str,
    default_exists: bool,
) -> (res: Option<String>)
    ensures
        match res {
            Some(p) => existing_model(configured@, configured_exists, default_path@, default_exists)
                == Some(p@),
            None => existing_model(configured@, configured_exists, default_path@, default_exists)
                is None,
        },
{
    let c = text::chars_of(configured);
    if c.len() != 0 && configured_exists {
        Some(text::owned(configured))
    } else if default_exists {
        Some(text::owned(default_path))
    } else {
        None
    }
}

/// Records a freshly downloaded model in the settings when no path is set
/// for its kind; returns whether the settings changed.
pub fn record_downloaded_model(cfg: &mut Config, kind: ModelKind, path: &str) -> (changed: bool)
    ensures
        changed == (match kind {
            ModelKind::Whisper => old(cfg).whisper_model_path@.len() == 0,
            ModelKind::Llm => old(cfg).llm_model_path@.len() == 0,
        }),
        final(cfg).whisper_model_path@ == (if changed && kind == ModelKind::Whisper {
            path@
        } else {
            old(cfg).whisper_model_path@
        }),
        final(cfg).llm_model_path@ == (if changed && kind == ModelKind::Llm {
            path@
        } else {
            old(cfg).llm_model_path@
        }),
        final(cfg).hotkey == old(cfg).hotkey,
        final(cfg).refine_prompt == old(cfg).refine_prompt,
        final(cfg).use_llm_refinement == old(cfg).use_llm_refinement,
        final(cfg).language == old(cfg).language,
        final(cfg).fast_paste == old(cfg).fast_paste,
        final(cfg).restore_clipboard == old(cfg).restore_clipboard,
        final(cfg).max_recording_seconds == old(cfg).max_recording_seconds,
        final(cfg).inference_threads == old(cfg).inference_threads,
{
    match kind {
        ModelKind::Whisper => {
            if text::string_chars(&cfg.whisper_model_path).len() == 0 {
                cfg.whisper_model_path = text::owned(path);
                true
            } else {
                false
            }
        },
        ModelKind::Llm => {
            if text::string_chars(&cfg.llm_model_path).len() == 0 {
                cfg.llm_model_path = text::owned(path);
                true
            } else {
                false
            }
        },
    }
}

/// Bytes downloaded between two progress reports, at most.
pub const PROGRESS_STEP: u64 = 262144;

/// Whether a download that has `downloaded` bytes, last reported at
/// `last_emit` bytes, reports progress now: after more than 256 KiB since
/// the last report, or when it reaches the announced `total`.
pub fn should_emit_progress(downloaded: u64, last_emit: u64, total: u64) -> (res: bool)
    requires
        last_emit <= downloaded,
    ensures
        res == (downloaded - last_emit > PROGRESS_STEP || downloaded == total),
{
    downloaded - last_emit > PROGRESS_STEP || downloaded == total
}

} // verus!
