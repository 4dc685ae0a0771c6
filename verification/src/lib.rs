use vstd::prelude::*;

pub mod text;
pub mod version;
pub mod transcript;
pub mod refine;
pub mod hotkey;
pub mod config;
pub mod models;
pub mod pipeline;
pub mod engines;
pub mod ui;
pub mod injector;
pub mod fn_hotkey;
pub mod audio;

verus! {

} // verus!
