use vstd::prelude::*;

pub mod text;
pub mod gguf;
pub mod quant;
pub mod meta;
pub mod schema;
pub mod spawn;
pub mod vram;
pub mod version;
pub mod models;
pub mod error;
pub mod logs;
pub mod status;
pub mod supervise;

verus! {
} // verus!
