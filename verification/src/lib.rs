//! Verified logic of an edge function runtime.

pub mod text;
pub mod urls;
pub mod import_maps;
pub mod import_map_laws;
pub mod options;
pub mod errors;
pub mod startup;
pub mod startup_steps;
pub mod run;
pub mod deno_runtime;
pub mod laws;
pub mod emitter;
