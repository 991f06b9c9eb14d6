//! Self-contained executables: a host image with an embedded script and a
//! sixteen-byte trailer that lets the image recognise itself at start-up.

pub mod error;
pub mod image;
pub mod loader;
pub mod runner;
pub mod trailer;

pub use error::StandaloneError;
pub use image::{
    compose_image, create_standalone_binary, extract_payload, extract_script, ExistingOutput,
};
pub use loader::{EmbeddedModuleLoader, ModuleSource, SPECIFIER};
pub use runner::{
    build_config, create_web_worker, exit_code, first_phase, load_event_script, next_phase,
    script_args, try_run_standalone_binary, unload_event_script, Launch, Phase, RuntimeConfig,
};
pub use trailer::{decode_trailer, encode_trailer, magic_bytes, read_trailer};
