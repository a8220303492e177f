//! Locates the directory where a build places its artifacts, and prepares the
//! copy of resources into it.
//!
//! The artifact root is rebuilt from a snapshot of the build environment:
//! an explicit target directory wins over `<project root>/target`, the target
//! triple is added when the build was made for an explicit target, and the
//! profile comes last. Everything here is computed from plain values; reading
//! the environment, walking the file system and copying files is left to the
//! caller.

pub mod copy;
pub mod directive;
pub mod environment;
pub mod error;
pub mod resolve;
pub mod text;

pub use error::{ErrorView, OutputError};
pub use environment::{BuildEnv, EnvView, KindRule};
pub use resolve::{infer_compile_kind, resolve_output_root, CompileKind};
pub use copy::{
    copy_to_output, copy_to_output_by_path, copy_to_output_by_path_for_profile,
    copy_to_output_for_profile, path_to_str, CopyRequest, RequestView,
};
pub use directive::{
    cargo_rerun_if_changed, cargo_rerun_if_path_changed, cargo_rerun_if_project_changed,
};
