use std::path::Path;
use vstd::prelude::*;

use crate::copy::{path_text, path_to_str};
use crate::environment::{BuildEnv, EnvView};
use crate::error::{text_result, ErrorView, OutputError};

verus! {

/// The directive that tells the build tool to run the build script again
/// when `path` changes.
pub open spec fn directive_line(path: Seq<char>) -> Seq<char> {
    "cargo:rerun-if-changed="@ + path
}

/// The directive that restores change tracking of the whole project.
pub open spec fn project_directive(env: EnvView) -> Result<Seq<char>, ErrorView> {
    match env.project_root {
        Some(p) => Ok(directive_line(p)),
        None => Err(ErrorView::ProjectRootNotFound),
    }
}

/// The directive line for `path`; written to the build tool's output it
/// restricts change detection to the paths that were named this way. Each
/// call gives one line of its own.
pub fn cargo_rerun_if_changed(path: &str) -> (r: String)
    ensures
        r@ == directive_line(path@),
{
    let mut line = String::from_str("cargo:rerun-if-changed=");
    line.append(path);
    line
}

/// The directive line for the path `path`, or `InvalidPathEncoding` when it
/// is not valid Unicode.
pub fn cargo_rerun_if_path_changed(path: &Path) -> (r: Result<String, OutputError>)
    ensures
        match path_text(path) {
            Some(t) => text_result(r) == Ok::<Seq<char>, ErrorView>(directive_line(t)),
            None => text_result(r) == Err::<Seq<char>, ErrorView>(ErrorView::InvalidPathEncoding),
        },
{
    match path_to_str(path) {
        Ok(s) => Ok(cargo_rerun_if_changed(s)),
        Err(e) => Err(e),
    }
}

/// The directive line for the project root, which brings back change
/// tracking of the whole project.
pub fn cargo_rerun_if_project_changed(env: &BuildEnv) -> (r: Result<String, OutputError>)
    ensures
        text_result(r) == project_directive(env@),
{
    match &env.project_root {
        Some(p) => Ok(cargo_rerun_if_changed(p.as_str())),
        None => Err(OutputError::ProjectRootNotFound),
    }
}

/// A directive for a path without a line break is a single line: nothing
/// that it holds can end it early or start another.
pub proof fn lemma_directive_is_one_line(path: Seq<char>)
    requires
        forall|i: int| 0 <= i < path.len() ==> path[i] != '\n',
    ensures
        forall|i: int| 0 <= i < directive_line(path).len() ==> directive_line(path)[i] != '\n',
        directive_line(path).subrange(
            directive_line(path).len() - path.len(),
            directive_line(path).len() as int,
        ) == path,
{
    reveal_strlit("cargo:rerun-if-changed=");
    let line = directive_line(path);
    let prefix = "cargo:rerun-if-changed="@;
    assert forall|i: int| 0 <= i < line.len() implies line[i] != '\n' by {
        if i >= prefix.len() {
            assert(line[i] == path[i - prefix.len()]);
        }
    }
    assert(line.subrange(line.len() - path.len(), line.len() as int) =~= path);
}

} // verus!
