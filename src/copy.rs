use std::path::Path;
use vstd::prelude::*;

use crate::environment::{BuildEnv, EnvView};
use crate::error::{missing_variable, ErrorView, OutputError};
use crate::resolve::{resolve_output_root, root_of};

verus! {

/// Declares `std::path::Path`, so that paths can be taken as arguments and
/// handed to `Path::to_str`; nothing inside one is visible to proofs.
#[verifier::external_type_specification]
#[verifier::external_body]
pub struct ExPath(Path);

/// The text of a path, when the path is valid Unicode.
pub uninterp spec fn path_text(p: &Path) -> Option<Seq<char>>;

/// Relies on `Path::to_str`: the path as text, or `None` when it is not
/// valid Unicode.
#[verifier::external_body]
fn path_as_str(p: &Path) -> (r: Option<&str>)
    ensures
        match r {
            Some(s) => path_text(p) == Some(s@),
            None => path_text(p) is None,
        },
{
    p.to_str()
}

/// A recursive copy of `source` into `destination`, ready to be carried out.
#[derive(Clone, Debug, PartialEq, Eq)]
pub struct CopyRequest {
    /// The file or directory to copy.
    pub source: String,
    /// The directory that receives it.
    pub destination: String,
    /// Whether entries that already exist at the destination are replaced.
    pub overwrite: bool,
    /// Whether a directory that does not exist yet at the destination is
    /// created with the source's contents, rather than holding a copy of it.
    pub copy_inside: bool,
}

/// The mathematical value of a [`CopyRequest`].
pub struct RequestView {
    pub source: Seq<char>,
    pub destination: Seq<char>,
    pub overwrite: bool,
    pub copy_inside: bool,
}

impl View for CopyRequest {
    type V = RequestView;

    open spec fn view(&self) -> RequestView {
        RequestView {
            source: self.source@,
            destination: self.destination@,
            overwrite: self.overwrite,
            copy_inside: self.copy_inside,
        }
    }
}

/// The mathematical value of a result that carries a copy request.
pub open spec fn request_result(r: Result<CopyRequest, OutputError>) -> Result<
    RequestView,
    ErrorView,
> {
    match r {
        Ok(q) => Ok(q@),
        Err(e) => Err(e@),
    }
}

/// The copy of `source` into the output directory for `profile`: existing
/// entries are overwritten and the contents go inside the destination.
pub open spec fn request_for_profile(source: Seq<char>, profile: Seq<char>, env: EnvView) -> Result<
    RequestView,
    ErrorView,
> {
    match root_of(profile, env) {
        Ok(d) => Ok(RequestView { source, destination: d, overwrite: true, copy_inside: true }),
        Err(e) => Err(e),
    }
}

/// The copy of `source` into the output directory for the environment's profile.
pub open spec fn request_for_env(source: Seq<char>, env: EnvView) -> Result<RequestView, ErrorView> {
    match env.profile {
        Some(p) => request_for_profile(source, p, env),
        None => Err(ErrorView::EnvironmentVariableMissing("PROFILE"@)),
    }
}

/// The text of `path`, or `InvalidPathEncoding` when it is not valid Unicode.
pub fn path_to_str(path: &Path) -> (r: Result<&str, OutputError>)
    ensures
        match path_text(path) {
            Some(t) => r matches Ok(s) && s@ == t,
            None => r matches Err(e) && e@ == ErrorView::InvalidPathEncoding,
        },
{
    match path_as_str(path) {
        Some(s) => Ok(s),
        None => Err(OutputError::InvalidPathEncoding),
    }
}

/// Prepares the recursive copy of `path` into the output directory for `profile`.
pub fn copy_to_output_for_profile(path: &str, profile: &str, env: &BuildEnv) -> (r: Result<
    CopyRequest,
    OutputError,
>)
    ensures
        request_result(r) == request_for_profile(path@, profile@, env@),
{
    match resolve_output_root(profile, env) {
        Ok(destination) => Ok(
            CopyRequest {
                source: String::from_str(path),
                destination,
                overwrite: true,
                copy_inside: true,
            },
        ),
        Err(e) => Err(e),
    }
}

/// Prepares the recursive copy of `path` into the output directory for the
/// environment's profile.
pub fn copy_to_output(path: &str, env: &BuildEnv) -> (r: Result<CopyRequest, OutputError>)
    ensures
        request_result(r) == request_for_env(path@, env@),
{
    match &env.profile {
        Some(p) => copy_to_output_for_profile(path, p.as_str(), env),
        None => Err(missing_variable("PROFILE")),
    }
}

/// Prepares the recursive copy of the file or directory at `path` into the
/// output directory for the environment's profile.
pub fn copy_to_output_by_path(path: &Path, env: &BuildEnv) -> (r: Result<CopyRequest, OutputError>)
    ensures
        match path_text(path) {
            Some(t) => request_result(r) == request_for_env(t, env@),
            None => request_result(r) == Err::<RequestView, ErrorView>(
                ErrorView::InvalidPathEncoding,
            ),
        },
{
    match path_to_str(path) {
        Ok(s) => copy_to_output(s, env),
        Err(e) => Err(e),
    }
}

/// Prepares the recursive copy of the file or directory at `path` into the
/// output directory for `profile`.
pub fn copy_to_output_by_path_for_profile(path: &Path, profile: &str, env: &BuildEnv) -> (r: Result<
    CopyRequest,
    OutputError,
>)
    ensures
        match path_text(path) {
            Some(t) => request_result(r) == request_for_profile(t, profile@, env@),
            None => request_result(r) == Err::<RequestView, ErrorView>(
                ErrorView::InvalidPathEncoding,
            ),
        },
{
    match path_to_str(path) {
        Ok(s) => copy_to_output_for_profile(s, profile, env),
        Err(e) => Err(e),
    }
}

} // verus!
