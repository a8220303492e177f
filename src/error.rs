use vstd::prelude::*;

verus! {

/// Why an artifact root could not be located or filled.
#[derive(Clone, Debug, PartialEq, Eq)]
pub enum OutputError {
    /// A variable that the build tool sets was not set.
    EnvironmentVariableMissing { name: String },
    /// No directory above the working directory holds the project's manifest.
    ProjectRootNotFound,
    /// A path is not valid Unicode text.
    InvalidPathEncoding,
    /// The recursive copy failed; `cause` describes why.
    CopyFailed { cause: String },
}

/// The mathematical value of an [`OutputError`].
pub enum ErrorView {
    EnvironmentVariableMissing(Seq<char>),
    ProjectRootNotFound,
    InvalidPathEncoding,
    CopyFailed(Seq<char>),
}

impl View for OutputError {
    type V = ErrorView;

    open spec fn view(&self) -> ErrorView {
        match self {
            OutputError::EnvironmentVariableMissing { name } => ErrorView::EnvironmentVariableMissing(
                name@,
            ),
            OutputError::ProjectRootNotFound => ErrorView::ProjectRootNotFound,
            OutputError::InvalidPathEncoding => ErrorView::InvalidPathEncoding,
            OutputError::CopyFailed { cause } => ErrorView::CopyFailed(cause@),
        }
    }
}

/// The mathematical value of a result that carries text.
pub open spec fn text_result(r: Result<String, OutputError>) -> Result<Seq<char>, ErrorView> {
    match r {
        Ok(s) => Ok(s@),
        Err(e) => Err(e@),
    }
}

/// The error for a variable `name` that is not set.
pub fn missing_variable(name: &str) -> (r: OutputError)
    ensures
        r@ == ErrorView::EnvironmentVariableMissing(name@),
{
    OutputError::EnvironmentVariableMissing { name: String::from_str(name) }
}

} // verus!
