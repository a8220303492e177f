use vstd::prelude::*;

verus! {

/// How the build tool's output directory is searched for the run of
/// segments `<triple><separator><profile>`.
#[derive(Clone, Copy, Debug, PartialEq, Eq, Structural)]
pub enum KindRule {
    /// Anywhere in the text, as a plain substring.
    Substring,
    /// Only as whole segments: a separator or an end of the text on each side.
    Segments,
}

/// A read of the build environment, taken once per call.
#[derive(Clone, Debug)]
pub struct BuildEnv {
    /// The build profile (`PROFILE`).
    pub profile: Option<String>,
    /// The output directory that the build tool assigned to the build script (`OUT_DIR`).
    pub out_dir: Option<String>,
    /// An explicit artifact root (`CARGO_TARGET_DIR`).
    pub target_dir: Option<String>,
    /// The target triple of the build (`TARGET`).
    pub target_triple: Option<String>,
    /// The nearest directory above the working directory that holds the
    /// project's lock file, if one was found.
    pub project_root: Option<String>,
    /// The separator of path segments on this platform.
    pub separator: String,
    /// How the compile kind is inferred.
    pub rule: KindRule,
}

/// The mathematical value of a [`BuildEnv`].
pub struct EnvView {
    pub profile: Option<Seq<char>>,
    pub out_dir: Option<Seq<char>>,
    pub target_dir: Option<Seq<char>>,
    pub target_triple: Option<Seq<char>>,
    pub project_root: Option<Seq<char>>,
    pub separator: Seq<char>,
    pub rule: KindRule,
}

/// The text of an optional string.
pub open spec fn opt_text(o: Option<String>) -> Option<Seq<char>> {
    match o {
        Some(s) => Some(s@),
        None => None,
    }
}

impl View for BuildEnv {
    type V = EnvView;

    open spec fn view(&self) -> EnvView {
        EnvView {
            profile: opt_text(self.profile),
            out_dir: opt_text(self.out_dir),
            target_dir: opt_text(self.target_dir),
            target_triple: opt_text(self.target_triple),
            project_root: opt_text(self.project_root),
            separator: self.separator@,
            rule: self.rule,
        }
    }
}

} // verus!
