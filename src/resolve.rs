use vstd::prelude::*;

use crate::environment::{BuildEnv, EnvView, KindRule};
use crate::error::{missing_variable, text_result, ErrorView, OutputError};
use crate::text::{chars_of, contains, contains_exec, contains_segments, contains_segments_exec, join, join_segment};

verus! {

/// Whether the build was made for the host or for an explicitly named target.
#[derive(Clone, Copy, Debug, PartialEq, Eq, Structural)]
pub enum CompileKind {
    /// A native build: artifacts go to `<root>/<profile>`.
    Host,
    /// A build for an explicit target: artifacts go to `<root>/<triple>/<profile>`.
    Target,
}

/// The run of segments that a target build leaves in the output directory.
pub open spec fn kind_marker(triple: Seq<char>, profile: Seq<char>, sep: Seq<char>) -> Seq<char> {
    triple + sep + profile
}

/// Whether `out_dir` holds `pat`, searched as `rule` says.
pub open spec fn found(out_dir: Seq<char>, pat: Seq<char>, sep: Seq<char>, rule: KindRule) -> bool {
    match rule {
        KindRule::Substring => contains(out_dir, pat),
        KindRule::Segments => contains_segments(out_dir, pat, sep),
    }
}

/// The compile kind that the output directory `out_dir` shows.
pub open spec fn kind_of(
    out_dir: Seq<char>,
    triple: Seq<char>,
    profile: Seq<char>,
    sep: Seq<char>,
    rule: KindRule,
) -> CompileKind {
    if found(out_dir, kind_marker(triple, profile, sep), sep, rule) {
        CompileKind::Target
    } else {
        CompileKind::Host
    }
}

/// The artifact root without triple or profile: the explicit one if set,
/// else the project root's `target` directory.
pub open spec fn base_of(env: EnvView) -> Result<Seq<char>, ErrorView> {
    match env.target_dir {
        Some(d) => Ok(d),
        None => match env.project_root {
            Some(p) => Ok(join(p, "target"@, env.separator)),
            None => Err(ErrorView::ProjectRootNotFound),
        },
    }
}

/// The output directory under `base` for a build of the given kind.
pub open spec fn dir_for_kind(
    base: Seq<char>,
    triple: Seq<char>,
    profile: Seq<char>,
    sep: Seq<char>,
    kind: CompileKind,
) -> Seq<char> {
    match kind {
        CompileKind::Target => join(join(base, triple, sep), profile, sep),
        CompileKind::Host => join(base, profile, sep),
    }
}

/// The output directory for `profile` in the environment `env`, or why it
/// cannot be located. The base is looked at first, then the triple, then the
/// output directory of the build script.
pub open spec fn root_of(profile: Seq<char>, env: EnvView) -> Result<Seq<char>, ErrorView> {
    match base_of(env) {
        Err(e) => Err(e),
        Ok(base) => match env.target_triple {
            None => Err(ErrorView::EnvironmentVariableMissing("TARGET"@)),
            Some(triple) => match env.out_dir {
                None => Err(ErrorView::EnvironmentVariableMissing("OUT_DIR"@)),
                Some(out_dir) => Ok(
                    dir_for_kind(
                        base,
                        triple,
                        profile,
                        env.separator,
                        kind_of(out_dir, triple, profile, env.separator, env.rule),
                    ),
                ),
            },
        },
    }
}

/// Infers the compile kind from the output directory that the build tool
/// gave the build script: a target build leaves `<triple><sep><profile>` in it.
pub fn infer_compile_kind(
    out_dir: &str,
    triple: &str,
    profile: &str,
    sep: &str,
    rule: KindRule,
) -> (r: CompileKind)
    ensures
        r == kind_of(out_dir@, triple@, profile@, sep@, rule),
{
    let mut marker = String::from_str(triple);
    marker.append(sep);
    marker.append(profile);
    let hay = chars_of(out_dir);
    let pat = chars_of(marker.as_str());
    let hit = match rule {
        KindRule::Substring => contains_exec(&hay, &pat),
        KindRule::Segments => {
            let sep_chars = chars_of(sep);
            contains_segments_exec(&hay, &pat, &sep_chars)
        },
    };
    if hit {
        CompileKind::Target
    } else {
        CompileKind::Host
    }
}

/// The artifact root before triple and profile are added.
pub fn artifact_base(env: &BuildEnv) -> (r: Result<String, OutputError>)
    ensures
        text_result(r) == base_of(env@),
{
    match &env.target_dir {
        Some(d) => Ok(d.clone()),
        None => match &env.project_root {
            Some(p) => Ok(join_segment(p.as_str(), "target", env.separator.as_str())),
            None => Err(OutputError::ProjectRootNotFound),
        },
    }
}

/// Locates the directory where the build's artifacts for `profile` are placed.
/// The directory is neither checked nor created.
pub fn resolve_output_root(profile: &str, env: &BuildEnv) -> (r: Result<String, OutputError>)
    ensures
        text_result(r) == root_of(profile@, env@),
{
    let base = match artifact_base(env) {
        Ok(b) => b,
        Err(e) => return Err(e),
    };
    let triple = match &env.target_triple {
        Some(t) => t,
        None => return Err(missing_variable("TARGET")),
    };
    let out_dir = match &env.out_dir {
        Some(o) => o,
        None => return Err(missing_variable("OUT_DIR")),
    };
    let sep = env.separator.as_str();
    let kind = infer_compile_kind(out_dir.as_str(), triple.as_str(), profile, sep, env.rule);
    let dir = match kind {
        CompileKind::Target => {
            let with_triple = join_segment(base.as_str(), triple.as_str(), sep);
            join_segment(with_triple.as_str(), profile, sep)
        },
        CompileKind::Host => join_segment(base.as_str(), profile, sep),
    };
    Ok(dir)
}

/// Resolution depends on nothing but the profile, the explicit root (or,
/// without one, the project root), the triple, the output directory, the
/// separator and the matching rule: two environments that agree on these
/// resolve to the same path, whatever else they hold.
pub proof fn lemma_resolution_deterministic(profile: Seq<char>, a: EnvView, b: EnvView)
    requires
        a.target_dir == b.target_dir,
        a.target_dir is None ==> a.project_root == b.project_root,
        a.target_triple == b.target_triple,
        a.out_dir == b.out_dir,
        a.separator == b.separator,
        a.rule == b.rule,
    ensures
        root_of(profile, a) == root_of(profile, b),
{
}

/// When the output directory holds `<triple><sep><profile>` (as the rule
/// searches it), the triple is a segment of the result; when it does not,
/// the profile follows the base directly.
pub proof fn lemma_host_target_branching(profile: Seq<char>, env: EnvView)
    requires
        base_of(env) is Ok,
        env.target_triple is Some,
        env.out_dir is Some,
    ensures
        ({
            let base = base_of(env)->Ok_0;
            let triple = env.target_triple->Some_0;
            let out_dir = env.out_dir->Some_0;
            let sep = env.separator;
            &&& found(out_dir, kind_marker(triple, profile, sep), sep, env.rule) ==> root_of(profile, env)
                == Ok::<Seq<char>, ErrorView>(join(join(base, triple, sep), profile, sep))
            &&& !found(out_dir, kind_marker(triple, profile, sep), sep, env.rule) ==> root_of(
                profile,
                env,
            ) == Ok::<Seq<char>, ErrorView>(join(base, profile, sep))
        }),
{
}

/// An explicit artifact root is used verbatim as the base, and resolution
/// then succeeds whether or not a project root was found.
pub proof fn lemma_override_precedence(
    profile: Seq<char>,
    env: EnvView,
    root: Option<Seq<char>>,
)
    requires
        env.target_dir is Some,
        env.target_triple is Some,
        env.out_dir is Some,
    ensures
        base_of(env) == Ok::<Seq<char>, ErrorView>(env.target_dir->Some_0),
        root_of(profile, env) is Ok,
        root_of(profile, EnvView { project_root: root, ..env }) == root_of(profile, env),
{
}

} // verus!
