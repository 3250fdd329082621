use vstd::prelude::*;
use vstd::string::*;

use crate::artifacts::Artifacts;
use crate::artifacts::lib_names;
use crate::errors::BuildError;
use crate::paths::join;
use crate::paths::joined;
use crate::version::report_meets_floor;
use crate::version::version_floor_met;

verus! {

/// True when `pat` occurs contiguously in `s`.
pub open spec fn has_substring(s: Seq<char>, pat: Seq<char>) -> bool {
    exists|i: int| 0 <= i && i + pat.len() <= s.len() && #[trigger] s.subrange(i, i + pat.len())
        == pat
}

/// True of a target triple that names the assembly-constrained
/// toolchain family.
pub open spec fn constrained_toolchain(target: Seq<char>) -> bool {
    has_substring(target, "msvc"@)
}

/// Whether the four characters of `s` starting at `i` spell the
/// constrained-toolchain name.
fn msvc_at(s: &str, i: usize) -> (r: bool)
    requires
        i + 4 <= s@.len(),
        i + 4 <= usize::MAX,
    ensures
        r == (s@.subrange(i as int, i + 4) == "msvc"@),
{
    proof {
        reveal_strlit("msvc");
    }
    let r = s.get_char(i) == 'm' && s.get_char(i + 1) == 's' && s.get_char(i + 2) == 'v'
        && s.get_char(i + 3) == 'c';
    proof {
        if r {
            assert(s@.subrange(i as int, i + 4) =~= "msvc"@);
        } else {
            assert(s@.subrange(i as int, i + 4) != "msvc"@) by {
                if s@.subrange(i as int, i + 4) == "msvc"@ {
                    assert(s@[i as int] == "msvc"@[0]);
                    assert(s@[i + 1] == "msvc"@[1]);
                    assert(s@[i + 2] == "msvc"@[2]);
                    assert(s@[i + 3] == "msvc"@[3]);
                }
            }
        }
    }
    r
}

/// Whether a target triple names the assembly-constrained toolchain
/// family.
fn names_constrained_toolchain(target: &str) -> (r: bool)
    ensures
        r == constrained_toolchain(target@),
{
    proof {
        reveal_strlit("msvc");
    }
    let n = target.unicode_len();
    if n < 4 {
        return false;
    }
    let mut i: usize = 0;
    while i <= n - 4
        invariant
            4 <= n == target@.len(),
            i <= n - 3,
            forall|k: int| 0 <= k < i ==> #[trigger] target@.subrange(k, k + 4) != "msvc"@,
            "msvc"@.len() == 4,
        decreases n - i,
    {
        if msvc_at(target, i) {
            return true;
        }
        i += 1;
    }
    false
}

/// Configuration for one build of the vendored library: the output root
/// under which the artifacts are produced, and whether the target is
/// the assembly-constrained toolchain family. Mutable during setup,
/// read-only once a build is planned.
pub struct Build {
    out_dir: Option<String>,
    msvc: bool,
}

/// The ghost image of a `Step`, over character sequences.
pub enum SpecStep {
    ResetDir { path: Seq<char> },
    RunBuildTool { target: Seq<char> },
    CopyHeaders { from: Seq<char>, to: Seq<char> },
    RemoveDir { path: Seq<char> },
    RenameDir { from: Seq<char>, to: Seq<char> },
}

/// One action of a planned build, to be performed in plan order by the
/// embedding program. Each is an all-or-nothing filesystem transition:
/// a failure aborts the whole build.
pub enum Step {
    /// Remove the directory tree at `path` if it exists, then create it
    /// fresh: a build's transient trees are replaced, never merged.
    ResetDir { path: String },
    /// Run the external build tool against the vendored source for the
    /// named target. Whether assembly optimizations are disabled is
    /// decided by `Build::asm_disable_needed` before the first of these
    /// steps runs.
    RunBuildTool { target: String },
    /// Mirror the header tree at `from` into `to`, skipping
    /// version-control metadata as `headers::plan_header_copy` decides.
    CopyHeaders { from: String, to: String },
    /// Remove the directory tree at `path` if it exists.
    RemoveDir { path: String },
    /// Move the directory at `from` to `to`: an atomic rename, not a
    /// copy.
    RenameDir { from: String, to: String },
}

impl View for Step {
    type V = SpecStep;

    open spec fn view(&self) -> SpecStep {
        match self {
            Step::ResetDir { path } => SpecStep::ResetDir { path: path@ },
            Step::RunBuildTool { target } => SpecStep::RunBuildTool { target: target@ },
            Step::CopyHeaders { from, to } => SpecStep::CopyHeaders { from: from@, to: to@ },
            Step::RemoveDir { path } => SpecStep::RemoveDir { path: path@ },
            Step::RenameDir { from, to } => SpecStep::RenameDir { from: from@, to: to@ },
        }
    }
}

impl DeepView for Step {
    type V = SpecStep;

    open spec fn deep_view(&self) -> SpecStep {
        self.view()
    }
}

/// The ordered steps of a build at output root `root`, from the
/// vendored source tree at `source`, with build-tool profile `profile`:
/// reset the transient build tree, run the tool for the TLS target and
/// then the crypto target, reset `include/` and mirror the public
/// headers into it, and replace `lib/` by the build output — which on
/// the assembly-constrained family lives one level deeper, in a
/// profile-named subdirectory.
pub open spec fn plan_steps(
    root: Seq<char>,
    source: Seq<char>,
    profile: Seq<char>,
    msvc: bool,
) -> Seq<SpecStep> {
    let build_dir = joined(root, "build"@);
    let include_dir = joined(root, "include"@);
    let lib_dir = joined(root, "lib"@);
    let header_src = joined(joined(source, "src"@), "include"@);
    let rename_from = if msvc {
        joined(build_dir, profile)
    } else {
        build_dir
    };
    seq![
        SpecStep::ResetDir { path: build_dir },
        SpecStep::RunBuildTool { target: "ssl"@ },
        SpecStep::RunBuildTool { target: "crypto"@ },
        SpecStep::ResetDir { path: include_dir },
        SpecStep::CopyHeaders { from: header_src, to: include_dir },
        SpecStep::RemoveDir { path: lib_dir },
        SpecStep::RenameDir { from: rename_from, to: lib_dir },
    ]
}

/// What a successful plan promises: the steps, the artifact root and
/// the fixed library pair.
pub struct BuildPlan {
    /// The actions of the build, in the order they must run.
    pub steps: Vec<Step>,
    /// What the build yields once every step has succeeded. No
    /// half-populated output is described: the plan either runs whole
    /// or the caller aborts without exposing this value.
    pub artifacts: Artifacts,
}

impl Build {
    /// The configured output root.
    pub closed spec fn spec_out_dir(&self) -> Option<Seq<char>> {
        match self.out_dir {
            Some(p) => Some(p@),
            None => None,
        }
    }

    /// Whether the target is the assembly-constrained toolchain family.
    pub closed spec fn spec_msvc(&self) -> bool {
        self.msvc
    }

    /// A fresh configuration: no output root yet, not the
    /// assembly-constrained family.
    pub fn new() -> (b: Build)
        ensures
            b.spec_out_dir() is None,
            !b.spec_msvc(),
    {
        Build { out_dir: None, msvc: false }
    }

    /// Sets the output root under which `build/`, `include/` and `lib/`
    /// are produced.
    pub fn out_dir(&mut self, path: &str)
        ensures
            final(self).spec_out_dir() == Some(path@),
            final(self).spec_msvc() == old(self).spec_msvc(),
    {
        self.out_dir = Some(path.to_owned());
    }

    /// Records the target platform triple; the assembly special case
    /// applies exactly when it names the constrained toolchain family.
    pub fn target(&mut self, target: &str)
        ensures
            final(self).spec_msvc() == constrained_toolchain(target@),
            final(self).spec_out_dir() == old(self).spec_out_dir(),
    {
        self.msvc = names_constrained_toolchain(target);
    }

    /// Whether a build must probe the tool version and the assemblers
    /// before it runs: only the assembly-constrained family needs to.
    pub fn needs_asm_probe(&self) -> (r: bool)
        ensures
            r == self.spec_msvc(),
    {
        self.msvc
    }

    /// Decides whether the build must disable assembly optimizations.
    /// Only the assembly-constrained family is affected; there, the
    /// optimizations stay enabled exactly when the reported tool
    /// version meets the floor and one of the two recognized assemblers
    /// answered its probe.
    pub fn asm_disable_needed(&self, version_report: &str, yasm_ok: bool, nasm_ok: bool) -> (r:
        bool)
        ensures
            r == (self.spec_msvc() && !(version_floor_met(version_report@) && (yasm_ok
                || nasm_ok))),
    {
        if !self.msvc {
            return false;
        }
        let uptodate = report_meets_floor(version_report);
        if uptodate && (yasm_ok || nasm_ok) {
            false
        } else {
            true
        }
    }

    /// Plans the whole build. It fails exactly when no output root is
    /// configured, and it fails first: nothing touches the filesystem
    /// or spawns a process before this check, since the returned plan
    /// is what the embedding program executes. `source` is the root of
    /// the vendored source tree; `profile` the build-tool profile name,
    /// used on the assembly-constrained family where the build output
    /// lives in a profile-named subdirectory.
    pub fn build(&self, source: &str, profile: &str) -> (r: Result<BuildPlan, BuildError>)
        ensures
            r is Ok <==> self.spec_out_dir() is Some,
            r is Err ==> r->Err_0 == BuildError::MissingOutputDir,
            r is Ok ==> r->Ok_0.steps.deep_view() == plan_steps(
                self.spec_out_dir()->Some_0,
                source@,
                profile@,
                self.spec_msvc(),
            ),
            r is Ok ==> r->Ok_0.artifacts.spec_root() == self.spec_out_dir()->Some_0,
            r is Ok ==> r->Ok_0.artifacts.spec_libs() == lib_names(),
    {
        let root = match &self.out_dir {
            Some(r) => r,
            None => {
                return Err(BuildError::MissingOutputDir);
            },
        };
        let build_dir = join(root.as_str(), "build");
        let include_dir = join(root.as_str(), "include");
        let lib_dir = join(root.as_str(), "lib");
        let source_src = join(source, "src");
        let header_src = join(source_src.as_str(), "include");
        let rename_from = if self.msvc {
            join(build_dir.as_str(), profile)
        } else {
            build_dir.clone()
        };
        let mut steps: Vec<Step> = Vec::new();
        steps.push(Step::ResetDir { path: build_dir });
        steps.push(Step::RunBuildTool { target: "ssl".to_owned() });
        steps.push(Step::RunBuildTool { target: "crypto".to_owned() });
        steps.push(Step::ResetDir { path: include_dir.clone() });
        steps.push(Step::CopyHeaders { from: header_src, to: include_dir });
        steps.push(Step::RemoveDir { path: lib_dir.clone() });
        steps.push(Step::RenameDir { from: rename_from, to: lib_dir });
        proof {
            assert(steps.deep_view() =~= plan_steps(
                self.spec_out_dir()->Some_0,
                source@,
                profile@,
                self.spec_msvc(),
            ));
        }
        let artifacts = Artifacts::from_build(root.clone());
        Ok(BuildPlan { steps, artifacts })
    }
}

/// A planned build replaces its outputs rather than merging into them:
/// the transient build tree is reset before the tool runs, the header
/// tree is reset before it is populated, and the prior `lib/` is
/// removed before the build output is moved into its place. Together
/// with the fixed plan above, re-running a build with the same
/// configuration replays the same replacements, so nothing of a
/// previous run survives into the new trees.
pub proof fn lemma_plan_replaces_outputs(
    root: Seq<char>,
    source: Seq<char>,
    profile: Seq<char>,
    msvc: bool,
)
    ensures
        ({
            let s = plan_steps(root, source, profile, msvc);
            &&& s.len() == 7
            &&& s[0] == SpecStep::ResetDir { path: joined(root, "build"@) }
            &&& (s[4] matches SpecStep::CopyHeaders { from: _, to: dest } && s[3]
                == SpecStep::ResetDir { path: dest })
            &&& (s[6] matches SpecStep::RenameDir { from: _, to: dest } && s[5]
                == SpecStep::RemoveDir { path: dest })
        }),
{
}

} // verus!
