use vstd::prelude::*;
use vstd::string::StringExecFns;

verus! {

/// The frontend's subdirectory, joined to the project root.
pub const FRONTEND_SUBDIR: &'static str = "/client";

/// The frontend source directory, relative to the project root.
pub const FRONTEND_SOURCES: &'static str = "client/src/";

/// The frontend static-assets directory, relative to the project root.
pub const FRONTEND_ASSETS: &'static str = "client/static/";

/// The package-script runner that builds the frontend.
pub const BUILD_PROGRAM: &'static str = "npm";

/// The words of the directive that declares a build-invalidation trigger.
pub const RERUN_PREFIX: &'static str = "cargo::rerun-if-changed=";

/// What the build hook does on one invocation: declare the watched paths,
/// then run `program args` in `working_dir`.
pub struct BuildPlan {
    pub watched: Vec<String>,
    pub working_dir: String,
    pub program: String,
    pub args: Vec<String>,
}

/// Why the build hook fails the build.
#[derive(Clone, Copy, Debug, PartialEq, Eq, Structural)]
pub enum BuildError {
    /// The environment gave no project-root path.
    MissingProjectRoot,
    /// The frontend build command could not be started.
    SpawnFailed,
}

/// The texts of a list of strings.
pub open spec fn texts(v: Seq<String>) -> Seq<Seq<char>> {
    v.map_values(|s: String| s@)
}

/// The two paths whose change makes the build hook run again.
pub open spec fn watched_paths() -> Seq<Seq<char>> {
    seq!["client/src/"@, "client/static/"@]
}

/// The arguments handed to the package-script runner.
pub open spec fn build_args() -> Seq<Seq<char>> {
    seq!["run"@, "build"@]
}

/// The plan of the build hook for a project rooted at `root`: the same for
/// every invocation, whatever ran before.
pub open spec fn is_plan_for(p: BuildPlan, root: Seq<char>) -> bool {
    &&& texts(p.watched@) == watched_paths()
    &&& p.working_dir@ == root + "/client"@
    &&& p.program@ == "npm"@
    &&& texts(p.args@) == build_args()
}

/// The directive that tells the outer build system to run the hook again
/// when `path` changes.
pub fn rerun_directive(path: &str) -> (r: String)
    ensures
        r@ == "cargo::rerun-if-changed="@ + path@,
{
    let mut line = String::from_str(RERUN_PREFIX);
    line.append(path);
    line
}

/// Plans one invocation of the build hook from the project-root path that
/// the environment gave, if any. Without it the build fails before any
/// command runs.
pub fn build_plan(project_root: Option<&str>) -> (r: Result<BuildPlan, BuildError>)
    ensures
        project_root is None ==> r == Err::<BuildPlan, BuildError>(BuildError::MissingProjectRoot),
        project_root matches Some(root) ==> (r matches Ok(p) && is_plan_for(p, root@)),
{
    match project_root {
        None => Err(BuildError::MissingProjectRoot),
        Some(root) => {
            let watched = vec![String::from_str(FRONTEND_SOURCES), String::from_str(FRONTEND_ASSETS)];
            let mut working_dir = String::from_str(root);
            working_dir.append(FRONTEND_SUBDIR);
            let args = vec![String::from_str("run"), String::from_str("build")];
            let p = BuildPlan { watched, working_dir, program: String::from_str(BUILD_PROGRAM), args };
            assert(texts(p.watched@) =~= watched_paths());
            assert(texts(p.args@) =~= build_args());
            Ok(p)
        },
    }
}

/// What the hook does once the command has been tried: a command that could
/// not be started fails the build; the exit status of one that ran is not
/// consulted.
pub fn command_outcome(spawned: bool) -> (r: Result<(), BuildError>)
    ensures
        r == (if spawned {
            Ok::<(), BuildError>(())
        } else {
            Err::<(), BuildError>(BuildError::SpawnFailed)
        }),
{
    if spawned {
        Ok(())
    } else {
        Err(BuildError::SpawnFailed)
    }
}

/// Every invocation with a project root plans the frontend build command:
/// nothing is cached between invocations, so an unchanged source directory
/// does not skip it.
pub proof fn lemma_every_invocation_runs_build(p1: BuildPlan, p2: BuildPlan, root: Seq<char>)
    requires
        is_plan_for(p1, root),
        is_plan_for(p2, root),
    ensures
        p1.program@ == "npm"@,
        texts(p1.args@) == seq!["run"@, "build"@],
        p1.program@ == p2.program@,
        texts(p1.args@) == texts(p2.args@),
        p1.working_dir@ == p2.working_dir@,
{
}

} // verus!
