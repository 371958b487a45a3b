use vstd::prelude::*;
use crate::paths::{join_path, join_spec, BackendLocation};

verus! {

/// How the backend is invoked.
pub struct RuntimePlan {
    pub executable: String,
    pub arguments: Vec<String>,
    /// The prepared dependency environment, present only when the isolated runner is used.
    pub isolated_environment: Option<String>,
}

/// The isolated-dependency runner looked for on the system path.
pub open spec fn runner_name() -> Seq<char> {
    "uv"@
}

/// The system interpreter.
pub open spec fn interpreter_name() -> Seq<char> {
    "python3"@
}

/// Name of the isolated environment's directory under the temporary directory.
pub open spec fn environment_dir_name() -> Seq<char> {
    "backend-venv"@
}

/// The isolated environment's fixed location under `temp_dir`.
pub open spec fn environment_path_spec(temp_dir: Seq<char>) -> Seq<char> {
    join_spec(temp_dir, environment_dir_name())
}

/// The texts of a list of strings.
pub open spec fn texts(v: Seq<String>) -> Seq<Seq<char>> {
    v.map_values(|s: String| s@)
}

/// Arguments of a run through the isolated runner with the system interpreter.
pub open spec fn runner_arguments_spec(entry: Seq<char>) -> Seq<Seq<char>> {
    seq!["run"@, "--python"@, interpreter_name(), entry]
}

/// Arguments that create the isolated environment with system packages visible.
pub open spec fn creation_arguments_spec(path: Seq<char>) -> Seq<Seq<char>> {
    seq!["venv"@, "--system-site-packages"@, path]
}

/// The plan that `select_runtime` builds.
pub open spec fn plan_matches(
    plan: RuntimePlan,
    entry: Seq<char>,
    runner_available: bool,
    temp_dir: Seq<char>,
) -> bool {
    if runner_available {
        &&& plan.executable@ == runner_name()
        &&& texts(plan.arguments@) == runner_arguments_spec(entry)
        &&& plan.isolated_environment matches Some(p) && p@ == environment_path_spec(temp_dir)
    } else {
        &&& plan.executable@ == interpreter_name()
        &&& texts(plan.arguments@) == seq![entry]
        &&& plan.isolated_environment is None
    }
}

/// The invocation plan for the backend at `location`: through the isolated
/// runner when `runner_available`, scoped to a fixed environment under
/// `temp_dir`; otherwise the bare system interpreter. It never fails.
pub fn select_runtime(location: &BackendLocation, runner_available: bool, temp_dir: &str) -> (r: RuntimePlan)
    ensures
        plan_matches(r, location.entry_path@, runner_available, temp_dir@),
{
    let entry = location.entry_path.clone();
    let mut arguments: Vec<String> = Vec::new();
    if runner_available {
        arguments.push(String::from_str("run"));
        arguments.push(String::from_str("--python"));
        arguments.push(String::from_str("python3"));
        arguments.push(entry);
        let r = RuntimePlan {
            executable: String::from_str("uv"),
            arguments,
            isolated_environment: Some(join_path(temp_dir, "backend-venv")),
        };
        assert(texts(r.arguments@) =~= runner_arguments_spec(location.entry_path@));
        r
    } else {
        arguments.push(entry);
        let r = RuntimePlan { executable: String::from_str("python3"), arguments, isolated_environment: None };
        assert(texts(r.arguments@) =~= seq![location.entry_path@]);
        r
    }
}

/// The runner invocation that creates the isolated environment at `path` with
/// system-wide packages visible; used only when the environment is missing,
/// and its failure is tolerated.
pub fn creation_plan(path: &str) -> (r: RuntimePlan)
    ensures
        r.executable@ == runner_name(),
        texts(r.arguments@) == creation_arguments_spec(path@),
        r.isolated_environment is None,
{
    let mut arguments: Vec<String> = Vec::new();
    arguments.push(String::from_str("venv"));
    arguments.push(String::from_str("--system-site-packages"));
    arguments.push(String::from_str(path));
    let r = RuntimePlan { executable: String::from_str("uv"), arguments, isolated_environment: None };
    assert(texts(r.arguments@) =~= creation_arguments_spec(path@));
    r
}

/// Whether the isolated environment of `plan` still has to be created, given
/// whether its directory exists.
pub fn needs_creation(plan: &RuntimePlan, environment_exists: bool) -> (r: bool)
    ensures
        r == (plan.isolated_environment is Some && !environment_exists),
{
    plan.isolated_environment.is_some() && !environment_exists
}

} // verus!
