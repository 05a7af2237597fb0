//! Projects, their tasks, and how the registry is built from what was
//! loaded.

use vstd::prelude::*;
use vstd::string::StringExecFns;
use crate::domain::auth::Auth;
use crate::domain::settings::AppSettings;

verus! {

/// What a task does when it runs.
#[derive(Debug, Clone, PartialEq)]
pub enum TaskType {
    /// Run the program `name` with the arguments `args`.
    Command { name: String, args: Vec<String> },
}

/// One unit of work of a project.
#[derive(Debug, Clone)]
pub struct Task {
    pub name: String,
    pub value: TaskType,
}

/// A named unit of work with its own access policy. `tasks` is in the
/// order of execution.
#[derive(Debug, Clone)]
pub struct Project {
    pub codename: String,
    pub name: String,
    pub desc: String,
    pub enabled: bool,
    pub tasks: Vec<Task>,
    pub auth: Auth,
}

/// Why a project definition could not be loaded.
#[derive(Debug, Clone, Copy, PartialEq, Eq, Structural)]
pub enum ConfigError {
    /// The definition could not be read.
    Unreadable,
    /// The definition was read and does not describe a project.
    Malformed,
}

/// The description of a project that states none.
pub fn default_desc() -> (desc: String)
    ensures
        desc@ == "No description provided"@,
{
    "No description provided".to_owned()
}

/// A project that does not say otherwise is enabled.
pub fn default_enabled() -> (enabled: bool)
    ensures
        enabled,
{
    true
}

/// What `std::path::Path::join` gives for a base path and a part, both as
/// text.
pub uninterp spec fn joined_path(base: Seq<char>, part: Seq<char>) -> Seq<char>;

/// `std::path::Path::join` on two paths given as text. The result is a
/// function of the two texts on the platform that the library is built
/// for; nothing else is claimed of it.
#[verifier::external_body]
fn join_path(base: &str, part: &str) -> (joined: String)
    ensures
        joined@ == joined_path(base@, part@),
{
    std::path::Path::new(base).join(part).to_string_lossy().into_owned()
}

/// The file name of the project `name`, below `root`.
pub open spec fn project_path(root: Seq<char>, name: Seq<char>) -> Seq<char> {
    joined_path(joined_path(root, "projects"@), name + ".yml"@)
}

/// The path of the definition of the project `name`, for settings that
/// were read from `root`.
pub fn make_project_path(root: &str, name: &str) -> (path: String)
    ensures
        path@ == project_path(root@, name@),
{
    let mut file = name.to_owned();
    file.append(".yml");
    let dir = join_path(root, "projects");
    join_path(dir.as_str(), file.as_str())
}

/// The projects of `outcomes` that loaded, in their order.
pub open spec fn loaded(outcomes: Seq<Result<Project, ConfigError>>) -> Seq<Project>
    decreases outcomes.len(),
{
    if outcomes.len() == 0 {
        Seq::empty()
    } else {
        let before = loaded(outcomes.drop_last());
        match outcomes.last() {
            Ok(project) => before.push(project),
            Err(_) => before,
        }
    }
}

/// Loading treats each outcome on its own: the registry of two batches is
/// the registry of the first followed by that of the second.
pub proof fn lemma_loaded_concat(
    first: Seq<Result<Project, ConfigError>>,
    second: Seq<Result<Project, ConfigError>>,
)
    ensures
        loaded(first + second) == loaded(first) + loaded(second),
    decreases second.len(),
{
    if second.len() == 0 {
        assert(first + second =~= first);
        assert(loaded(first) + loaded(second) =~= loaded(first));
    } else {
        lemma_loaded_concat(first, second.drop_last());
        assert((first + second).drop_last() =~= first + second.drop_last());
        assert((first + second).last() == second.last());
        match second.last() {
            Ok(project) => {
                assert(loaded(first + second) =~= loaded(first) + loaded(second));
            },
            Err(_) => {},
        }
    }
}

/// Every project that loaded is in the registry, whatever happened to the
/// other definitions.
pub proof fn lemma_loaded_keeps_every_success(
    outcomes: Seq<Result<Project, ConfigError>>,
    i: int,
)
    requires
        0 <= i < outcomes.len(),
        outcomes[i] is Ok,
    ensures
        loaded(outcomes).contains(outcomes[i]->Ok_0),
    decreases outcomes.len(),
{
    let before = loaded(outcomes.drop_last());
    if i == outcomes.len() - 1 {
        assert(before.push(outcomes[i]->Ok_0).last() == outcomes[i]->Ok_0);
    } else {
        lemma_loaded_keeps_every_success(outcomes.drop_last(), i);
        let k = choose|k: int| 0 <= k < before.len() && before[k] == outcomes[i]->Ok_0;
        match outcomes.last() {
            Ok(project) => {
                assert(before.push(project)[k] == outcomes[i]->Ok_0);
            },
            Err(_) => {},
        }
    }
}

/// Nothing is in the registry but projects that loaded, and a registry is
/// never longer than the list of outcomes.
pub proof fn lemma_loaded_only_successes(outcomes: Seq<Result<Project, ConfigError>>)
    ensures
        loaded(outcomes).len() <= outcomes.len(),
        forall|k: int|
            0 <= k < loaded(outcomes).len() ==> exists|i: int|
                0 <= i < outcomes.len() && outcomes[i] == Ok::<Project, ConfigError>(
                    #[trigger] loaded(outcomes)[k],
                ),
    decreases outcomes.len(),
{
    if outcomes.len() > 0 {
        let shorter = outcomes.drop_last();
        lemma_loaded_only_successes(shorter);
        assert forall|k: int| 0 <= k < loaded(outcomes).len() implies exists|i: int|
            0 <= i < outcomes.len() && outcomes[i] == Ok::<Project, ConfigError>(
                #[trigger] loaded(outcomes)[k],
            ) by {
            if k < loaded(shorter).len() {
                let i = choose|i: int|
                    0 <= i < shorter.len() && shorter[i] == Ok::<Project, ConfigError>(
                        loaded(shorter)[k],
                    );
                assert(outcomes[i] == shorter[i]);
            } else {
                assert(outcomes[outcomes.len() - 1] == outcomes.last());
            }
        }
    }
}

/// The paths of the definitions of all configured projects, in the order
/// of their names.
pub fn project_paths(cfg: &AppSettings) -> (paths: Vec<String>)
    requires
        cfg.root_dir is Some,
    ensures
        paths@.len() == cfg.project_names@.len(),
        forall|i: int|
            0 <= i < paths@.len() ==> (#[trigger] paths@[i])@ == project_path(
                cfg.root_dir->Some_0@,
                cfg.project_names@[i]@,
            ),
{
    let mut paths: Vec<String> = Vec::new();
    let mut i: usize = 0;
    match &cfg.root_dir {
        Some(root) => {
            while i < cfg.project_names.len()
                invariant
                    i <= cfg.project_names@.len(),
                    paths@.len() == i,
                    cfg.root_dir == Some(*root),
                    forall|k: int|
                        0 <= k < i ==> (#[trigger] paths@[k])@ == project_path(
                            root@,
                            cfg.project_names@[k]@,
                        ),
                decreases cfg.project_names@.len() - i,
            {
                paths.push(make_project_path(root.as_str(), cfg.project_names[i].as_str()));
                i += 1;
            }
        },
        None => {},
    }
    paths
}

/// Builds the registry from the outcome of loading each configured
/// project: those that loaded stay, in their order, and a definition that
/// failed to load is left out without touching the others.
pub fn load_projects(outcomes: Vec<Result<Project, ConfigError>>) -> (projects: Vec<Project>)
    ensures
        projects@ == loaded(outcomes@),
{
    let mut projects: Vec<Project> = Vec::new();
    let ghost all = outcomes@;
    for outcome in it: outcomes
        invariant
            it.seq() == all,
            projects@ == loaded(all.take(it.index() as int)),
    {
        proof {
            let upto = all.take(it.index() + 1);
            assert(upto.drop_last() =~= all.take(it.index() as int));
            assert(upto.last() == outcome);
        }
        if let Ok(project) = outcome {
            projects.push(project);
        }
    }
    proof {
        assert(all.take(all.len() as int) =~= all);
    }
    projects
}

} // verus!
