//! The registry of loaded projects that every request reads.

use vstd::prelude::*;
use crate::domain::project::Project;
use crate::domain::settings::AppSettings;
use crate::text::str_eq;

verus! {

/// What a request handler is given: the settings and the registry. Both
/// are fixed when the context is built.
#[derive(Debug, Clone)]
pub struct RequestCtx {
    cfg: AppSettings,
    projects: Vec<Project>,
}

/// The first project of `projects` with exactly the codename `codename`.
pub open spec fn find(projects: Seq<Project>, codename: Seq<char>) -> Option<Project>
    decreases projects.len(),
{
    if projects.len() == 0 {
        None
    } else if projects.first().codename@ == codename {
        Some(projects.first())
    } else {
        find(projects.drop_first(), codename)
    }
}

/// `find` gives the project at the least index that holds the codename,
/// and nothing exactly when no project holds it.
pub proof fn lemma_find_is_first_match(projects: Seq<Project>, codename: Seq<char>)
    ensures
        match find(projects, codename) {
            Some(project) => exists|i: int|
                0 <= i < projects.len() && #[trigger] projects[i] == project
                    && project.codename@ == codename && forall|j: int|
                    0 <= j < i ==> (#[trigger] projects[j]).codename@ != codename,
            None => forall|j: int|
                0 <= j < projects.len() ==> (#[trigger] projects[j]).codename@ != codename,
        },
    decreases projects.len(),
{
    if projects.len() == 0 {
    } else if projects.first().codename@ == codename {
        assert(projects[0] == projects.first());
    } else {
        let rest = projects.drop_first();
        lemma_find_is_first_match(rest, codename);
        match find(rest, codename) {
            Some(project) => {
                let i = choose|i: int|
                    0 <= i < rest.len() && #[trigger] rest[i] == project && project.codename@
                        == codename && forall|j: int|
                        0 <= j < i ==> (#[trigger] rest[j]).codename@ != codename;
                assert(projects[i + 1] == rest[i]);
                assert forall|j: int| 0 <= j < i + 1 implies (#[trigger] projects[j]).codename@
                    != codename by {
                    if j > 0 {
                        assert(projects[j] == rest[j - 1]);
                    }
                }
            },
            None => {
                assert forall|j: int| 0 <= j < projects.len() implies (
                #[trigger] projects[j]).codename@ != codename by {
                    if j > 0 {
                        assert(projects[j] == rest[j - 1]);
                    }
                }
            },
        }
    }
}

/// A lookup in an empty registry finds nothing.
pub proof fn lemma_empty_registry_finds_nothing(codename: Seq<char>)
    ensures
        find(Seq::<Project>::empty(), codename) is None,
{
}

impl RequestCtx {
    /// The settings that the context was built with.
    pub closed spec fn settings(&self) -> AppSettings {
        self.cfg
    }

    /// The registry: the projects that the context was built with, in
    /// their order.
    pub closed spec fn registry(&self) -> Seq<Project> {
        self.projects@
    }

    pub fn new(cfg: AppSettings, projects: Vec<Project>) -> (ctx: Self)
        ensures
            ctx.settings() == cfg,
            ctx.registry() == projects@,
    {
        Self { cfg, projects }
    }

    pub fn cfg(&self) -> (cfg: &AppSettings)
        ensures
            *cfg == self.settings(),
    {
        &self.cfg
    }

    pub fn projects(&self) -> (projects: &[Project])
        ensures
            projects@ == self.registry(),
    {
        self.projects.as_slice()
    }

    /// Looks a project up by its codename: an exact, case-sensitive
    /// match, and the first one where several projects share a codename.
    pub fn get_project(&self, codename: &str) -> (found: Option<&Project>)
        ensures
            match found {
                Some(project) => find(self.registry(), codename@) == Some(*project),
                None => find(self.registry(), codename@) is None,
            },
    {
        let mut i: usize = 0;
        assert(self.projects@.skip(0) =~= self.projects@);
        while i < self.projects.len()
            invariant
                i <= self.projects@.len(),
                find(self.projects@, codename@) == find(self.projects@.skip(i as int), codename@),
            decreases self.projects@.len() - i,
        {
            proof {
                let rest = self.projects@.skip(i as int);
                assert(rest.first() == self.projects@[i as int]);
                assert(rest.drop_first() =~= self.projects@.skip(i + 1));
            }
            if str_eq(self.projects[i].codename.as_str(), codename) {
                return Some(&self.projects[i]);
            }
            i += 1;
        }
        None
    }
}

} // verus!
