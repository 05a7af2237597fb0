//! The replies of the service, one function for each kind of request.
//!
//! A reply is a status code and a body. How it is written to the wire is
//! left to whoever sends it.

use vstd::prelude::*;
use vstd::std_specs::convert::FromSpecImpl;
use crate::domain::project::Project;
use crate::domain::runtime::ExecutionError;
use actix_web::HttpRequest;
use crate::text::opt_text;
use crate::web::auth::{check_project_auth, extract_token, request_token, token_permitted, AccessError};
use crate::web::server::{find, RequestCtx};

verus! {

/// The request was served.
pub const STATUS_OK: u16 = 200;

/// A task of the project failed.
pub const STATUS_BAD_REQUEST: u16 = 400;

/// The project's policy rejects the request.
pub const STATUS_UNAUTHORIZED: u16 = 401;

/// No project has the codename of the request.
pub const STATUS_NOT_FOUND: u16 = 404;

/// What a caller may see of a project. Its secrets are not part of it.
#[derive(Debug, Clone, PartialEq, Eq)]
pub struct ProjectDto {
    pub name: String,
    pub codename: String,
    pub desc: String,
    pub enabled: bool,
}

#[derive(Debug, Clone, PartialEq, Eq)]
pub struct HealthDto {
    pub status: String,
}

/// A failure: a tag for programs and a description for people.
#[derive(Debug, Clone, PartialEq, Eq)]
pub struct ErrorDto {
    pub error: String,
    pub error_description: String,
}

#[derive(Debug, Clone, PartialEq, Eq)]
pub enum Body {
    Health(HealthDto),
    Project(ProjectDto),
    Projects(Vec<ProjectDto>),
    Error(ErrorDto),
}

#[derive(Debug, Clone, PartialEq, Eq)]
pub struct Response {
    pub status: u16,
    pub body: Body,
}

/// A project summary as plain text and a flag.
pub struct ProjectSummary {
    pub name: Seq<char>,
    pub codename: Seq<char>,
    pub desc: Seq<char>,
    pub enabled: bool,
}

/// A body as plain values.
pub enum BodyContent {
    Health { status: Seq<char> },
    Project(ProjectSummary),
    Projects(Seq<ProjectSummary>),
    Error { error: Seq<char>, error_description: Seq<char> },
}

/// A reply as plain values.
pub struct Reply {
    pub status: int,
    pub body: BodyContent,
}

impl View for ProjectDto {
    type V = ProjectSummary;

    open spec fn view(&self) -> ProjectSummary {
        ProjectSummary {
            name: self.name@,
            codename: self.codename@,
            desc: self.desc@,
            enabled: self.enabled,
        }
    }
}

impl View for Body {
    type V = BodyContent;

    open spec fn view(&self) -> BodyContent {
        match *self {
            Body::Health(health) => BodyContent::Health { status: health.status@ },
            Body::Project(project) => BodyContent::Project(project@),
            Body::Projects(projects) => BodyContent::Projects(
                projects@.map_values(|p: ProjectDto| p@),
            ),
            Body::Error(error) => BodyContent::Error {
                error: error.error@,
                error_description: error.error_description@,
            },
        }
    }
}

impl View for Response {
    type V = Reply;

    open spec fn view(&self) -> Reply {
        Reply { status: self.status as int, body: self.body@ }
    }
}

/// What a caller may see of `project`.
pub open spec fn summary(project: Project) -> ProjectSummary {
    ProjectSummary {
        name: project.name@,
        codename: project.codename@,
        desc: project.desc@,
        enabled: project.enabled,
    }
}

/// The reply that all went well.
pub open spec fn ok_reply() -> Reply {
    Reply { status: 200, body: BodyContent::Health { status: "ok"@ } }
}

/// The reply to a request that names no known project.
pub open spec fn not_found_reply() -> Reply {
    Reply {
        status: 404,
        body: BodyContent::Error {
            error: "not_found"@,
            error_description: "Unable to find project"@,
        },
    }
}

/// The reply to a request that the project's policy rejects.
pub open spec fn unauthorized_reply() -> Reply {
    Reply {
        status: 401,
        body: BodyContent::Error {
            error: "unauthorized"@,
            error_description: "Invalid credentials provided"@,
        },
    }
}

/// The reply to a run that failed. It says that the run failed and not
/// why.
pub open spec fn exec_fail_reply() -> Reply {
    Reply {
        status: 400,
        body: BodyContent::Error { error: "exec_fail"@, error_description: "Execution failed"@ },
    }
}

impl From<&Project> for ProjectDto {
    fn from(p: &Project) -> (dto: Self)
        ensures
            dto@ == summary(*p),
    {
        Self {
            name: p.name.clone(),
            codename: p.codename.clone(),
            desc: p.desc.clone(),
            enabled: p.enabled,
        }
    }
}

impl FromSpecImpl<&Project> for ProjectDto {
    open spec fn obeys_from_spec() -> bool {
        true
    }

    open spec fn from_spec(p: &Project) -> Self {
        ProjectDto { name: p.name, codename: p.codename, desc: p.desc, enabled: p.enabled }
    }
}

fn error_reply(status: u16, error: &str, error_description: &str) -> (reply: Response)
    ensures
        reply@ == (Reply {
            status: status as int,
            body: BodyContent::Error { error: error@, error_description: error_description@ },
        }),
{
    Response {
        status,
        body: Body::Error(
            ErrorDto { error: error.to_owned(), error_description: error_description.to_owned() },
        ),
    }
}

fn not_found() -> (reply: Response)
    ensures
        reply@ == not_found_reply(),
{
    error_reply(STATUS_NOT_FOUND, "not_found", "Unable to find project")
}

/// The service is up.
pub fn health() -> (reply: Response)
    ensures
        reply@ == ok_reply(),
{
    Response { status: STATUS_OK, body: Body::Health(HealthDto { status: "ok".to_owned() }) }
}

/// The summaries of all projects of the registry, in its order.
pub fn list_projects(ctx: &RequestCtx) -> (reply: Response)
    ensures
        reply@ == (Reply {
            status: 200,
            body: BodyContent::Projects(ctx.registry().map_values(|p: Project| summary(p))),
        }),
{
    let projects = ctx.projects();
    let mut dtos: Vec<ProjectDto> = Vec::new();
    let mut i: usize = 0;
    while i < projects.len()
        invariant
            i <= projects@.len(),
            dtos@.len() == i,
            forall|k: int| 0 <= k < i ==> (#[trigger] dtos@[k])@ == summary(projects@[k]),
        decreases projects@.len() - i,
    {
        dtos.push(ProjectDto::from(&projects[i]));
        i += 1;
    }
    assert(dtos@.map_values(|p: ProjectDto| p@) =~= projects@.map_values(|p: Project| summary(p)));
    Response { status: STATUS_OK, body: Body::Projects(dtos) }
}

/// The summary of the project with the codename `name`, or the reply
/// that there is none.
pub fn get_single_project(ctx: &RequestCtx, name: &str) -> (reply: Response)
    ensures
        reply@ == match find(ctx.registry(), name@) {
            Some(project) => Reply { status: 200, body: BodyContent::Project(summary(project)) },
            None => not_found_reply(),
        },
{
    match ctx.get_project(name) {
        Some(proj) => Response { status: STATUS_OK, body: Body::Project(ProjectDto::from(proj)) },
        None => not_found(),
    }
}

/// What a request with the bearer token `token` to run the project
/// `name` leads to: the project to run, or the reply that ends the
/// request.
pub open spec fn selection(projects: Seq<Project>, name: Seq<char>, token: Option<Seq<char>>) -> Result<
    Project,
    Reply,
> {
    match find(projects, name) {
        None => Err(not_found_reply()),
        Some(project) => if token_permitted(&project.auth, token) {
            Ok(project)
        } else {
            Err(unauthorized_reply())
        },
    }
}

/// A request to run a project that the registry does not hold is answered
/// with the reply for an unknown project, whatever token it carries.
pub proof fn lemma_unknown_codename_is_not_found(
    projects: Seq<Project>,
    name: Seq<char>,
    token: Option<Seq<char>>,
)
    requires
        find(projects, name) is None,
    ensures
        selection(projects, name, token) == Err::<Project, Reply>(not_found_reply()),
        not_found_reply().status == 404,
        not_found_reply().body matches BodyContent::Error { error, .. } && error == "not_found"@,
{
}

/// A request to run a project is let through exactly when the project is
/// known and its policy permits the token.
pub proof fn lemma_selection_follows_the_policy(
    projects: Seq<Project>,
    name: Seq<char>,
    token: Option<Seq<char>>,
)
    ensures
        selection(projects, name, token) is Ok <==> (find(projects, name) matches Some(project)
            && token_permitted(&project.auth, token)),
        selection(projects, name, token) matches Ok(project) ==> find(projects, name) == Some(
            project,
        ),
{
}

/// Decides what a request with the bearer token `token` to run the
/// project `name` leads to. An unknown codename is answered before any
/// credential is looked at.
pub fn select_project<'a>(ctx: &'a RequestCtx, name: &str, token: Option<String>) -> (result: Result<
    &'a Project,
    Response,
>)
    ensures
        match selection(ctx.registry(), name@, opt_text(token)) {
            Ok(project) => result matches Ok(found) && *found == project,
            Err(expected) => result matches Err(reply) && reply@ == expected,
        },
{
    match check_project_auth(ctx, token, name) {
        Err(AccessError::ProjectNotFound) => Err(not_found()),
        Err(AccessError::TokenInvalid) => Err(
            error_reply(STATUS_UNAUTHORIZED, "unauthorized", "Invalid credentials provided"),
        ),
        Ok(_) => match ctx.get_project(name) {
            Some(proj) => Ok(proj),
            None => Err(not_found()),
        },
    }
}

/// Decides what the request `req` to run the project `name` leads to:
/// the project to run, or the reply that ends the request.
pub fn execute_project_tasks<'a>(ctx: &'a RequestCtx, name: &str, req: &HttpRequest) -> (result:
    Result<&'a Project, Response>)
    ensures
        match selection(ctx.registry(), name@, request_token(*req)) {
            Ok(project) => result matches Ok(found) && *found == project,
            Err(expected) => result matches Err(reply) && reply@ == expected,
        },
{
    select_project(ctx, name, extract_token(req))
}

/// The reply to a request whose run ended with `outcome`.
pub fn do_execute(outcome: Result<(), ExecutionError>) -> (reply: Response)
    ensures
        reply@ == match outcome {
            Ok(_) => ok_reply(),
            Err(_) => exec_fail_reply(),
        },
{
    match outcome {
        Ok(_) => health(),
        Err(_) => error_reply(STATUS_BAD_REQUEST, "exec_fail", "Execution failed"),
    }
}

} // verus!
