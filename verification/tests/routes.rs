use actix_web::test::TestRequest;
use actix_web::HttpRequest;
use remotex::domain::auth::{Auth, Token};
use remotex::domain::project::{Project, Task, TaskType};
use remotex::domain::runtime::ExecutionError;
use remotex::domain::settings::{AppSettings, WebConfig};
use remotex::web::routes::{
    do_execute, execute_project_tasks, get_single_project, health, list_projects, select_project,
    Body, ErrorDto, HealthDto, ProjectDto, Response,
};
use remotex::web::server::RequestCtx;

fn project(codename: &str, name: &str, enabled: bool, auth: Auth) -> Project {
    Project {
        codename: codename.into(),
        name: name.into(),
        desc: "Example hello project to print hello world".into(),
        enabled,
        tasks: vec![Task {
            name: "hello".into(),
            value: TaskType::Command { name: "echo".into(), args: vec!["Hello World!".into()] },
        }],
        auth,
    }
}

fn open_policy() -> Auth {
    Auth { tokens: vec![], passwords: vec![], enabled: false }
}

fn token_policy() -> Auth {
    Auth {
        tokens: vec![Token { name: "t".into(), value: "tok-1".into() }],
        passwords: vec![],
        enabled: true,
    }
}

fn context() -> RequestCtx {
    RequestCtx::new(
        AppSettings::default(),
        vec![
            project("hello-example", "Hello example project", true, open_policy()),
            project("guarded", "Guarded project", false, token_policy()),
            project("hello-example", "A later project of the same codename", true, token_policy()),
        ],
    )
}

fn error(status: u16, tag: &str, description: &str) -> Response {
    Response {
        status,
        body: Body::Error(ErrorDto {
            error: tag.to_string(),
            error_description: description.to_string(),
        }),
    }
}

fn request(authorization: Option<&str>) -> HttpRequest {
    match authorization {
        Some(value) => TestRequest::post().insert_header(("Authorization", value)).to_http_request(),
        None => TestRequest::post().to_http_request(),
    }
}

fn ok() -> Response {
    Response { status: 200, body: Body::Health(HealthDto { status: "ok".to_string() }) }
}

#[test]
fn health_is_ok() {
    assert_eq!(health(), ok());
}

#[test]
fn hello_example_is_shown_without_credentials() {
    let reply = get_single_project(&context(), "hello-example");
    assert_eq!(
        reply,
        Response {
            status: 200,
            body: Body::Project(ProjectDto {
                name: "Hello example project".into(),
                codename: "hello-example".into(),
                desc: "Example hello project to print hello world".into(),
                enabled: true,
            }),
        }
    );
}

#[test]
fn hello_example_may_run_and_answers_ok() {
    let ctx = context();
    let found = execute_project_tasks(&ctx, "hello-example", &request(None)).expect("the project is open");
    assert_eq!(found.codename, "hello-example");
    assert_eq!(found.name, "Hello example project");
    assert_eq!(do_execute(Ok(())), ok());
}

#[test]
fn execute_without_header_is_unauthorized() {
    let ctx = context();
    let reply = execute_project_tasks(&ctx, "guarded", &request(None)).expect_err("no token was sent");
    assert_eq!(reply, error(401, "unauthorized", "Invalid credentials provided"));
}

#[test]
fn execute_with_the_token_goes_through() {
    let ctx = context();
    let found = execute_project_tasks(&ctx, "guarded", &request(Some("Bearer tok-1")))
        .expect("the token is right");
    assert_eq!(found.codename, "guarded");
    assert_eq!(do_execute(Ok(())).status, 200);
}

#[test]
fn execute_with_a_wrong_token_is_unauthorized() {
    let ctx = context();
    for header in ["Bearer tok-2", "Bearer TOK-1", "tok-1", "Basic tok-1", "Bearer", ""] {
        let reply = execute_project_tasks(&ctx, "guarded", &request(Some(header)))
            .expect_err("the token is wrong");
        assert_eq!(reply, error(401, "unauthorized", "Invalid credentials provided"));
    }
}

#[test]
fn unknown_codename_is_not_found_on_every_endpoint() {
    let ctx = context();
    let not_found = error(404, "not_found", "Unable to find project");
    assert_eq!(get_single_project(&ctx, "missing"), not_found);
    assert_eq!(execute_project_tasks(&ctx, "missing", &request(None)).unwrap_err(), not_found);
    assert_eq!(
        execute_project_tasks(&ctx, "missing", &request(Some("Bearer tok-1"))).unwrap_err(),
        not_found
    );
    assert_eq!(select_project(&ctx, "missing", Some("tok-1".to_string())).unwrap_err(), not_found);
    assert_eq!(get_single_project(&ctx, "Hello-Example"), not_found);
    assert_eq!(get_single_project(&ctx, ""), not_found);
}

#[test]
fn an_empty_registry_knows_no_project() {
    let ctx = RequestCtx::new(AppSettings::default(), vec![]);
    assert_eq!(get_single_project(&ctx, "hello-example").status, 404);
    assert!(execute_project_tasks(&ctx, "hello-example", &request(None)).is_err());
    assert_eq!(list_projects(&ctx), Response { status: 200, body: Body::Projects(vec![]) });
}

#[test]
fn a_failed_run_is_a_bad_request_that_does_not_say_why() {
    let expected = error(400, "exec_fail", "Execution failed");
    assert_eq!(do_execute(Err(ExecutionError::SpawnFailed)), expected);
    assert_eq!(do_execute(Err(ExecutionError::WaitFailed)), expected);
    assert_eq!(do_execute(Err(ExecutionError::NonZeroExit(Some(3)))), expected);
    assert_eq!(do_execute(Err(ExecutionError::NonZeroExit(None))), expected);
}

#[test]
fn list_projects_shows_all_in_order_and_no_secrets() {
    let reply = list_projects(&context());
    assert_eq!(reply.status, 200);
    match reply.body {
        Body::Projects(list) => {
            let shown: Vec<(&str, &str, bool)> = list
                .iter()
                .map(|p| (p.codename.as_str(), p.name.as_str(), p.enabled))
                .collect();
            assert_eq!(
                shown,
                vec![
                    ("hello-example", "Hello example project", true),
                    ("guarded", "Guarded project", false),
                    ("hello-example", "A later project of the same codename", true),
                ]
            );
            assert!(!format!("{:?}", list).contains("tok-1"));
        }
        other => panic!("not a list: {:?}", other),
    }
}

#[test]
fn the_first_project_of_a_codename_is_the_one_served() {
    let ctx = context();
    let found = ctx.get_project("hello-example").expect("it is there");
    assert_eq!(found.name, "Hello example project");
    assert!(execute_project_tasks(&ctx, "hello-example", &request(None)).is_ok());
}

#[test]
fn select_project_decides_by_the_token() {
    let ctx = context();
    let found = select_project(&ctx, "guarded", Some("tok-1".to_string())).expect("the token is right");
    assert_eq!(found.name, "Guarded project");
    let unauthorized = error(401, "unauthorized", "Invalid credentials provided");
    assert_eq!(select_project(&ctx, "guarded", None).unwrap_err(), unauthorized);
    assert_eq!(select_project(&ctx, "guarded", Some(String::new())).unwrap_err(), unauthorized);
    assert_eq!(
        select_project(&ctx, "guarded", Some("Bearer tok-1".to_string())).unwrap_err(),
        unauthorized
    );
    assert!(select_project(&ctx, "hello-example", None).is_ok());
}

#[test]
fn project_summary_copies_the_display_fields() {
    let p = project("c", "n", false, token_policy());
    let dto = ProjectDto::from(&p);
    assert_eq!(
        dto,
        ProjectDto {
            name: "n".into(),
            codename: "c".into(),
            desc: "Example hello project to print hello world".into(),
            enabled: false,
        }
    );
}

#[test]
fn the_context_hands_out_what_it_was_built_with() {
    let cfg = AppSettings {
        project_names: vec!["hello".into()],
        web: WebConfig { addr: "127.0.0.1:1".into() },
        root_dir: Some("conf".into()),
    };
    let ctx = RequestCtx::new(cfg, vec![project("a", "A", true, open_policy())]);
    assert_eq!(ctx.cfg().web.addr, "127.0.0.1:1");
    assert_eq!(ctx.cfg().project_names, vec!["hello".to_string()]);
    assert_eq!(ctx.projects().len(), 1);
    assert_eq!(ctx.projects()[0].codename, "a");
    assert!(ctx.get_project("a").is_some());
    assert!(ctx.get_project("b").is_none());
    assert!(ctx.get_project("A").is_none());
}
