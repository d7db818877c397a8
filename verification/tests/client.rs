use posthog_flags::api::PostHogClient;
use posthog_flags::cli::FlagsCommands;
use posthog_flags::error::ApiError;
use posthog_flags::http::{Exchange, Expect, Method, Payload, Reply, Request, Step};
use posthog_flags::model::{Config, FeatureFlag, LocalEvalFlag, Project};
use posthog_flags::report::{run_flags, Report};
use serde_json::Value;

const BASE_URL: &str = "http://127.0.0.1:8080";

type Handler = fn(&str) -> (u16, &'static str);

fn config(project_id: Option<i64>) -> Config {
    Config {
        api_key: "phx_test".to_string(),
        host: format!("{}/", BASE_URL),
        project_id,
    }
}

fn text(v: &Value, name: &str) -> Option<String> {
    v.get(name).and_then(|x| x.as_str()).map(|s| s.to_string())
}

fn flag_from(v: &Value) -> Option<FeatureFlag> {
    Some(FeatureFlag {
        id: v.get("id")?.as_i64()?,
        key: text(v, "key")?,
        name: text(v, "name")?,
        active: v.get("active")?.as_bool()?,
        deleted: v.get("deleted")?.as_bool()?,
        filters: v.get("filters")?.clone(),
        created_at: text(v, "created_at")?,
    })
}

fn local_from(v: &Value) -> Option<LocalEvalFlag> {
    Some(LocalEvalFlag {
        id: v.get("id")?.as_i64()?,
        key: text(v, "key")?,
        name: text(v, "name")?,
        active: v.get("active")?.as_bool()?,
        deleted: v.get("deleted")?.as_bool()?,
        filters: v.get("filters")?.clone(),
        team_id: v.get("team_id")?.as_i64()?,
    })
}

fn list_of<T>(v: &Value, name: &str, item: fn(&Value) -> Option<T>) -> Option<Vec<T>> {
    v.get(name)?.as_array()?.iter().map(item).collect()
}

/// Reads a body as the request asked, as the program around the library does.
fn payload(expect: Expect, body: &str) -> Payload {
    if expect == Expect::Nothing {
        return Payload::Nothing;
    }
    let v: Value = match serde_json::from_str(body) {
        Ok(v) => v,
        Err(e) => return Payload::Unparsed { detail: e.to_string() },
    };
    let parsed = match expect {
        Expect::FlagPage => list_of(&v, "results", flag_from)
            .map(|flags| Payload::FlagPage { flags, next: text(&v, "next") }),
        Expect::LocalEvaluation => list_of(&v, "flags", local_from).map(Payload::LocalEvaluation),
        Expect::ProjectPage => list_of(&v, "results", |p| Some(Project { id: p.get("id")?.as_i64()? }))
            .map(Payload::ProjectPage),
        Expect::Flag => flag_from(&v).map(Payload::Flag),
        Expect::Nothing => Some(Payload::Nothing),
    };
    parsed.unwrap_or(Payload::Unparsed { detail: "unexpected shape".to_string() })
}

fn method_name(m: Method) -> &'static str {
    match m {
        Method::Get => "GET",
        Method::Post => "POST",
        Method::Patch => "PATCH",
        Method::Delete => "DELETE",
    }
}

/// The request line that a server sees for a request.
fn request_line(r: &Request) -> String {
    let path = r.url.strip_prefix(BASE_URL).unwrap_or(&r.url);
    format!("{} {} HTTP/1.1", method_name(r.method), path)
}

fn answer(r: &Request, handler: Handler) -> Reply {
    let (status, body) = handler(&request_line(r));
    Reply::Answered { status, text: body.to_string(), payload: payload(r.expect, body) }
}

fn drive<E: Exchange>(op: &mut E, handler: Handler) -> (Result<E::Output, ApiError>, Vec<Request>) {
    let mut requests = Vec::new();
    let mut step = op.advance(None);
    loop {
        match step {
            Step::Send(r) => {
                let reply = answer(&r, handler);
                requests.push(r);
                step = op.advance(Some(reply));
            }
            Step::Done(result) => return (result, requests),
        }
    }
}

fn client(project_id: Option<i64>, handler: Handler) -> PostHogClient {
    let mut setup = PostHogClient::new(&config(project_id));
    drive(&mut setup, handler).0.unwrap()
}

const LOCAL_EVAL_FLAGS: &str = r#"{"flags":[{"id":21,"key":"beta","name":"Beta","active":true,"deleted":false,"filters":{"groups":[{"rollout_percentage":50}]},"team_id":42},{"id":22,"key":"gone","name":"Gone","active":false,"deleted":true,"filters":{},"team_id":42}]}"#;

fn management_flags_handler(request_line: &str) -> (u16, &'static str) {
    if request_line.starts_with("GET /api/projects/7/feature_flags/") {
        return (
            200,
            r#"{"results":[{"id":11,"key":"alpha","name":"Alpha","active":true,"deleted":false,"filters":{"groups":[]},"created_at":"2026-01-02T03:04:05Z"},{"id":12,"key":"deleted","name":"Deleted","active":false,"deleted":true,"filters":{},"created_at":"2026-01-03T00:00:00Z"}]}"#,
        );
    }
    (404, r#"{"detail":"missing"}"#)
}

fn local_eval_handler(request_line: &str) -> (u16, &'static str) {
    if request_line.starts_with("GET /api/projects/7/feature_flags/") {
        return (403, r#"{"detail":"forbidden"}"#);
    }
    if request_line.starts_with("GET /api/feature_flag/local_evaluation/") {
        return (200, LOCAL_EVAL_FLAGS);
    }
    (404, r#"{"detail":"missing"}"#)
}

fn discovery_projects_handler(request_line: &str) -> (u16, &'static str) {
    if request_line.starts_with("GET /api/feature_flag/local_evaluation/") {
        return (403, r#"{"detail":"forbidden"}"#);
    }
    if request_line.starts_with("GET /api/projects/ ") {
        return (200, r#"{"results":[{"id":99,"name":"Demo"}]}"#);
    }
    (404, r#"{"detail":"missing"}"#)
}

fn mutation_handler(request_line: &str) -> (u16, &'static str) {
    if request_line.starts_with("GET /api/projects/7/feature_flags/") {
        return (
            200,
            r#"{"results":[{"id":11,"key":"alpha","name":"Alpha","active":false,"deleted":false,"filters":{"groups":[]},"created_at":"2026-01-02T03:04:05Z"}]}"#,
        );
    }
    if request_line.starts_with("POST /api/projects/7/feature_flags/") {
        return (
            201,
            r#"{"id":13,"key":"created","name":"created","active":true,"deleted":false,"filters":{"groups":[]},"created_at":"2026-01-04T00:00:00Z"}"#,
        );
    }
    if request_line.starts_with("PATCH /api/projects/7/feature_flags/11/") {
        return (
            200,
            r#"{"id":11,"key":"alpha","name":"Alpha","active":true,"deleted":false,"filters":{"groups":[]},"created_at":"2026-01-02T03:04:05Z"}"#,
        );
    }
    if request_line.starts_with("DELETE /api/projects/7/feature_flags/11/") {
        return (204, "");
    }
    (404, r#"{"detail":"missing"}"#)
}

fn error_handler(request_line: &str) -> (u16, &'static str) {
    if request_line.starts_with("POST /api/projects/7/feature_flags/") {
        return (500, r#"{"detail":"boom"}"#);
    }
    (404, r#"{"detail":"missing"}"#)
}

#[test]
fn new_uses_configured_project_and_trims_host() {
    let client = client(Some(7), management_flags_handler);

    assert_eq!(client.project_id, 7);
    assert_eq!(client.host(), BASE_URL);
}

#[test]
fn discovers_project_id_from_local_evaluation_or_projects() {
    let local_client = client(None, local_eval_handler);
    assert_eq!(local_client.project_id, 42);

    let project_client = client(None, discovery_projects_handler);
    assert_eq!(project_client.project_id, 99);
}

#[test]
fn list_flags_prefers_management_api_and_filters_deleted() {
    let client = client(Some(7), management_flags_handler);

    let flags = drive(&mut client.list_flags(), management_flags_handler).0.unwrap();

    assert_eq!(flags.len(), 1);
    assert_eq!(flags[0].key, "alpha");
    assert_eq!(flags[0].created_at, "2026-01-02T03:04:05Z");
}

fn paged_flags_handler(request_line: &str) -> (u16, &'static str) {
    if request_line.starts_with("GET /api/projects/7/feature_flags/?offset=2 ") {
        return (
            200,
            r#"{"next":null,"results":[{"id":13,"key":"gamma","name":"Gamma","active":true,"deleted":false,"filters":{},"created_at":"2026-01-05T00:00:00Z"}]}"#,
        );
    }
    if request_line.starts_with("GET /api/projects/7/feature_flags/ ") {
        return (
            200,
            r#"{"next":"http://127.0.0.1:8080/api/projects/7/feature_flags/?offset=2","results":[{"id":11,"key":"alpha","name":"Alpha","active":true,"deleted":false,"filters":{},"created_at":"2026-01-02T03:04:05Z"},{"id":12,"key":"old","name":"Old","active":false,"deleted":true,"filters":{},"created_at":"2026-01-03T00:00:00Z"}]}"#,
        );
    }
    (404, r#"{"detail":"missing"}"#)
}

#[test]
fn list_flags_reads_every_page() {
    let client = client(Some(7), paged_flags_handler);

    let (flags, requests) = drive(&mut client.list_flags(), paged_flags_handler);
    let keys: Vec<String> = flags.unwrap().into_iter().map(|f| f.key).collect();

    assert_eq!(keys, vec!["alpha".to_string(), "gamma".to_string()]);
    assert_eq!(requests.len(), 2);
    assert_eq!(requests[1].url, "http://127.0.0.1:8080/api/projects/7/feature_flags/?offset=2");
    assert_eq!(requests[1].bearer, "phx_test");
    assert_eq!(
        drive(&mut client.get_flag_by_key("gamma"), paged_flags_handler).0.unwrap().id,
        13
    );
}

#[test]
fn list_flags_falls_back_to_local_evaluation() {
    let client = client(Some(7), local_eval_handler);

    let flags = drive(&mut client.list_flags(), local_eval_handler).0.unwrap();

    assert_eq!(flags.len(), 1);
    assert_eq!(flags[0].key, "beta");
    assert_eq!(flags[0].created_at, "");
}

#[test]
fn get_flag_by_key_returns_match_or_contextual_error() {
    let client = client(Some(7), management_flags_handler);

    assert_eq!(drive(&mut client.get_flag_by_key("alpha"), management_flags_handler).0.unwrap().id, 11);
    let err = drive(&mut client.get_flag_by_key("missing"), management_flags_handler).0.unwrap_err();
    assert!(err.message().contains("Feature flag 'missing' not found"));
}

#[test]
fn create_update_and_delete_use_expected_methods_and_auth() {
    let client = client(Some(7), mutation_handler);

    let (created, mut requests) = drive(&mut client.create_flag("created"), mutation_handler);
    assert_eq!(created.unwrap().id, 13);
    let (updated, more) = drive(&mut client.set_flag_active("alpha", true), mutation_handler);
    assert!(updated.unwrap().active);
    requests.extend(more);
    let (deleted, more) = drive(&mut client.delete_flag("alpha"), mutation_handler);
    deleted.unwrap();
    requests.extend(more);

    assert!(requests.iter().any(|request| {
        request_line(request).starts_with("POST /api/projects/7/feature_flags/")
            && request.bearer == "phx_test"
            && request.body.as_deref().unwrap_or("").contains(r#""rollout_percentage":100"#)
    }));
    assert!(requests.iter().any(|request| {
        request_line(request).starts_with("PATCH /api/projects/7/feature_flags/11/")
            && request.body.as_deref().unwrap_or("").contains(r#""active":true"#)
    }));
    assert!(
        requests
            .iter()
            .any(|request| request_line(request).starts_with("DELETE /api/projects/7/feature_flags/11/"))
    );
}

#[test]
fn check_response_includes_status_and_body() {
    let client = client(Some(7), error_handler);

    let err = drive(&mut client.create_flag("created"), error_handler).0.unwrap_err();

    assert!(err.message().contains("HTTP 500 Internal Server Error"));
    assert!(err.message().contains("boom"));
}

#[test]
fn run_flags_dispatches_each_subcommand() {
    fn response(request_line: &str) -> (u16, &'static str) {
        if request_line.starts_with("GET /api/projects/7/feature_flags/") {
            return (
                200,
                r#"{"results":[{"id":11,"key":"flag-key","name":"Flag Name","active":false,"deleted":false,"filters":{"groups":[]},"created_at":"2026-02-03T04:05:06Z"}]}"#,
            );
        }
        if request_line.starts_with("POST /api/projects/7/feature_flags/") {
            return (
                201,
                r#"{"id":12,"key":"new-flag","name":"new-flag","active":true,"deleted":false,"filters":{"groups":[]},"created_at":"2026-02-04T00:00:00Z"}"#,
            );
        }
        if request_line.starts_with("PATCH /api/projects/7/feature_flags/11/") {
            return (
                200,
                r#"{"id":11,"key":"flag-key","name":"Flag Name","active":true,"deleted":false,"filters":{"groups":[]},"created_at":"2026-02-03T04:05:06Z"}"#,
            );
        }
        if request_line.starts_with("DELETE /api/projects/7/feature_flags/11/") {
            return (204, "");
        }
        (200, "")
    }
    let client = client(Some(7), response);
    let mut requests = Vec::new();
    let commands = vec![
        FlagsCommands::List,
        FlagsCommands::Get { key: "flag-key".to_string() },
        FlagsCommands::Create { key: "new-flag".to_string() },
        FlagsCommands::Enable { key: "flag-key".to_string() },
        FlagsCommands::Disable { key: "flag-key".to_string() },
        FlagsCommands::Delete { key: "flag-key".to_string() },
    ];
    let mut reports = Vec::new();
    for command in commands {
        let (report, sent) = drive(&mut run_flags(&client, command), response);
        reports.push(report.unwrap());
        requests.extend(sent);
    }

    assert!(
        requests
            .iter()
            .any(|request| request_line(request).starts_with("POST /api/projects/7/feature_flags/"))
    );
    assert!(
        requests
            .iter()
            .any(|request| request_line(request).starts_with("PATCH /api/projects/7/feature_flags/11/"))
    );
    assert!(
        requests
            .iter()
            .any(|request| request_line(request).starts_with("DELETE /api/projects/7/feature_flags/11/"))
    );
    assert!(requests.iter().all(|request| {
        request.bearer == "phx_test" && request.url.starts_with(&format!("{}/api/", BASE_URL))
    }));
    assert!(matches!(&reports[0], Report::Flags(flags) if flags.len() == 1));
    assert!(matches!(&reports[1], Report::Detail(flag) if flag.id == 11));
    assert!(matches!(&reports[2], Report::Message(m) if m == "Created feature flag 'new-flag' (id: 12)"));
    assert!(matches!(&reports[3], Report::Message(m) if m == "Enabled feature flag 'flag-key'"));
    assert!(matches!(&reports[4], Report::Message(m) if m == "Disabled feature flag 'flag-key'"));
    assert!(matches!(&reports[5], Report::Message(m) if m == "Deleted feature flag 'flag-key'"));
}
