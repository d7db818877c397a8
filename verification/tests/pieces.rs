use posthog_flags::api::{
    activation_body_text, creation_body_text, flag_endpoint, flags_endpoint, local_evaluation_endpoint,
    projects_endpoint, PostHogClient,
};
use posthog_flags::error::{ApiError, Phase};
use posthog_flags::http::{status_line, status_line_with, try_get, Exchange, Fetch, Method, Payload, Reply, Step};
use posthog_flags::model::{keep_live_flags, live_flags_from_local, local_eval_flag_to_feature_flag, Config, FeatureFlag, LocalEvalFlag};
use posthog_flags::text::{byte_prefix_text, decimal_text, trim_trailing_slashes_text};
use serde_json::Value;

fn flag(id: i64, key: &str, deleted: bool) -> FeatureFlag {
    FeatureFlag {
        id,
        key: key.to_string(),
        name: key.to_uppercase(),
        active: true,
        deleted,
        filters: Value::Null,
        created_at: "2026-01-01T00:00:00Z".to_string(),
    }
}

fn local(id: i64, key: &str, deleted: bool, team_id: i64) -> LocalEvalFlag {
    LocalEvalFlag {
        id,
        key: key.to_string(),
        name: key.to_string(),
        active: false,
        deleted,
        filters: Value::Bool(true),
        team_id,
    }
}

fn client(project_id: i64) -> PostHogClient {
    let config = Config { api_key: "phx_k".to_string(), host: "https://h.example".to_string(), project_id: Some(project_id) };
    match PostHogClient::new(&config).advance(None) {
        Step::Done(Ok(c)) => c,
        other => panic!("a configured project needs no request: {:?}", other),
    }
}

#[test]
fn decimal_text_writes_integers_like_display() {
    for n in [0i64, 7, 10, 42, 99, 100, 12345, -1, -90, i64::MAX, i64::MIN] {
        assert_eq!(decimal_text(n), n.to_string());
    }
}

#[test]
fn trailing_slashes_are_trimmed_and_nothing_else() {
    assert_eq!(trim_trailing_slashes_text("https://a.b///"), "https://a.b");
    assert_eq!(trim_trailing_slashes_text("https://a.b"), "https://a.b");
    assert_eq!(trim_trailing_slashes_text("///"), "");
    assert_eq!(trim_trailing_slashes_text(""), "");
    assert_eq!(trim_trailing_slashes_text("/é/x/"), "/é/x");
}

#[test]
fn byte_prefix_counts_bytes() {
    assert_eq!(byte_prefix_text("abcdef", 3), Some("abc".to_string()));
    assert_eq!(byte_prefix_text("ab", 3), None);
    assert_eq!(byte_prefix_text("éa", 2), Some("é".to_string()));
}

#[test]
fn status_line_shows_code_and_reason() {
    assert_eq!(status_line(500), "500 Internal Server Error");
    assert_eq!(status_line(404), "404 Not Found");
    assert_eq!(status_line(299), "299 <unknown status code>");
    assert_eq!(status_line(42), "42 <unknown status code>");
}

#[test]
fn endpoints_are_under_the_host() {
    assert_eq!(local_evaluation_endpoint("h"), "h/api/feature_flag/local_evaluation/");
    assert_eq!(projects_endpoint("h"), "h/api/projects/");
    assert_eq!(flags_endpoint("h", 7), "h/api/projects/7/feature_flags/");
    assert_eq!(flag_endpoint("h", 7, -3), "h/api/projects/7/feature_flags/-3/");
}

#[test]
fn bodies_are_the_json_that_the_api_takes() {
    assert_eq!(
        creation_body_text("\"k\""),
        r#"{"active":true,"filters":{"groups":[{"properties":[],"rollout_percentage":100}]},"key":"k","name":"k"}"#
    );
    assert_eq!(activation_body_text(true), r#"{"active":true}"#);
    assert_eq!(activation_body_text(false), r#"{"active":false}"#);
}

#[test]
fn creation_request_quotes_the_key() {
    let c = client(5);
    let mut op = c.create_flag("say \"hi\"\n");
    match op.advance(None) {
        Step::Send(r) => {
            assert_eq!(r.method, Method::Post);
            assert_eq!(r.url, "https://h.example/api/projects/5/feature_flags/");
            assert_eq!(r.bearer, "phx_k");
            let body = r.body.unwrap();
            let parsed: Value = serde_json::from_str(&body).unwrap();
            assert_eq!(parsed["key"], Value::String("say \"hi\"\n".to_string()));
            assert_eq!(parsed["name"], Value::String("say \"hi\"\n".to_string()));
            assert_eq!(parsed["active"], Value::Bool(true));
            assert!(body.contains(r#""key":"say \"hi\"\n""#));
        }
        other => panic!("creation sends a request first: {:?}", other),
    }
}

#[test]
fn control_characters_in_a_key_are_escaped() {
    let c = client(5);
    let mut op = c.create_flag("a\u{1}b\\");
    match op.advance(None) {
        Step::Send(r) => assert!(r.body.unwrap().ends_with(r#""key":"a\u0001b\\","name":"a\u0001b\\"}"#)),
        other => panic!("creation sends a request first: {:?}", other),
    }
}

#[test]
fn a_refused_later_page_falls_back_to_local_evaluation() {
    let c = client(7);
    let mut op = c.list_flags();
    op.advance(None);
    let step = op.advance(Some(Reply::Answered {
        status: 200,
        text: String::new(),
        payload: Payload::FlagPage { flags: vec![flag(1, "a", false)], next: Some("https://h.example/api/projects/7/feature_flags/?page=2".to_string()) },
    }));
    assert!(matches!(&step, Step::Send(r) if r.url == "https://h.example/api/projects/7/feature_flags/?page=2" && r.method == Method::Get));
    let step = op.advance(Some(Reply::Answered { status: 502, text: String::new(), payload: Payload::Unparsed { detail: String::new() } }));
    assert!(matches!(&step, Step::Send(r) if r.url == "https://h.example/api/feature_flag/local_evaluation/"));
    let step = op.advance(Some(Reply::Answered {
        status: 200,
        text: String::new(),
        payload: Payload::LocalEvaluation(vec![local(4, "d", false, 7), local(5, "e", false, 7)]),
    }));
    assert!(matches!(step, Step::Done(Ok(flags)) if flags.len() == 2));
}

#[test]
fn live_flags_keep_order_and_drop_deleted() {
    let kept = keep_live_flags(vec![flag(1, "a", false), flag(2, "b", true), flag(3, "c", false)]);
    let ids: Vec<i64> = kept.iter().map(|f| f.id).collect();
    assert_eq!(ids, vec![1, 3]);
    let from_local = live_flags_from_local(vec![local(4, "d", true, 9), local(5, "e", false, 9)]);
    assert_eq!(from_local.len(), 1);
    assert_eq!(from_local[0].id, 5);
    assert_eq!(from_local[0].created_at, "");
    assert_eq!(from_local[0].filters, Value::Bool(true));
}

#[test]
fn local_entry_becomes_a_flag_without_creation_time() {
    let f = local_eval_flag_to_feature_flag(local(8, "k", false, 3));
    assert_eq!((f.id, f.key.as_str(), f.name.as_str(), f.active, f.deleted), (8, "k", "k", false, false));
    assert_eq!(f.created_at, "");
}

#[test]
fn reads_decline_on_refusal_and_fail_when_unreachable() {
    assert!(matches!(try_get(Reply::Answered { status: 403, text: String::new(), payload: Payload::Unparsed { detail: "expected value".to_string() } }), Fetch::Declined));
    assert!(matches!(try_get(Reply::Answered { status: 200, text: String::new(), payload: Payload::Nothing }), Fetch::Delivered(Payload::Nothing)));
    match try_get(Reply::Answered { status: 200, text: "x".to_string(), payload: Payload::Unparsed { detail: "bad json".to_string() } }) {
        Fetch::Failed(e) => {
            assert_eq!(e.message(), "Failed to parse response");
            assert_eq!(e.cause(), Some("bad json".to_string()));
        }
        _ => panic!("an unreadable success is an error"),
    }
    match try_get(Reply::Unreachable { detail: "refused".to_string() }) {
        Fetch::Failed(e) => {
            assert_eq!(e.message(), "Failed to connect to PostHog");
            assert_eq!(e.cause(), Some("refused".to_string()));
        }
        _ => panic!("an unreachable server is an error"),
    }
}

#[test]
fn error_messages_match_the_situation() {
    let cases = vec![
        (ApiError::Unreachable { phase: Phase::Create, detail: String::new() }, "Failed to create feature flag"),
        (ApiError::Unreachable { phase: Phase::Update, detail: String::new() }, "Failed to update feature flag"),
        (ApiError::Unreachable { phase: Phase::Delete, detail: String::new() }, "Failed to delete feature flag"),
        (ApiError::Unparsable { phase: Phase::Read, detail: None }, "Failed to parse response"),
        (ApiError::Unparsable { phase: Phase::Create, detail: None }, "Failed to parse create flag response"),
        (ApiError::Unparsable { phase: Phase::Update, detail: None }, "Failed to parse update flag response"),
        (
            ApiError::Rejected { phase: Phase::Delete, status: "404 Not Found".to_string(), body: "{}".to_string() },
            "Failed to delete flag: HTTP 404 Not Found - {}",
        ),
        (ApiError::NoFlagsForProjectId, "No feature flags found to determine project ID. Set project_id in config."),
        (ApiError::ProjectDiscoveryFailed, "Failed to discover project ID. Add 'project_id = <id>' to your config."),
        (ApiError::NoProjects, "No projects found. Add 'project_id = <id>' to your config."),
        (ApiError::ListingFailed, "Failed to list flags from both management and local evaluation APIs"),
        (ApiError::FlagNotFound { key: "x".to_string() }, "Feature flag 'x' not found"),
    ];
    for (e, m) in cases {
        assert_eq!(e.message(), m);
        assert_eq!(e.cause().is_some(), matches!(e, ApiError::Unreachable { .. }));
    }
}

#[test]
fn discovery_fails_as_each_endpoint_says() {
    let config = Config { api_key: "k".to_string(), host: "h/".to_string(), project_id: None };
    // No flag to read the project from.
    let mut setup = PostHogClient::new(&config);
    assert!(matches!(setup.advance(None), Step::Send(r) if r.url == "h/api/feature_flag/local_evaluation/"));
    let step = setup.advance(Some(Reply::Answered { status: 200, text: String::new(), payload: Payload::LocalEvaluation(vec![]) }));
    assert!(matches!(step, Step::Done(Err(ApiError::NoFlagsForProjectId))));
    // The first flag decides, deleted or not.
    let mut setup = PostHogClient::new(&config);
    setup.advance(None);
    let step = setup.advance(Some(Reply::Answered {
        status: 200,
        text: String::new(),
        payload: Payload::LocalEvaluation(vec![local(1, "a", true, 31), local(2, "b", false, 32)]),
    }));
    assert!(matches!(step, Step::Done(Ok(c)) if c.project_id == 31 && c.host() == "h" && c.api_key() == "k"));
    // Both endpoints refuse.
    let mut setup = PostHogClient::new(&config);
    setup.advance(None);
    let refused = || Reply::Answered { status: 401, text: String::new(), payload: Payload::Unparsed { detail: "expected value".to_string() } };
    assert!(matches!(setup.advance(Some(refused())), Step::Send(r) if r.url == "h/api/projects/"));
    assert!(matches!(setup.advance(Some(refused())), Step::Done(Err(ApiError::ProjectDiscoveryFailed))));
    // No project at all.
    let mut setup = PostHogClient::new(&config);
    setup.advance(None);
    setup.advance(Some(refused()));
    let step = setup.advance(Some(Reply::Answered { status: 200, text: String::new(), payload: Payload::ProjectPage(vec![]) }));
    assert!(matches!(step, Step::Done(Err(ApiError::NoProjects))));
}

#[test]
fn listing_fails_when_both_endpoints_refuse_or_answers_are_unreadable() {
    let c = client(7);
    let mut op = c.list_flags();
    op.advance(None);
    let refused = || Reply::Answered { status: 403, text: String::new(), payload: Payload::Unparsed { detail: "expected value".to_string() } };
    assert!(matches!(op.advance(Some(refused())), Step::Send(r) if r.url == "https://h.example/api/feature_flag/local_evaluation/"));
    let step = op.advance(Some(refused()));
    assert!(matches!(&step, Step::Done(Err(ApiError::ListingFailed))));

    let mut op = c.list_flags();
    op.advance(None);
    let step = op.advance(Some(Reply::Answered { status: 200, text: "oops".to_string(), payload: Payload::Unparsed { detail: "expected value".to_string() } }));
    match step {
        Step::Done(Err(e)) => {
            assert!(matches!(e, ApiError::Unparsable { phase: Phase::Read, .. }));
            assert_eq!(e.message(), "Failed to parse response");
            assert_eq!(e.cause(), Some("expected value".to_string()));
        }
        other => panic!("an unreadable page is an error: {:?}", other),
    }
}

#[test]
fn changes_report_refusals_with_status_and_body() {
    let c = client(7);
    let mut op = c.delete_flag("a");
    op.advance(None);
    let step = op.advance(Some(Reply::Answered { status: 200, text: String::new(), payload: Payload::FlagPage { flags: vec![flag(11, "a", false)], next: None } }));
    assert!(matches!(&step, Step::Send(r) if r.method == Method::Delete && r.url == "https://h.example/api/projects/7/feature_flags/11/" && r.body.is_none()));
    let step = op.advance(Some(Reply::Answered { status: 403, text: "no".to_string(), payload: Payload::Nothing }));
    match step {
        Step::Done(Err(e)) => assert_eq!(e.message(), "Failed to delete flag: HTTP 403 Forbidden - no"),
        other => panic!("a refused deletion is an error: {:?}", other),
    }

    let mut op = c.set_flag_active("b", false);
    op.advance(None);
    let step = op.advance(Some(Reply::Answered {
        status: 200,
        text: String::new(),
        payload: Payload::FlagPage { flags: vec![flag(11, "a", false), flag(12, "b", false), flag(13, "b", false)], next: None },
    }));
    assert!(matches!(&step, Step::Send(r) if r.method == Method::Patch && r.url.ends_with("/feature_flags/12/") && r.body.as_deref() == Some(r#"{"active":false}"#)));
    let step = op.advance(Some(Reply::Unreachable { detail: "timeout".to_string() }));
    assert!(matches!(step, Step::Done(Err(ApiError::Unreachable { phase: Phase::Update, .. }))));
}

#[test]
fn a_deleted_flag_is_not_found() {
    let c = client(7);
    let mut op = c.get_flag_by_key("gone");
    op.advance(None);
    let step = op.advance(Some(Reply::Answered { status: 200, text: String::new(), payload: Payload::FlagPage { flags: vec![flag(1, "gone", true)], next: None } }));
    assert!(matches!(step, Step::Done(Err(ApiError::FlagNotFound { key })) if key == "gone"));
}

#[test]
fn status_line_with_takes_the_reason_it_is_given() {
    assert_eq!(status_line_with(418, Some("I'm a teapot")), "418 I'm a teapot");
    assert_eq!(status_line_with(201, None), "201 <unknown status code>");
}
