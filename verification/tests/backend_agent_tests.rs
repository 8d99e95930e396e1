use hoppity::agent_traits::{FactSheet, FormattedRouteObject};
use hoppity::backend_agent::{
    filter_route_objects, probe_action, BackendDeveloperAgent, BuildVerdict, CodePass, ProbeAction,
};
use hoppity::basic_agents::AgentState;
use hoppity::common::ProbeOutcome;

fn factsheet_with_description(description: &str) -> FactSheet {
    FactSheet {
        project_description: Some(description.to_string()),
        project_scope: None,
        external_urls: None,
        backend_code: None,
        api_enpoint_scheme: None,
    }
}

fn route(route: &str, is_dynamic: &str, method: &str) -> FormattedRouteObject {
    FormattedRouteObject {
        route: route.to_string(),
        is_route_dynamic: is_dynamic.to_string(),
        method: method.to_string(),
        response: "null".to_string(),
        request_body: "null".to_string(),
    }
}

#[test]
fn test_backend_agent_new() {
    let agent = BackendDeveloperAgent::new();
    assert_eq!(agent.attributes.position, "Backend Developer".to_string());
    assert_eq!(agent.attributes.state, AgentState::Discovery);
    assert_eq!(agent.bug_count, 0);
    assert_eq!(agent.bug_error, None);
}

#[test]
fn test_initial_code_stored() {
    let mut agent = BackendDeveloperAgent::new();
    let mut factsheet = factsheet_with_description("a json api");

    agent.apply_initial_backend_code(&mut factsheet, "fn main() {}".to_string());

    assert_eq!(factsheet.backend_code, Some("fn main() {}".to_string()));
    assert_eq!(agent.attributes.state, AgentState::Working);
}

#[test]
fn test_working_pass_kind() {
    let mut agent = BackendDeveloperAgent::new();
    assert_eq!(agent.working_pass_kind(), CodePass::Improve);
    agent.bug_count = 1;
    assert_eq!(agent.working_pass_kind(), CodePass::FixBugs);
}

#[test]
fn test_build_retry_then_success() {
    // Build-tool failures on attempts 1 and 2, success on attempt 3: the
    // retry counter ends at zero and the agent reaches the finished state.
    let mut agent = BackendDeveloperAgent::new();
    let mut factsheet = factsheet_with_description("a json api");

    agent.apply_initial_backend_code(&mut factsheet, "v1".to_string());
    agent.apply_working_code(&mut factsheet, "v2".to_string());

    let verdict1 = agent.apply_build_result(Err("missing semicolon".to_string()));
    assert_eq!(verdict1, BuildVerdict::Retry);
    assert_eq!(agent.bug_count, 1);
    assert_eq!(agent.attributes.state, AgentState::Working);
    assert_eq!(agent.bug_error, Some("missing semicolon".to_string()));

    agent.apply_working_code(&mut factsheet, "v3".to_string());
    let verdict2 = agent.apply_build_result(Err("type mismatch".to_string()));
    assert_eq!(verdict2, BuildVerdict::Retry);
    assert_eq!(agent.bug_count, 2);
    assert_eq!(agent.bug_error, Some("type mismatch".to_string()));

    agent.apply_working_code(&mut factsheet, "v4".to_string());
    let verdict3 = agent.apply_build_result(Ok(()));
    assert_eq!(verdict3, BuildVerdict::Proceed);
    assert_eq!(agent.bug_count, 0);
    assert_eq!(agent.attributes.state, AgentState::UnitTesting);

    agent.complete_unit_testing();
    assert_eq!(agent.attributes.state, AgentState::Finished);
}

#[test]
fn test_build_three_failures_is_fatal() {
    // A failure on all of attempts 1 to 3 is fatal: the agent never reaches
    // the finished state.
    let mut agent = BackendDeveloperAgent::new();
    let mut factsheet = factsheet_with_description("a json api");

    agent.apply_initial_backend_code(&mut factsheet, "v1".to_string());
    agent.apply_working_code(&mut factsheet, "v2".to_string());

    assert_eq!(agent.apply_build_result(Err("bug one".to_string())), BuildVerdict::Retry);
    agent.apply_working_code(&mut factsheet, "v3".to_string());
    assert_eq!(agent.apply_build_result(Err("bug two".to_string())), BuildVerdict::Retry);
    agent.apply_working_code(&mut factsheet, "v4".to_string());

    let verdict = agent.apply_build_result(Err("bug three".to_string()));
    assert_eq!(verdict, BuildVerdict::Fatal);
    assert_eq!(agent.bug_count, 3);
    assert_ne!(agent.attributes.state, AgentState::Finished);
}

#[test]
fn test_endpoint_filter_case_sensitive() {
    // The method match on "get" is case-sensitive and the dynamic flag must
    // be exactly the string "false": all three of these are rejected.
    let routes = vec![
        route("/upper", "false", "GET"),
        route("/post", "false", "post"),
        route("/dynamic", "true", "get"),
    ];

    let kept = filter_route_objects(&routes);
    assert_eq!(kept.len(), 0);
}

#[test]
fn test_endpoint_filter_keeps_get_static_in_order() {
    let routes = vec![
        route("/health", "false", "get"),
        route("/users/:id", "true", "get"),
        route("/items", "false", "get"),
        route("/create", "false", "post"),
    ];

    let kept = filter_route_objects(&routes);
    assert_eq!(kept, vec![route("/health", "false", "get"), route("/items", "false", "get")]);
}

#[test]
fn test_endpoint_schema_stored_filtered() {
    let mut agent = BackendDeveloperAgent::new();
    let mut factsheet = factsheet_with_description("a json api");
    agent.attributes.state = AgentState::UnitTesting;

    let routes = vec![route("/health", "false", "get"), route("/create", "false", "post")];
    agent.apply_endpoint_schema(&mut factsheet, &routes);

    assert_eq!(factsheet.api_enpoint_scheme, Some(vec![route("/health", "false", "get")]));
    assert_eq!(agent.attributes.state, AgentState::UnitTesting);
}

#[test]
fn test_route_object_clone_keeps_fields() {
    let original = route("/health", "false", "get");
    let cloned = original.clone();
    assert_eq!(cloned, original);
}

#[test]
fn test_probe_actions() {
    assert_eq!(probe_action(&ProbeOutcome::Status(200)), ProbeAction::Pass);
    assert_eq!(probe_action(&ProbeOutcome::Status(404)), ProbeAction::Warn);
    assert_eq!(probe_action(&ProbeOutcome::Status(500)), ProbeAction::Warn);
    assert_eq!(probe_action(&ProbeOutcome::TransportError), ProbeAction::KillServer);
}
