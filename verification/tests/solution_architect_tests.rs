use hoppity::agent_traits::{FactSheet, ProjectScope};
use hoppity::basic_agents::AgentState;
use hoppity::common::ProbeOutcome;
use hoppity::solution_architect_agent::{get_faulty_urls, on_unit_testing_stage, SolutionArchitect};

fn empty_factsheet() -> FactSheet {
    FactSheet {
        project_description: Some("Build a full stack website for crypto exchange".to_string()),
        project_scope: None,
        external_urls: None,
        backend_code: None,
        api_enpoint_scheme: None,
    }
}

#[test]
fn test_architect_new() {
    let architect = SolutionArchitect::new();
    assert_eq!(architect.attributes.position, "Solution Architect".to_string());
    assert_eq!(architect.attributes.state, AgentState::Discovery);
    assert!(architect.attributes.memory.is_empty());
}

#[test]
fn test_no_external_urls_finishes_without_probing() {
    let mut architect = SolutionArchitect::new();
    let mut factsheet = empty_factsheet();

    let scope = ProjectScope {
        is_crud_required: true,
        is_user_login_and_logout: false,
        is_external_urls_required: false,
    };

    let urls_needed = architect.apply_project_scope(&mut factsheet, scope);

    assert!(!urls_needed);
    assert_eq!(architect.attributes.state, AgentState::Finished);
    assert_eq!(factsheet.project_scope, Some(scope));
    // No URL list was ever stored, so there is nothing to probe.
    assert_eq!(factsheet.external_urls, None);
}

#[test]
fn test_external_urls_move_to_validation() {
    let mut architect = SolutionArchitect::new();
    let mut factsheet = empty_factsheet();

    let scope = ProjectScope {
        is_crud_required: true,
        is_user_login_and_logout: true,
        is_external_urls_required: true,
    };

    let urls_needed = architect.apply_project_scope(&mut factsheet, scope);
    assert!(urls_needed);

    architect.apply_site_urls(
        &mut factsheet,
        vec!["http://example.com/a".to_string(), "http://example.com/b".to_string()],
    );
    assert_eq!(architect.attributes.state, AgentState::UnitTesting);
    assert_eq!(
        factsheet.external_urls,
        Some(vec!["http://example.com/a".to_string(), "http://example.com/b".to_string()]),
    );
}

#[test]
fn test_faulty_urls_filtered_in_order() {
    let mut architect = SolutionArchitect::new();
    let mut factsheet = empty_factsheet();

    let scope = ProjectScope {
        is_crud_required: false,
        is_user_login_and_logout: false,
        is_external_urls_required: true,
    };
    architect.apply_project_scope(&mut factsheet, scope);
    architect.apply_site_urls(
        &mut factsheet,
        vec![
            "http://example.com/one".to_string(),
            "http://example.com/two".to_string(),
            "http://example.com/three".to_string(),
            "http://example.com/four".to_string(),
        ],
    );

    let outcomes = vec![
        ProbeOutcome::Status(200),
        ProbeOutcome::Status(500),
        ProbeOutcome::TransportError,
        ProbeOutcome::Status(200),
    ];

    on_unit_testing_stage(&mut architect, &mut factsheet, &outcomes);

    assert_eq!(architect.attributes.state, AgentState::Finished);
    assert_eq!(
        factsheet.external_urls,
        Some(vec!["http://example.com/one".to_string(), "http://example.com/four".to_string()]),
    );
}

#[test]
fn test_all_urls_healthy_list_untouched() {
    let mut architect = SolutionArchitect::new();
    let mut factsheet = empty_factsheet();
    factsheet.external_urls =
        Some(vec!["http://example.com/a".to_string(), "http://example.com/b".to_string()]);
    architect.attributes.state = AgentState::UnitTesting;

    let outcomes = vec![ProbeOutcome::Status(200), ProbeOutcome::Status(200)];
    on_unit_testing_stage(&mut architect, &mut factsheet, &outcomes);

    assert_eq!(
        factsheet.external_urls,
        Some(vec!["http://example.com/a".to_string(), "http://example.com/b".to_string()]),
    );
    assert_eq!(architect.attributes.state, AgentState::Finished);
}

#[test]
fn test_empty_url_list() {
    let mut architect = SolutionArchitect::new();
    let mut factsheet = empty_factsheet();
    factsheet.external_urls = Some(Vec::new());
    architect.attributes.state = AgentState::UnitTesting;

    on_unit_testing_stage(&mut architect, &mut factsheet, &Vec::new());

    assert_eq!(factsheet.external_urls, Some(Vec::new()));
    assert_eq!(architect.attributes.state, AgentState::Finished);
}

#[test]
fn test_duplicate_url_removed_everywhere() {
    // Removal is by URL value: when one occurrence of a duplicated URL
    // probes faulty, every occurrence of that URL is removed.
    let mut architect = SolutionArchitect::new();
    let mut factsheet = empty_factsheet();
    factsheet.external_urls = Some(vec![
        "http://example.com/dup".to_string(),
        "http://example.com/ok".to_string(),
        "http://example.com/dup".to_string(),
    ]);
    architect.attributes.state = AgentState::UnitTesting;

    let outcomes =
        vec![ProbeOutcome::Status(200), ProbeOutcome::Status(200), ProbeOutcome::Status(503)];
    on_unit_testing_stage(&mut architect, &mut factsheet, &outcomes);

    assert_eq!(factsheet.external_urls, Some(vec!["http://example.com/ok".to_string()]));
}

#[test]
fn test_get_faulty_urls() {
    let urls = vec![
        "http://example.com/one".to_string(),
        "http://example.com/two".to_string(),
        "http://example.com/three".to_string(),
    ];
    let outcomes =
        vec![ProbeOutcome::Status(404), ProbeOutcome::Status(200), ProbeOutcome::TransportError];

    let faulty = get_faulty_urls(&urls, &outcomes);
    assert_eq!(
        faulty,
        vec!["http://example.com/one".to_string(), "http://example.com/three".to_string()],
    );
}

#[test]
fn test_unhandled_stage_is_terminal() {
    let mut architect = SolutionArchitect::new();
    architect.attributes.state = AgentState::Working;
    architect.on_unhandled_stage();
    assert_eq!(architect.attributes.state, AgentState::Finished);
}
