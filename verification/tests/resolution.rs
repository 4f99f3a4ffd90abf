use bevy_brp_mcp::config::{App, Example, LaunchConfig};
use bevy_brp_mcp::error::{Error, ErrorDetails};
use bevy_brp_mcp::port::{InstanceCount, Port};
use bevy_brp_mcp::resolve::{
    candidate_paths, create_error_details, duplicate_paths_of, find_all_targets_by_name,
    find_and_validate_target, find_required_target_with_path, handle_target_discovery_error,
};
use bevy_brp_mcp::target::{BevyTarget, TargetType};

fn catalog_target(name: &str, kind: TargetType, relative_path: &str) -> BevyTarget {
    BevyTarget {
        name: name.to_string(),
        target_type: kind,
        package_name: format!("{name}_pkg"),
        workspace_root: format!("/work/{relative_path}"),
        workspace_name: Some(relative_path.to_string()),
        manifest_path: format!("/work/{relative_path}/Cargo.toml"),
        manifest_dir: Some(format!("/work/{relative_path}")),
        relative_path: relative_path.to_string(),
    }
}

fn app_request(name: &str, path: Option<&str>) -> LaunchConfig<App> {
    LaunchConfig::new(
        name.to_string(),
        "debug".to_string(),
        path.map(str::to_string),
        Port(15702),
        InstanceCount(1),
        None,
    )
}

fn example_request(name: &str, path: Option<&str>) -> LaunchConfig<Example> {
    LaunchConfig::new(
        name.to_string(),
        "debug".to_string(),
        path.map(str::to_string),
        Port(15702),
        InstanceCount(1),
        None,
    )
}

#[test]
fn no_matching_target_gives_no_targets_found() {
    let catalog = vec![catalog_target("other", TargetType::App, "a")];
    assert_eq!(
        find_and_validate_target(&app_request("game", None), &catalog),
        Err(Error::NoTargetsFound { target_name: "game".to_string(), target_type: TargetType::App })
    );
    assert_eq!(
        find_and_validate_target(&app_request("game", Some("a")), &Vec::new()),
        Err(Error::NoTargetsFound { target_name: "game".to_string(), target_type: TargetType::App })
    );
}

#[test]
fn kind_is_part_of_the_match() {
    let catalog = vec![catalog_target("game", TargetType::Example, "a")];
    assert_eq!(
        find_and_validate_target(&app_request("game", None), &catalog),
        Err(Error::NoTargetsFound { target_name: "game".to_string(), target_type: TargetType::App })
    );
    assert_eq!(
        find_and_validate_target(&example_request("game", None), &catalog),
        Ok(catalog_target("game", TargetType::Example, "a"))
    );
}

#[test]
fn single_target_resolves_without_hint() {
    let catalog = vec![catalog_target("other", TargetType::App, "x"), catalog_target("game", TargetType::App, "a")];
    assert_eq!(
        find_and_validate_target(&app_request("game", None), &catalog),
        Ok(catalog_target("game", TargetType::App, "a"))
    );
    assert_eq!(
        find_and_validate_target(&app_request("game", Some("a")), &catalog),
        Ok(catalog_target("game", TargetType::App, "a"))
    );
}

#[test]
fn single_target_with_wrong_hint_lists_its_path() {
    let catalog = vec![catalog_target("game", TargetType::App, "a")];
    assert_eq!(
        find_and_validate_target(&app_request("game", Some("b")), &catalog),
        Err(Error::TargetNotFoundAtSpecifiedPath {
            target_name: "game".to_string(),
            target_type: TargetType::App,
            searched_path: Some("b".to_string()),
            available_paths: vec!["a".to_string()],
        })
    );
}

#[test]
fn several_targets_without_hint_need_disambiguation() {
    let catalog = vec![
        catalog_target("game", TargetType::App, "a"),
        catalog_target("noise", TargetType::App, "n"),
        catalog_target("game", TargetType::App, "b"),
    ];
    let expected = Err(Error::PathDisambiguation {
        available_paths: vec!["a".to_string(), "b".to_string()],
        target_name: "game".to_string(),
        target_type: TargetType::App,
    });
    assert_eq!(find_and_validate_target(&app_request("game", None), &catalog), expected);
    assert_eq!(find_and_validate_target(&app_request("game", Some("c")), &catalog), expected);
}

#[test]
fn hint_must_match_exactly() {
    let catalog = vec![catalog_target("game", TargetType::App, "ws/a"), catalog_target("game", TargetType::App, "ws/b")];
    assert!(matches!(
        find_and_validate_target(&app_request("game", Some("a")), &catalog),
        Err(Error::PathDisambiguation { .. })
    ));
    assert!(matches!(
        find_and_validate_target(&app_request("game", Some("ws/a/")), &catalog),
        Err(Error::PathDisambiguation { .. })
    ));
}

#[test]
fn several_targets_with_matching_hint_resolve() {
    let catalog = vec![catalog_target("game", TargetType::App, "a"), catalog_target("game", TargetType::App, "b")];
    assert_eq!(
        find_and_validate_target(&app_request("game", Some("b")), &catalog),
        Ok(catalog_target("game", TargetType::App, "b"))
    );
}

#[test]
fn finds_all_targets_in_catalog_order() {
    let catalog = vec![
        catalog_target("game", TargetType::App, "a"),
        catalog_target("game", TargetType::Example, "e"),
        catalog_target("tool", TargetType::App, "t"),
        catalog_target("game", TargetType::App, "b"),
    ];
    let apps = find_all_targets_by_name("game", Some(TargetType::App), &catalog);
    assert_eq!(candidate_paths(&apps), vec!["a".to_string(), "b".to_string()]);
    let any = find_all_targets_by_name("game", None, &catalog);
    assert_eq!(candidate_paths(&any), vec!["a".to_string(), "e".to_string(), "b".to_string()]);
    assert!(find_all_targets_by_name("nothing", None, &catalog).is_empty());
}

#[test]
fn duplicate_paths_only_for_several_candidates() {
    let catalog = vec![catalog_target("game", TargetType::App, "a"), catalog_target("game", TargetType::App, "b")];
    let both = find_all_targets_by_name("game", None, &catalog);
    assert_eq!(duplicate_paths_of(&both), Some(vec!["a".to_string(), "b".to_string()]));
    let one = vec![&catalog[0]];
    assert_eq!(duplicate_paths_of(&one), None);
    assert_eq!(duplicate_paths_of(&Vec::new()), None);
}

#[test]
fn selection_picks_first_candidate_at_path() {
    let a = catalog_target("game", TargetType::App, "a");
    let b = catalog_target("game", TargetType::App, "b");
    let mut b2 = catalog_target("game", TargetType::App, "b");
    b2.package_name = "second".to_string();
    let candidates = vec![&a, &b, &b2];
    assert_eq!(find_required_target_with_path(Some("b"), &candidates), Some(&b));
    assert_eq!(find_required_target_with_path(Some("z"), &candidates), None);
    assert_eq!(find_required_target_with_path(None, &candidates), None);
    assert_eq!(find_required_target_with_path(None, &vec![&a]), Some(&a));
    assert_eq!(find_required_target_with_path(None, &Vec::new()), None);
}

#[test]
fn resolution_errors_survive_discovery_handling() {
    let structured = vec![
        Error::NoTargetsFound { target_name: "g".to_string(), target_type: TargetType::App },
        Error::TargetNotFoundAtSpecifiedPath {
            target_name: "g".to_string(),
            target_type: TargetType::Example,
            searched_path: None,
            available_paths: vec!["a".to_string()],
        },
        Error::PathDisambiguation {
            available_paths: vec!["a".to_string(), "b".to_string()],
            target_name: "g".to_string(),
            target_type: TargetType::App,
        },
    ];
    for error in structured {
        assert!(error.is_structured());
        assert_eq!(handle_target_discovery_error(error.clone()), error);
    }
}

#[test]
fn other_errors_are_wrapped_by_discovery_handling() {
    let wrapped = handle_target_discovery_error(Error::FileOrPathNotFound("gone".to_string()));
    assert_eq!(
        wrapped,
        Error::ToolCall {
            message: "File or path not found: gone".to_string(),
            details: Some(ErrorDetails::Cause {
                error: "File or path not found: gone".to_string(),
                error_chain: vec!["File or path not found: gone".to_string()],
            }),
        }
    );
    assert!(!wrapped.is_structured());
}

#[test]
fn error_details_carry_the_request() {
    let config: LaunchConfig<Example> = LaunchConfig::new(
        "demo".to_string(),
        "release".to_string(),
        Some("ws/demo".to_string()),
        Port(20000),
        InstanceCount(2),
        None,
    );
    assert_eq!(
        create_error_details(&config, Some(vec!["x".to_string()])),
        ErrorDetails::Launch {
            target_name: "demo".to_string(),
            target_type: TargetType::Example,
            profile: "release".to_string(),
            path: Some("ws/demo".to_string()),
            port: 20000,
            duplicate_paths: Some(vec!["x".to_string()]),
        }
    );
}

#[test]
fn resolution_error_messages() {
    let none = Error::NoTargetsFound { target_name: "game".to_string(), target_type: TargetType::App };
    assert_eq!(none.message(), "No app named 'game' found");
    let elsewhere = Error::TargetNotFoundAtSpecifiedPath {
        target_name: "game".to_string(),
        target_type: TargetType::Example,
        searched_path: Some("b".to_string()),
        available_paths: vec!["a".to_string()],
    };
    assert_eq!(
        elsewhere.message(),
        "The example 'game' was not found at path 'b'; available paths: [a]"
    );
    let several = Error::PathDisambiguation {
        available_paths: vec!["a".to_string(), "b".to_string()],
        target_name: "game".to_string(),
        target_type: TargetType::App,
    };
    assert_eq!(several.message(), "Found 2 app targets named 'game', specify path: [a, b]");
}

#[test]
fn wrapped_errors_keep_their_chain() {
    let first = handle_target_discovery_error(Error::ProcessManagement("no fork".to_string()));
    assert_eq!(first.chain(), vec![
        "Process management error: no fork".to_string(),
        "Process management error: no fork".to_string(),
    ]);
    let renamed = match first {
        Error::ToolCall { details, .. } => Error::ToolCall { message: "launch failed".to_string(), details },
        other => other,
    };
    let second = handle_target_discovery_error(renamed);
    assert_eq!(
        second,
        Error::ToolCall {
            message: "launch failed".to_string(),
            details: Some(ErrorDetails::Cause {
                error: "launch failed".to_string(),
                error_chain: vec![
                    "launch failed".to_string(),
                    "Process management error: no fork".to_string(),
                ],
            }),
        }
    );
    let plain = Error::ToolCall { message: "m".to_string(), details: None };
    assert_eq!(plain.chain(), vec!["m".to_string()]);
    let structured = Error::NoTargetsFound { target_name: "g".to_string(), target_type: TargetType::App };
    assert_eq!(structured.chain(), vec!["No app named 'g' found".to_string()]);
}
