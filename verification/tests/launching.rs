use bevy_brp_mcp::cargo_build::{BuildOutput, BuildRun, BuildState};
use std::time::Instant;

use bevy_brp_mcp::clock::timestamp_of;
use bevy_brp_mcp::command::{
    build_app_command, build_cargo_example_command, set_brp_env_vars, CommandLine,
};
use bevy_brp_mcp::config::{
    App, Example, FromLaunchParams, GenericLaunchHandler, LaunchBevyBinaryParams, LaunchConfig,
    LaunchConfigTrait, LaunchParams, ToLaunchParams,
};
use bevy_brp_mcp::error::{Error, ErrorDetails};
use bevy_brp_mcp::launch_result::{
    assemble_launch_result, build_launch_result, format_port_range, zip_instances,
    LaunchedInstance,
};
use bevy_brp_mcp::launcher::{
    log_file_name, log_setup_error, prepare_launch_environment, LogSetupStage,
};
use bevy_brp_mcp::orchestrator::{
    launch_outcome, launch_step, LaunchAction, LaunchEvent, LaunchPhase, LaunchSession,
};
use bevy_brp_mcp::port::{InstanceCount, Port};
use bevy_brp_mcp::target::{BevyTarget, TargetType};

fn target(name: &str, kind: TargetType, relative_path: &str) -> BevyTarget {
    BevyTarget {
        name: name.to_string(),
        target_type: kind,
        package_name: format!("{name}_pkg"),
        workspace_root: format!("/work/{relative_path}"),
        workspace_name: Some(relative_path.to_string()),
        manifest_path: format!("/work/{relative_path}/Cargo.toml"),
        manifest_dir: Some(format!("/work/{relative_path}")),
        relative_path: relative_path.to_string(),
    }
}

fn app_config(name: &str, port: u16, count: usize) -> LaunchConfig<App> {
    LaunchConfig::new(name.to_string(), "debug".to_string(), None, Port(port), InstanceCount(count), None)
}

fn built(stdout: &str) -> LaunchEvent {
    LaunchEvent::Built(BuildRun::Finished(BuildOutput {
        success: true,
        stdout: stdout.as_bytes().to_vec(),
        stderr: Vec::new(),
    }))
}

fn expect_spawn(action: LaunchAction) -> bevy_brp_mcp::launcher::InstancePlan {
    match action {
        LaunchAction::Spawn(plan) => plan,
        other => panic!("expected a spawn, got {other:?}"),
    }
}

fn expect_abort(action: LaunchAction) -> Error {
    match action {
        LaunchAction::Abort(error) => error,
        other => panic!("expected an abort, got {other:?}"),
    }
}

#[test]
fn launching_three_instances_end_to_end() {
    let config = app_config("game", 15702, 3);
    let catalog = vec![target("other", TargetType::App, "o"), target("game", TargetType::App, "ws")];
    let start = Instant::now();

    let (session, action) = launch_step(&config, LaunchSession::new(), LaunchEvent::Begin);
    assert!(matches!(action, LaunchAction::Scan));
    assert_eq!(session.phase, LaunchPhase::Scanning);

    let (session, action) = launch_step(&config, session, LaunchEvent::Catalog(catalog));
    match action {
        LaunchAction::Build(command) => {
            assert_eq!(command.program, "cargo");
            assert_eq!(command.args, vec!["build", "--bin", "game", "--message-format=json"]);
            assert_eq!(command.current_dir, Some("/work/ws".to_string()));
        },
        other => panic!("expected a build, got {other:?}"),
    }
    assert_eq!(session.phase, LaunchPhase::Building);
    assert_eq!(session.duplicate_paths, None);

    let (mut session, mut action) =
        launch_step(&config, session, built("{\"target\":{\"name\":\"game\"},\"fresh\":true}\n"));
    assert_eq!(session.build_state, Some(BuildState::Fresh));
    for (index, expected_port) in [15702u16, 15703, 15704].into_iter().enumerate() {
        let plan = expect_spawn(action);
        assert_eq!(session.phase, LaunchPhase::Launching);
        assert_eq!(plan.port, expected_port);
        assert_eq!(plan.command.program, "/work/ws/target/debug/game");
        assert_eq!(
            plan.command.envs,
            vec![("BRP_EXTRAS_PORT".to_string(), expected_port.to_string())]
        );
        assert_eq!(plan.working_dir, "/work/ws");
        assert_eq!(plan.log_file_name, format!("bevy_brp_mcp_app_game_debug_port{expected_port}.log"));
        assert_eq!(plan.log_header, None);
        let event = LaunchEvent::Spawned {
            pid: 1000 + index as u32,
            log_file: format!("/tmp/{}", plan.log_file_name),
        };
        let next = launch_step(&config, session, event);
        session = next.0;
        action = next.1;
    }
    assert!(matches!(action, LaunchAction::Complete));
    assert_eq!(session.phase, LaunchPhase::Finished);

    let result = launch_outcome(&config, session, start, Some("/home/me".to_string()));
    assert_eq!(result.instances.len(), 3);
    let ports: Vec<u16> = result.instances.iter().map(|i| i.port).collect();
    assert_eq!(ports, vec![15702, 15703, 15704]);
    let pids: Vec<u32> = result.instances.iter().map(|i| i.pid).collect();
    assert_eq!(pids, vec![1000, 1001, 1002]);
    assert_eq!(result.instances[2].log_file, "/tmp/bevy_brp_mcp_app_game_debug_port15704.log");
    let message = result.message_template.clone().unwrap();
    assert!(message.contains("15702-15704"));
    assert_eq!(message, "Successfully launched 3 instance(s) of game on ports 15702-15704");
    assert_eq!(result.target_name, Some("game".to_string()));
    assert_eq!(result.profile, Some("debug".to_string()));
    assert_eq!(result.binary_path, Some("/work/ws/target/debug/game".to_string()));
    assert_eq!(result.package_name, None);
    assert_eq!(result.workspace, Some("ws".to_string()));
    assert_eq!(result.working_directory, Some("/home/me".to_string()));
    assert_eq!(result.duplicate_paths, None);
    assert!(result.launch_duration_ms.is_some());
    assert!(result.launch_timestamp.is_some());
}

#[test]
fn resolved_duplicates_are_reported_with_the_result() {
    let config: LaunchConfig<Example> = LaunchConfig::new(
        "demo".to_string(),
        "release".to_string(),
        Some("b".to_string()),
        Port(20000),
        InstanceCount(1),
        Some(vec!["fast".to_string()]),
    );
    let catalog = vec![target("demo", TargetType::Example, "a"), target("demo", TargetType::Example, "b")];
    let (session, _) = launch_step(&config, LaunchSession::new(), LaunchEvent::Begin);
    let (session, action) = launch_step(&config, session, LaunchEvent::Catalog(catalog));
    assert!(matches!(action, LaunchAction::Build(_)));
    assert_eq!(session.duplicate_paths, Some(vec!["a".to_string(), "b".to_string()]));
    let (session, action) = launch_step(&config, session, built(""));
    assert_eq!(session.build_state, Some(BuildState::NotFound));
    let plan = expect_spawn(action);
    assert_eq!(plan.command.program, "cargo");
    assert_eq!(plan.command.args, vec!["run", "--example", "demo", "--features", "fast", "--release"]);
    assert_eq!(plan.command.envs, vec![("BRP_EXTRAS_PORT".to_string(), "20000".to_string())]);
    assert_eq!(plan.working_dir, "/work/b");
    assert_eq!(plan.log_header, Some("Package: demo_pkg\n".to_string()));
    assert_eq!(plan.log_file_name, "bevy_brp_mcp_example_demo_release_port20000.log");
    let (session, action) =
        launch_step(&config, session, LaunchEvent::Spawned { pid: 7, log_file: "/l".to_string() });
    assert!(matches!(action, LaunchAction::Complete));
    let result = launch_outcome(&config, session, Instant::now(), None);
    assert_eq!(result.duplicate_paths, Some(vec!["a".to_string(), "b".to_string()]));
    assert_eq!(result.package_name, Some("demo_pkg".to_string()));
    assert_eq!(result.binary_path, None);
    assert_eq!(
        result.message_template,
        Some("Successfully launched 1 instance(s) of demo on ports 20000".to_string())
    );
    assert_eq!(result.instances, vec![LaunchedInstance { pid: 7, log_file: "/l".to_string(), port: 20000 }]);
}

#[test]
fn resolution_failure_aborts_with_the_structured_error() {
    let config = app_config("game", 15702, 1);
    let catalog = vec![target("game", TargetType::App, "a"), target("game", TargetType::App, "b")];
    let (session, _) = launch_step(&config, LaunchSession::new(), LaunchEvent::Begin);
    let (session, action) = launch_step(&config, session, LaunchEvent::Catalog(catalog));
    assert_eq!(session.phase, LaunchPhase::Failed);
    assert_eq!(
        expect_abort(action),
        Error::PathDisambiguation {
            available_paths: vec!["a".to_string(), "b".to_string()],
            target_name: "game".to_string(),
            target_type: TargetType::App,
        }
    );
    let (session, _) = launch_step(&config, LaunchSession::new(), LaunchEvent::Begin);
    let (_, action) = launch_step(&config, session, LaunchEvent::Catalog(Vec::new()));
    assert_eq!(
        expect_abort(action),
        Error::NoTargetsFound { target_name: "game".to_string(), target_type: TargetType::App }
    );
}

#[test]
fn build_failure_aborts_before_any_spawn() {
    let config = app_config("game", 15702, 2);
    let (session, _) = launch_step(&config, LaunchSession::new(), LaunchEvent::Begin);
    let (session, _) =
        launch_step(&config, session, LaunchEvent::Catalog(vec![target("game", TargetType::App, "ws")]));
    let failed = LaunchEvent::Built(BuildRun::Finished(BuildOutput {
        success: false,
        stdout: Vec::new(),
        stderr: b"boom".to_vec(),
    }));
    let (session, action) = launch_step(&config, session, failed);
    assert_eq!(session.phase, LaunchPhase::Failed);
    assert!(session.pids.is_empty());
    assert!(matches!(expect_abort(action), Error::BuildFailed { stderr, .. } if stderr == "boom"));
}

#[test]
fn port_range_is_checked_before_any_spawn() {
    let config = app_config("game", 65534, 2);
    let (session, _) = launch_step(&config, LaunchSession::new(), LaunchEvent::Begin);
    let (session, _) =
        launch_step(&config, session, LaunchEvent::Catalog(vec![target("game", TargetType::App, "ws")]));
    let (session, action) = launch_step(&config, session, built(""));
    assert_eq!(session.phase, LaunchPhase::Failed);
    assert_eq!(
        expect_abort(action),
        Error::PortRangeExceeded { base_port: 65534, highest_port: 65535, max_valid_port: 65534 }
    );
    let oversized = app_config("game", 15702, 65536);
    let (session, _) = launch_step(&oversized, LaunchSession::new(), LaunchEvent::Begin);
    let (session, _) =
        launch_step(&oversized, session, LaunchEvent::Catalog(vec![target("game", TargetType::App, "ws")]));
    let (_, action) = launch_step(&oversized, session, built(""));
    assert_eq!(
        expect_abort(action),
        Error::InstanceCountTooLarge { instance_count: 65536, maximum: 65535 }
    );
}

#[test]
fn spawn_failure_aborts_and_keeps_earlier_instances() {
    let config = app_config("game", 15702, 3);
    let (session, _) = launch_step(&config, LaunchSession::new(), LaunchEvent::Begin);
    let (session, _) =
        launch_step(&config, session, LaunchEvent::Catalog(vec![target("game", TargetType::App, "ws")]));
    let (session, _) = launch_step(&config, session, built(""));
    let (session, action) =
        launch_step(&config, session, LaunchEvent::Spawned { pid: 41, log_file: "/l0".to_string() });
    assert_eq!(expect_spawn(action).port, 15703);
    let failure = Error::ProcessManagement("permission denied".to_string());
    let (session, action) = launch_step(&config, session, LaunchEvent::InstanceFailed(failure.clone()));
    assert_eq!(expect_abort(action), failure);
    assert_eq!(session.phase, LaunchPhase::Failed);
    assert_eq!(session.pids, vec![41]);
    assert_eq!(session.ports, vec![15702]);
}

#[test]
fn events_out_of_turn_abort_with_context() {
    let config = app_config("game", 15702, 1);
    let (session, action) = launch_step(&config, LaunchSession::new(), built(""));
    assert_eq!(session.phase, LaunchPhase::Failed);
    assert_eq!(
        expect_abort(action),
        Error::ToolCall {
            message: "Unexpected event for the state of the launch".to_string(),
            details: Some(ErrorDetails::Launch {
                target_name: "game".to_string(),
                target_type: TargetType::App,
                profile: "debug".to_string(),
                path: None,
                port: 15702,
                duplicate_paths: None,
            }),
        }
    );
    let (session, action) = launch_step(&config, session, LaunchEvent::Begin);
    assert_eq!(session.phase, LaunchPhase::Failed);
    assert!(matches!(action, LaunchAction::Abort(_)));
}

#[test]
fn launch_of_no_instance_finishes_without_spawning() {
    let config = app_config("game", 15702, 0);
    let (session, _) = launch_step(&config, LaunchSession::new(), LaunchEvent::Begin);
    let (session, _) =
        launch_step(&config, session, LaunchEvent::Catalog(vec![target("game", TargetType::App, "ws")]));
    let (session, action) = launch_step(&config, session, built(""));
    assert!(matches!(action, LaunchAction::Complete));
    assert_eq!(session.phase, LaunchPhase::Finished);
    assert!(session.ports.is_empty());
}

#[test]
fn missing_manifest_directory_aborts_the_launch() {
    let config = app_config("game", 15702, 1);
    let mut orphan = target("game", TargetType::App, "ws");
    orphan.manifest_dir = None;
    let (session, _) = launch_step(&config, LaunchSession::new(), LaunchEvent::Begin);
    let (_, action) = launch_step(&config, session, LaunchEvent::Catalog(vec![orphan.clone()]));
    assert_eq!(expect_abort(action), Error::FileOrPathNotFound("Invalid manifest path".to_string()));
    assert_eq!(
        prepare_launch_environment(&config, &orphan),
        Err(Error::FileOrPathNotFound("Invalid manifest path".to_string()))
    );
}

#[test]
fn app_and_example_commands() {
    let app = build_app_command("/ws/target/debug/game", Some(Port(15702)));
    assert_eq!(app.program, "/ws/target/debug/game");
    assert!(app.args.is_empty());
    assert_eq!(app.envs, vec![("BRP_EXTRAS_PORT".to_string(), "15702".to_string())]);
    assert_eq!(app.current_dir, None);
    let bare = build_app_command("game", None);
    assert!(bare.envs.is_empty());

    let features = vec!["a".to_string(), "b".to_string(), "c".to_string()];
    let example = build_cargo_example_command("demo", "release", Some(Port(9)), Some(&features));
    assert_eq!(example.program, "cargo");
    assert_eq!(example.args, vec!["run", "--example", "demo", "--features", "a,b,c", "--release"]);
    assert_eq!(example.envs, vec![("BRP_EXTRAS_PORT".to_string(), "9".to_string())]);
    let plain = build_cargo_example_command("demo", "debug", None, Some(&Vec::new()));
    assert_eq!(plain.args, vec!["run", "--example", "demo"]);
    assert!(plain.envs.is_empty());
    let other_profile = build_cargo_example_command("demo", "Release", None, None);
    assert_eq!(other_profile.args, vec!["run", "--example", "demo"]);
}

#[test]
fn port_variable_is_set_only_for_a_port() {
    let mut command = CommandLine::new("prog");
    command.arg("x");
    command.env("K", "V");
    command.current_dir("/d");
    set_brp_env_vars(&mut command, None);
    assert_eq!(command.envs, vec![("K".to_string(), "V".to_string())]);
    set_brp_env_vars(&mut command, Some(Port(0)));
    set_brp_env_vars(&mut command, Some(Port(65535)));
    assert_eq!(
        command.envs,
        vec![
            ("K".to_string(), "V".to_string()),
            ("BRP_EXTRAS_PORT".to_string(), "0".to_string()),
            ("BRP_EXTRAS_PORT".to_string(), "65535".to_string()),
        ]
    );
    assert_eq!(command.args, vec!["x"]);
    assert_eq!(command.current_dir, Some("/d".to_string()));
    let mut selection = CommandLine::new("cargo");
    TargetType::Example.add_cargo_args(&mut selection, "demo");
    TargetType::App.add_cargo_args(&mut selection, "game");
    assert_eq!(selection.args, vec!["--example", "demo", "--bin", "game"]);
}

#[test]
fn log_files_are_named_after_kind_name_profile_and_port() {
    assert_eq!(log_file_name(TargetType::App, "game", "debug", 15702), "bevy_brp_mcp_app_game_debug_port15702.log");
    assert_eq!(
        log_file_name(TargetType::Example, "demo", "release", 1),
        "bevy_brp_mcp_example_demo_release_port1.log"
    );
    assert_ne!(
        log_file_name(TargetType::App, "game", "debug", 15702),
        log_file_name(TargetType::App, "game", "debug", 15703)
    );
}

#[test]
fn log_setup_failures_name_the_step() {
    assert_eq!(
        log_setup_error(LogSetupStage::Create, "disk full"),
        Error::ToolCall { message: "Failed to create log file: disk full".to_string(), details: None }
    );
    assert_eq!(
        log_setup_error(LogSetupStage::Append, "denied").message(),
        "Failed to append to log file: denied"
    );
    assert_eq!(
        log_setup_error(LogSetupStage::Redirect, "gone").message(),
        "Failed to open log file for redirect: gone"
    );
}

#[test]
fn result_is_assembled_from_collected_values() {
    let config = app_config("game", 3000, 2);
    let result = assemble_launch_result(
        vec![5, 6],
        vec!["/a.log".to_string(), "/b.log".to_string()],
        vec![3000, 3001],
        &config,
        &target("game", TargetType::App, "ws"),
        1234,
        Some("2024-01-01T00:00:00+00:00".to_string()),
        None,
    );
    assert_eq!(
        result.instances,
        vec![
            LaunchedInstance { pid: 5, log_file: "/a.log".to_string(), port: 3000 },
            LaunchedInstance { pid: 6, log_file: "/b.log".to_string(), port: 3001 },
        ]
    );
    assert_eq!(result.launch_duration_ms, Some(1234));
    assert_eq!(result.launch_timestamp, Some("2024-01-01T00:00:00+00:00".to_string()));
    assert_eq!(result.working_directory, None);
    assert_eq!(
        result.message_template,
        Some("Successfully launched 2 instance(s) of game on ports 3000-3001".to_string())
    );
    let clocked = build_launch_result(
        vec![5],
        vec!["/a.log".to_string()],
        vec![3000],
        &config,
        &target("game", TargetType::App, "ws"),
        Instant::now(),
        Some("/cwd".to_string()),
    );
    assert_eq!(clocked.instances.len(), 1);
    assert_eq!(clocked.message_template, Some("Successfully launched 1 instance(s) of game on ports 3000".to_string()));
    let stamp = clocked.launch_timestamp.unwrap();
    assert!(stamp.contains('T') && stamp.ends_with("+00:00"));
}

#[test]
fn instances_stop_at_the_shortest_list() {
    let zipped = zip_instances(&vec![1, 2, 3], &vec!["a".to_string(), "b".to_string()], &vec![10, 11, 12, 13]);
    assert_eq!(
        zipped,
        vec![
            LaunchedInstance { pid: 1, log_file: "a".to_string(), port: 10 },
            LaunchedInstance { pid: 2, log_file: "b".to_string(), port: 11 },
        ]
    );
    assert!(zip_instances(&Vec::new(), &vec!["a".to_string()], &vec![1]).is_empty());
    assert_eq!(format_port_range(&vec![8080]), "8080");
    assert_eq!(format_port_range(&vec![8080, 8081, 8082]), "8080-8082");
}

#[test]
fn clock_readings_are_taken() {
    let config = app_config("game", 3000, 1);
    let before = Instant::now();
    let result = build_launch_result(
        vec![5],
        vec!["/a.log".to_string()],
        vec![3000],
        &config,
        &target("game", TargetType::App, "ws"),
        before,
        None,
    );
    assert!(result.launch_duration_ms.unwrap() < 60_000);
    let stamp = result.launch_timestamp.unwrap();
    assert!(stamp.len() >= 20);
    assert!(stamp.starts_with("20"));
    assert_eq!(&stamp[4..5], "-");
    assert_eq!(&stamp[10..11], "T");
}

#[test]
fn parameters_become_configurations() {
    let params = LaunchBevyBinaryParams {
        target_name: "game".to_string(),
        profile: None,
        path: Some("ws".to_string()),
        port: Port(4000),
        instance_count: InstanceCount(2),
        features: Some(vec!["x".to_string()]),
    };
    let launch: LaunchParams = params.to_launch_params("debug");
    assert_eq!(launch.profile, "debug");
    assert_eq!(launch.target_name, "game");
    assert_eq!(launch.path, Some("ws".to_string()));
    assert_eq!(launch.port, Port(4000));
    assert_eq!(launch.instance_count, InstanceCount(2));
    assert_eq!(launch.features, Some(vec!["x".to_string()]));

    let named = LaunchBevyBinaryParams { profile: Some("release".to_string()), ..params };
    assert_eq!(named.to_launch_params("debug").profile, "release");

    let handler: GenericLaunchHandler<LaunchConfig<Example>, LaunchBevyBinaryParams> =
        GenericLaunchHandler::new("debug");
    let config = handler.config_for(&named);
    assert_eq!(LaunchConfig::<Example>::target_type(), TargetType::Example);
    assert_eq!(LaunchConfig::<App>::target_type(), TargetType::App);
    assert_eq!(config.target_name(), "game");
    assert_eq!(config.profile(), "release");
    assert_eq!(config.path(), Some("ws"));
    assert_eq!(config.port(), Port(4000));
    assert_eq!(config.instance_count(), InstanceCount(2));
    assert_eq!(config.features(), Some(&vec!["x".to_string()]));

    let mut app = LaunchConfig::<App>::from_params(&launch);
    app.set_port(Port(5000));
    assert_eq!(app.port(), Port(5000));
    let copy = app.instance_config(Port(5001));
    assert_eq!(copy.port(), Port(5001));
    assert_eq!(copy.target_name(), "game");
    assert_eq!(app.port(), Port(5000));
    let demo = target("game", TargetType::App, "ws");
    assert_eq!(app.extra_log_info(&demo), None);
    assert_eq!(config.extra_log_info(&demo), Some("Package: game_pkg".to_string()));
    assert_eq!(app.build_command(&demo).program, "/work/ws/target/debug/game");
    assert_eq!(demo.get_binary_path("release"), "/work/ws/target/release/game");
}

#[test]
fn clock_readings_are_written_as_utc_timestamps() {
    assert_eq!(timestamp_of(Some((0, 0))), Some("1970-01-01T00:00:00+00:00".to_string()));
    assert_eq!(timestamp_of(Some((1_431_648_000, 0))), Some("2015-05-15T00:00:00+00:00".to_string()));
    assert_eq!(
        timestamp_of(Some((1_431_648_000, 500_000_000))),
        Some("2015-05-15T00:00:00.500+00:00".to_string())
    );
    assert_eq!(
        timestamp_of(Some((1_700_000_000, 123_456_789))),
        Some("2023-11-14T22:13:20.123456789+00:00".to_string())
    );
    assert_eq!(timestamp_of(None), None);
    assert_eq!(timestamp_of(Some((u64::MAX, 0))), None);
    assert_eq!(timestamp_of(Some((i64::MAX as u64, 0))), None);
    assert_eq!(timestamp_of(Some((0, 2_000_000_000))), None);
}

#[test]
fn result_without_timestamp_is_assembled() {
    let config = app_config("game", 3000, 1);
    let result = assemble_launch_result(
        vec![5],
        vec!["/a.log".to_string()],
        vec![3000],
        &config,
        &target("game", TargetType::App, "ws"),
        0,
        None,
        None,
    );
    assert_eq!(result.launch_timestamp, None);
    assert_eq!(result.launch_duration_ms, Some(0));
}
