use bevy_brp_mcp::error::{Error, ErrorDetails};
use bevy_brp_mcp::handler::{
    error_response, estimated_tokens, framework_error_message, parameter_format_error,
    sanitized_identifier, simple_type_name, ErrorResponseKind, LargeResponseConfig,
    CHARS_PER_TOKEN,
};
use bevy_brp_mcp::roots::{search_paths_for_reply, RootsReply};
use bevy_brp_mcp::target::TargetType;

#[test]
fn type_names_lose_their_path() {
    assert_eq!(simple_type_name("bevy_brp_mcp::app_tools::LaunchParams"), "LaunchParams");
    assert_eq!(simple_type_name("LaunchParams"), "LaunchParams");
    assert_eq!(simple_type_name(""), "");
    assert_eq!(simple_type_name("a::"), "");
    assert_eq!(simple_type_name("::a"), "a");
    assert_eq!(simple_type_name("a:::b"), "b");
    assert_eq!(simple_type_name("a:b"), "a:b");
    assert_eq!(simple_type_name("alloc::vec::Vec<alloc::string::String>"), "String>");
    for path in ["x::y::z", "a", "::", ":::", "m::n<o::p>", "é::ü"] {
        assert_eq!(simple_type_name(path), path.rsplit("::").next().unwrap(), "{path}");
    }
}

#[test]
fn parameter_errors_name_the_type_and_the_reason() {
    assert_eq!(
        parameter_format_error("tools::QueryParams", "missing field `data`"),
        Error::ToolCall {
            message: "Invalid parameter format for 'QueryParams': missing field `data`. Check the parameter types and structure match the tool's requirements".to_string(),
            details: None,
        }
    );
}

#[test]
fn errors_get_the_response_of_their_kind() {
    let structured = Error::NoTargetsFound { target_name: "g".to_string(), target_type: TargetType::App };
    assert_eq!(
        error_response(&structured),
        (ErrorResponseKind::Structured, "No app named 'g' found".to_string())
    );
    let detailed = Error::ToolCall {
        message: "went wrong".to_string(),
        details: Some(ErrorDetails::Cause {
            error: "cause".to_string(),
            error_chain: vec!["cause".to_string()],
        }),
    };
    assert_eq!(error_response(&detailed), (ErrorResponseKind::WithDetails, "went wrong".to_string()));
    let plain = Error::ToolCall { message: "went wrong".to_string(), details: None };
    assert_eq!(error_response(&plain), (ErrorResponseKind::WithDetails, "went wrong".to_string()));
    let too_many = Error::InstanceCountTooLarge { instance_count: 65536, maximum: 65535 };
    assert_eq!(
        error_response(&too_many),
        (
            ErrorResponseKind::WithDetails,
            "Instance count 65536 is too large (maximum is 65535)".to_string()
        )
    );
    let past = Error::PortRangeExceeded { base_port: 65533, highest_port: 65535, max_valid_port: 65534 };
    assert_eq!(
        error_response(&past),
        (
            ErrorResponseKind::WithDetails,
            "Port range 65533 to 65535 exceeds maximum valid port 65534".to_string()
        )
    );
    let internal = Error::ProcessManagement("no fork".to_string());
    assert_eq!(
        error_response(&internal),
        (ErrorResponseKind::Message, "Internal error: Process management error: no fork".to_string())
    );
    assert_eq!(
        framework_error_message(&Error::FileOrPathNotFound("x".to_string())),
        "Framework error: File or path not found: x"
    );
}

#[test]
fn large_responses_go_to_a_file() {
    assert_eq!(CHARS_PER_TOKEN, 4);
    assert_eq!(estimated_tokens(0), 0);
    assert_eq!(estimated_tokens(3), 0);
    assert_eq!(estimated_tokens(4), 1);
    assert_eq!(estimated_tokens(4_000_003), 1_000_000);
    let config = LargeResponseConfig { file_prefix: "mcp_response_".to_string(), max_tokens: 10 };
    assert!(!config.goes_to_file(43, true));
    assert!(config.goes_to_file(44, true));
    assert!(!config.goes_to_file(44, false));
    assert!(!config.goes_to_file(0, true));
    assert_eq!(sanitized_identifier("world/get components"), "world_get_components");
    assert_eq!(sanitized_identifier("plain"), "plain");
    assert_eq!(sanitized_identifier("/ /"), "___");
    assert_eq!(sanitized_identifier(""), "");
    assert_eq!(
        config.file_name("registry/schema", 1_700_000_000),
        "mcp_response_registry_schema1700000000.json"
    );
}

#[test]
fn search_paths_follow_the_reply() {
    let roots = RootsReply::Roots(vec!["file:///a".to_string(), "ftp://b".to_string()]);
    assert_eq!(search_paths_for_reply(&roots, Some("/cwd")), Ok(vec!["/a".to_string()]));
    assert_eq!(
        search_paths_for_reply(&RootsReply::MethodNotFound, Some("/cwd")),
        Ok(vec!["/cwd".to_string()])
    );
    assert_eq!(search_paths_for_reply(&RootsReply::MethodNotFound, None), Ok(vec![".".to_string()]));
    assert_eq!(
        search_paths_for_reply(&RootsReply::Failed("timeout".to_string()), Some("/cwd")),
        Err("Failed to list roots: timeout".to_string())
    );
    assert_eq!(search_paths_for_reply(&RootsReply::Roots(Vec::new()), None), Ok(Vec::new()));
}
