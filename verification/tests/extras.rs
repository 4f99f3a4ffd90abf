use bevy_brp_mcp::error::Error;
use bevy_brp_mcp::extras::{
    plan_screenshot, screenshot_delay, screenshot_note, BrpExtrasPlugin, BrpFailure,
    PendingScreenshot, ScreenshotCapture, ScreenshotRequest, DEFAULT_DELAY_FRAMES,
    DEFAULT_REMOTE_PORT, INTERNAL_ERROR, INVALID_PARAMS,
};
use bevy_brp_mcp::roots::paths_from_root_uris;
use bevy_brp_mcp::selection::{
    answer_selection, default_true, resolve_path, GrabSelectionParams, SelectionAnswer,
    SelectionFile, DEFAULT_SELECTION_PATH, ENV_SELECTION_PATH,
};

#[test]
fn resolves_default_path_when_none() {
    let path = resolve_path(None, None);
    assert!(path.ends_with(DEFAULT_SELECTION_PATH));
}

#[test]
fn selection_path_prefers_argument_then_environment() {
    assert_eq!(resolve_path(Some("mine.json"), Some("env.json")), "mine.json");
    assert_eq!(resolve_path(None, Some("env.json")), "env.json");
    assert_eq!(resolve_path(None, Some("")), "target/ai-selection/selection.json");
    assert_eq!(resolve_path(Some(""), Some("env.json")), "");
    assert_eq!(ENV_SELECTION_PATH, "BRP_GRAB_SELECTION_PATH");
}

#[test]
fn selection_parameters_default() {
    assert!(default_true());
    let params = GrabSelectionParams::default();
    assert_eq!(params.path, None);
    assert!(!params.require_enabled);
    assert!(params.fail_if_absent);
}

#[test]
fn missing_selection_file_is_an_error_or_empty() {
    let strict = GrabSelectionParams::default();
    assert_eq!(
        answer_selection(&strict, "nope.json", SelectionFile::Absent),
        Err(Error::FileOrPathNotFound("grab selection file at nope.json".to_string()))
    );
    let lenient = GrabSelectionParams { fail_if_absent: false, ..GrabSelectionParams::default() };
    assert_eq!(answer_selection(&lenient, "nope.json", SelectionFile::Absent), Ok(SelectionAnswer::Empty));
}

#[test]
fn disabled_selection_is_an_error_only_when_required() {
    let relaxed = GrabSelectionParams::default();
    assert_eq!(
        answer_selection(&relaxed, "s.json", SelectionFile::Present { enabled: false }),
        Ok(SelectionAnswer::FromFile { enabled: false })
    );
    let demanding = GrabSelectionParams { require_enabled: true, ..GrabSelectionParams::default() };
    assert_eq!(
        answer_selection(&demanding, "s.json", SelectionFile::Present { enabled: false }),
        Err(Error::ToolCall {
            message: "Invalid enabled: selection capture is disabled".to_string(),
            details: None,
        })
    );
    assert_eq!(
        answer_selection(&demanding, "s.json", SelectionFile::Present { enabled: true }),
        Ok(SelectionAnswer::FromFile { enabled: true })
    );
}

#[test]
fn effective_port_prefers_environment() {
    let default = BrpExtrasPlugin::new();
    let configured = BrpExtrasPlugin::with_port(9000);
    assert_eq!(default.get_effective_port(None), (15702, "default".to_string()));
    assert_eq!(configured.get_effective_port(None), (9000, "with_port".to_string()));
    assert_eq!(
        default.get_effective_port(Some("20000")),
        (20000, "environment override from default 15702".to_string())
    );
    assert_eq!(
        configured.get_effective_port(Some("20000")),
        (20000, "environment override from with_port 9000".to_string())
    );
    assert_eq!(BrpExtrasPlugin::default(), BrpExtrasPlugin::new());
    assert_eq!(DEFAULT_REMOTE_PORT, 15702);
}

#[test]
fn unreadable_environment_port_is_ignored() {
    let configured = BrpExtrasPlugin::with_port(9000);
    assert_eq!(configured.get_effective_port(Some("70000")), (9000, "with_port".to_string()));
    assert_eq!(configured.get_effective_port(Some("")), (9000, "with_port".to_string()));
    assert_eq!(BrpExtrasPlugin::new().get_effective_port(Some("port")), (15702, "default".to_string()));
}

#[test]
fn pending_screenshot_counts_frames_down() {
    let mut pending = PendingScreenshot { path: "shot.png".to_string(), frames_remaining: 2 };
    assert!(!pending.advance());
    assert_eq!(pending.frames_remaining, 1);
    assert!(!pending.advance());
    assert_eq!(pending.frames_remaining, 0);
    assert!(pending.advance());
    assert!(pending.advance());
    assert_eq!(pending.frames_remaining, 0);
    assert_eq!(pending.path, "shot.png");
}

#[test]
fn screenshot_delay_and_note() {
    assert_eq!(screenshot_delay(None), DEFAULT_DELAY_FRAMES);
    assert_eq!(screenshot_delay(None), 2);
    assert_eq!(screenshot_delay(Some(0)), 0);
    assert_eq!(screenshot_delay(Some(5)), 5);
    assert_eq!(screenshot_delay(Some(4_294_967_296 + 3)), 3);
    assert_eq!(
        screenshot_note(3),
        "Screenshot will be captured after 3 frame(s) to ensure scene is rendered. File I/O is asynchronous."
    );
    assert_eq!(
        screenshot_note(0),
        "Screenshot capture initiated immediately. File I/O will be performed asynchronously."
    );
}

#[test]
fn root_addresses_become_search_paths() {
    let uris = vec![
        "file:///home/me/game".to_string(),
        "https://example.org/x".to_string(),
        "file://relative".to_string(),
        "FILE:///upper".to_string(),
        "file://".to_string(),
    ];
    assert_eq!(
        paths_from_root_uris(&uris),
        vec!["/home/me/game".to_string(), "relative".to_string(), String::new()]
    );
    assert!(paths_from_root_uris(&Vec::new()).is_empty());
}

fn screenshot_request() -> ScreenshotRequest {
    ScreenshotRequest {
        png_supported: true,
        path: Some("shot.png".to_string()),
        delay_frames: None,
        absolute_path: Ok("/game/shot.png".to_string()),
        window_exists: true,
    }
}

#[test]
fn screenshots_wait_for_frames_by_default() {
    assert_eq!(
        plan_screenshot(&screenshot_request()),
        Ok(ScreenshotCapture::Delayed {
            pending: PendingScreenshot { path: "/game/shot.png".to_string(), frames_remaining: 2 },
            entity_name: "PendingScreenshot_/game/shot.png".to_string(),
        })
    );
    let immediate = ScreenshotRequest { delay_frames: Some(0), ..screenshot_request() };
    assert_eq!(
        plan_screenshot(&immediate),
        Ok(ScreenshotCapture::Immediate {
            path: "/game/shot.png".to_string(),
            entity_name: "Screenshot_/game/shot.png".to_string(),
        })
    );
    let wrapped = ScreenshotRequest { delay_frames: Some(4_294_967_296), ..screenshot_request() };
    assert!(matches!(plan_screenshot(&wrapped), Ok(ScreenshotCapture::Immediate { .. })));
}

#[test]
fn screenshot_requests_are_refused_in_order() {
    let refusal = |code: i16, message: &str| Err(BrpFailure { code, message: message.to_string() });
    let nothing_works = ScreenshotRequest {
        png_supported: false,
        path: None,
        delay_frames: None,
        absolute_path: Err("denied".to_string()),
        window_exists: false,
    };
    assert_eq!(
        plan_screenshot(&nothing_works),
        refusal(-32603, "PNG support not available. Enable the 'png' feature in your Bevy dependency")
    );
    let no_path = ScreenshotRequest { png_supported: true, ..nothing_works };
    assert_eq!(plan_screenshot(&no_path), refusal(INVALID_PARAMS, "Missing 'path' parameter"));
    assert_eq!(INVALID_PARAMS, -32602);
    let no_cwd = ScreenshotRequest {
        png_supported: true,
        path: Some("shot.png".to_string()),
        delay_frames: None,
        absolute_path: Err("denied".to_string()),
        window_exists: false,
    };
    assert_eq!(
        plan_screenshot(&no_cwd),
        refusal(INTERNAL_ERROR, "Failed to get current directory: denied")
    );
    let no_window = ScreenshotRequest { window_exists: false, ..screenshot_request() };
    assert_eq!(
        plan_screenshot(&no_window),
        refusal(INTERNAL_ERROR, "No windows found - cannot take screenshot")
    );
}

#[test]
fn missing_file_allowed_when_flag_false() {
    let params = GrabSelectionParams {
        path: Some("nope.json".to_string()),
        require_enabled: false,
        fail_if_absent: false,
    };
    let path = resolve_path(params.path.as_deref(), None);
    assert!(path.ends_with("nope.json"));
    let answer = answer_selection(&params, &path, SelectionFile::Absent).unwrap();
    assert_eq!(answer, SelectionAnswer::Empty);
    assert!(!matches!(answer, SelectionAnswer::FromFile { enabled: true }));
}
