//! What a launched application decides for itself: the port it listens on
//! and when a delayed screenshot is due.

use vstd::prelude::*;
use vstd::string::*;
use crate::text::{decimal, parse_u16, parsed_u16, push_decimal};

verus! {

/// The port that an application listens on when nothing else is said.
pub const DEFAULT_REMOTE_PORT: u16 = 15702;

/// Number of frames to wait before a screenshot is taken, so that the scene
/// has been drawn at least once.
pub const DEFAULT_DELAY_FRAMES: u32 = 2;

/// The settings of the extra remote methods of an application.
#[derive(Clone, Copy, Debug, PartialEq, Eq, Hash, Structural)]
pub struct BrpExtrasPlugin {
    /// The port set in the program, if any.
    pub port: Option<u16>,
}

/// The port that the environment asks for: the value of the port variable
/// where it is set to a 16-bit number.
pub open spec fn environment_port(env_value: Option<Seq<char>>) -> Option<u16> {
    match env_value {
        Some(text) => parsed_u16(text),
        None => None,
    }
}

/// The port to listen on: the environment's where it names one, else the
/// one set in the program, else the default.
pub open spec fn effective_port(env_port: Option<u16>, configured: Option<u16>) -> u16 {
    match env_port {
        Some(p) => p,
        None => match configured {
            Some(p) => p,
            None => DEFAULT_REMOTE_PORT,
        },
    }
}

/// Where the effective port comes from, in words.
pub open spec fn port_source(env_port: Option<u16>, configured: Option<u16>) -> Seq<char> {
    match (env_port, configured) {
        (Some(_), Some(value)) => "environment override from with_port "@ + decimal(value as nat),
        (Some(_), None) => "environment override from default "@ + decimal(
            DEFAULT_REMOTE_PORT as nat,
        ),
        (None, Some(_)) => "with_port"@,
        (None, None) => "default"@,
    }
}

impl BrpExtrasPlugin {
    /// Settings with no port of their own.
    pub fn new() -> (r: Self)
        ensures
            r.port is None,
    {
        Self { port: None }
    }

    /// Settings with a port of their own.
    pub fn with_port(port: u16) -> (r: Self)
        ensures
            r.port == Some(port),
    {
        Self { port: Some(port) }
    }

    /// The port to listen on and where it comes from, given the value of
    /// the port variable in the environment.
    pub fn get_effective_port(&self, env_value: Option<&str>) -> (r: (u16, String))
        ensures
            r.0 == effective_port(environment_port(env_value.deep_view()), self.port),
            r.1@ == port_source(environment_port(env_value.deep_view()), self.port),
    {
        let env_port: Option<u16> = match env_value {
            Some(text) => parse_u16(text),
            None => None,
        };
        let final_port: u16 = match env_port {
            Some(p) => p,
            None => match self.port {
                Some(p) => p,
                None => DEFAULT_REMOTE_PORT,
            },
        };
        let source_description = match (env_port, self.port) {
            (Some(_), Some(with_port_value)) => {
                let mut text = String::from_str("environment override from with_port ");
                push_decimal(&mut text, with_port_value as u128);
                text
            },
            (Some(_), None) => {
                let mut text = String::from_str("environment override from default ");
                push_decimal(&mut text, DEFAULT_REMOTE_PORT as u128);
                text
            },
            (None, Some(_)) => String::from_str("with_port"),
            (None, None) => String::from_str("default"),
        };
        (final_port, source_description)
    }
}

impl Default for BrpExtrasPlugin {
    fn default() -> (r: Self)
        ensures
            r.port is None,
    {
        Self::new()
    }
}

/// The environment decides where it names a port; otherwise the program
/// does, and the default stands where neither names one.
pub proof fn lemma_environment_comes_first(env_port: Option<u16>, configured: Option<u16>)
    ensures
        env_port matches Some(p) ==> effective_port(env_port, configured) == p,
        env_port is None ==> (configured matches Some(p) ==> effective_port(env_port, configured)
            == p),
        env_port is None && configured is None ==> effective_port(env_port, configured)
            == DEFAULT_REMOTE_PORT,
{
}

/// A screenshot that waits for a number of frames.
#[derive(Clone, Debug, PartialEq, Eq)]
pub struct PendingScreenshot {
    /// Where to save the screenshot.
    pub path: String,
    /// Frames left to wait before the capture.
    pub frames_remaining: u32,
}

impl PendingScreenshot {
    /// One frame passes. Gives `true` where the wait is over and the
    /// capture is due; otherwise one frame less remains.
    pub fn advance(&mut self) -> (due: bool)
        ensures
            due == (old(self).frames_remaining == 0),
            final(self).path == old(self).path,
            final(self).frames_remaining == if due {
                0
            } else {
                (old(self).frames_remaining - 1) as u32
            },
    {
        if self.frames_remaining == 0 {
            true
        } else {
            self.frames_remaining -= 1;
            false
        }
    }
}

/// The frames to wait for a request: the number asked for, cut to 32 bits,
/// or the default where none is asked for.
pub open spec fn requested_delay(delay_frames: Option<u64>) -> u32 {
    match delay_frames {
        Some(v) => (v % 0x1_0000_0000) as u32,
        None => DEFAULT_DELAY_FRAMES,
    }
}

/// The frames to wait for a request.
pub fn screenshot_delay(delay_frames: Option<u64>) -> (r: u32)
    ensures
        r == requested_delay(delay_frames),
{
    match delay_frames {
        Some(v) => (v % 0x1_0000_0000) as u32,
        None => DEFAULT_DELAY_FRAMES,
    }
}

/// What the answer to a screenshot request notes about its timing.
pub open spec fn screenshot_note_text(delay_frames: u32) -> Seq<char> {
    if delay_frames > 0 {
        "Screenshot will be captured after "@ + decimal(delay_frames as nat)
            + " frame(s) to ensure scene is rendered. File I/O is asynchronous."@
    } else {
        "Screenshot capture initiated immediately. File I/O will be performed asynchronously."@
    }
}

/// Words the note of the answer to a screenshot request.
pub fn screenshot_note(delay_frames: u32) -> (r: String)
    ensures
        r@ == screenshot_note_text(delay_frames),
{
    if delay_frames > 0 {
        let mut note = String::from_str("Screenshot will be captured after ");
        push_decimal(&mut note, delay_frames as u128);
        note.append(" frame(s) to ensure scene is rendered. File I/O is asynchronous.");
        note
    } else {
        String::from_str(
            "Screenshot capture initiated immediately. File I/O will be performed asynchronously.",
        )
    }
}

/// The error code of a request with unusable parameters.
pub const INVALID_PARAMS: i16 = -32602;

/// The error code of a request that failed inside the application.
pub const INTERNAL_ERROR: i16 = -32603;

/// A refused request: an error code and what went wrong.
#[derive(Clone, Debug, PartialEq, Eq)]
pub struct BrpFailure {
    pub code: i16,
    pub message: String,
}

/// What is known when a screenshot is asked for.
#[derive(Debug, PartialEq, Eq)]
pub struct ScreenshotRequest {
    /// Whether the application can write PNG images.
    pub png_supported: bool,
    /// The path asked for, where the request names one that is a string.
    pub path: Option<String>,
    /// The delay asked for, where the request names one that is a number.
    pub delay_frames: Option<u64>,
    /// The path made absolute, or why the current directory is not known.
    pub absolute_path: Result<String, String>,
    /// Whether the application has a window.
    pub window_exists: bool,
}

/// How a screenshot is to be taken.
#[derive(Clone, Debug, PartialEq, Eq)]
pub enum ScreenshotCapture {
    /// At once, by an entity of the given name.
    Immediate { path: String, entity_name: String },
    /// After a wait, by an entity of the given name.
    Delayed { pending: PendingScreenshot, entity_name: String },
}

/// The mathematical content of the answer to a screenshot request.
pub enum ScreenshotOutcome {
    Immediate { path: Seq<char>, entity_name: Seq<char> },
    Delayed { path: Seq<char>, frames_remaining: u32, entity_name: Seq<char> },
    Refused { code: i16, message: Seq<char> },
}

/// What becomes of a screenshot request. The checks are made in this
/// order: the image format, the path, the current directory, the window.
pub open spec fn screenshot_outcome(
    png_supported: bool,
    path: Option<Seq<char>>,
    delay_frames: Option<u64>,
    absolute_path: Result<Seq<char>, Seq<char>>,
    window_exists: bool,
) -> ScreenshotOutcome {
    if !png_supported {
        ScreenshotOutcome::Refused {
            code: INTERNAL_ERROR,
            message: "PNG support not available. Enable the 'png' feature in your Bevy dependency"@,
        }
    } else if path is None {
        ScreenshotOutcome::Refused { code: INVALID_PARAMS, message: "Missing 'path' parameter"@ }
    } else {
        match absolute_path {
            Err(reason) => ScreenshotOutcome::Refused {
                code: INTERNAL_ERROR,
                message: "Failed to get current directory: "@ + reason,
            },
            Ok(absolute) => if !window_exists {
                ScreenshotOutcome::Refused {
                    code: INTERNAL_ERROR,
                    message: "No windows found - cannot take screenshot"@,
                }
            } else if requested_delay(delay_frames) == 0 {
                ScreenshotOutcome::Immediate {
                    path: absolute,
                    entity_name: "Screenshot_"@ + absolute,
                }
            } else {
                ScreenshotOutcome::Delayed {
                    path: absolute,
                    frames_remaining: requested_delay(delay_frames),
                    entity_name: "PendingScreenshot_"@ + absolute,
                }
            },
        }
    }
}

impl ScreenshotRequest {
    /// The mathematical content of the absolute path or of the failure to
    /// find it.
    pub open spec fn absolute_path_view(self) -> Result<Seq<char>, Seq<char>> {
        match self.absolute_path {
            Ok(p) => Ok(p@),
            Err(e) => Err(e@),
        }
    }
}

/// The mathematical content of a decided screenshot request.
pub open spec fn decided_outcome(decided: Result<ScreenshotCapture, BrpFailure>) -> ScreenshotOutcome {
    match decided {
        Ok(ScreenshotCapture::Immediate { path, entity_name }) => ScreenshotOutcome::Immediate {
            path: path@,
            entity_name: entity_name@,
        },
        Ok(ScreenshotCapture::Delayed { pending, entity_name }) => ScreenshotOutcome::Delayed {
            path: pending.path@,
            frames_remaining: pending.frames_remaining,
            entity_name: entity_name@,
        },
        Err(failure) => ScreenshotOutcome::Refused { code: failure.code, message: failure.message@ },
    }
}

/// Decides how a screenshot is taken, or why it is not.
pub fn plan_screenshot(request: &ScreenshotRequest) -> (r: Result<ScreenshotCapture, BrpFailure>)
    ensures
        decided_outcome(r) == screenshot_outcome(
            request.png_supported,
            request.path.deep_view(),
            request.delay_frames,
            request.absolute_path_view(),
            request.window_exists,
        ),
{
    if !request.png_supported {
        return Err(
            BrpFailure {
                code: INTERNAL_ERROR,
                message: String::from_str(
                    "PNG support not available. Enable the 'png' feature in your Bevy dependency",
                ),
            },
        );
    }
    if request.path.is_none() {
        return Err(
            BrpFailure {
                code: INVALID_PARAMS,
                message: String::from_str("Missing 'path' parameter"),
            },
        );
    }
    let absolute: &String = match &request.absolute_path {
        Ok(path) => path,
        Err(reason) => {
            let mut message = String::from_str("Failed to get current directory: ");
            message.append(reason.as_str());
            return Err(BrpFailure { code: INTERNAL_ERROR, message });
        },
    };
    if !request.window_exists {
        return Err(
            BrpFailure {
                code: INTERNAL_ERROR,
                message: String::from_str("No windows found - cannot take screenshot"),
            },
        );
    }
    let delay = screenshot_delay(request.delay_frames);
    if delay == 0 {
        let mut entity_name = String::from_str("Screenshot_");
        entity_name.append(absolute.as_str());
        Ok(ScreenshotCapture::Immediate { path: absolute.clone(), entity_name })
    } else {
        let mut entity_name = String::from_str("PendingScreenshot_");
        entity_name.append(absolute.as_str());
        Ok(
            ScreenshotCapture::Delayed {
                pending: PendingScreenshot { path: absolute.clone(), frames_remaining: delay },
                entity_name,
            },
        )
    }
}

} // verus!
