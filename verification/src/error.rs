//! The error taxonomy of a launch: one variant per kind of failure, each with
//! the data a caller needs to correct the request.

use vstd::prelude::*;
use vstd::string::*;
use crate::target::TargetType;
use crate::text::{decimal, join, joined, push_decimal};

verus! {

/// Diagnostic context attached to a generic failure.
#[derive(Clone, Debug, PartialEq, Eq)]
pub enum ErrorDetails {
    /// The request that failed.
    Launch {
        target_name: String,
        target_type: TargetType,
        profile: String,
        path: Option<String>,
        port: u16,
        duplicate_paths: Option<Vec<String>>,
    },
    /// The failure that was wrapped: its message, and the messages of the
    /// failure and of all that it wrapped in turn, the outermost first.
    Cause { error: String, error_chain: Vec<String> },
}

/// The mathematical content of [`ErrorDetails`].
pub enum ErrorDetailsView {
    Launch {
        target_name: Seq<char>,
        target_type: TargetType,
        profile: Seq<char>,
        path: Option<Seq<char>>,
        port: u16,
        duplicate_paths: Option<Seq<Seq<char>>>,
    },
    Cause { error: Seq<char>, error_chain: Seq<Seq<char>> },
}

impl View for ErrorDetails {
    type V = ErrorDetailsView;

    open spec fn view(&self) -> ErrorDetailsView {
        match self {
            ErrorDetails::Launch {
                target_name,
                target_type,
                profile,
                path,
                port,
                duplicate_paths,
            } => ErrorDetailsView::Launch {
                target_name: target_name@,
                target_type: *target_type,
                profile: profile@,
                path: path.deep_view(),
                port: *port,
                duplicate_paths: duplicate_paths.deep_view(),
            },
            ErrorDetails::Cause { error, error_chain } => ErrorDetailsView::Cause {
                error: error@,
                error_chain: error_chain.deep_view(),
            },
        }
    }
}

impl DeepView for ErrorDetails {
    type V = ErrorDetailsView;

    open spec fn deep_view(&self) -> ErrorDetailsView {
        self@
    }
}

/// Why a launch did not happen.
#[derive(Clone, Debug, PartialEq, Eq)]
pub enum Error {
    /// No target of the requested name and kind exists.
    NoTargetsFound { target_name: String, target_type: TargetType },
    /// Exactly one target of the name exists, and not at the path asked for.
    TargetNotFoundAtSpecifiedPath {
        target_name: String,
        target_type: TargetType,
        searched_path: Option<String>,
        available_paths: Vec<String>,
    },
    /// Several targets share the name and the request did not pick one.
    PathDisambiguation {
        available_paths: Vec<String>,
        target_name: String,
        target_type: TargetType,
    },
    /// The build tool could not be started.
    BuildNotStarted {
        target_type: TargetType,
        target_name: String,
        profile: String,
        manifest_dir: String,
        reason: String,
    },
    /// The build tool ran and reported failure.
    BuildFailed {
        target_type: TargetType,
        target_name: String,
        profile: String,
        manifest_dir: String,
        stderr: String,
    },
    /// More instances were asked for than there are ports.
    InstanceCountTooLarge { instance_count: usize, maximum: u16 },
    /// The ports of the instances would pass the highest valid port.
    PortRangeExceeded { base_port: u16, highest_port: u16, max_valid_port: u16 },
    /// A path that the launch needs does not exist.
    FileOrPathNotFound(String),
    /// A process could not be spawned.
    ProcessManagement(String),
    /// Any other failure, with its context where there is one.
    ToolCall { message: String, details: Option<ErrorDetails> },
}

/// The mathematical content of [`Error`].
pub enum ErrorView {
    NoTargetsFound { target_name: Seq<char>, target_type: TargetType },
    TargetNotFoundAtSpecifiedPath {
        target_name: Seq<char>,
        target_type: TargetType,
        searched_path: Option<Seq<char>>,
        available_paths: Seq<Seq<char>>,
    },
    PathDisambiguation {
        available_paths: Seq<Seq<char>>,
        target_name: Seq<char>,
        target_type: TargetType,
    },
    BuildNotStarted {
        target_type: TargetType,
        target_name: Seq<char>,
        profile: Seq<char>,
        manifest_dir: Seq<char>,
        reason: Seq<char>,
    },
    BuildFailed {
        target_type: TargetType,
        target_name: Seq<char>,
        profile: Seq<char>,
        manifest_dir: Seq<char>,
        stderr: Seq<char>,
    },
    InstanceCountTooLarge { instance_count: usize, maximum: u16 },
    PortRangeExceeded { base_port: u16, highest_port: u16, max_valid_port: u16 },
    FileOrPathNotFound(Seq<char>),
    ProcessManagement(Seq<char>),
    ToolCall { message: Seq<char>, details: Option<ErrorDetailsView> },
}

impl View for Error {
    type V = ErrorView;

    open spec fn view(&self) -> ErrorView {
        match self {
            Error::NoTargetsFound { target_name, target_type } => ErrorView::NoTargetsFound {
                target_name: target_name@,
                target_type: *target_type,
            },
            Error::TargetNotFoundAtSpecifiedPath {
                target_name,
                target_type,
                searched_path,
                available_paths,
            } => ErrorView::TargetNotFoundAtSpecifiedPath {
                target_name: target_name@,
                target_type: *target_type,
                searched_path: searched_path.deep_view(),
                available_paths: available_paths.deep_view(),
            },
            Error::PathDisambiguation {
                available_paths,
                target_name,
                target_type,
            } => ErrorView::PathDisambiguation {
                available_paths: available_paths.deep_view(),
                target_name: target_name@,
                target_type: *target_type,
            },
            Error::BuildNotStarted {
                target_type,
                target_name,
                profile,
                manifest_dir,
                reason,
            } => ErrorView::BuildNotStarted {
                target_type: *target_type,
                target_name: target_name@,
                profile: profile@,
                manifest_dir: manifest_dir@,
                reason: reason@,
            },
            Error::BuildFailed {
                target_type,
                target_name,
                profile,
                manifest_dir,
                stderr,
            } => ErrorView::BuildFailed {
                target_type: *target_type,
                target_name: target_name@,
                profile: profile@,
                manifest_dir: manifest_dir@,
                stderr: stderr@,
            },
            Error::InstanceCountTooLarge {
                instance_count,
                maximum,
            } => ErrorView::InstanceCountTooLarge {
                instance_count: *instance_count,
                maximum: *maximum,
            },
            Error::PortRangeExceeded {
                base_port,
                highest_port,
                max_valid_port,
            } => ErrorView::PortRangeExceeded {
                base_port: *base_port,
                highest_port: *highest_port,
                max_valid_port: *max_valid_port,
            },
            Error::FileOrPathNotFound(message) => ErrorView::FileOrPathNotFound(message@),
            Error::ProcessManagement(message) => ErrorView::ProcessManagement(message@),
            Error::ToolCall { message, details } => ErrorView::ToolCall {
                message: message@,
                details: details.deep_view(),
            },
        }
    }
}

impl DeepView for Error {
    type V = ErrorView;

    open spec fn deep_view(&self) -> ErrorView {
        self@
    }
}

impl ErrorView {
    /// Whether the error is one of the three outcomes of target resolution,
    /// which are handed to the caller as they are.
    pub open spec fn is_structured(self) -> bool {
        self is NoTargetsFound || self is TargetNotFoundAtSpecifiedPath
            || self is PathDisambiguation
    }

    /// The chain of the error: its message, followed by the chain of the
    /// failure it wraps, where it wraps one.
    pub open spec fn chain(self) -> Seq<Seq<char>> {
        match self {
            ErrorView::ToolCall {
                message,
                details: Some(ErrorDetailsView::Cause { error, error_chain }),
            } => seq![message] + error_chain,
            _ => seq![self.message()],
        }
    }

    /// The text shown for the error.
    pub open spec fn message(self) -> Seq<char> {
        match self {
            ErrorView::NoTargetsFound { target_name, target_type } => "No "@ + target_type.label()
                + " named '"@ + target_name + "' found"@,
            ErrorView::TargetNotFoundAtSpecifiedPath {
                target_name,
                target_type,
                searched_path,
                available_paths,
            } => "The "@ + target_type.label() + " '"@ + target_name + "' was not found at path '"@
                + (match searched_path {
                Some(p) => p,
                None => Seq::empty(),
            }) + "'; available paths: ["@ + joined(available_paths, ", "@) + "]"@,
            ErrorView::PathDisambiguation {
                available_paths,
                target_name,
                target_type,
            } => "Found "@ + decimal(available_paths.len()) + " "@ + target_type.label()
                + " targets named '"@ + target_name + "', specify path: ["@ + joined(
                available_paths,
                ", "@,
            ) + "]"@,
            ErrorView::BuildNotStarted {
                target_type,
                target_name,
                profile,
                manifest_dir,
                reason,
            } => "Failed to run cargo build for "@ + target_type.label() + " '"@ + target_name
                + "' (profile: "@ + profile + ", dir: "@ + manifest_dir + "): "@ + reason,
            ErrorView::BuildFailed {
                target_type,
                target_name,
                profile,
                manifest_dir,
                stderr,
            } => "Cargo build failed for "@ + target_type.label() + " '"@ + target_name
                + "' (profile: "@ + profile + ", dir: "@ + manifest_dir + "): "@ + stderr,
            ErrorView::InstanceCountTooLarge { instance_count, maximum } => "Instance count "@
                + decimal(instance_count as nat) + " is too large (maximum is "@ + decimal(
                maximum as nat,
            ) + ")"@,
            ErrorView::PortRangeExceeded {
                base_port,
                highest_port,
                max_valid_port,
            } => "Port range "@ + decimal(base_port as nat) + " to "@ + decimal(
                highest_port as nat,
            ) + " exceeds maximum valid port "@ + decimal(max_valid_port as nat),
            ErrorView::FileOrPathNotFound(message) => "File or path not found: "@ + message,
            ErrorView::ProcessManagement(message) => "Process management error: "@ + message,
            ErrorView::ToolCall { message, details } => message,
        }
    }
}

impl Error {
    /// A generic failure with a message and no context.
    pub fn tool_call_failed(message: String) -> (r: Error)
        ensures
            r@ == (ErrorView::ToolCall { message: message@, details: None }),
    {
        Error::ToolCall { message, details: None }
    }

    /// A generic failure with a message and its context.
    pub fn tool_call_failed_with_details(message: String, details: ErrorDetails) -> (r: Error)
        ensures
            r@ == (ErrorView::ToolCall { message: message@, details: Some(details@) }),
    {
        Error::ToolCall { message, details: Some(details) }
    }

    /// Whether the error is one of the three outcomes of target resolution.
    pub fn is_structured(&self) -> (r: bool)
        ensures
            r == self@.is_structured(),
    {
        match self {
            Error::NoTargetsFound { .. } => true,
            Error::TargetNotFoundAtSpecifiedPath { .. } => true,
            Error::PathDisambiguation { .. } => true,
            _ => false,
        }
    }

    /// The chain of the error: its message, followed by the chain of the
    /// failure it wraps, where it wraps one.
    pub fn chain(&self) -> (r: Vec<String>)
        ensures
            r.deep_view() == self@.chain(),
    {
        let mut chain: Vec<String> = Vec::new();
        chain.push(self.message());
        assert(chain.deep_view() =~= seq![self@.message()]);
        if let Error::ToolCall { message, details: Some(ErrorDetails::Cause { error, error_chain }) } =
            self {
            let mut i: usize = 0;
            while i < error_chain.len()
                invariant
                    i <= error_chain.len(),
                    chain.deep_view() == seq![message@] + error_chain.deep_view().take(i as int),
                decreases error_chain.len() - i,
            {
                let ghost before = chain.deep_view();
                chain.push(error_chain[i].clone());
                assert(chain.deep_view() =~= before.push(error_chain@[i as int]@));
                assert(chain.deep_view() =~= seq![message@] + error_chain.deep_view().take(i + 1));
                i += 1;
            }
            assert(error_chain.deep_view().take(error_chain.len() as int)
                =~= error_chain.deep_view());
        }
        chain
    }

    /// The text shown for the error.
    pub fn message(&self) -> (r: String)
        ensures
            r@ == self@.message(),
    {
        match self {
            Error::NoTargetsFound { target_name, target_type } => {
                let mut out = String::from_str("No ");
                out.append(target_type.as_str());
                out.append(" named '");
                out.append(target_name.as_str());
                out.append("' found");
                out
            },
            Error::TargetNotFoundAtSpecifiedPath {
                target_name,
                target_type,
                searched_path,
                available_paths,
            } => {
                let mut out = String::from_str("The ");
                out.append(target_type.as_str());
                out.append(" '");
                out.append(target_name.as_str());
                out.append("' was not found at path '");
                match searched_path {
                    Some(p) => {
                        out.append(p.as_str());
                    },
                    None => {
                        assert(out@ + Seq::<char>::empty() =~= out@);
                    },
                }
                out.append("'; available paths: [");
                let listed = join(available_paths, ", ");
                out.append(listed.as_str());
                out.append("]");
                out
            },
            Error::PathDisambiguation { available_paths, target_name, target_type } => {
                let mut out = String::from_str("Found ");
                push_decimal(&mut out, available_paths.len() as u128);
                out.append(" ");
                out.append(target_type.as_str());
                out.append(" targets named '");
                out.append(target_name.as_str());
                out.append("', specify path: [");
                let listed = join(available_paths, ", ");
                out.append(listed.as_str());
                out.append("]");
                out
            },
            Error::BuildNotStarted { target_type, target_name, profile, manifest_dir, reason } => {
                let mut out = String::from_str("Failed to run cargo build for ");
                out.append(target_type.as_str());
                out.append(" '");
                out.append(target_name.as_str());
                out.append("' (profile: ");
                out.append(profile.as_str());
                out.append(", dir: ");
                out.append(manifest_dir.as_str());
                out.append("): ");
                out.append(reason.as_str());
                out
            },
            Error::BuildFailed { target_type, target_name, profile, manifest_dir, stderr } => {
                let mut out = String::from_str("Cargo build failed for ");
                out.append(target_type.as_str());
                out.append(" '");
                out.append(target_name.as_str());
                out.append("' (profile: ");
                out.append(profile.as_str());
                out.append(", dir: ");
                out.append(manifest_dir.as_str());
                out.append("): ");
                out.append(stderr.as_str());
                out
            },
            Error::InstanceCountTooLarge { instance_count, maximum } => {
                let mut out = String::from_str("Instance count ");
                push_decimal(&mut out, *instance_count as u128);
                out.append(" is too large (maximum is ");
                push_decimal(&mut out, *maximum as u128);
                out.append(")");
                out
            },
            Error::PortRangeExceeded { base_port, highest_port, max_valid_port } => {
                let mut out = String::from_str("Port range ");
                push_decimal(&mut out, *base_port as u128);
                out.append(" to ");
                push_decimal(&mut out, *highest_port as u128);
                out.append(" exceeds maximum valid port ");
                push_decimal(&mut out, *max_valid_port as u128);
                out
            },
            Error::FileOrPathNotFound(message) => {
                let mut out = String::from_str("File or path not found: ");
                out.append(message.as_str());
                out
            },
            Error::ProcessManagement(message) => {
                let mut out = String::from_str("Process management error: ");
                out.append(message.as_str());
                out
            },
            Error::ToolCall { message, details } => message.clone(),
        }
    }
}

} // verus!
