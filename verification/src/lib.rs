//! Launch orchestration for Bevy applications and examples.
//!
//! A launch resolves a target among same-named candidates ([`resolve`]),
//! builds it and reads the outcome off the build tool's event stream
//! ([`cargo_build`]), checks that the ports of its instances stay below the
//! highest valid port ([`port`]), plans one process per instance
//! ([`launcher`]) and assembles the result ([`launch_result`]).
//! [`orchestrator`] strings these stages together as a step function; the
//! caller scans the disk, runs the build and spawns the processes.
//!
//! Beside the launch stand the pieces that the tools around it share:
//! parameter names and schemas ([`params`], [`schema`], [`document`]), the
//! wording of responses ([`handler`]), search roots ([`roots`]), the
//! selection file ([`selection`]) and what a launched application decides
//! for itself ([`extras`]).

pub mod cargo_build;
pub mod clock;
pub mod command;
pub mod config;
pub mod document;
pub mod error;
pub mod extras;
pub mod handler;
pub mod json;
pub mod launch_result;
pub mod launcher;
pub mod orchestrator;
pub mod params;
pub mod port;
pub mod resolve;
pub mod roots;
pub mod schema;
pub mod selection;
pub mod target;
pub mod text;

pub use cargo_build::{run_cargo_build, validate_manifest_directory, BuildState};
pub use command::{build_app_command, build_cargo_example_command, set_brp_env_vars};
pub use config::{
    App, Example, FromLaunchParams, GenericLaunchHandler, LaunchBevyBinaryParams, LaunchConfig,
    LaunchConfigTrait, LaunchParams, ToLaunchParams,
};
pub use error::Error;
pub use extras::{BrpExtrasPlugin, PendingScreenshot};
pub use launch_result::{LaunchResult, LaunchedInstance};
pub use params::{NoParams, ParamStruct, ParameterName};
pub use port::{InstanceCount, Port, BRP_EXTRAS_PORT_ENV_VAR, MAX_VALID_PORT};
pub use schema::{ParameterBuilder, RegistrySchemaParams};
pub use selection::{EntitySummary, GrabSelection, GrabSelectionParams};
pub use target::{BevyTarget, TargetType};
pub use text::IntoStrings;
