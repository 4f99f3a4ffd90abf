//! The plan for one instance: the command to spawn, the directory to spawn
//! it in and the log file it writes to.

use vstd::prelude::*;
use vstd::string::*;
use crate::cargo_build::{manifest_directory, validate_manifest_directory};
use crate::command::{CommandLine, CommandLineView};
use crate::config::{App, Example, LaunchConfig, LaunchConfigTrait, LaunchSettings};
use crate::port::BRP_EXTRAS_PORT_ENV_VAR;
use crate::error::{Error, ErrorView};
use crate::target::{BevyTarget, BevyTargetView, TargetType};
use crate::text::{decimal, lemma_decimal_injective, push_decimal};

verus! {

/// The name of the log file of an instance: the kind, the name and the
/// profile of its target and its port.
pub open spec fn log_file_name_text(
    target_type: TargetType,
    name: Seq<char>,
    profile: Seq<char>,
    port: u16,
) -> Seq<char> {
    "bevy_brp_mcp_"@ + target_type.label() + "_"@ + name + "_"@ + profile + "_port"@ + decimal(
        port as nat,
    ) + ".log"@
}

/// Names the log file of an instance.
pub fn log_file_name(target_type: TargetType, name: &str, profile: &str, port: u16) -> (r: String)
    ensures
        r@ == log_file_name_text(target_type, name@, profile@, port),
{
    let mut out = String::from_str("bevy_brp_mcp_");
    out.append(target_type.as_str());
    out.append("_");
    out.append(name);
    out.append("_");
    out.append(profile);
    out.append("_port");
    push_decimal(&mut out, port as u128);
    out.append(".log");
    out
}

/// Two instances of one target and profile share a log file only if they
/// share the port.
pub proof fn lemma_log_file_names_differ(
    target_type: TargetType,
    name: Seq<char>,
    profile: Seq<char>,
    first: u16,
    second: u16,
)
    requires
        log_file_name_text(target_type, name, profile, first) == log_file_name_text(
            target_type,
            name,
            profile,
            second,
        ),
    ensures
        first == second,
{
    let head = "bevy_brp_mcp_"@ + target_type.label() + "_"@ + name + "_"@ + profile + "_port"@;
    let tail = ".log"@;
    let a = decimal(first as nat);
    let b = decimal(second as nat);
    let x = head + a + tail;
    let y = head + b + tail;
    assert(x == y);
    assert(x.len() == head.len() + a.len() + tail.len());
    assert(y.len() == head.len() + b.len() + tail.len());
    assert(a.len() == b.len());
    assert forall|i: int| 0 <= i < a.len() implies a[i] == b[i] by {
        assert(x[head.len() + i] == a[i]);
        assert(y[head.len() + i] == b[i]);
    }
    assert(a =~= b);
    lemma_decimal_injective(first as nat, second as nat);
}

/// The step of setting up the log of an instance that failed.
#[derive(Clone, Copy, Debug, PartialEq, Eq, Hash, Structural)]
pub enum LogSetupStage {
    /// Creating the file.
    Create,
    /// Writing the head line.
    Append,
    /// Opening the file for the output of the instance.
    Redirect,
}

impl LogSetupStage {
    /// How the failure of the step is introduced.
    pub open spec fn failure_prefix(self) -> Seq<char> {
        match self {
            LogSetupStage::Create => "Failed to create log file: "@,
            LogSetupStage::Append => "Failed to append to log file: "@,
            LogSetupStage::Redirect => "Failed to open log file for redirect: "@,
        }
    }
}

/// The error for a step of the log setup that failed for `reason`.
pub fn log_setup_error(stage: LogSetupStage, reason: &str) -> (r: Error)
    ensures
        r@ == (ErrorView::ToolCall { message: stage.failure_prefix() + reason@, details: None }),
{
    let mut message = match stage {
        LogSetupStage::Create => String::from_str("Failed to create log file: "),
        LogSetupStage::Append => String::from_str("Failed to append to log file: "),
        LogSetupStage::Redirect => String::from_str("Failed to open log file for redirect: "),
    };
    message.append(reason);
    Error::tool_call_failed(message)
}

/// What it takes to launch one instance.
#[derive(Debug, PartialEq, Eq)]
pub struct InstancePlan {
    /// Port of the instance.
    pub port: u16,
    /// The command to spawn, detached from the caller's process group.
    pub command: CommandLine,
    /// The directory to spawn it in.
    pub working_dir: String,
    /// Name of the log file, in the directory where logs are kept.
    pub log_file_name: String,
    /// What to write into a new log file before the instance writes to it,
    /// if anything.
    pub log_header: Option<String>,
}

/// The mathematical content of an [`InstancePlan`].
pub struct InstancePlanView {
    pub port: u16,
    pub command: CommandLineView,
    pub working_dir: Seq<char>,
    pub log_file_name: Seq<char>,
    pub log_header: Option<Seq<char>>,
}

impl View for InstancePlan {
    type V = InstancePlanView;

    open spec fn view(&self) -> InstancePlanView {
        InstancePlanView {
            port: self.port,
            command: self.command@,
            working_dir: self.working_dir@,
            log_file_name: self.log_file_name@,
            log_header: self.log_header.deep_view(),
        }
    }
}

impl DeepView for InstancePlan {
    type V = InstancePlanView;

    open spec fn deep_view(&self) -> InstancePlanView {
        self@
    }
}

/// The plan for the instance that a configuration describes, or the error
/// for a target without a manifest directory.
pub open spec fn launch_plan<T: LaunchConfigTrait>(
    settings: LaunchSettings,
    target: BevyTargetView,
) -> Result<InstancePlanView, ErrorView> {
    match manifest_directory(target) {
        Ok(dir) => Ok(
            InstancePlanView {
                port: settings.port.0,
                command: T::spec_build_command(settings, target),
                working_dir: dir,
                log_file_name: log_file_name_text(
                    T::spec_target_type(),
                    settings.target_name,
                    settings.profile,
                    settings.port.0,
                ),
                log_header: match T::spec_extra_log_info(target) {
                    Some(line) => Some(line + "\n"@),
                    None => None,
                },
            },
        ),
        Err(e) => Err(e),
    }
}

/// Prepares the launch of one instance: the command with the port in its
/// environment, the manifest directory to run in and the log to write.
pub fn prepare_launch_environment<T: LaunchConfigTrait>(config: &T, target: &BevyTarget) -> (r:
    Result<InstancePlan, Error>)
    ensures
        match r {
            Ok(plan) => launch_plan::<T>(config.settings(), target@) == Ok::<
                InstancePlanView,
                ErrorView,
            >(plan@),
            Err(e) => launch_plan::<T>(config.settings(), target@) == Err::<
                InstancePlanView,
                ErrorView,
            >(e@),
        },
{
    let manifest_dir = match validate_manifest_directory(target) {
        Ok(dir) => dir,
        Err(e) => {
            return Err(e);
        },
    };
    let command = config.build_command(target);
    let name = log_file_name(
        T::target_type(),
        config.target_name(),
        config.profile(),
        config.port().0,
    );
    let log_header = match config.extra_log_info(target) {
        Some(line) => {
            let mut header = line;
            header.append("\n");
            Some(header)
        },
        None => None,
    };
    Ok(
        InstancePlan {
            port: config.port().0,
            command,
            working_dir: String::from_str(manifest_dir),
            log_file_name: name,
            log_header,
        },
    )
}

/// The command of every planned instance, application or example, sets
/// exactly one environment variable: the port variable, with the port of
/// the instance as a decimal numeral.
pub proof fn lemma_plan_carries_the_port(settings: LaunchSettings, target: BevyTargetView)
    ensures
        launch_plan::<LaunchConfig<App>>(settings, target) matches Ok(plan) ==> plan.command.envs
            == seq![(BRP_EXTRAS_PORT_ENV_VAR@, decimal(plan.port as nat))],
        launch_plan::<LaunchConfig<Example>>(settings, target) matches Ok(plan)
            ==> plan.command.envs == seq![(BRP_EXTRAS_PORT_ENV_VAR@, decimal(plan.port as nat))],
{
    let variable = (BRP_EXTRAS_PORT_ENV_VAR@, decimal(settings.port.0 as nat));
    assert(Seq::<(Seq<char>, Seq<char>)>::empty().push(variable) =~= seq![variable]);
}

} // verus!
