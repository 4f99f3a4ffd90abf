//! The result of a launch: one entry per launched instance and what is known
//! of the launch as a whole.

use vstd::prelude::*;
use vstd::string::*;
use crate::clock::{
    elapsed_millis, since_unix_epoch, system_time_now, timestamp_of, timestamp_text,
};
use crate::config::{LaunchConfigTrait, LaunchSettings};
use crate::target::{BevyTarget, BevyTargetView, TargetType};
use crate::text::clone_optional_string;
use crate::port::{port_range, port_range_check};
use crate::text::{decimal, push_decimal};

verus! {

/// One launched instance.
#[derive(Clone, Debug, PartialEq, Eq)]
pub struct LaunchedInstance {
    /// Process id of the instance.
    pub pid: u32,
    /// Path of its log file.
    pub log_file: String,
    /// Port it was told to use.
    pub port: u16,
}

/// The mathematical content of a [`LaunchedInstance`].
pub struct LaunchedInstanceView {
    pub pid: u32,
    pub log_file: Seq<char>,
    pub port: u16,
}

impl View for LaunchedInstance {
    type V = LaunchedInstanceView;

    open spec fn view(&self) -> LaunchedInstanceView {
        LaunchedInstanceView { pid: self.pid, log_file: self.log_file@, port: self.port }
    }
}

impl DeepView for LaunchedInstance {
    type V = LaunchedInstanceView;

    open spec fn deep_view(&self) -> LaunchedInstanceView {
        self@
    }
}

/// What a launch of an application or an example gave.
#[derive(Clone, Debug, PartialEq, Eq)]
pub struct LaunchResult {
    /// Name of the target that was launched.
    pub target_name: Option<String>,
    /// The launched instances, in the order of their ports.
    pub instances: Vec<LaunchedInstance>,
    /// Directory the launch was asked from.
    pub working_directory: Option<String>,
    /// Build profile used.
    pub profile: Option<String>,
    /// Path of the binary; for applications only.
    pub binary_path: Option<String>,
    /// Time the launch took, in milliseconds.
    pub launch_duration_ms: Option<u128>,
    /// Time of the launch.
    pub launch_timestamp: Option<String>,
    /// Name of the workspace.
    pub workspace: Option<String>,
    /// Package that holds the example; for examples only.
    pub package_name: Option<String>,
    /// Paths of the same-named targets, where there were several.
    pub duplicate_paths: Option<Vec<String>>,
    /// The summary shown to the caller.
    pub message_template: Option<String>,
}

/// The mathematical content of a [`LaunchResult`].
pub struct LaunchResultView {
    pub target_name: Option<Seq<char>>,
    pub instances: Seq<LaunchedInstanceView>,
    pub working_directory: Option<Seq<char>>,
    pub profile: Option<Seq<char>>,
    pub binary_path: Option<Seq<char>>,
    pub launch_duration_ms: Option<u128>,
    pub launch_timestamp: Option<Seq<char>>,
    pub workspace: Option<Seq<char>>,
    pub package_name: Option<Seq<char>>,
    pub duplicate_paths: Option<Seq<Seq<char>>>,
    pub message_template: Option<Seq<char>>,
}

impl View for LaunchResult {
    type V = LaunchResultView;

    open spec fn view(&self) -> LaunchResultView {
        LaunchResultView {
            target_name: self.target_name.deep_view(),
            instances: self.instances.deep_view(),
            working_directory: self.working_directory.deep_view(),
            profile: self.profile.deep_view(),
            binary_path: self.binary_path.deep_view(),
            launch_duration_ms: self.launch_duration_ms,
            launch_timestamp: self.launch_timestamp.deep_view(),
            workspace: self.workspace.deep_view(),
            package_name: self.package_name.deep_view(),
            duplicate_paths: self.duplicate_paths.deep_view(),
            message_template: self.message_template.deep_view(),
        }
    }
}

impl LaunchResultView {
    /// The ports of the instances, in order.
    pub open spec fn ports(self) -> Seq<u16> {
        Seq::new(self.instances.len(), |i: int| self.instances[i].port)
    }

    /// The same result with the paths of the same-named targets.
    pub open spec fn with_duplicate_paths(self, paths: Option<Seq<Seq<char>>>) -> LaunchResultView {
        LaunchResultView { duplicate_paths: paths, ..self }
    }
}

/// The smallest of three lengths.
pub open spec fn shortest(a: nat, b: nat, c: nat) -> nat {
    if a <= b && a <= c {
        a
    } else if b <= c {
        b
    } else {
        c
    }
}

/// The instances made of three lists taken side by side, as far as the
/// shortest of them goes.
pub open spec fn zipped_instances(
    pids: Seq<u32>,
    log_files: Seq<Seq<char>>,
    ports: Seq<u16>,
) -> Seq<LaunchedInstanceView> {
    Seq::new(
        shortest(pids.len(), log_files.len(), ports.len()),
        |i: int| LaunchedInstanceView { pid: pids[i], log_file: log_files[i], port: ports[i] },
    )
}

/// How the ports of a launch are written: the port alone where there is one,
/// otherwise the first and the last with a hyphen between them.
pub open spec fn port_range_text(ports: Seq<u16>) -> Seq<char>
    recommends
        ports.len() >= 1,
{
    if ports.len() == 1 {
        decimal(ports[0] as nat)
    } else {
        decimal(ports[0] as nat) + "-"@ + decimal(ports.last() as nat)
    }
}

/// The summary of a launch.
pub open spec fn launch_message(target_name: Seq<char>, ports: Seq<u16>) -> Seq<char>
    recommends
        ports.len() >= 1,
{
    "Successfully launched "@ + decimal(ports.len()) + " instance(s) of "@ + target_name
        + " on ports "@ + port_range_text(ports)
}

/// The result of a launch, given what was collected and the readings of the
/// clock.
pub open spec fn launch_result(
    pids: Seq<u32>,
    log_files: Seq<Seq<char>>,
    ports: Seq<u16>,
    settings: LaunchSettings,
    target_type: TargetType,
    target: BevyTargetView,
    launch_duration_ms: u128,
    launch_timestamp: Option<Seq<char>>,
    working_directory: Option<Seq<char>>,
) -> LaunchResultView
    recommends
        ports.len() >= 1,
{
    LaunchResultView {
        target_name: Some(settings.target_name),
        instances: zipped_instances(pids, log_files, ports),
        working_directory,
        profile: Some(settings.profile),
        binary_path: if target_type == TargetType::App {
            Some(target.binary_path(settings.profile))
        } else {
            None
        },
        launch_duration_ms: Some(launch_duration_ms),
        launch_timestamp,
        workspace: target.workspace_name,
        package_name: if target_type == TargetType::Example {
            Some(target.package_name)
        } else {
            None
        },
        duplicate_paths: None,
        message_template: Some(launch_message(settings.target_name, ports)),
    }
}

/// Writes the ports of a launch.
pub fn format_port_range(ports: &Vec<u16>) -> (r: String)
    requires
        ports.len() >= 1,
    ensures
        r@ == port_range_text(ports@),
{
    let mut out = String::new();
    push_decimal(&mut out, ports[0] as u128);
    if ports.len() != 1 {
        out.append("-");
        push_decimal(&mut out, ports[ports.len() - 1] as u128);
    }
    assert(out@ =~= port_range_text(ports@));
    out
}

/// Makes the instances of three lists taken side by side.
pub fn zip_instances(pids: &Vec<u32>, log_files: &Vec<String>, ports: &Vec<u16>) -> (r: Vec<
    LaunchedInstance,
>)
    ensures
        r.deep_view() == zipped_instances(pids@, log_files.deep_view(), ports@),
{
    let mut count: usize = pids.len();
    if log_files.len() < count {
        count = log_files.len();
    }
    if ports.len() < count {
        count = ports.len();
    }
    let mut instances: Vec<LaunchedInstance> = Vec::new();
    let mut i: usize = 0;
    while i < count
        invariant
            i <= count,
            count == shortest(pids@.len(), log_files@.len(), ports@.len()),
            instances.deep_view() == zipped_instances(pids@, log_files.deep_view(), ports@).take(
                i as int,
            ),
        decreases count - i,
    {
        let ghost before = instances.deep_view();
        let instance = LaunchedInstance {
            pid: pids[i],
            log_file: log_files[i].clone(),
            port: ports[i],
        };
        instances.push(instance);
        assert(instances.deep_view() =~= before.push(instance@));
        assert(instances.deep_view() =~= zipped_instances(
            pids@,
            log_files.deep_view(),
            ports@,
        ).take(i + 1));
        i += 1;
    }
    assert(zipped_instances(pids@, log_files.deep_view(), ports@).take(count as int)
        =~= zipped_instances(pids@, log_files.deep_view(), ports@));
    instances
}

/// Assembles the result of a launch from what was collected and the
/// readings of the clock.
pub fn assemble_launch_result<T: LaunchConfigTrait>(
    all_pids: Vec<u32>,
    all_log_files: Vec<String>,
    all_ports: Vec<u16>,
    config: &T,
    target: &BevyTarget,
    launch_duration_ms: u128,
    launch_timestamp: Option<String>,
    working_directory: Option<String>,
) -> (r: LaunchResult)
    requires
        all_ports.len() >= 1,
    ensures
        r@ == launch_result(
            all_pids@,
            all_log_files.deep_view(),
            all_ports@,
            config.settings(),
            T::spec_target_type(),
            target@,
            launch_duration_ms,
            launch_timestamp.deep_view(),
            working_directory.deep_view(),
        ),
{
    let instances = zip_instances(&all_pids, &all_log_files, &all_ports);
    let port_range = format_port_range(&all_ports);
    let mut message = String::from_str("Successfully launched ");
    push_decimal(&mut message, all_ports.len() as u128);
    message.append(" instance(s) of ");
    message.append(config.target_name());
    message.append(" on ports ");
    message.append(port_range.as_str());
    let target_type = T::target_type();
    LaunchResult {
        target_name: Some(String::from_str(config.target_name())),
        instances,
        working_directory,
        profile: Some(String::from_str(config.profile())),
        binary_path: match target_type {
            TargetType::App => Some(target.get_binary_path(config.profile())),
            TargetType::Example => None,
        },
        launch_duration_ms: Some(launch_duration_ms),
        launch_timestamp,
        workspace: clone_optional_string(&target.workspace_name),
        package_name: match target_type {
            TargetType::Example => Some(target.package_name.clone()),
            TargetType::App => None,
        },
        duplicate_paths: None,
        message_template: Some(message),
    }
}

/// Builds the result of a launch that began at `launch_start`: reads the
/// clock for the duration and the time of the launch and assembles the
/// result. Everything but those two readings is fixed by the arguments; the
/// timestamp is that of some reading of the clock, and is missing where the
/// clock stands before the year 1970.
pub fn build_launch_result<T: LaunchConfigTrait>(
    all_pids: Vec<u32>,
    all_log_files: Vec<String>,
    all_ports: Vec<u16>,
    config: &T,
    target: &BevyTarget,
    launch_start: std::time::Instant,
    working_directory: Option<String>,
) -> (r: LaunchResult)
    requires
        all_ports.len() >= 1,
    ensures
        r@.launch_duration_ms is Some,
        exists|reading: Option<(u64, u32)>| r@.launch_timestamp == #[trigger] timestamp_text(reading),
        r@ == launch_result(
            all_pids@,
            all_log_files.deep_view(),
            all_ports@,
            config.settings(),
            T::spec_target_type(),
            target@,
            r@.launch_duration_ms->0,
            r@.launch_timestamp,
            working_directory.deep_view(),
        ),
{
    let launch_duration_ms = elapsed_millis(&launch_start);
    let now = system_time_now();
    let reading = since_unix_epoch(&now);
    let launch_timestamp = timestamp_of(reading);
    assert(launch_timestamp.deep_view() == timestamp_text(reading));
    assemble_launch_result(
        all_pids,
        all_log_files,
        all_ports,
        config,
        target,
        launch_duration_ms,
        launch_timestamp,
        working_directory,
    )
}

/// The summary of a launch on an accepted range names the first port and,
/// where there are several instances, the last port after a hyphen.
pub proof fn lemma_message_names_the_port_range(
    target_name: Seq<char>,
    base_port: u16,
    instance_count: nat,
)
    requires
        instance_count >= 1,
        port_range_check(base_port, instance_count) is Ok,
    ensures
        port_range_text(port_range(base_port, instance_count)) == if instance_count == 1 {
            decimal(base_port as nat)
        } else {
            decimal(base_port as nat) + "-"@ + decimal((base_port + instance_count - 1) as nat)
        },
        launch_message(target_name, port_range(base_port, instance_count))
            == "Successfully launched "@ + decimal(instance_count) + " instance(s) of "@
            + target_name + " on ports "@ + port_range_text(
            port_range(base_port, instance_count),
        ),
{
}

} // verus!
