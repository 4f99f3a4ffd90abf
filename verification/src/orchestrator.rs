//! The launch as a whole, step by step. The caller does what cannot be done
//! here (scanning the disk, running the build, spawning a process) and
//! reports what came of it; `launch_step` decides what happens next.

use vstd::prelude::*;
use vstd::string::*;
use crate::cargo_build::{
    build_request, ensure_built, ensured_build, prepare_build, BuildRun, BuildState,
};
use crate::command::{CommandLine, CommandLineView};
use crate::config::{LaunchConfigTrait, LaunchSettings};
use crate::text::clone_optional_strings;
use crate::error::{Error, ErrorView};
use crate::launch_result::{
    build_launch_result, launch_result, LaunchResult, LaunchResultView,
};
use crate::launcher::{launch_plan, prepare_launch_environment, InstancePlan, InstancePlanView};
use crate::port::{
    instance_port, port_of_instance, port_range, port_range_check, validate_port_range, Port,
};
use crate::resolve::{
    candidates_of, create_error_details, discovery_error, duplicate_paths, duplicate_paths_of,
    error_details, find_all_targets_by_name, handle_target_discovery_error,
    lemma_resolution_outcomes, resolution, resolved_target, select_target,
};
use crate::target::{BevyTarget, BevyTargetView};

verus! {

/// How far a launch has come.
#[derive(Clone, Copy, Debug, PartialEq, Eq, Hash, Structural)]
pub enum LaunchPhase {
    /// Nothing has happened yet.
    Idle,
    /// The catalog of targets is being scanned.
    Scanning,
    /// The target is being built.
    Building,
    /// Instances are being spawned.
    Launching,
    /// All instances run.
    Finished,
    /// The launch was given up.
    Failed,
}

/// The state of a launch between two steps.
#[derive(Debug)]
pub struct LaunchSession {
    pub phase: LaunchPhase,
    /// The resolved target, once there is one.
    pub target: Option<BevyTarget>,
    /// The paths of the same-named targets, where there were several.
    pub duplicate_paths: Option<Vec<String>>,
    /// What the build did, once it has run.
    pub build_state: Option<BuildState>,
    /// The process ids of the instances spawned so far.
    pub pids: Vec<u32>,
    /// Their log files.
    pub log_files: Vec<String>,
    /// Their ports.
    pub ports: Vec<u16>,
}

/// The mathematical content of a [`LaunchSession`].
pub struct LaunchSessionView {
    pub phase: LaunchPhase,
    pub target: Option<BevyTargetView>,
    pub duplicate_paths: Option<Seq<Seq<char>>>,
    pub build_state: Option<BuildState>,
    pub pids: Seq<u32>,
    pub log_files: Seq<Seq<char>>,
    pub ports: Seq<u16>,
}

impl View for LaunchSession {
    type V = LaunchSessionView;

    open spec fn view(&self) -> LaunchSessionView {
        LaunchSessionView {
            phase: self.phase,
            target: self.target.deep_view(),
            duplicate_paths: self.duplicate_paths.deep_view(),
            build_state: self.build_state,
            pids: self.pids@,
            log_files: self.log_files.deep_view(),
            ports: self.ports@,
        }
    }
}

/// What the caller reports.
#[derive(Debug)]
pub enum LaunchEvent {
    /// The launch is asked for.
    Begin,
    /// The scan found these targets.
    Catalog(Vec<BevyTarget>),
    /// The build command was run, or could not be.
    Built(BuildRun),
    /// An instance was spawned.
    Spawned { pid: u32, log_file: String },
    /// An instance could not be spawned, or its log not be set up.
    InstanceFailed(Error),
}

/// The mathematical content of a [`LaunchEvent`].
pub enum LaunchEventView {
    Begin,
    Catalog(Seq<BevyTargetView>),
    Built(BuildRun),
    Spawned { pid: u32, log_file: Seq<char> },
    InstanceFailed(ErrorView),
}

impl View for LaunchEvent {
    type V = LaunchEventView;

    open spec fn view(&self) -> LaunchEventView {
        match self {
            LaunchEvent::Begin => LaunchEventView::Begin,
            LaunchEvent::Catalog(catalog) => LaunchEventView::Catalog(catalog.deep_view()),
            LaunchEvent::Built(run) => LaunchEventView::Built(*run),
            LaunchEvent::Spawned { pid, log_file } => LaunchEventView::Spawned {
                pid: *pid,
                log_file: log_file@,
            },
            LaunchEvent::InstanceFailed(error) => LaunchEventView::InstanceFailed(error@),
        }
    }
}

/// What the caller is to do next.
#[derive(Debug)]
pub enum LaunchAction {
    /// Scan the search roots and report the catalog.
    Scan,
    /// Run the build command to its end and report the run.
    Build(CommandLine),
    /// Set up the log and spawn the instance, and report the process.
    Spawn(InstancePlan),
    /// Nothing: all instances run, and the result can be taken.
    Complete,
    /// Nothing: the launch failed with this error.
    Abort(Error),
}

/// The mathematical content of a [`LaunchAction`].
pub enum LaunchActionView {
    Scan,
    Build(CommandLineView),
    Spawn(InstancePlanView),
    Complete,
    Abort(ErrorView),
}

impl View for LaunchAction {
    type V = LaunchActionView;

    open spec fn view(&self) -> LaunchActionView {
        match self {
            LaunchAction::Scan => LaunchActionView::Scan,
            LaunchAction::Build(command) => LaunchActionView::Build(command@),
            LaunchAction::Spawn(plan) => LaunchActionView::Spawn(plan@),
            LaunchAction::Complete => LaunchActionView::Complete,
            LaunchAction::Abort(error) => LaunchActionView::Abort(error@),
        }
    }
}

impl LaunchSessionView {
    /// The state before the first step.
    pub open spec fn initial() -> LaunchSessionView {
        LaunchSessionView {
            phase: LaunchPhase::Idle,
            target: None,
            duplicate_paths: None,
            build_state: None,
            pids: Seq::empty(),
            log_files: Seq::empty(),
            ports: Seq::empty(),
        }
    }

    /// The same state, given up.
    pub open spec fn failed(self) -> LaunchSessionView {
        LaunchSessionView { phase: LaunchPhase::Failed, ..self }
    }

    /// What holds of the state of every launch of `settings`: one process
    /// id, log file and port per spawned instance; the ports are those of
    /// the range, in order; instances are spawned only for a resolved target
    /// and an accepted range; and a finished launch has all its instances.
    pub open spec fn wf(self, settings: LaunchSettings) -> bool {
        &&& self.pids.len() == self.ports.len()
        &&& self.log_files.len() == self.ports.len()
        &&& self.ports == port_range(settings.port.0, self.ports.len())
        &&& match self.phase {
            LaunchPhase::Idle => self.target is None && self.ports.len() == 0,
            LaunchPhase::Scanning => self.target is None && self.ports.len() == 0,
            LaunchPhase::Building => self.target is Some && self.ports.len() == 0,
            LaunchPhase::Launching => {
                &&& self.target is Some
                &&& port_range_check(settings.port.0, settings.instance_count.0 as nat) is Ok
                &&& self.ports.len() < settings.instance_count.0
            },
            LaunchPhase::Finished => {
                &&& self.target is Some
                &&& port_range_check(settings.port.0, settings.instance_count.0 as nat) is Ok
                &&& self.ports.len() == settings.instance_count.0
            },
            LaunchPhase::Failed => true,
        }
    }
}

/// The step that asks for the next instance: the plan for the first port
/// that no instance has yet.
pub open spec fn spawn_next<T: LaunchConfigTrait>(
    settings: LaunchSettings,
    session: LaunchSessionView,
    target: BevyTargetView,
) -> (LaunchSessionView, LaunchActionView) {
    let port = Port(instance_port(settings.port.0, session.ports.len()));
    match launch_plan::<T>(settings.on_port(port), target) {
        Ok(plan) => (session, LaunchActionView::Spawn(plan)),
        Err(e) => (session.failed(), LaunchActionView::Abort(e)),
    }
}

/// The error for an event that does not belong to the state of the launch.
pub open spec fn unexpected_event<T: LaunchConfigTrait>(
    settings: LaunchSettings,
    session: LaunchSessionView,
) -> ErrorView {
    ErrorView::ToolCall {
        message: "Unexpected event for the state of the launch"@,
        details: Some(error_details::<T>(settings, session.duplicate_paths)),
    }
}

/// The step of a launch: the state after an event, and what to do next.
///
/// A launch begins with a scan. The catalog is resolved to one target, and
/// the build of that target is asked for; a resolution error ends the launch
/// and is handed on as it is. A successful build is followed by the check of
/// the port range and then by one spawn per instance, in the order of the
/// ports; a launch of no instance is finished at once. The first failure ends the launch; instances that run by then are
/// left alone.
pub open spec fn next_step<T: LaunchConfigTrait>(
    settings: LaunchSettings,
    session: LaunchSessionView,
    event: LaunchEventView,
) -> (LaunchSessionView, LaunchActionView) {
    match (session.phase, event) {
        (LaunchPhase::Idle, LaunchEventView::Begin) => (
            LaunchSessionView { phase: LaunchPhase::Scanning, ..session },
            LaunchActionView::Scan,
        ),
        (LaunchPhase::Scanning, LaunchEventView::Catalog(catalog)) => {
            match resolved_target::<T>(settings, catalog) {
                Err(e) => (session.failed(), LaunchActionView::Abort(discovery_error(e))),
                Ok(target) => match build_request::<T>(settings, target) {
                    Err(e) => (session.failed(), LaunchActionView::Abort(e)),
                    Ok(command) => (
                        LaunchSessionView {
                            phase: LaunchPhase::Building,
                            target: Some(target),
                            duplicate_paths: duplicate_paths(candidates_of::<T>(settings, catalog)),
                            ..session
                        },
                        LaunchActionView::Build(command),
                    ),
                },
            }
        },
        (LaunchPhase::Building, LaunchEventView::Built(run)) => match session.target {
            Some(target) => match ensured_build::<T>(settings, target, run) {
                Err(e) => (session.failed(), LaunchActionView::Abort(e)),
                Ok(state) => match port_range_check(
                    settings.port.0,
                    settings.instance_count.0 as nat,
                ) {
                    Err(e) => (session.failed(), LaunchActionView::Abort(e)),
                    Ok(()) => if settings.instance_count.0 == 0 {
                        (
                            LaunchSessionView {
                                phase: LaunchPhase::Finished,
                                build_state: Some(state),
                                ..session
                            },
                            LaunchActionView::Complete,
                        )
                    } else {
                        spawn_next::<T>(
                            settings,
                            LaunchSessionView {
                                phase: LaunchPhase::Launching,
                                build_state: Some(state),
                                ..session
                            },
                            target,
                        )
                    },
                },
            },
            None => (
                session.failed(),
                LaunchActionView::Abort(unexpected_event::<T>(settings, session)),
            ),
        },
        (LaunchPhase::Launching, LaunchEventView::Spawned { pid, log_file }) => {
            match session.target {
                Some(target) => {
                    let grown = LaunchSessionView {
                        pids: session.pids.push(pid),
                        log_files: session.log_files.push(log_file),
                        ports: session.ports.push(
                            instance_port(settings.port.0, session.ports.len()),
                        ),
                        ..session
                    };
                    if grown.ports.len() >= settings.instance_count.0 {
                        (
                            LaunchSessionView { phase: LaunchPhase::Finished, ..grown },
                            LaunchActionView::Complete,
                        )
                    } else {
                        spawn_next::<T>(settings, grown, target)
                    }
                },
                None => (
                    session.failed(),
                    LaunchActionView::Abort(unexpected_event::<T>(settings, session)),
                ),
            }
        },
        (LaunchPhase::Launching, LaunchEventView::InstanceFailed(error)) => (
            session.failed(),
            LaunchActionView::Abort(error),
        ),
        _ => (session.failed(), LaunchActionView::Abort(unexpected_event::<T>(settings, session))),
    }
}

impl LaunchSession {
    /// The state before the first step.
    pub fn new() -> (r: LaunchSession)
        ensures
            r@ == LaunchSessionView::initial(),
            forall|settings: LaunchSettings| #[trigger] r@.wf(settings),
    {
        proof {
            assert forall|settings: LaunchSettings| #[trigger]
                LaunchSessionView::initial().wf(settings) by {
                lemma_initial_state_is_well_formed(settings);
            }
        }
        let r = LaunchSession {
            phase: LaunchPhase::Idle,
            target: None,
            duplicate_paths: None,
            build_state: None,
            pids: Vec::new(),
            log_files: Vec::new(),
            ports: Vec::new(),
        };
        assert(r.log_files.deep_view() =~= Seq::empty());
        r
    }
}

/// Gives a launch up.
fn give_up(session: LaunchSession, error: Error) -> (r: (LaunchSession, LaunchAction))
    ensures
        r.0@ == session@.failed(),
        r.1@ == LaunchActionView::Abort(error@),
{
    let mut session = session;
    session.phase = LaunchPhase::Failed;
    (session, LaunchAction::Abort(error))
}

/// Gives a launch up over an event that does not belong to its state.
fn refuse_event<T: LaunchConfigTrait>(config: &T, session: LaunchSession) -> (r: (
    LaunchSession,
    LaunchAction,
))
    ensures
        r.0@ == session@.failed(),
        r.1@ == LaunchActionView::Abort(unexpected_event::<T>(config.settings(), session@)),
{
    let details = create_error_details(config, clone_optional_strings(&session.duplicate_paths));
    let error = Error::tool_call_failed_with_details(
        String::from_str("Unexpected event for the state of the launch"),
        details,
    );
    give_up(session, error)
}

/// Asks for the next instance.
fn request_spawn<T: LaunchConfigTrait>(config: &T, session: LaunchSession) -> (r: (
    LaunchSession,
    LaunchAction,
))
    requires
        session.target is Some,
    ensures
        (r.0@, r.1@) == spawn_next::<T>(config.settings(), session@, session.target->0@),
{
    let port = Port(port_of_instance(config.port().0, session.ports.len()));
    let instance = config.instance_config(port);
    let planned = prepare_launch_environment(&instance, session.target.as_ref().unwrap());
    match planned {
        Ok(plan) => (session, LaunchAction::Spawn(plan)),
        Err(e) => give_up(session, e),
    }
}

/// Takes one step of a launch: consumes the state and the event, and gives
/// the state after the event and what the caller is to do next.
pub fn launch_step<T: LaunchConfigTrait>(config: &T, session: LaunchSession, event: LaunchEvent) -> (r:
    (LaunchSession, LaunchAction))
    ensures
        (r.0@, r.1@) == next_step::<T>(config.settings(), session@, event@),
        session@.wf(config.settings()) ==> r.0@.wf(config.settings()),
{
    proof {
        if session@.wf(config.settings()) {
            lemma_step_keeps_state_well_formed::<T>(config.settings(), session@, event@);
        }
    }
    let mut session = session;
    match (session.phase, event) {
        (LaunchPhase::Idle, LaunchEvent::Begin) => {
            session.phase = LaunchPhase::Scanning;
            (session, LaunchAction::Scan)
        },
        (LaunchPhase::Scanning, LaunchEvent::Catalog(catalog)) => {
            let candidates = find_all_targets_by_name(
                config.target_name(),
                Some(T::target_type()),
                &catalog,
            );
            let target = match select_target(config, &candidates) {
                Ok(target) => target,
                Err(e) => {
                    return give_up(session, handle_target_discovery_error(e));
                },
            };
            let command = match prepare_build(config, &target) {
                Ok(command) => command,
                Err(e) => {
                    return give_up(session, e);
                },
            };
            session.duplicate_paths = duplicate_paths_of(&candidates);
            session.target = Some(target);
            session.phase = LaunchPhase::Building;
            (session, LaunchAction::Build(command))
        },
        (LaunchPhase::Building, LaunchEvent::Built(run)) => {
            let built = match &session.target {
                Some(target) => ensure_built(config, target, &run),
                None => {
                    return refuse_event(config, session);
                },
            };
            let state = match built {
                Ok(state) => state,
                Err(e) => {
                    return give_up(session, e);
                },
            };
            match validate_port_range(config.port().0, config.instance_count().0) {
                Ok(()) => {},
                Err(e) => {
                    return give_up(session, e);
                },
            }
            session.build_state = Some(state);
            if config.instance_count().0 == 0 {
                session.phase = LaunchPhase::Finished;
                return (session, LaunchAction::Complete);
            }
            session.phase = LaunchPhase::Launching;
            request_spawn(config, session)
        },
        (LaunchPhase::Launching, LaunchEvent::Spawned { pid, log_file }) => {
            if session.target.is_none() {
                return refuse_event(config, session);
            }
            let ghost before = session.log_files.deep_view();
            let port = port_of_instance(config.port().0, session.ports.len());
            session.pids.push(pid);
            session.log_files.push(log_file);
            session.ports.push(port);
            assert(session.log_files.deep_view() =~= before.push(log_file@));
            if session.ports.len() >= config.instance_count().0 {
                session.phase = LaunchPhase::Finished;
                (session, LaunchAction::Complete)
            } else {
                request_spawn(config, session)
            }
        },
        (LaunchPhase::Launching, LaunchEvent::InstanceFailed(error)) => give_up(session, error),
        (_, _) => refuse_event(config, session),
    }
}

/// What a finished launch reports, given the readings of the clock: the
/// assembled result with the paths of the same-named targets.
pub open spec fn finished_result<T: LaunchConfigTrait>(
    settings: LaunchSettings,
    session: LaunchSessionView,
    launch_duration_ms: u128,
    launch_timestamp: Option<Seq<char>>,
    working_directory: Option<Seq<char>>,
) -> LaunchResultView
    recommends
        session.target is Some,
{
    launch_result(
        session.pids,
        session.log_files,
        session.ports,
        settings,
        T::spec_target_type(),
        session.target->0,
        launch_duration_ms,
        launch_timestamp,
        working_directory,
    ).with_duplicate_paths(session.duplicate_paths)
}

/// Builds the result of a finished launch of at least one instance. The
/// result has one entry per requested instance, on the ports of the range.
pub fn launch_outcome<T: LaunchConfigTrait>(
    config: &T,
    session: LaunchSession,
    launch_start: std::time::Instant,
    working_directory: Option<String>,
) -> (r: LaunchResult)
    requires
        session@.phase == LaunchPhase::Finished,
        session@.wf(config.settings()),
        config.settings().instance_count.0 >= 1,
    ensures
        r@.launch_duration_ms is Some,
        exists|reading: Option<(u64, u32)>|
            r@.launch_timestamp == #[trigger] crate::clock::timestamp_text(reading),
        r@ == finished_result::<T>(
            config.settings(),
            session@,
            r@.launch_duration_ms->0,
            r@.launch_timestamp,
            working_directory.deep_view(),
        ),
        r@.instances.len() == config.settings().instance_count.0,
        r@.ports() == port_range(
            config.settings().port.0,
            config.settings().instance_count.0 as nat,
        ),
{
    let LaunchSession { phase, target, duplicate_paths, build_state, pids, log_files, ports } =
        session;
    let target = target.unwrap();
    let mut result = build_launch_result(
        pids,
        log_files,
        ports,
        config,
        &target,
        launch_start,
        working_directory,
    );
    result.duplicate_paths = duplicate_paths;
    assert(result@.ports() =~= ports@);
    result
}

/// The state before the first step is well formed, whatever the request.
pub proof fn lemma_initial_state_is_well_formed(settings: LaunchSettings)
    ensures
        LaunchSessionView::initial().wf(settings),
{
    assert(Seq::<u16>::empty() =~= port_range(settings.port.0, 0));
}

/// Every step keeps the state of a launch well formed.
pub proof fn lemma_step_keeps_state_well_formed<T: LaunchConfigTrait>(
    settings: LaunchSettings,
    session: LaunchSessionView,
    event: LaunchEventView,
)
    requires
        session.wf(settings),
    ensures
        next_step::<T>(settings, session, event).0.wf(settings),
{
    if session.phase == LaunchPhase::Launching && event is Spawned {
        let grown = session.ports.push(instance_port(settings.port.0, session.ports.len()));
        assert(grown =~= port_range(settings.port.0, grown.len()));
    }
}

/// A launch is complete only when every requested instance has been
/// spawned: the state then holds as many process ids and log files as
/// instances were asked for, and exactly the ports of the range.
pub proof fn lemma_complete_launch_has_every_instance<T: LaunchConfigTrait>(
    settings: LaunchSettings,
    session: LaunchSessionView,
    event: LaunchEventView,
)
    requires
        session.wf(settings),
        next_step::<T>(settings, session, event).1 is Complete,
    ensures
        ({
            let after = next_step::<T>(settings, session, event).0;
            &&& after.phase == LaunchPhase::Finished
            &&& after.pids.len() == settings.instance_count.0
            &&& after.log_files.len() == settings.instance_count.0
            &&& after.ports == port_range(settings.port.0, settings.instance_count.0 as nat)
            &&& port_range_check(settings.port.0, settings.instance_count.0 as nat) is Ok
        }),
{
    lemma_step_keeps_state_well_formed::<T>(settings, session, event);
}

/// An instance is asked for only on the port that follows the ports of the
/// instances that run, and only while the range is accepted and not full.
pub proof fn lemma_spawn_follows_the_range<T: LaunchConfigTrait>(
    settings: LaunchSettings,
    session: LaunchSessionView,
    event: LaunchEventView,
)
    requires
        session.wf(settings),
        next_step::<T>(settings, session, event).1 is Spawn,
    ensures
        ({
            let (after, action) = next_step::<T>(settings, session, event);
            &&& after.phase == LaunchPhase::Launching
            &&& after.ports.len() < settings.instance_count.0
            &&& action->Spawn_0.port == settings.port.0 + after.ports.len()
            &&& action->Spawn_0.port <= crate::port::MAX_VALID_PORT
        }),
{
    lemma_step_keeps_state_well_formed::<T>(settings, session, event);
}

/// A resolution error ends the launch and reaches the caller unchanged.
pub proof fn lemma_resolution_error_is_handed_on<T: LaunchConfigTrait>(
    settings: LaunchSettings,
    session: LaunchSessionView,
    catalog: Seq<BevyTargetView>,
)
    requires
        session.phase == LaunchPhase::Scanning,
        resolved_target::<T>(settings, catalog) is Err,
    ensures
        ({
            let (after, action) = next_step::<T>(
                settings,
                session,
                LaunchEventView::Catalog(catalog),
            );
            &&& after.phase == LaunchPhase::Failed
            &&& action == LaunchActionView::Abort(resolved_target::<T>(settings, catalog)->Err_0)
            &&& action->Abort_0.is_structured()
        }),
{
    lemma_resolution_outcomes(
        candidates_of::<T>(settings, catalog),
        settings.target_name,
        T::spec_target_type(),
        settings.path,
    );
}

/// When resolution succeeds, the state records the paths of the candidates
/// if and only if more than one target matched the request.
pub proof fn lemma_duplicate_paths_recorded<T: LaunchConfigTrait>(
    settings: LaunchSettings,
    session: LaunchSessionView,
    catalog: Seq<BevyTargetView>,
)
    requires
        session.phase == LaunchPhase::Scanning,
        next_step::<T>(settings, session, LaunchEventView::Catalog(catalog)).1 is Build,
    ensures
        ({
            let after = next_step::<T>(settings, session, LaunchEventView::Catalog(catalog)).0;
            &&& after.duplicate_paths is Some <==> candidates_of::<T>(settings, catalog).len() > 1
            &&& after.duplicate_paths == duplicate_paths(candidates_of::<T>(settings, catalog))
        }),
{
}

/// Once the target is resolved, no later step changes the target or the
/// recorded paths.
pub proof fn lemma_resolution_is_kept<T: LaunchConfigTrait>(
    settings: LaunchSettings,
    session: LaunchSessionView,
    event: LaunchEventView,
)
    requires
        session.phase == LaunchPhase::Building || session.phase == LaunchPhase::Launching,
    ensures
        next_step::<T>(settings, session, event).0.duplicate_paths == session.duplicate_paths,
        next_step::<T>(settings, session, event).0.target == session.target,
{
}

} // verus!
