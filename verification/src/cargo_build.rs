//! The build step: the command that builds a target, and what the run of
//! that command says about the target.

use vstd::prelude::*;
use vstd::slice::*;
use vstd::string::*;
use crate::command::{build_cargo_command, cargo_build_command, CommandLine, CommandLineView};
use crate::config::{LaunchConfigTrait, LaunchSettings};
use crate::error::{Error, ErrorView};
use crate::document::{Json, JsonView};
use crate::json::{json_bool, json_get, json_str, parse_json, parsed_document};
use crate::target::{BevyTarget, BevyTargetView, TargetType};
use crate::text::{lossy_text, str_equal, utf8_lossy};

verus! {

/// What a successful build did for the requested target.
#[derive(Clone, Copy, Debug, PartialEq, Eq, Hash, Structural)]
pub enum BuildState {
    /// No event of the build names the target.
    NotFound,
    /// The target was up to date.
    Fresh,
    /// The target was built.
    Rebuilt,
}

/// What one event of the build tool's stream says, as far as a launch reads
/// it.
#[derive(Debug, PartialEq, Eq)]
pub struct BuildEvent {
    /// The name under `target.name`, where the event has one that is a
    /// string.
    pub target_name: Option<String>,
    /// The flag under `fresh`, where the event has one that is a boolean.
    pub fresh: Option<bool>,
}

/// The mathematical content of a [`BuildEvent`].
pub struct BuildEventView {
    pub target_name: Option<Seq<char>>,
    pub fresh: Option<bool>,
}

impl View for BuildEvent {
    type V = BuildEventView;

    open spec fn view(&self) -> BuildEventView {
        BuildEventView { target_name: self.target_name.deep_view(), fresh: self.fresh }
    }
}

impl DeepView for BuildEvent {
    type V = BuildEventView;

    open spec fn deep_view(&self) -> BuildEventView {
        self@
    }
}

impl BuildEventView {
    /// What the event says of a target: nothing where it names another
    /// target or none; `Fresh` where it names the target and its flag is
    /// true; `Rebuilt` where it names the target and its flag is false or
    /// missing.
    pub open spec fn state_for(self, target_name: Seq<char>) -> Option<BuildState> {
        if self.target_name == Some(target_name) {
            if self.fresh == Some(true) {
                Some(BuildState::Fresh)
            } else {
                Some(BuildState::Rebuilt)
            }
        } else {
            None
        }
    }
}

impl BuildEvent {
    /// What the event says of a target.
    pub fn state_for(&self, target_name: &str) -> (r: Option<BuildState>)
        ensures
            r == self@.state_for(target_name@),
    {
        match &self.target_name {
            Some(name) => {
                if str_equal(name.as_str(), target_name) {
                    match self.fresh {
                        Some(true) => Some(BuildState::Fresh),
                        _ => Some(BuildState::Rebuilt),
                    }
                } else {
                    None
                }
            },
            None => None,
        }
    }
}

/// The state of a target after a stream of events, one entry per line and
/// `None` for a line that is no event: what the first event that names the
/// target says, or `NotFound` where none names it.
pub open spec fn build_state_of(
    events: Seq<Option<BuildEventView>>,
    target_name: Seq<char>,
) -> BuildState
    decreases events.len(),
{
    if events.len() == 0 {
        BuildState::NotFound
    } else {
        match events[0] {
            Some(event) => match event.state_for(target_name) {
                Some(state) => state,
                None => build_state_of(events.drop_first(), target_name),
            },
            None => build_state_of(events.drop_first(), target_name),
        }
    }
}

/// Derives the state of a target from the events of a build.
pub fn build_state_from_events(events: &Vec<Option<BuildEvent>>, target_name: &str) -> (r:
    BuildState)
    ensures
        r == build_state_of(events.deep_view(), target_name@),
{
    let ghost all = events.deep_view();
    let mut i: usize = 0;
    assert(all.skip(0) =~= all);
    while i < events.len()
        invariant
            i <= events.len(),
            all == events.deep_view(),
            build_state_of(all, target_name@) == build_state_of(all.skip(i as int), target_name@),
        decreases events.len() - i,
    {
        assert(all.skip(i as int)[0] == events@[i as int].deep_view());
        assert(all.skip(i as int).drop_first() =~= all.skip(i + 1));
        if let Some(event) = &events[i] {
            if let Some(state) = event.state_for(target_name) {
                return state;
            }
        }
        i += 1;
    }
    BuildState::NotFound
}

/// What a document says as an event of the build: the string under
/// `target.name` and the boolean under `fresh`, each where there is one.
pub open spec fn event_of_document(document: JsonView) -> BuildEventView {
    BuildEventView {
        target_name: match document.get("target"@) {
            Some(target) => target.get_str("name"@),
            None => None,
        },
        fresh: document.get_bool("fresh"@),
    }
}

/// The event that a line of text holds: none where the line is not a JSON
/// document.
pub open spec fn event_of_text(text: Seq<char>) -> Option<BuildEventView> {
    match parsed_document(text) {
        Some(document) => Some(event_of_document(document)),
        None => None,
    }
}

/// Reads a document as an event of the build.
pub fn read_event_document(document: &Json) -> (r: BuildEvent)
    ensures
        r@ == event_of_document(document@),
{
    let target_name: Option<String> = match document.get_field("target") {
        Some(target) => target.get_field_string("name"),
        None => None,
    };
    let fresh: Option<bool> = match document.get_field("fresh") {
        Some(flag) => flag.as_bool(),
        None => None,
    };
    BuildEvent { target_name, fresh }
}

/// Reads one line of the event stream.
pub fn read_build_event(line: &str) -> (r: Option<BuildEvent>)
    ensures
        r.deep_view() == event_of_text(line@),
{
    let document = match parse_json(line) {
        Some(d) => d,
        None => {
            return None;
        },
    };
    let target_name: Option<String> = match json_get(&document, "target") {
        Some(target) => match json_get(target, "name") {
            Some(name) => match json_str(name) {
                Some(s) => Some(String::from_str(s)),
                None => None,
            },
            None => None,
        },
        None => None,
    };
    let fresh: Option<bool> = match json_get(&document, "fresh") {
        Some(flag) => json_bool(flag),
        None => None,
    };
    Some(BuildEvent { target_name, fresh })
}

/// The position of the first line feed in a sequence of bytes, or its
/// length where it has none.
pub open spec fn first_line_feed(bytes: Seq<u8>) -> int
    decreases bytes.len(),
{
    if bytes.len() == 0 {
        0
    } else if bytes[0] == 10 {
        0
    } else {
        1 + first_line_feed(bytes.drop_first())
    }
}

/// A line without the carriage return before its line feed, if it has one.
pub open spec fn without_carriage_return(line: Seq<u8>) -> Seq<u8> {
    if line.len() > 0 && line.last() == 13 {
        line.drop_last()
    } else {
        line
    }
}

/// The lines of an output: the bytes between line feeds. A carriage return
/// before a line feed belongs to the line ending; the last line needs no
/// line feed, and an output that ends in one has no empty line after it.
pub open spec fn byte_lines(bytes: Seq<u8>) -> Seq<Seq<u8>>
    decreases bytes.len(),
{
    if bytes.len() == 0 {
        Seq::empty()
    } else {
        let end = first_line_feed(bytes);
        if 0 <= end < bytes.len() {
            seq![without_carriage_return(bytes.take(end))] + byte_lines(bytes.skip(end + 1))
        } else {
            seq![bytes]
        }
    }
}

/// The first line feed is where no byte before is one.
pub proof fn lemma_first_line_feed(bytes: Seq<u8>, end: int)
    requires
        0 <= end <= bytes.len(),
        forall|j: int| 0 <= j < end ==> bytes[j] != 10,
        end < bytes.len() ==> bytes[end] == 10,
    ensures
        first_line_feed(bytes) == end,
    decreases bytes.len(),
{
    if bytes.len() > 0 && end > 0 {
        let rest = bytes.drop_first();
        assert forall|j: int| 0 <= j < end - 1 implies rest[j] != 10 by {
            assert(rest[j] == bytes[j + 1]);
        }
        lemma_first_line_feed(rest, end - 1);
    }
}

/// The lines of an output as ranges of its bytes.
pub fn line_ranges(bytes: &[u8]) -> (r: Vec<(usize, usize)>)
    ensures
        r.len() == byte_lines(bytes@).len(),
        forall|i: int|
            0 <= i < r.len() ==> (#[trigger] r@[i]).0 <= r@[i].1 <= bytes@.len()
                && bytes@.subrange(r@[i].0 as int, r@[i].1 as int) == byte_lines(bytes@)[i],
{
    let mut ranges: Vec<(usize, usize)> = Vec::new();
    let mut start: usize = 0;
    let mut i: usize = 0;
    let ghost mut done: Seq<Seq<u8>> = Seq::empty();
    assert(bytes@.skip(0) =~= bytes@);
    while i < bytes.len()
        invariant
            start <= i <= bytes.len(),
            forall|j: int| start <= j < i ==> bytes@[j] != 10,
            byte_lines(bytes@) == done + byte_lines(bytes@.skip(start as int)),
            ranges.len() == done.len(),
            forall|k: int|
                0 <= k < ranges.len() ==> (#[trigger] ranges@[k]).0 <= ranges@[k].1 <= bytes@.len()
                    && bytes@.subrange(ranges@[k].0 as int, ranges@[k].1 as int) == done[k],
        decreases bytes.len() - i,
    {
        if bytes[i] == 10 {
            let end: usize = if i > start && bytes[i - 1] == 13 {
                (i - 1) as usize
            } else {
                i
            };
            proof {
                let rest = bytes@.skip(start as int);
                assert forall|j: int| 0 <= j < i - start implies rest[j] != 10 by {
                    assert(rest[j] == bytes@[start + j]);
                }
                lemma_first_line_feed(rest, i - start);
                assert(rest.skip(i - start + 1) =~= bytes@.skip(i + 1));
                let line = without_carriage_return(rest.take(i - start));
                assert(line =~= bytes@.subrange(start as int, end as int));
                assert(byte_lines(rest) == seq![line] + byte_lines(bytes@.skip(i + 1)));
                assert(done + (seq![line] + byte_lines(bytes@.skip(i + 1))) =~= done.push(line)
                    + byte_lines(bytes@.skip(i + 1)));
                done = done.push(line);
            }
            ranges.push((start, end));
            start = i + 1;
        }
        i += 1;
    }
    if start < bytes.len() {
        proof {
            let rest = bytes@.skip(start as int);
            assert forall|j: int| 0 <= j < rest.len() implies rest[j] != 10 by {
                assert(rest[j] == bytes@[start + j]);
            }
            lemma_first_line_feed(rest, rest.len() as int);
            assert(rest =~= bytes@.subrange(start as int, bytes@.len() as int));
            assert(done + seq![rest] =~= done.push(rest));
            done = done.push(rest);
        }
        ranges.push((start, bytes.len()));
    } else {
        assert(done + Seq::<Seq<u8>>::empty() =~= done);
    }
    ranges
}

/// The events of a build output, one entry per line: each line is read as
/// text, and the text as an event.
pub open spec fn output_events(stdout: Seq<u8>) -> Seq<Option<BuildEventView>> {
    Seq::new(
        byte_lines(stdout).len(),
        |i: int| event_of_text(utf8_lossy(byte_lines(stdout)[i])),
    )
}

/// Reads the events of a build output, one entry per line.
pub fn read_build_events(stdout: &[u8]) -> (r: Vec<Option<BuildEvent>>)
    ensures
        r.deep_view() == output_events(stdout@),
{
    let ranges = line_ranges(stdout);
    let mut events: Vec<Option<BuildEvent>> = Vec::new();
    let mut i: usize = 0;
    while i < ranges.len()
        invariant
            i <= ranges.len(),
            ranges.len() == byte_lines(stdout@).len(),
            forall|k: int|
                0 <= k < ranges.len() ==> (#[trigger] ranges@[k]).0 <= ranges@[k].1
                    <= stdout@.len() && stdout@.subrange(ranges@[k].0 as int, ranges@[k].1 as int)
                    == byte_lines(stdout@)[k],
            events.deep_view() == output_events(stdout@).take(i as int),
        decreases ranges.len() - i,
    {
        let range = ranges[i];
        let line = slice_subrange(stdout, range.0, range.1);
        let text = lossy_text(line);
        let event = read_build_event(text.as_str());
        let ghost before = events.deep_view();
        events.push(event);
        assert(events.deep_view() =~= before.push(event.deep_view()));
        assert(events.deep_view() =~= output_events(stdout@).take(i + 1));
        i += 1;
    }
    assert(output_events(stdout@).take(ranges.len() as int) =~= output_events(stdout@));
    events
}

/// Determines from the output of a successful build what the build did for
/// a target.
pub fn parse_build_output(stdout: &[u8], target_name: &str) -> (r: BuildState)
    ensures
        r == build_state_of(output_events(stdout@), target_name@),
{
    let events = read_build_events(stdout);
    build_state_from_events(&events, target_name)
}

/// Whether an entry of an event stream names a target.
pub open spec fn names_target(event: Option<BuildEventView>, target_name: Seq<char>) -> bool {
    match event {
        Some(e) => e.target_name == Some(target_name),
        None => false,
    }
}

/// The first event that names the target decides: the state is `Fresh`
/// where its flag is true, and `Rebuilt` where its flag is false or missing.
pub proof fn lemma_first_naming_event_decides(
    events: Seq<Option<BuildEventView>>,
    target_name: Seq<char>,
    index: int,
)
    requires
        0 <= index < events.len(),
        names_target(events[index], target_name),
        forall|j: int| 0 <= j < index ==> !names_target(#[trigger] events[j], target_name),
    ensures
        build_state_of(events, target_name) == if events[index]->0.fresh == Some(true) {
            BuildState::Fresh
        } else {
            BuildState::Rebuilt
        },
    decreases events.len(),
{
    if index > 0 {
        let rest = events.drop_first();
        assert(!names_target(events[0], target_name));
        assert(rest[index - 1] == events[index]);
        assert forall|j: int| 0 <= j < index - 1 implies !names_target(
            #[trigger] rest[j],
            target_name,
        ) by {
            assert(rest[j] == events[j + 1]);
        }
        lemma_first_naming_event_decides(rest, target_name, index - 1);
    }
}

/// Where no event names the target, the state is `NotFound`.
pub proof fn lemma_no_naming_event(events: Seq<Option<BuildEventView>>, target_name: Seq<char>)
    requires
        forall|j: int| 0 <= j < events.len() ==> !names_target(#[trigger] events[j], target_name),
    ensures
        build_state_of(events, target_name) == BuildState::NotFound,
    decreases events.len(),
{
    if events.len() > 0 {
        let rest = events.drop_first();
        assert(!names_target(events[0], target_name));
        assert forall|j: int| 0 <= j < rest.len() implies !names_target(
            #[trigger] rest[j],
            target_name,
        ) by {
            assert(rest[j] == events[j + 1]);
        }
        lemma_no_naming_event(rest, target_name);
    }
}

/// The state is `NotFound` only where no event names the target.
pub proof fn lemma_not_found_means_unnamed(
    events: Seq<Option<BuildEventView>>,
    target_name: Seq<char>,
)
    requires
        build_state_of(events, target_name) == BuildState::NotFound,
    ensures
        forall|j: int| 0 <= j < events.len() ==> !names_target(#[trigger] events[j], target_name),
    decreases events.len(),
{
    if events.len() > 0 {
        let rest = events.drop_first();
        lemma_not_found_means_unnamed(rest, target_name);
        assert forall|j: int| 0 <= j < events.len() implies !names_target(
            #[trigger] events[j],
            target_name,
        ) by {
            if j > 0 {
                assert(rest[j - 1] == events[j]);
            }
        }
    }
}

/// What the run of a process left behind.
#[derive(Debug, PartialEq, Eq)]
pub struct BuildOutput {
    /// Whether the process reported success.
    pub success: bool,
    /// What it wrote to its standard output.
    pub stdout: Vec<u8>,
    /// What it wrote to its standard error.
    pub stderr: Vec<u8>,
}

/// What became of the attempt to run the build command.
#[derive(Debug, PartialEq, Eq)]
pub enum BuildRun {
    /// The command could not be started; the reason as the system gave it.
    NotStarted(String),
    /// The command ran to its end.
    Finished(BuildOutput),
}

/// The outcome of a build: the state of the target after a successful run,
/// or the error of a run that failed or never started.
pub open spec fn build_outcome(
    run: BuildRun,
    target_name: Seq<char>,
    target_type: TargetType,
    profile: Seq<char>,
    manifest_dir: Seq<char>,
) -> Result<BuildState, ErrorView> {
    match run {
        BuildRun::NotStarted(reason) => Err(
            ErrorView::BuildNotStarted {
                target_type,
                target_name,
                profile,
                manifest_dir,
                reason: reason@,
            },
        ),
        BuildRun::Finished(output) => if output.success {
            Ok(build_state_of(output_events(output.stdout@), target_name))
        } else {
            Err(
                ErrorView::BuildFailed {
                    target_type,
                    target_name,
                    profile,
                    manifest_dir,
                    stderr: utf8_lossy(output.stderr@),
                },
            )
        },
    }
}

/// Tells a run that succeeded from one that failed or never started, and
/// describes the failure with the request that led to it.
pub fn validate_build_run<'a>(
    run: &'a BuildRun,
    target_name: &str,
    target_type: TargetType,
    profile: &str,
    manifest_dir: &str,
) -> (r: Result<&'a BuildOutput, Error>)
    ensures
        match r {
            Ok(output) => *run == BuildRun::Finished(*output) && output.success,
            Err(e) => build_outcome(*run, target_name@, target_type, profile@, manifest_dir@)
                == Err::<BuildState, ErrorView>(e@),
        },
{
    match run {
        BuildRun::NotStarted(reason) => Err(
            Error::BuildNotStarted {
                target_type,
                target_name: String::from_str(target_name),
                profile: String::from_str(profile),
                manifest_dir: String::from_str(manifest_dir),
                reason: reason.clone(),
            },
        ),
        BuildRun::Finished(output) => {
            if !output.success {
                return Err(
                    Error::BuildFailed {
                        target_type,
                        target_name: String::from_str(target_name),
                        profile: String::from_str(profile),
                        manifest_dir: String::from_str(manifest_dir),
                        stderr: lossy_text(output.stderr.as_slice()),
                    },
                );
            }
            Ok(output)
        },
    }
}

/// Interprets the run of the build command for a target: a run that
/// succeeded gives the state of the target, also where no event names it.
pub fn run_cargo_build(
    target_name: &str,
    target_type: TargetType,
    profile: &str,
    manifest_dir: &str,
    run: &BuildRun,
) -> (r: Result<BuildState, Error>)
    ensures
        match r {
            Ok(state) => build_outcome(*run, target_name@, target_type, profile@, manifest_dir@)
                == Ok::<BuildState, ErrorView>(state),
            Err(e) => build_outcome(*run, target_name@, target_type, profile@, manifest_dir@)
                == Err::<BuildState, ErrorView>(e@),
        },
{
    let output = match validate_build_run(run, target_name, target_type, profile, manifest_dir) {
        Ok(output) => output,
        Err(e) => {
            return Err(e);
        },
    };
    Ok(parse_build_output(output.stdout.as_slice(), target_name))
}

/// The directory of a target's manifest, or the error for a manifest path
/// that has no directory.
pub open spec fn manifest_directory(target: BevyTargetView) -> Result<Seq<char>, ErrorView> {
    match target.manifest_dir {
        Some(dir) => Ok(dir),
        None => Err(ErrorView::FileOrPathNotFound("Invalid manifest path"@)),
    }
}

/// Gives the directory that holds the manifest of a target.
pub fn validate_manifest_directory(target: &BevyTarget) -> (r: Result<&str, Error>)
    ensures
        match r {
            Ok(dir) => manifest_directory(target@) == Ok::<Seq<char>, ErrorView>(dir@),
            Err(e) => manifest_directory(target@) == Err::<Seq<char>, ErrorView>(e@),
        },
{
    match &target.manifest_dir {
        Some(dir) => Ok(dir.as_str()),
        None => Err(Error::FileOrPathNotFound(String::from_str("Invalid manifest path"))),
    }
}

/// The command that builds the target of a configuration, or the error for
/// a target without a manifest directory.
pub open spec fn build_request<T: LaunchConfigTrait>(
    settings: LaunchSettings,
    target: BevyTargetView,
) -> Result<CommandLineView, ErrorView> {
    match manifest_directory(target) {
        Ok(dir) => Ok(
            cargo_build_command(
                settings.target_name,
                T::spec_target_type(),
                settings.profile,
                dir,
                settings.features,
            ),
        ),
        Err(e) => Err(e),
    }
}

/// Prepares the build of the target of a configuration.
pub fn prepare_build<T: LaunchConfigTrait>(config: &T, target: &BevyTarget) -> (r: Result<
    CommandLine,
    Error,
>)
    ensures
        match r {
            Ok(command) => build_request::<T>(config.settings(), target@) == Ok::<
                CommandLineView,
                ErrorView,
            >(command@),
            Err(e) => build_request::<T>(config.settings(), target@) == Err::<
                CommandLineView,
                ErrorView,
            >(e@),
        },
{
    let manifest_dir = match validate_manifest_directory(target) {
        Ok(dir) => dir,
        Err(e) => {
            return Err(e);
        },
    };
    Ok(
        build_cargo_command(
            config.target_name(),
            T::target_type(),
            config.profile(),
            manifest_dir,
            config.features(),
        ),
    )
}

/// The outcome of the build of a configuration's target.
pub open spec fn ensured_build<T: LaunchConfigTrait>(
    settings: LaunchSettings,
    target: BevyTargetView,
    run: BuildRun,
) -> Result<BuildState, ErrorView> {
    match manifest_directory(target) {
        Ok(dir) => build_outcome(
            run,
            settings.target_name,
            T::spec_target_type(),
            settings.profile,
            dir,
        ),
        Err(e) => Err(e),
    }
}

/// Interprets the run of the build that `prepare_build` asked for.
pub fn ensure_built<T: LaunchConfigTrait>(config: &T, target: &BevyTarget, run: &BuildRun) -> (r:
    Result<BuildState, Error>)
    ensures
        match r {
            Ok(state) => ensured_build::<T>(config.settings(), target@, *run) == Ok::<
                BuildState,
                ErrorView,
            >(state),
            Err(e) => ensured_build::<T>(config.settings(), target@, *run) == Err::<
                BuildState,
                ErrorView,
            >(e@),
        },
{
    let manifest_dir = match validate_manifest_directory(target) {
        Ok(dir) => dir,
        Err(e) => {
            return Err(e);
        },
    };
    run_cargo_build(config.target_name(), T::target_type(), config.profile(), manifest_dir, run)
}

/// How much a line of the log matters.
#[derive(Clone, Copy, Debug, PartialEq, Eq, Hash, Structural)]
pub enum LogLevel {
    Debug,
    Info,
    Warn,
}

/// A line for the log.
#[derive(Debug, PartialEq, Eq)]
pub struct LogLine {
    pub level: LogLevel,
    pub message: String,
}

/// The line that reports the outcome of a build.
pub open spec fn build_result_message(
    build_state: BuildState,
    target_name: Seq<char>,
    target_type: TargetType,
) -> Seq<char> {
    match build_state {
        BuildState::NotFound => "Target '"@ + target_name
            + "' not found in build output, assuming it was built"@,
        BuildState::Fresh => target_type.label() + " '"@ + target_name
            + "' was already up to date"@,
        BuildState::Rebuilt => target_type.label() + " '"@ + target_name
            + "' was built successfully"@,
    }
}

/// Words the outcome of a build for the log: a rebuild is worth a line at
/// `Info`, the other outcomes one at `Debug`.
pub fn log_build_result(build_state: BuildState, target_name: &str, target_type: TargetType) -> (r:
    LogLine)
    ensures
        r.message@ == build_result_message(build_state, target_name@, target_type),
        r.level == if build_state == BuildState::Rebuilt {
            LogLevel::Info
        } else {
            LogLevel::Debug
        },
{
    match build_state {
        BuildState::NotFound => {
            let mut message = String::from_str("Target '");
            message.append(target_name);
            message.append("' not found in build output, assuming it was built");
            LogLine { level: LogLevel::Debug, message }
        },
        BuildState::Fresh => {
            let mut message = String::from_str(target_type.as_str());
            message.append(" '");
            message.append(target_name);
            message.append("' was already up to date");
            LogLine { level: LogLevel::Debug, message }
        },
        BuildState::Rebuilt => {
            let mut message = String::from_str(target_type.as_str());
            message.append(" '");
            message.append(target_name);
            message.append("' was built successfully");
            LogLine { level: LogLevel::Info, message }
        },
    }
}

/// What the log says of the build before the instances are launched.
pub open spec fn launch_readiness_message(build_state: BuildState) -> Seq<char> {
    match build_state {
        BuildState::Fresh => "Target was already up to date, launching immediately"@,
        BuildState::Rebuilt => "Target was rebuilt before launch"@,
        BuildState::NotFound => "Target not found in build output but build succeeded"@,
    }
}

/// Words what the build means for the launch: a target that no event of a
/// successful build names is worth a warning, and does not stop the launch.
pub fn log_launch_readiness(build_state: BuildState) -> (r: LogLine)
    ensures
        r.message@ == launch_readiness_message(build_state),
        r.level == if build_state == BuildState::NotFound {
            LogLevel::Warn
        } else {
            LogLevel::Debug
        },
{
    match build_state {
        BuildState::Fresh => LogLine {
            level: LogLevel::Debug,
            message: String::from_str("Target was already up to date, launching immediately"),
        },
        BuildState::Rebuilt => LogLine {
            level: LogLevel::Debug,
            message: String::from_str("Target was rebuilt before launch"),
        },
        BuildState::NotFound => LogLine {
            level: LogLevel::Warn,
            message: String::from_str("Target not found in build output but build succeeded"),
        },
    }
}

} // verus!
