//! Command lines as plain values: the program, its arguments, the
//! environment variables set for it and the directory it runs in.

use vstd::prelude::*;
use vstd::string::*;
use crate::port::{Port, BRP_EXTRAS_PORT_ENV_VAR};
use crate::target::TargetType;
use crate::text::{decimal, decimal_string, join, joined, str_equal};

verus! {

/// An invocation of a program, ready to be spawned.
#[derive(Debug, PartialEq, Eq)]
pub struct CommandLine {
    /// The program to run.
    pub program: String,
    /// Its arguments, in order.
    pub args: Vec<String>,
    /// Environment variables set for it, in order; a later entry for a name
    /// replaces an earlier one.
    pub envs: Vec<(String, String)>,
    /// The directory to run it in, if not the caller's.
    pub current_dir: Option<String>,
}

/// The mathematical content of a [`CommandLine`].
pub struct CommandLineView {
    pub program: Seq<char>,
    pub args: Seq<Seq<char>>,
    pub envs: Seq<(Seq<char>, Seq<char>)>,
    pub current_dir: Option<Seq<char>>,
}

impl View for CommandLine {
    type V = CommandLineView;

    open spec fn view(&self) -> CommandLineView {
        CommandLineView {
            program: self.program@,
            args: self.args.deep_view(),
            envs: self.envs.deep_view(),
            current_dir: self.current_dir.deep_view(),
        }
    }
}

impl DeepView for CommandLine {
    type V = CommandLineView;

    open spec fn deep_view(&self) -> CommandLineView {
        self@
    }
}

impl CommandLineView {
    /// The invocation of a program with no argument.
    pub open spec fn new(program: Seq<char>) -> CommandLineView {
        CommandLineView {
            program,
            args: Seq::empty(),
            envs: Seq::empty(),
            current_dir: None,
        }
    }

    /// The same invocation with one more argument.
    pub open spec fn arg(self, value: Seq<char>) -> CommandLineView {
        CommandLineView { args: self.args.push(value), ..self }
    }

    /// The same invocation with one more environment variable.
    pub open spec fn env(self, name: Seq<char>, value: Seq<char>) -> CommandLineView {
        CommandLineView { envs: self.envs.push((name, value)), ..self }
    }

    /// The same invocation, run in `dir`.
    pub open spec fn in_dir(self, dir: Seq<char>) -> CommandLineView {
        CommandLineView { current_dir: Some(dir), ..self }
    }

    /// The same invocation with the port variable set, where a port is given.
    pub open spec fn with_port_variable(self, port: Option<Port>) -> CommandLineView {
        match port {
            Some(p) => self.env(BRP_EXTRAS_PORT_ENV_VAR@, decimal(p.0 as nat)),
            None => self,
        }
    }

    /// The same invocation with the feature list, where it is not empty: the
    /// flag, then the features joined by commas.
    pub open spec fn with_features(self, features: Option<Seq<Seq<char>>>) -> CommandLineView {
        match features {
            Some(list) => if list.len() > 0 {
                self.arg("--features"@).arg(joined(list, ","@))
            } else {
                self
            },
            None => self,
        }
    }

    /// The same invocation with the release flag, where the profile is
    /// `release`.
    pub open spec fn with_profile(self, profile: Seq<char>) -> CommandLineView {
        if profile == "release"@ {
            self.arg("--release"@)
        } else {
            self
        }
    }
}

impl CommandLine {
    /// The invocation of a program with no argument.
    pub fn new(program: &str) -> (r: CommandLine)
        ensures
            r@ == CommandLineView::new(program@),
    {
        let r = CommandLine {
            program: String::from_str(program),
            args: Vec::new(),
            envs: Vec::new(),
            current_dir: None,
        };
        assert(r.args.deep_view() =~= Seq::empty());
        assert(r.envs.deep_view() =~= Seq::empty());
        r
    }

    /// Adds an argument.
    pub fn arg(&mut self, value: &str)
        ensures
            final(self)@ == old(self)@.arg(value@),
    {
        self.args.push(String::from_str(value));
        assert(self.args.deep_view() =~= old(self).args.deep_view().push(value@));
    }

    /// Sets an environment variable.
    pub fn env(&mut self, name: &str, value: &str)
        ensures
            final(self)@ == old(self)@.env(name@, value@),
    {
        self.envs.push((String::from_str(name), String::from_str(value)));
        assert(self.envs.deep_view() =~= old(self).envs.deep_view().push((name@, value@)));
    }

    /// Sets the directory to run in.
    pub fn current_dir(&mut self, dir: &str)
        ensures
            final(self)@ == old(self)@.in_dir(dir@),
    {
        self.current_dir = Some(String::from_str(dir));
    }

    /// Adds the feature list, where there is one and it is not empty.
    pub fn add_features(&mut self, features: Option<&Vec<String>>)
        ensures
            final(self)@ == old(self)@.with_features(features.deep_view()),
    {
        if let Some(list) = features {
            if list.len() > 0 {
                let joined_features = join(list, ",");
                self.arg("--features");
                self.arg(joined_features.as_str());
            }
        }
    }

    /// Adds the release flag, where the profile is `release`.
    pub fn add_profile(&mut self, profile: &str)
        ensures
            final(self)@ == old(self)@.with_profile(profile@),
    {
        if str_equal(profile, "release") {
            self.arg("--release");
        }
    }
}

impl TargetType {
    /// Adds the arguments that select a target of this kind by name.
    pub fn add_cargo_args(&self, cmd: &mut CommandLine, target_name: &str)
        ensures
            final(cmd)@ == old(cmd)@.arg(self.cargo_flag()).arg(target_name@),
    {
        cmd.arg(self.cargo_flag_str());
        cmd.arg(target_name);
    }
}

/// Sets the variables that a launched process reads: the port, where one is
/// given.
pub fn set_brp_env_vars(cmd: &mut CommandLine, port: Option<Port>)
    ensures
        final(cmd)@ == old(cmd)@.with_port_variable(port),
{
    if let Some(port) = port {
        let value = decimal_string(port.0 as u128);
        cmd.env(BRP_EXTRAS_PORT_ENV_VAR, value.as_str());
    }
}

/// The invocation that runs an example through the build tool.
pub open spec fn cargo_example_command(
    example_name: Seq<char>,
    profile: Seq<char>,
    port: Option<Port>,
    features: Option<Seq<Seq<char>>>,
) -> CommandLineView {
    CommandLineView::new("cargo"@).arg("run"@).arg("--example"@).arg(example_name).with_features(
        features,
    ).with_profile(profile).with_port_variable(port)
}

/// Builds the invocation that runs an example through the build tool.
pub fn build_cargo_example_command(
    example_name: &str,
    profile: &str,
    port: Option<Port>,
    features: Option<&Vec<String>>,
) -> (r: CommandLine)
    ensures
        r@ == cargo_example_command(example_name@, profile@, port, features.deep_view()),
{
    let mut cmd = CommandLine::new("cargo");
    cmd.arg("run");
    cmd.arg("--example");
    cmd.arg(example_name);
    cmd.add_features(features);
    cmd.add_profile(profile);
    set_brp_env_vars(&mut cmd, port);
    cmd
}

/// The invocation that runs the binary of an application.
pub open spec fn app_command(binary_path: Seq<char>, port: Option<Port>) -> CommandLineView {
    CommandLineView::new(binary_path).with_port_variable(port)
}

/// Builds the invocation that runs the binary of an application.
pub fn build_app_command(binary_path: &str, port: Option<Port>) -> (r: CommandLine)
    ensures
        r@ == app_command(binary_path@, port),
{
    let mut cmd = CommandLine::new(binary_path);
    set_brp_env_vars(&mut cmd, port);
    cmd
}

/// The invocation that builds a target and reports what it did as a stream
/// of events.
pub open spec fn cargo_build_command(
    target_name: Seq<char>,
    target_type: TargetType,
    profile: Seq<char>,
    manifest_dir: Seq<char>,
    features: Option<Seq<Seq<char>>>,
) -> CommandLineView {
    CommandLineView::new("cargo"@).in_dir(manifest_dir).arg("build"@).arg(
        target_type.cargo_flag(),
    ).arg(target_name).with_features(features).with_profile(profile).arg(
        "--message-format=json"@,
    )
}

/// Builds the invocation that builds a target.
pub fn build_cargo_command(
    target_name: &str,
    target_type: TargetType,
    profile: &str,
    manifest_dir: &str,
    features: Option<&Vec<String>>,
) -> (r: CommandLine)
    ensures
        r@ == cargo_build_command(
            target_name@,
            target_type,
            profile@,
            manifest_dir@,
            features.deep_view(),
        ),
{
    let mut cmd = CommandLine::new("cargo");
    cmd.current_dir(manifest_dir);
    cmd.arg("build");
    target_type.add_cargo_args(&mut cmd, target_name);
    cmd.add_features(features);
    cmd.add_profile(profile);
    cmd.arg("--message-format=json");
    cmd
}

} // verus!
