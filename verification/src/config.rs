//! Launch configurations: what to launch, how and how often, for
//! applications and for examples.

use vstd::prelude::*;
use vstd::string::*;
use std::marker::PhantomData;
use crate::command::{
    app_command, build_app_command, build_cargo_example_command, cargo_example_command,
    CommandLine, CommandLineView,
};
use crate::port::{InstanceCount, Port};
use crate::target::{BevyTarget, BevyTargetView, TargetType};
use crate::text::{clone_optional_string, clone_optional_strings};

verus! {

/// Marks the configuration of an application launch.
#[derive(Clone, Copy, Debug)]
pub struct App;

/// Marks the configuration of an example launch.
#[derive(Clone, Copy, Debug)]
pub struct Example;

/// The mathematical content of a launch request: the same for parameters and
/// for configurations of either kind.
pub struct LaunchSettings {
    pub target_name: Seq<char>,
    pub profile: Seq<char>,
    pub path: Option<Seq<char>>,
    pub port: Port,
    pub instance_count: InstanceCount,
    pub features: Option<Seq<Seq<char>>>,
}

impl LaunchSettings {
    /// The same request on another port.
    pub open spec fn on_port(self, port: Port) -> LaunchSettings {
        LaunchSettings { port, ..self }
    }
}

/// Parameters taken from a launch request, with the profile settled.
#[derive(Clone, Debug, PartialEq, Eq)]
pub struct LaunchParams {
    pub target_name: String,
    pub profile: String,
    pub path: Option<String>,
    pub port: Port,
    pub instance_count: InstanceCount,
    pub features: Option<Vec<String>>,
}

impl View for LaunchParams {
    type V = LaunchSettings;

    open spec fn view(&self) -> LaunchSettings {
        LaunchSettings {
            target_name: self.target_name@,
            profile: self.profile@,
            path: self.path.deep_view(),
            port: self.port,
            instance_count: self.instance_count,
            features: self.features.deep_view(),
        }
    }
}

/// The configuration of a launch; `T` is `App` or `Example`.
#[derive(Debug)]
pub struct LaunchConfig<T> {
    pub target_name: String,
    pub profile: String,
    pub path: Option<String>,
    pub port: Port,
    pub instance_count: InstanceCount,
    pub features: Option<Vec<String>>,
    pub marker: PhantomData<T>,
}

impl<T> View for LaunchConfig<T> {
    type V = LaunchSettings;

    open spec fn view(&self) -> LaunchSettings {
        LaunchSettings {
            target_name: self.target_name@,
            profile: self.profile@,
            path: self.path.deep_view(),
            port: self.port,
            instance_count: self.instance_count,
            features: self.features.deep_view(),
        }
    }
}

impl<T> Clone for LaunchConfig<T> {
    fn clone(&self) -> (r: Self)
        ensures
            r@ == self@,
    {
        self.copy_on_port(self.port)
    }
}

impl<T> LaunchConfig<T> {
    /// A configuration with the given values.
    pub fn new(
        target_name: String,
        profile: String,
        path: Option<String>,
        port: Port,
        instance_count: InstanceCount,
        features: Option<Vec<String>>,
    ) -> (r: Self)
        ensures
            r.target_name == target_name,
            r.profile == profile,
            r.path == path,
            r.port == port,
            r.instance_count == instance_count,
            r.features == features,
    {
        Self { target_name, profile, path, port, instance_count, features, marker: PhantomData }
    }

    /// A copy of the configuration on another port.
    pub fn copy_on_port(&self, port: Port) -> (r: Self)
        ensures
            r@ == self@.on_port(port),
    {
        Self {
            target_name: self.target_name.clone(),
            profile: self.profile.clone(),
            path: clone_optional_string(&self.path),
            port,
            instance_count: self.instance_count,
            features: clone_optional_strings(&self.features),
            marker: PhantomData,
        }
    }

    /// The configuration that a set of parameters asks for.
    pub fn of_params(params: &LaunchParams) -> (r: Self)
        ensures
            r@ == params@,
    {
        Self {
            target_name: params.target_name.clone(),
            profile: params.profile.clone(),
            path: clone_optional_string(&params.path),
            port: params.port,
            instance_count: params.instance_count,
            features: clone_optional_strings(&params.features),
            marker: PhantomData,
        }
    }
}

/// What a launch needs to know of its configuration, and what differs
/// between the kinds of target: the command that starts an instance and the
/// line that opens its log.
pub trait LaunchConfigTrait: Clone + Sized {
    /// The kind of target that the configuration launches.
    spec fn spec_target_type() -> TargetType;

    /// The mathematical content of the configuration.
    spec fn settings(&self) -> LaunchSettings;

    /// The command that starts one instance.
    spec fn spec_build_command(settings: LaunchSettings, target: BevyTargetView) -> CommandLineView;

    /// The line written at the head of an instance's log, if any.
    spec fn spec_extra_log_info(target: BevyTargetView) -> Option<Seq<char>>;

    /// The kind of target that the configuration launches.
    fn target_type() -> (r: TargetType)
        ensures
            r == Self::spec_target_type(),
    ;

    /// Name of the target being launched.
    fn target_name(&self) -> (r: &str)
        ensures
            r@ == self.settings().target_name,
    ;

    /// Build profile, `debug` or `release`.
    fn profile(&self) -> (r: &str)
        ensures
            r@ == self.settings().profile,
    ;

    /// Path that picks one of several same-named targets, if given.
    fn path(&self) -> (r: Option<&str>)
        ensures
            r.deep_view() == self.settings().path,
    ;

    /// Port of the first instance.
    fn port(&self) -> (r: Port)
        ensures
            r == self.settings().port,
    ;

    /// Number of instances to launch.
    fn instance_count(&self) -> (r: InstanceCount)
        ensures
            r == self.settings().instance_count,
    ;

    /// Features to enable when building and running.
    fn features(&self) -> (r: Option<&Vec<String>>)
        ensures
            r.deep_view() == self.settings().features,
    ;

    /// Changes the port.
    fn set_port(&mut self, port: Port)
        ensures
            final(self).settings() == old(self).settings().on_port(port),
    ;

    /// A copy of the configuration for the instance on `port`.
    fn instance_config(&self, port: Port) -> (r: Self)
        ensures
            r.settings() == self.settings().on_port(port),
    ;

    /// Builds the command that starts one instance.
    fn build_command(&self, target: &BevyTarget) -> (r: CommandLine)
        ensures
            r@ == Self::spec_build_command(self.settings(), target@),
    ;

    /// The line written at the head of an instance's log, if any.
    fn extra_log_info(&self, target: &BevyTarget) -> (r: Option<String>)
        ensures
            r.deep_view() == Self::spec_extra_log_info(target@),
    ;
}

/// Making a configuration from the parameters of a request.
pub trait FromLaunchParams: LaunchConfigTrait + Sized + Send + Sync {
    /// The configuration that the parameters ask for.
    fn from_params(params: &LaunchParams) -> (r: Self)
        ensures
            r.settings() == params@,
    ;
}

/// Turning the typed parameters of a request into launch parameters.
pub trait ToLaunchParams: Send + Sync {
    /// The launch parameters, with `default_profile` where the request names
    /// no profile.
    spec fn spec_to_launch_params(&self, default_profile: Seq<char>) -> LaunchSettings;

    /// Converts to launch parameters.
    fn to_launch_params(&self, default_profile: &str) -> (r: LaunchParams)
        ensures
            r@ == self.spec_to_launch_params(default_profile@),
    ;
}

/// The head line of an example's log: the package that holds the example.
pub open spec fn package_line(target: BevyTargetView) -> Seq<char> {
    "Package: "@ + target.package_name
}

impl LaunchConfigTrait for LaunchConfig<App> {
    open spec fn spec_target_type() -> TargetType {
        TargetType::App
    }

    open spec fn settings(&self) -> LaunchSettings {
        self@
    }

    open spec fn spec_build_command(
        settings: LaunchSettings,
        target: BevyTargetView,
    ) -> CommandLineView {
        app_command(target.binary_path(settings.profile), Some(settings.port))
    }

    open spec fn spec_extra_log_info(target: BevyTargetView) -> Option<Seq<char>> {
        None
    }

    fn target_type() -> (r: TargetType) {
        TargetType::App
    }

    fn target_name(&self) -> (r: &str) {
        self.target_name.as_str()
    }

    fn profile(&self) -> (r: &str) {
        self.profile.as_str()
    }

    fn path(&self) -> (r: Option<&str>) {
        match &self.path {
            Some(p) => Some(p.as_str()),
            None => None,
        }
    }

    fn port(&self) -> (r: Port) {
        self.port
    }

    fn instance_count(&self) -> (r: InstanceCount) {
        self.instance_count
    }

    fn features(&self) -> (r: Option<&Vec<String>>) {
        self.features.as_ref()
    }

    fn set_port(&mut self, port: Port) {
        self.port = port;
    }

    fn instance_config(&self, port: Port) -> (r: Self) {
        self.copy_on_port(port)
    }

    fn build_command(&self, target: &BevyTarget) -> (r: CommandLine) {
        let binary_path = target.get_binary_path(self.profile.as_str());
        build_app_command(binary_path.as_str(), Some(self.port))
    }

    fn extra_log_info(&self, target: &BevyTarget) -> (r: Option<String>) {
        None
    }
}

impl FromLaunchParams for LaunchConfig<App> {
    fn from_params(params: &LaunchParams) -> (r: Self) {
        Self::of_params(params)
    }
}

impl LaunchConfigTrait for LaunchConfig<Example> {
    open spec fn spec_target_type() -> TargetType {
        TargetType::Example
    }

    open spec fn settings(&self) -> LaunchSettings {
        self@
    }

    open spec fn spec_build_command(
        settings: LaunchSettings,
        target: BevyTargetView,
    ) -> CommandLineView {
        cargo_example_command(
            settings.target_name,
            settings.profile,
            Some(settings.port),
            settings.features,
        )
    }

    open spec fn spec_extra_log_info(target: BevyTargetView) -> Option<Seq<char>> {
        Some(package_line(target))
    }

    fn target_type() -> (r: TargetType) {
        TargetType::Example
    }

    fn target_name(&self) -> (r: &str) {
        self.target_name.as_str()
    }

    fn profile(&self) -> (r: &str) {
        self.profile.as_str()
    }

    fn path(&self) -> (r: Option<&str>) {
        match &self.path {
            Some(p) => Some(p.as_str()),
            None => None,
        }
    }

    fn port(&self) -> (r: Port) {
        self.port
    }

    fn instance_count(&self) -> (r: InstanceCount) {
        self.instance_count
    }

    fn features(&self) -> (r: Option<&Vec<String>>) {
        self.features.as_ref()
    }

    fn set_port(&mut self, port: Port) {
        self.port = port;
    }

    fn instance_config(&self, port: Port) -> (r: Self) {
        self.copy_on_port(port)
    }

    fn build_command(&self, target: &BevyTarget) -> (r: CommandLine) {
        build_cargo_example_command(
            self.target_name.as_str(),
            self.profile.as_str(),
            Some(self.port),
            self.features.as_ref(),
        )
    }

    fn extra_log_info(&self, target: &BevyTarget) -> (r: Option<String>) {
        let mut line = String::from_str("Package: ");
        line.append(target.package_name.as_str());
        Some(line)
    }
}

impl FromLaunchParams for LaunchConfig<Example> {
    fn from_params(params: &LaunchParams) -> (r: Self) {
        Self::of_params(params)
    }
}

/// The parameters of a request to launch an application or an example.
#[derive(Clone, Debug, PartialEq, Eq)]
pub struct LaunchBevyBinaryParams {
    /// Name of the target to launch.
    pub target_name: String,
    /// Build profile to use, if not the default.
    pub profile: Option<String>,
    /// Path to use when several targets share the name.
    pub path: Option<String>,
    /// Port of the first instance.
    pub port: Port,
    /// Number of instances to launch.
    pub instance_count: InstanceCount,
    /// Features to enable when building and running.
    pub features: Option<Vec<String>>,
}

impl crate::params::ParamStruct for LaunchBevyBinaryParams {

}

impl ToLaunchParams for LaunchBevyBinaryParams {
    open spec fn spec_to_launch_params(&self, default_profile: Seq<char>) -> LaunchSettings {
        LaunchSettings {
            target_name: self.target_name@,
            profile: match self.profile {
                Some(p) => p@,
                None => default_profile,
            },
            path: self.path.deep_view(),
            port: self.port,
            instance_count: self.instance_count,
            features: self.features.deep_view(),
        }
    }

    fn to_launch_params(&self, default_profile: &str) -> (r: LaunchParams) {
        LaunchParams {
            target_name: self.target_name.clone(),
            profile: match &self.profile {
                Some(p) => p.clone(),
                None => String::from_str(default_profile),
            },
            path: clone_optional_string(&self.path),
            port: self.port,
            instance_count: self.instance_count,
            features: clone_optional_strings(&self.features),
        }
    }
}

/// Handles launch requests with parameters of type `P` for configurations
/// of type `T`.
pub struct GenericLaunchHandler<T: FromLaunchParams, P: ToLaunchParams> {
    pub default_profile: &'static str,
    pub config_marker: PhantomData<T>,
    pub params_marker: PhantomData<P>,
}

impl<T: FromLaunchParams, P: ToLaunchParams> GenericLaunchHandler<T, P> {
    /// A handler that uses `default_profile` where a request names none.
    pub fn new(default_profile: &'static str) -> (r: Self)
        ensures
            r.default_profile@ == default_profile@,
    {
        Self { default_profile, config_marker: PhantomData, params_marker: PhantomData }
    }

    /// The configuration that a request asks for.
    pub fn config_for(&self, typed_params: &P) -> (r: T)
        ensures
            r.settings() == typed_params.spec_to_launch_params(self.default_profile@),
    {
        let params = typed_params.to_launch_params(self.default_profile);
        T::from_params(&params)
    }
}

} // verus!
