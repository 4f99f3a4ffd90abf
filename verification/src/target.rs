//! Build targets: what the catalog scanner found on disk, as plain values.

use vstd::prelude::*;
use vstd::string::*;
use crate::text::{clone_optional_string, list_contains};

verus! {

/// The kind of a launchable target.
#[derive(Clone, Copy, Debug, PartialEq, Eq, Hash, Structural)]
pub enum TargetType {
    /// A binary of a package.
    App,
    /// A runnable example of a package.
    Example,
}

impl TargetType {
    /// The word used for the kind in messages and in log file names.
    pub open spec fn label(self) -> Seq<char> {
        match self {
            TargetType::App => "app"@,
            TargetType::Example => "example"@,
        }
    }

    /// The flag by which the build tool selects a target of this kind.
    pub open spec fn cargo_flag(self) -> Seq<char> {
        match self {
            TargetType::App => "--bin"@,
            TargetType::Example => "--example"@,
        }
    }

    /// The kind of a target that the build tool lists with the given
    /// kinds: an application where `bin` is among them, else an example
    /// where `example` is among them, else nothing to launch.
    pub open spec fn of_cargo_kinds(kinds: Seq<Seq<char>>) -> Option<TargetType> {
        if kinds.contains("bin"@) {
            Some(TargetType::App)
        } else if kinds.contains("example"@) {
            Some(TargetType::Example)
        } else {
            None
        }
    }

    /// Tells the kind of a target from the kinds that the build tool lists
    /// for it.
    pub fn from_cargo_kinds(kinds: &Vec<String>) -> (r: Option<TargetType>)
        ensures
            r == TargetType::of_cargo_kinds(kinds.deep_view()),
    {
        if list_contains(kinds, "bin") {
            Some(TargetType::App)
        } else if list_contains(kinds, "example") {
            Some(TargetType::Example)
        } else {
            None
        }
    }

    /// The label as a string slice.
    pub fn as_str(&self) -> (r: &'static str)
        ensures
            r@ == self.label(),
    {
        match self {
            TargetType::App => "app",
            TargetType::Example => "example",
        }
    }

    /// The selecting flag as a string slice.
    pub fn cargo_flag_str(&self) -> (r: &'static str)
        ensures
            r@ == self.cargo_flag(),
    {
        match self {
            TargetType::App => "--bin",
            TargetType::Example => "--example",
        }
    }
}

/// A discovered build artifact. Paths are kept as text; a scan fills the
/// directory of the manifest and the name of the workspace directory where
/// the paths have them.
#[derive(Debug, PartialEq, Eq)]
pub struct BevyTarget {
    /// Name of the binary or example.
    pub name: String,
    /// Application or example.
    pub target_type: TargetType,
    /// Package that declares the target.
    pub package_name: String,
    /// Root directory of the workspace.
    pub workspace_root: String,
    /// Last component of the workspace root, if it has one.
    pub workspace_name: Option<String>,
    /// Location of the build-definition file.
    pub manifest_path: String,
    /// Directory that holds the build-definition file, if it has a parent.
    pub manifest_dir: Option<String>,
    /// Path shown to tell same-named targets apart.
    pub relative_path: String,
}

/// The mathematical content of a target.
pub struct BevyTargetView {
    pub name: Seq<char>,
    pub target_type: TargetType,
    pub package_name: Seq<char>,
    pub workspace_root: Seq<char>,
    pub workspace_name: Option<Seq<char>>,
    pub manifest_path: Seq<char>,
    pub manifest_dir: Option<Seq<char>>,
    pub relative_path: Seq<char>,
}

impl View for BevyTarget {
    type V = BevyTargetView;

    open spec fn view(&self) -> BevyTargetView {
        BevyTargetView {
            name: self.name@,
            target_type: self.target_type,
            package_name: self.package_name@,
            workspace_root: self.workspace_root@,
            workspace_name: self.workspace_name.deep_view(),
            manifest_path: self.manifest_path@,
            manifest_dir: self.manifest_dir.deep_view(),
            relative_path: self.relative_path@,
        }
    }
}

impl DeepView for BevyTarget {
    type V = BevyTargetView;

    open spec fn deep_view(&self) -> BevyTargetView {
        self@
    }
}

impl BevyTargetView {
    /// Where the build tool leaves the binary of this target for a profile:
    /// `<workspace root>/target/<profile>/<name>`.
    pub open spec fn binary_path(self, profile: Seq<char>) -> Seq<char> {
        self.workspace_root + "/target/"@ + profile + "/"@ + self.name
    }
}

impl Clone for BevyTarget {
    fn clone(&self) -> (r: Self)
        ensures
            r == *self,
    {
        BevyTarget {
            name: self.name.clone(),
            target_type: self.target_type,
            package_name: self.package_name.clone(),
            workspace_root: self.workspace_root.clone(),
            workspace_name: clone_optional_string(&self.workspace_name),
            manifest_path: self.manifest_path.clone(),
            manifest_dir: clone_optional_string(&self.manifest_dir),
            relative_path: self.relative_path.clone(),
        }
    }
}

impl BevyTarget {
    /// The path of the binary for a profile.
    pub fn get_binary_path(&self, profile: &str) -> (r: String)
        ensures
            r@ == self@.binary_path(profile@),
    {
        let mut out = self.workspace_root.clone();
        out.append("/target/");
        out.append(profile);
        out.append("/");
        out.append(self.name.as_str());
        out
    }
}

} // verus!
