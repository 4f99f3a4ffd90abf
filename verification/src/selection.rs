//! The selection file of an application: where it is looked for and what a
//! request makes of its absence or of a selection that is switched off.

use vstd::prelude::*;
use vstd::string::*;
use crate::error::{Error, ErrorView};

verus! {

/// Where the selection file is looked for when nothing else is said.
pub const DEFAULT_SELECTION_PATH: &'static str = "target/ai-selection/selection.json";

/// Name of the environment variable that overrides the default path.
pub const ENV_SELECTION_PATH: &'static str = "BRP_GRAB_SELECTION_PATH";

/// The default of `fail_if_absent`.
pub fn default_true() -> (r: bool)
    ensures
        r,
{
    true
}

/// The parameters of a request for the current selection.
#[derive(Clone, Debug, PartialEq, Eq)]
pub struct GrabSelectionParams {
    /// Path of the selection file, if not the default.
    pub path: Option<String>,
    /// Whether a selection that is switched off is an error.
    pub require_enabled: bool,
    /// Whether a missing file is an error rather than an empty selection.
    pub fail_if_absent: bool,
}

impl Default for GrabSelectionParams {
    fn default() -> (r: Self)
        ensures
            r.path is None,
            !r.require_enabled,
            r.fail_if_absent,
    {
        GrabSelectionParams { path: None, require_enabled: false, fail_if_absent: default_true() }
    }
}

impl crate::params::ParamStruct for GrabSelectionParams {

}

/// The tool that hands out the current selection.
#[derive(Clone, Copy, Debug, PartialEq, Eq, Hash, Structural)]
pub struct GrabSelection;

/// The selected entity.
#[derive(Clone, Debug, PartialEq, Eq)]
pub struct EntitySummary {
    pub id: u32,
    pub name: Option<String>,
}

/// The path of the selection file: the one asked for; else the one from the
/// environment, where that is not empty; else the default.
pub open spec fn selection_path(arg: Option<Seq<char>>, env_value: Option<Seq<char>>) -> Seq<
    char,
> {
    match arg {
        Some(p) => p,
        None => match env_value {
            Some(e) => if e.len() > 0 {
                e
            } else {
                DEFAULT_SELECTION_PATH@
            },
            None => DEFAULT_SELECTION_PATH@,
        },
    }
}

/// Settles the path of the selection file, given the value of the path
/// variable in the environment.
pub fn resolve_path(arg: Option<&str>, env_value: Option<&str>) -> (r: String)
    ensures
        r@ == selection_path(arg.deep_view(), env_value.deep_view()),
{
    if let Some(p) = arg {
        return String::from_str(p);
    }
    if let Some(env_path) = env_value {
        if !env_path.is_empty() {
            return String::from_str(env_path);
        }
    }
    String::from_str(DEFAULT_SELECTION_PATH)
}

/// What was found at the path of the selection file.
#[derive(Clone, Copy, Debug, PartialEq, Eq, Hash, Structural)]
pub enum SelectionFile {
    /// No file.
    Absent,
    /// A selection file, with its switch.
    Present { enabled: bool },
}

/// What a request gives for what was found.
#[derive(Clone, Copy, Debug, PartialEq, Eq, Hash, Structural)]
pub enum SelectionAnswer {
    /// An empty selection that is switched off.
    Empty,
    /// The selection of the file, with its switch.
    FromFile { enabled: bool },
}

/// The answer to a request, or the error where the request makes one of
/// what was found.
pub open spec fn selection_answer(
    require_enabled: bool,
    fail_if_absent: bool,
    path: Seq<char>,
    found: SelectionFile,
) -> Result<SelectionAnswer, ErrorView> {
    match found {
        SelectionFile::Absent => if fail_if_absent {
            Err(ErrorView::FileOrPathNotFound("grab selection file at "@ + path))
        } else {
            Ok(SelectionAnswer::Empty)
        },
        SelectionFile::Present { enabled } => if require_enabled && !enabled {
            Err(
                ErrorView::ToolCall {
                    message: "Invalid enabled: selection capture is disabled"@,
                    details: None,
                },
            )
        } else {
            Ok(SelectionAnswer::FromFile { enabled })
        },
    }
}

/// Decides the answer to a request from what was found at the path.
pub fn answer_selection(params: &GrabSelectionParams, path: &str, found: SelectionFile) -> (r:
    Result<SelectionAnswer, Error>)
    ensures
        match r {
            Ok(answer) => selection_answer(
                params.require_enabled,
                params.fail_if_absent,
                path@,
                found,
            ) == Ok::<SelectionAnswer, ErrorView>(answer),
            Err(e) => selection_answer(params.require_enabled, params.fail_if_absent, path@, found)
                == Err::<SelectionAnswer, ErrorView>(e@),
        },
{
    match found {
        SelectionFile::Absent => {
            if params.fail_if_absent {
                let mut what = String::from_str("grab selection file at ");
                what.append(path);
                return Err(Error::FileOrPathNotFound(what));
            }
            Ok(SelectionAnswer::Empty)
        },
        SelectionFile::Present { enabled } => {
            if params.require_enabled && !enabled {
                return Err(
                    Error::tool_call_failed(
                        String::from_str("Invalid enabled: selection capture is disabled"),
                    ),
                );
            }
            Ok(SelectionAnswer::FromFile { enabled })
        },
    }
}

} // verus!
