//! The names of tool parameters and their spelling on the wire.

use vstd::prelude::*;
use vstd::string::*;
use crate::text::str_equal;

verus! {

/// Shared parameter type of the tools that take no parameters.
#[derive(Clone, Copy, Debug, PartialEq, Eq, Hash, Default, Structural)]
pub struct NoParams {}

/// Marks the types that hold the parameters of a tool.
pub trait ParamStruct: Send + Sync {

}

impl ParamStruct for NoParams {

}

/// The names of all parameters of all tools, in alphabetical order.
#[derive(Clone, Copy, Debug, PartialEq, Eq, Hash, Structural)]
pub enum ParameterName {
    /// Application name.
    AppName,
    /// Component type for mutations.
    Component,
    /// Components of an operation.
    Components,
    /// Data of a query.
    Data,
    /// Duration in milliseconds.
    DurationMs,
    /// Whether something is switched on.
    Enabled,
    /// Several entities of a batch operation.
    Entities,
    /// Entity id.
    Entity,
    /// Example name.
    ExampleName,
    /// Log file name.
    Filename,
    /// Filter of a query.
    Filter,
    /// Keys of a simulated input.
    Keys,
    /// Keyword to filter by.
    Keyword,
    /// Tracing level.
    Level,
    /// Method name of a dynamic call.
    Method,
    /// Age threshold in seconds.
    OlderThanSeconds,
    /// Parameters of a dynamic call.
    Params,
    /// Parent entity of a reparenting.
    Parent,
    /// Path of a field or of a file.
    Path,
    /// Port of a connection.
    Port,
    /// Build profile.
    Profile,
    /// Resource type name.
    Resource,
    /// Whether a query is strict.
    Strict,
    /// Number of lines to tail.
    TailLines,
    /// Types of a discovery.
    Types,
    /// Value of a mutation or an insert.
    Value,
    /// Whether the output is verbose.
    Verbose,
    /// Id of a watch.
    WatchId,
    /// Crates to include in a schema.
    WithCrates,
    /// Crates to leave out of a schema.
    WithoutCrates,
    /// Reflect types to include.
    WithTypes,
    /// Reflect types to leave out.
    WithoutTypes,
}

impl ParameterName {
    /// The spelling of the name: lower case, words joined by underscores.
    pub open spec fn name(self) -> Seq<char> {
        match self {
            ParameterName::AppName => "app_name"@,
            ParameterName::Component => "component"@,
            ParameterName::Components => "components"@,
            ParameterName::Data => "data"@,
            ParameterName::DurationMs => "duration_ms"@,
            ParameterName::Enabled => "enabled"@,
            ParameterName::Entities => "entities"@,
            ParameterName::Entity => "entity"@,
            ParameterName::ExampleName => "example_name"@,
            ParameterName::Filename => "filename"@,
            ParameterName::Filter => "filter"@,
            ParameterName::Keys => "keys"@,
            ParameterName::Keyword => "keyword"@,
            ParameterName::Level => "level"@,
            ParameterName::Method => "method"@,
            ParameterName::OlderThanSeconds => "older_than_seconds"@,
            ParameterName::Params => "params"@,
            ParameterName::Parent => "parent"@,
            ParameterName::Path => "path"@,
            ParameterName::Port => "port"@,
            ParameterName::Profile => "profile"@,
            ParameterName::Resource => "resource"@,
            ParameterName::Strict => "strict"@,
            ParameterName::TailLines => "tail_lines"@,
            ParameterName::Types => "types"@,
            ParameterName::Value => "value"@,
            ParameterName::Verbose => "verbose"@,
            ParameterName::WatchId => "watch_id"@,
            ParameterName::WithCrates => "with_crates"@,
            ParameterName::WithoutCrates => "without_crates"@,
            ParameterName::WithTypes => "with_types"@,
            ParameterName::WithoutTypes => "without_types"@,
        }
    }

    /// The spelling of the name as a string slice.
    pub fn as_str(&self) -> (r: &'static str)
        ensures
            r@ == self.name(),
    {
        match self {
            ParameterName::AppName => "app_name",
            ParameterName::Component => "component",
            ParameterName::Components => "components",
            ParameterName::Data => "data",
            ParameterName::DurationMs => "duration_ms",
            ParameterName::Enabled => "enabled",
            ParameterName::Entities => "entities",
            ParameterName::Entity => "entity",
            ParameterName::ExampleName => "example_name",
            ParameterName::Filename => "filename",
            ParameterName::Filter => "filter",
            ParameterName::Keys => "keys",
            ParameterName::Keyword => "keyword",
            ParameterName::Level => "level",
            ParameterName::Method => "method",
            ParameterName::OlderThanSeconds => "older_than_seconds",
            ParameterName::Params => "params",
            ParameterName::Parent => "parent",
            ParameterName::Path => "path",
            ParameterName::Port => "port",
            ParameterName::Profile => "profile",
            ParameterName::Resource => "resource",
            ParameterName::Strict => "strict",
            ParameterName::TailLines => "tail_lines",
            ParameterName::Types => "types",
            ParameterName::Value => "value",
            ParameterName::Verbose => "verbose",
            ParameterName::WatchId => "watch_id",
            ParameterName::WithCrates => "with_crates",
            ParameterName::WithoutCrates => "without_crates",
            ParameterName::WithTypes => "with_types",
            ParameterName::WithoutTypes => "without_types",
        }
    }

    /// The spelling of the name as an owned string.
    pub fn to_string(&self) -> (r: String)
        ensures
            r@ == self.name(),
    {
        String::from_str(self.as_str())
    }

    /// All names, in alphabetical order of their variants.
    pub fn all() -> (r: Vec<ParameterName>)
        ensures
            r@ == all_parameter_names(),
    {
        let mut names: Vec<ParameterName> = Vec::new();
        names.push(ParameterName::AppName);
        names.push(ParameterName::Component);
        names.push(ParameterName::Components);
        names.push(ParameterName::Data);
        names.push(ParameterName::DurationMs);
        names.push(ParameterName::Enabled);
        names.push(ParameterName::Entities);
        names.push(ParameterName::Entity);
        names.push(ParameterName::ExampleName);
        names.push(ParameterName::Filename);
        names.push(ParameterName::Filter);
        names.push(ParameterName::Keys);
        names.push(ParameterName::Keyword);
        names.push(ParameterName::Level);
        names.push(ParameterName::Method);
        names.push(ParameterName::OlderThanSeconds);
        names.push(ParameterName::Params);
        names.push(ParameterName::Parent);
        names.push(ParameterName::Path);
        names.push(ParameterName::Port);
        names.push(ParameterName::Profile);
        names.push(ParameterName::Resource);
        names.push(ParameterName::Strict);
        names.push(ParameterName::TailLines);
        names.push(ParameterName::Types);
        names.push(ParameterName::Value);
        names.push(ParameterName::Verbose);
        names.push(ParameterName::WatchId);
        names.push(ParameterName::WithCrates);
        names.push(ParameterName::WithoutCrates);
        names.push(ParameterName::WithTypes);
        names.push(ParameterName::WithoutTypes);
        assert(names@ =~= all_parameter_names());
        names
    }

    /// The name with the given spelling, if there is one.
    pub fn from_name(text: &str) -> (r: Option<ParameterName>)
        ensures
            r == named_parameter(text@),
    {
        let names = ParameterName::all();
        let mut i: usize = 0;
        while i < names.len()
            invariant
                i <= names.len(),
                names@ == all_parameter_names(),
                forall|k: int| 0 <= k < i ==> (#[trigger] names@[k]).name() != text@,
            decreases names.len() - i,
        {
            if str_equal(names[i].as_str(), text) {
                proof {
                    let found = choose|p: ParameterName| p.name() == text@;
                    lemma_names_are_distinct(found, names@[i as int]);
                }
                return Some(names[i]);
            }
            i += 1;
        }
        proof {
            if exists|p: ParameterName| p.name() == text@ {
                let p = choose|p: ParameterName| p.name() == text@;
                lemma_all_names_listed(p);
            }
        }
        None
    }
}

/// All names, in alphabetical order of their variants.
pub open spec fn all_parameter_names() -> Seq<ParameterName> {
    seq![
        ParameterName::AppName,
        ParameterName::Component,
        ParameterName::Components,
        ParameterName::Data,
        ParameterName::DurationMs,
        ParameterName::Enabled,
        ParameterName::Entities,
        ParameterName::Entity,
        ParameterName::ExampleName,
        ParameterName::Filename,
        ParameterName::Filter,
        ParameterName::Keys,
        ParameterName::Keyword,
        ParameterName::Level,
        ParameterName::Method,
        ParameterName::OlderThanSeconds,
        ParameterName::Params,
        ParameterName::Parent,
        ParameterName::Path,
        ParameterName::Port,
        ParameterName::Profile,
        ParameterName::Resource,
        ParameterName::Strict,
        ParameterName::TailLines,
        ParameterName::Types,
        ParameterName::Value,
        ParameterName::Verbose,
        ParameterName::WatchId,
        ParameterName::WithCrates,
        ParameterName::WithoutCrates,
        ParameterName::WithTypes,
        ParameterName::WithoutTypes,
    ]
}

/// The name with the given spelling, or nothing where no name is spelled
/// so.
pub open spec fn named_parameter(text: Seq<char>) -> Option<ParameterName> {
    if exists|p: ParameterName| p.name() == text {
        Some(choose|p: ParameterName| p.name() == text)
    } else {
        None
    }
}

/// Every name is in the list of all names.
pub proof fn lemma_all_names_listed(p: ParameterName)
    ensures
        exists|k: int|
            0 <= k < all_parameter_names().len() && #[trigger] all_parameter_names()[k] == p,
{
    let all = all_parameter_names();
    match p {
        ParameterName::AppName => {
            assert(all[0] == p);
        },
        ParameterName::Component => {
            assert(all[1] == p);
        },
        ParameterName::Components => {
            assert(all[2] == p);
        },
        ParameterName::Data => {
            assert(all[3] == p);
        },
        ParameterName::DurationMs => {
            assert(all[4] == p);
        },
        ParameterName::Enabled => {
            assert(all[5] == p);
        },
        ParameterName::Entities => {
            assert(all[6] == p);
        },
        ParameterName::Entity => {
            assert(all[7] == p);
        },
        ParameterName::ExampleName => {
            assert(all[8] == p);
        },
        ParameterName::Filename => {
            assert(all[9] == p);
        },
        ParameterName::Filter => {
            assert(all[10] == p);
        },
        ParameterName::Keys => {
            assert(all[11] == p);
        },
        ParameterName::Keyword => {
            assert(all[12] == p);
        },
        ParameterName::Level => {
            assert(all[13] == p);
        },
        ParameterName::Method => {
            assert(all[14] == p);
        },
        ParameterName::OlderThanSeconds => {
            assert(all[15] == p);
        },
        ParameterName::Params => {
            assert(all[16] == p);
        },
        ParameterName::Parent => {
            assert(all[17] == p);
        },
        ParameterName::Path => {
            assert(all[18] == p);
        },
        ParameterName::Port => {
            assert(all[19] == p);
        },
        ParameterName::Profile => {
            assert(all[20] == p);
        },
        ParameterName::Resource => {
            assert(all[21] == p);
        },
        ParameterName::Strict => {
            assert(all[22] == p);
        },
        ParameterName::TailLines => {
            assert(all[23] == p);
        },
        ParameterName::Types => {
            assert(all[24] == p);
        },
        ParameterName::Value => {
            assert(all[25] == p);
        },
        ParameterName::Verbose => {
            assert(all[26] == p);
        },
        ParameterName::WatchId => {
            assert(all[27] == p);
        },
        ParameterName::WithCrates => {
            assert(all[28] == p);
        },
        ParameterName::WithoutCrates => {
            assert(all[29] == p);
        },
        ParameterName::WithTypes => {
            assert(all[30] == p);
        },
        ParameterName::WithoutTypes => {
            assert(all[31] == p);
        },
    }
}

/// What tells the spellings apart: the length, the first character and the
/// fourth.
pub open spec fn spelling_mark(text: Seq<char>) -> (nat, char, char) {
    (text.len(), text[0], text[3])
}

/// The mark of the spelling of each name.
pub open spec fn name_mark(p: ParameterName) -> (nat, char, char) {
    match p {
        ParameterName::AppName => (8, 'a', '_'),
        ParameterName::Component => (9, 'c', 'p'),
        ParameterName::Components => (10, 'c', 'p'),
        ParameterName::Data => (4, 'd', 'a'),
        ParameterName::DurationMs => (11, 'd', 'a'),
        ParameterName::Enabled => (7, 'e', 'b'),
        ParameterName::Entities => (8, 'e', 'i'),
        ParameterName::Entity => (6, 'e', 'i'),
        ParameterName::ExampleName => (12, 'e', 'm'),
        ParameterName::Filename => (8, 'f', 'e'),
        ParameterName::Filter => (6, 'f', 't'),
        ParameterName::Keys => (4, 'k', 's'),
        ParameterName::Keyword => (7, 'k', 'w'),
        ParameterName::Level => (5, 'l', 'e'),
        ParameterName::Method => (6, 'm', 'h'),
        ParameterName::OlderThanSeconds => (18, 'o', 'e'),
        ParameterName::Params => (6, 'p', 'a'),
        ParameterName::Parent => (6, 'p', 'e'),
        ParameterName::Path => (4, 'p', 'h'),
        ParameterName::Port => (4, 'p', 't'),
        ParameterName::Profile => (7, 'p', 'f'),
        ParameterName::Resource => (8, 'r', 'o'),
        ParameterName::Strict => (6, 's', 'i'),
        ParameterName::TailLines => (10, 't', 'l'),
        ParameterName::Types => (5, 't', 'e'),
        ParameterName::Value => (5, 'v', 'u'),
        ParameterName::Verbose => (7, 'v', 'b'),
        ParameterName::WatchId => (8, 'w', 'c'),
        ParameterName::WithCrates => (11, 'w', 'h'),
        ParameterName::WithoutCrates => (14, 'w', 'h'),
        ParameterName::WithTypes => (10, 'w', 'h'),
        ParameterName::WithoutTypes => (13, 'w', 'h'),
    }
}

/// The spelling of each name has the mark listed for the name.
pub proof fn lemma_name_mark(p: ParameterName)
    ensures
        spelling_mark(p.name()) == name_mark(p),
{
    match p {
        ParameterName::AppName => {
            reveal_strlit("app_name");
        },
        ParameterName::Component => {
            reveal_strlit("component");
        },
        ParameterName::Components => {
            reveal_strlit("components");
        },
        ParameterName::Data => {
            reveal_strlit("data");
        },
        ParameterName::DurationMs => {
            reveal_strlit("duration_ms");
        },
        ParameterName::Enabled => {
            reveal_strlit("enabled");
        },
        ParameterName::Entities => {
            reveal_strlit("entities");
        },
        ParameterName::Entity => {
            reveal_strlit("entity");
        },
        ParameterName::ExampleName => {
            reveal_strlit("example_name");
        },
        ParameterName::Filename => {
            reveal_strlit("filename");
        },
        ParameterName::Filter => {
            reveal_strlit("filter");
        },
        ParameterName::Keys => {
            reveal_strlit("keys");
        },
        ParameterName::Keyword => {
            reveal_strlit("keyword");
        },
        ParameterName::Level => {
            reveal_strlit("level");
        },
        ParameterName::Method => {
            reveal_strlit("method");
        },
        ParameterName::OlderThanSeconds => {
            reveal_strlit("older_than_seconds");
        },
        ParameterName::Params => {
            reveal_strlit("params");
        },
        ParameterName::Parent => {
            reveal_strlit("parent");
        },
        ParameterName::Path => {
            reveal_strlit("path");
        },
        ParameterName::Port => {
            reveal_strlit("port");
        },
        ParameterName::Profile => {
            reveal_strlit("profile");
        },
        ParameterName::Resource => {
            reveal_strlit("resource");
        },
        ParameterName::Strict => {
            reveal_strlit("strict");
        },
        ParameterName::TailLines => {
            reveal_strlit("tail_lines");
        },
        ParameterName::Types => {
            reveal_strlit("types");
        },
        ParameterName::Value => {
            reveal_strlit("value");
        },
        ParameterName::Verbose => {
            reveal_strlit("verbose");
        },
        ParameterName::WatchId => {
            reveal_strlit("watch_id");
        },
        ParameterName::WithCrates => {
            reveal_strlit("with_crates");
        },
        ParameterName::WithoutCrates => {
            reveal_strlit("without_crates");
        },
        ParameterName::WithTypes => {
            reveal_strlit("with_types");
        },
        ParameterName::WithoutTypes => {
            reveal_strlit("without_types");
        },
    }
}

/// Different names are spelled differently.
pub proof fn lemma_names_are_distinct(p: ParameterName, q: ParameterName)
    requires
        p.name() == q.name(),
    ensures
        p == q,
{
    lemma_name_mark(p);
    lemma_name_mark(q);
}

/// The spelling of a name leads back to the name.
pub proof fn lemma_name_round_trip(p: ParameterName)
    ensures
        named_parameter(p.name()) == Some(p),
{
    let found = choose|q: ParameterName| q.name() == p.name();
    lemma_names_are_distinct(found, p);
}

} // verus!
