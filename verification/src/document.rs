//! JSON documents as trees of plain values: what the schema logic reads
//! and writes, and the model of what a parsed JSON text holds.

use vstd::prelude::*;
use vstd::string::*;
use crate::text::{str_equal, strip_prefix, without_prefix};

verus! {

/// A JSON document. An object is a list of entries; a name is looked up from
/// the front, so of two entries with one name the first counts.
#[derive(Debug, PartialEq, Eq)]
pub enum Json {
    Null,
    Bool(bool),
    /// A number, as it is written.
    Number(String),
    Text(String),
    Array(Vec<Json>),
    Object(Vec<(String, Json)>),
}

/// The mathematical content of a [`Json`] document.
pub enum JsonView {
    Null,
    Bool(bool),
    Number(Seq<char>),
    Text(Seq<char>),
    Array(Seq<JsonView>),
    Object(Seq<(Seq<char>, JsonView)>),
}

/// The content of a document.
pub open spec fn tree_of(json: Json) -> JsonView
    decreases json,
    via tree_of_decreases
{
    match json {
        Json::Null => JsonView::Null,
        Json::Bool(b) => JsonView::Bool(b),
        Json::Number(n) => JsonView::Number(n@),
        Json::Text(s) => JsonView::Text(s@),
        Json::Array(items) => JsonView::Array(trees_of(items@)),
        Json::Object(entries) => JsonView::Object(entry_trees_of(entries@)),
    }
}

#[via_fn]
proof fn tree_of_decreases(json: Json) {
    broadcast use vstd::std_specs::vec::axiom_vec_decreases_to_view;

    match json {
        Json::Array(items) => {
            assert(decreases_to!(json => items));
            assert(decreases_to!(items => items@));
        },
        Json::Object(entries) => {
            assert(decreases_to!(json => entries));
            assert(decreases_to!(entries => entries@));
        },
        _ => {},
    }
}

/// The contents of a list of documents.
pub open spec fn trees_of(items: Seq<Json>) -> Seq<JsonView>
    decreases items,
    via trees_of_decreases
{
    if items.len() == 0 {
        Seq::empty()
    } else {
        trees_of(items.drop_last()).push(tree_of(items.last()))
    }
}

#[via_fn]
proof fn trees_of_decreases(items: Seq<Json>) {
    broadcast use vstd::seq::axiom_seq_index_decreases, vstd::seq::axiom_seq_subrange_decreases;

    if items.len() > 0 {
        assert(decreases_to!(items => items[items.len() - 1]));
        assert(items.drop_last() == items.subrange(0, items.len() - 1));
        assert(decreases_to!(items => items.drop_last()));
    }
}

/// The contents of the entries of an object.
pub open spec fn entry_trees_of(entries: Seq<(String, Json)>) -> Seq<(Seq<char>, JsonView)>
    decreases entries,
    via entry_trees_of_decreases
{
    if entries.len() == 0 {
        Seq::empty()
    } else {
        entry_trees_of(entries.drop_last()).push((entries.last().0@, tree_of(entries.last().1)))
    }
}

#[via_fn]
proof fn entry_trees_of_decreases(entries: Seq<(String, Json)>) {
    broadcast use vstd::seq::axiom_seq_index_decreases, vstd::seq::axiom_seq_subrange_decreases;

    if entries.len() > 0 {
        assert(decreases_to!(entries => entries[entries.len() - 1]));
        assert(decreases_to!(entries[entries.len() - 1] => entries[entries.len() - 1].1));
        assert(entries.drop_last() == entries.subrange(0, entries.len() - 1));
        assert(decreases_to!(entries => entries.drop_last()));
    }
}

impl View for Json {
    type V = JsonView;

    open spec fn view(&self) -> JsonView {
        tree_of(*self)
    }
}

impl DeepView for Json {
    type V = JsonView;

    open spec fn deep_view(&self) -> JsonView {
        tree_of(*self)
    }
}

/// The contents of a list of documents are the contents of its documents,
/// one by one.
pub proof fn lemma_trees_of(items: Seq<Json>)
    ensures
        trees_of(items).len() == items.len(),
        forall|i: int| 0 <= i < items.len() ==> #[trigger] trees_of(items)[i] == tree_of(items[i]),
    decreases items.len(),
{
    if items.len() > 0 {
        lemma_trees_of(items.drop_last());
        assert forall|i: int| 0 <= i < items.len() implies #[trigger] trees_of(items)[i]
            == tree_of(items[i]) by {
            if i < items.len() - 1 {
                assert(items.drop_last()[i] == items[i]);
            }
        }
    }
}

/// The contents of the entries of an object are the contents of its
/// entries, one by one.
pub proof fn lemma_entry_trees_of(entries: Seq<(String, Json)>)
    ensures
        entry_trees_of(entries).len() == entries.len(),
        forall|i: int|
            0 <= i < entries.len() ==> #[trigger] entry_trees_of(entries)[i] == (
                entries[i].0@,
                tree_of(entries[i].1),
            ),
    decreases entries.len(),
{
    if entries.len() > 0 {
        lemma_entry_trees_of(entries.drop_last());
        assert forall|i: int| 0 <= i < entries.len() implies #[trigger] entry_trees_of(entries)[i]
            == (entries[i].0@, tree_of(entries[i].1)) by {
            if i < entries.len() - 1 {
                assert(entries.drop_last()[i] == entries[i]);
            }
        }
    }
}

/// The value of the first entry of the given name.
pub open spec fn member(entries: Seq<(Seq<char>, JsonView)>, key: Seq<char>) -> Option<JsonView>
    decreases entries.len(),
{
    if entries.len() == 0 {
        None
    } else if entries[0].0 == key {
        Some(entries[0].1)
    } else {
        member(entries.drop_first(), key)
    }
}

/// The position of the first entry of the given name, or the number of
/// entries where none has it.
pub open spec fn member_index(entries: Seq<(Seq<char>, JsonView)>, key: Seq<char>) -> int
    decreases entries.len(),
{
    if entries.len() == 0 {
        0
    } else if entries[0].0 == key {
        0
    } else {
        1 + member_index(entries.drop_first(), key)
    }
}

/// The entries of an object after a value is put under a name: the value
/// takes the place of the first entry of that name, or a new entry is added
/// at the end.
pub open spec fn with_member(
    entries: Seq<(Seq<char>, JsonView)>,
    key: Seq<char>,
    value: JsonView,
) -> Seq<(Seq<char>, JsonView)> {
    let at = member_index(entries, key);
    if 0 <= at < entries.len() {
        entries.update(at, (key, value))
    } else {
        entries.push((key, value))
    }
}

/// The first entry of a name is where no earlier entry has the name.
pub proof fn lemma_member_index(entries: Seq<(Seq<char>, JsonView)>, key: Seq<char>, at: int)
    requires
        0 <= at <= entries.len(),
        forall|j: int| 0 <= j < at ==> (#[trigger] entries[j]).0 != key,
        at < entries.len() ==> entries[at].0 == key,
    ensures
        member_index(entries, key) == at,
        member(entries, key) == if at < entries.len() {
            Some(entries[at].1)
        } else {
            None
        },
    decreases entries.len(),
{
    if entries.len() > 0 && at > 0 {
        let rest = entries.drop_first();
        assert(entries[0].0 != key);
        assert forall|j: int| 0 <= j < at - 1 implies (#[trigger] rest[j]).0 != key by {
            assert(rest[j] == entries[j + 1]);
        }
        lemma_member_index(rest, key, at - 1);
    }
}

/// Where the first entry of a name is, there is an entry of the name, and
/// before it there is none.
pub proof fn lemma_member_index_found(entries: Seq<(Seq<char>, JsonView)>, key: Seq<char>)
    ensures
        0 <= member_index(entries, key) <= entries.len(),
        forall|j: int|
            0 <= j < member_index(entries, key) ==> (#[trigger] entries[j]).0 != key,
        member_index(entries, key) < entries.len() ==> entries[member_index(entries, key)].0
            == key,
    decreases entries.len(),
{
    if entries.len() > 0 && entries[0].0 != key {
        let rest = entries.drop_first();
        lemma_member_index_found(rest, key);
        assert forall|j: int| 0 <= j < member_index(entries, key) implies (
        #[trigger] entries[j]).0 != key by {
            if j > 0 {
                assert(rest[j - 1] == entries[j]);
            }
        }
        if member_index(entries, key) < entries.len() {
            assert(rest[member_index(rest, key)] == entries[member_index(entries, key)]);
        }
    }
}

/// After a value is put under a name, the name gives that value and every
/// other name gives what it gave before.
pub proof fn lemma_with_member(
    entries: Seq<(Seq<char>, JsonView)>,
    key: Seq<char>,
    value: JsonView,
    other: Seq<char>,
)
    ensures
        member(with_member(entries, key, value), other) == if other == key {
            Some(value)
        } else {
            member(entries, other)
        },
{
    let after = with_member(entries, key, value);
    let at = member_index(entries, key);
    lemma_member_index_found(entries, key);
    if other == key {
        assert forall|j: int| 0 <= j < at implies (#[trigger] after[j]).0 != key by {
            assert(after[j] == entries[j]);
        }
        lemma_member_index(after, key, at);
    } else {
        let there = member_index(entries, other);
        lemma_member_index_found(entries, other);
        assert forall|j: int| 0 <= j < there implies (#[trigger] after[j]).0 != other by {
            if j == at {
            } else {
                assert(after[j] == entries[j]);
            }
        }
        if there < entries.len() {
            assert(there != at);
            assert(after[there] == entries[there]);
            lemma_member_index(after, other, there);
            lemma_member_index(entries, other, there);
        } else {
            if at < entries.len() {
                lemma_member_index(after, other, there);
            } else {
                lemma_member_index(after, other, there + 1);
            }
            lemma_member_index(entries, other, there);
        }
    }
}

impl JsonView {
    /// The member of an object under a name; nothing for a document that is
    /// no object or has no such member.
    pub open spec fn get(self, key: Seq<char>) -> Option<JsonView> {
        match self {
            JsonView::Object(entries) => member(entries, key),
            _ => None,
        }
    }

    /// The characters of a string; nothing for any other document.
    pub open spec fn as_str(self) -> Option<Seq<char>> {
        match self {
            JsonView::Text(s) => Some(s),
            _ => None,
        }
    }

    /// The value of a boolean; nothing for any other document.
    pub open spec fn as_bool(self) -> Option<bool> {
        match self {
            JsonView::Bool(b) => Some(b),
            _ => None,
        }
    }

    /// The boolean under a name, where there is one.
    pub open spec fn get_bool(self, key: Seq<char>) -> Option<bool> {
        match self.get(key) {
            Some(value) => value.as_bool(),
            None => None,
        }
    }

    /// The string under a name, where there is one.
    pub open spec fn get_str(self, key: Seq<char>) -> Option<Seq<char>> {
        match self.get(key) {
            Some(value) => value.as_str(),
            None => None,
        }
    }

    /// The items of an array; nothing for any other document.
    pub open spec fn as_array(self) -> Option<Seq<JsonView>> {
        match self {
            JsonView::Array(items) => Some(items),
            _ => None,
        }
    }

    /// The array under a name, where there is one.
    pub open spec fn get_array(self, key: Seq<char>) -> Option<Seq<JsonView>> {
        match self.get(key) {
            Some(value) => value.as_array(),
            None => None,
        }
    }

    /// The entries of an object; nothing for any other document.
    pub open spec fn as_object(self) -> Option<Seq<(Seq<char>, JsonView)>> {
        match self {
            JsonView::Object(entries) => Some(entries),
            _ => None,
        }
    }

    /// Whether the document is an array or an object.
    pub open spec fn is_complex(self) -> bool {
        self is Array || self is Object
    }

    /// The document after a value is put under a name; a document that is
    /// no object stays as it is.
    pub open spec fn insert(self, key: Seq<char>, value: JsonView) -> JsonView {
        match self {
            JsonView::Object(entries) => JsonView::Object(with_member(entries, key, value)),
            _ => self,
        }
    }

    /// The name of the type that a field refers to: what follows the prefix
    /// of definitions in the reference under `type`.
    pub open spec fn field_type(self) -> Option<Seq<char>> {
        match self.get("type"@) {
            Some(t) => match t.get_str("$ref"@) {
                Some(reference) => without_prefix(reference, SCHEMA_REF_PREFIX@),
                None => None,
            },
            None => None,
        }
    }
}

/// How a reference to a definition of the schema begins.
pub const SCHEMA_REF_PREFIX: &'static str = "#/$defs/";

impl Json {
    /// A string document.
    pub fn text(value: &str) -> (r: Json)
        ensures
            r@ == JsonView::Text(value@),
    {
        Json::Text(String::from_str(value))
    }

    /// An object without entries.
    pub fn object() -> (r: Json)
        ensures
            r@ == JsonView::Object(Seq::empty()),
    {
        Json::Object(Vec::new())
    }

    /// The member of an object under a name. A member is a part of the
    /// document it is found in.
    pub fn get_field(&self, field: &str) -> (r: Option<&Json>)
        ensures
            match r {
                Some(value) => self@.get(field@) == Some(value@) && decreases_to!(*self => *value),
                None => self@.get(field@) is None,
            },
    {
        match self {
            Json::Object(entries) => {
                let ghost trees = entry_trees_of(entries@);
                let mut i: usize = 0;
                proof {
                    lemma_entry_trees_of(entries@);
                }
                while i < entries.len()
                    invariant
                        i <= entries.len(),
                        *self == Json::Object(*entries),
                        trees == entry_trees_of(entries@),
                        trees.len() == entries.len(),
                        forall|k: int|
                            0 <= k < entries.len() ==> #[trigger] trees[k] == (
                                entries@[k].0@,
                                tree_of(entries@[k].1),
                            ),
                        forall|k: int| 0 <= k < i ==> (#[trigger] trees[k]).0 != field@,
                    decreases entries.len() - i,
                {
                    if str_equal(entries[i].0.as_str(), field) {
                        let found = &entries[i].1;
                        proof {
                            lemma_member_index(trees, field@, i as int);
                            broadcast use vstd::std_specs::vec::axiom_vec_index_decreases;

                            assert(decreases_to!(*self => *entries));
                            assert(decreases_to!(*entries => entries@[i as int]));
                            assert(decreases_to!(entries@[i as int] => entries@[i as int].1));
                        }
                        return Some(found);
                    }
                    i += 1;
                }
                proof {
                    lemma_member_index(trees, field@, entries.len() as int);
                }
                None
            },
            _ => None,
        }
    }

    /// The characters of a string.
    pub fn as_str(&self) -> (r: Option<&str>)
        ensures
            r.deep_view() == self@.as_str(),
    {
        match self {
            Json::Text(s) => Some(s.as_str()),
            _ => None,
        }
    }

    /// The value of a boolean.
    pub fn as_bool(&self) -> (r: Option<bool>)
        ensures
            r == self@.as_bool(),
    {
        match self {
            Json::Bool(b) => Some(*b),
            _ => None,
        }
    }

    /// The string under a name.
    pub fn get_field_str(&self, field: &str) -> (r: Option<&str>)
        ensures
            r.deep_view() == self@.get_str(field@),
    {
        match self.get_field(field) {
            Some(value) => value.as_str(),
            None => None,
        }
    }

    /// The string under a name, as an owned string.
    pub fn get_field_string(&self, field: &str) -> (r: Option<String>)
        ensures
            r.deep_view() == self@.get_str(field@),
    {
        match self.get_field_str(field) {
            Some(s) => Some(String::from_str(s)),
            None => None,
        }
    }

    /// The items of an array. The items are a part of the document.
    pub fn as_array(&self) -> (r: Option<&Vec<Json>>)
        ensures
            match r {
                Some(items) => self@.as_array() == Some(trees_of(items@)) && decreases_to!(
                    *self => *items
                ),
                None => self@.as_array() is None,
            },
    {
        match self {
            Json::Array(items) => Some(items),
            _ => None,
        }
    }

    /// The array under a name.
    pub fn get_field_array(&self, field: &str) -> (r: Option<&Vec<Json>>)
        ensures
            match r {
                Some(items) => self@.get_array(field@) == Some(trees_of(items@)) && decreases_to!(
                    *self => *items
                ),
                None => self@.get_array(field@) is None,
            },
    {
        match self.get_field(field) {
            Some(value) => value.as_array(),
            None => None,
        }
    }

    /// The entries of an object.
    pub fn as_object(&self) -> (r: Option<&Vec<(String, Json)>>)
        ensures
            match r {
                Some(entries) => self@.as_object() == Some(entry_trees_of(entries@))
                    && *self == Json::Object(*entries),
                None => self@.as_object() is None,
            },
    {
        match self {
            Json::Object(entries) => Some(entries),
            _ => None,
        }
    }

    /// The object under `properties`, where there is one.
    pub fn get_properties(&self) -> (r: Option<&Vec<(String, Json)>>)
        ensures
            match r {
                Some(entries) => self@.get("properties"@) == Some(
                    JsonView::Object(entry_trees_of(entries@)),
                ),
                None => !(self@.get("properties"@) matches Some(JsonView::Object(_))),
            },
    {
        match self.get_field("properties") {
            Some(value) => value.as_object(),
            None => None,
        }
    }

    /// Whether the document is an array or an object.
    pub fn is_complex_type(&self) -> (r: bool)
        ensures
            r == self@.is_complex(),
    {
        match self {
            Json::Array(_) => true,
            Json::Object(_) => true,
            _ => false,
        }
    }

    /// Puts a value under a name, where the document is an object.
    pub fn insert_field(&mut self, field: &str, value: Json)
        ensures
            final(self)@ == old(self)@.insert(field@, value@),
    {
        match self {
            Json::Object(entries) => {
                insert_entry(entries, field, value);
            },
            _ => {},
        }
    }

    /// The name of the type that a field refers to.
    pub fn extract_field_type(&self) -> (r: Option<String>)
        ensures
            r.deep_view() == self@.field_type(),
    {
        let type_value = match self.get_field("type") {
            Some(t) => t,
            None => {
                return None;
            },
        };
        match type_value.get_field_str("$ref") {
            Some(reference) => strip_prefix(reference, SCHEMA_REF_PREFIX),
            None => None,
        }
    }

    /// The name of the type that the field under a name refers to.
    pub fn get_type(&self, field: &str) -> (r: Option<String>)
        ensures
            r.deep_view() == match self@.get(field@) {
                Some(value) => value.field_type(),
                None => None,
            },
    {
        match self.get_field(field) {
            Some(value) => value.extract_field_type(),
            None => None,
        }
    }
}

/// Puts a value under a name in the entries of an object.
pub fn insert_entry(entries: &mut Vec<(String, Json)>, field: &str, value: Json)
    ensures
        entry_trees_of(final(entries)@) == with_member(
            entry_trees_of(old(entries)@),
            field@,
            value@,
        ),
{
    let ghost before = entry_trees_of(entries@);
    proof {
        lemma_entry_trees_of(entries@);
    }
    let mut i: usize = 0;
    while i < entries.len()
        invariant
            i <= entries.len(),
            entries@ == old(entries)@,
            before == entry_trees_of(entries@),
            before.len() == entries.len(),
            forall|k: int|
                0 <= k < entries.len() ==> #[trigger] before[k] == (
                    entries@[k].0@,
                    tree_of(entries@[k].1),
                ),
            forall|k: int| 0 <= k < i ==> (#[trigger] before[k]).0 != field@,
        decreases entries.len() - i,
    {
        if str_equal(entries[i].0.as_str(), field) {
            proof {
                lemma_member_index(before, field@, i as int);
            }
            let entry = (String::from_str(field), value);
            entries[i] = entry;
            proof {
                lemma_entry_trees_of(entries@);
                assert(entry_trees_of(entries@) =~= before.update(i as int, (field@, value@)));
            }
            return ;
        }
        i += 1;
    }
    proof {
        lemma_member_index(before, field@, entries.len() as int);
    }
    entries.push((String::from_str(field), value));
    proof {
        lemma_entry_trees_of(entries@);
        assert(entry_trees_of(entries@) =~= before.push((field@, value@)));
    }
}

} // verus!
