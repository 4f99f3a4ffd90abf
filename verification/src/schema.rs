//! Parameter schemas: reading the type of a parameter off the JSON schema of
//! a parameter struct, and writing the schema that is handed to clients.

use vstd::prelude::*;
use vstd::string::*;
use crate::document::{
    entry_trees_of, insert_entry, lemma_entry_trees_of, lemma_trees_of, member, tree_of, trees_of,
    with_member, Json, JsonView, SCHEMA_REF_PREFIX,
};
use crate::text::{contains, has_substring, str_equal, strip_prefix, without_prefix};

verus! {

/// The types of JSON schema.
#[derive(Clone, Copy, Debug, PartialEq, Eq, Hash, Structural)]
pub enum JsonSchemaType {
    String,
    Number,
    Integer,
    Boolean,
    Object,
    Array,
    Null,
}

impl JsonSchemaType {
    /// The spelling of the type in a schema.
    pub open spec fn name(self) -> Seq<char> {
        match self {
            JsonSchemaType::String => "string"@,
            JsonSchemaType::Number => "number"@,
            JsonSchemaType::Integer => "integer"@,
            JsonSchemaType::Boolean => "boolean"@,
            JsonSchemaType::Object => "object"@,
            JsonSchemaType::Array => "array"@,
            JsonSchemaType::Null => "null"@,
        }
    }

    /// The spelling of the type as a string slice.
    pub fn as_str(&self) -> (r: &'static str)
        ensures
            r@ == self.name(),
    {
        match self {
            JsonSchemaType::String => "string",
            JsonSchemaType::Number => "number",
            JsonSchemaType::Integer => "integer",
            JsonSchemaType::Boolean => "boolean",
            JsonSchemaType::Object => "object",
            JsonSchemaType::Array => "array",
            JsonSchemaType::Null => "null",
        }
    }
}

/// The fields of a schema that are read or written here.
#[derive(Clone, Copy, Debug, PartialEq, Eq, Hash, Structural)]
pub enum SchemaField {
    AdditionalProperties,
    AnyOf,
    Const,
    Defs,
    Description,
    Items,
    OneOf,
    Properties,
    Ref,
    Required,
    Type,
}

impl SchemaField {
    /// The spelling of the field in a schema.
    pub open spec fn name(self) -> Seq<char> {
        match self {
            SchemaField::AdditionalProperties => "additionalProperties"@,
            SchemaField::AnyOf => "anyOf"@,
            SchemaField::Const => "const"@,
            SchemaField::Defs => "$defs"@,
            SchemaField::Description => "description"@,
            SchemaField::Items => "items"@,
            SchemaField::OneOf => "oneOf"@,
            SchemaField::Properties => "properties"@,
            SchemaField::Ref => "$ref"@,
            SchemaField::Required => "required"@,
            SchemaField::Type => "type"@,
        }
    }

    /// The spelling of the field as a string slice.
    pub fn as_str(&self) -> (r: &'static str)
        ensures
            r@ == self.name(),
    {
        match self {
            SchemaField::AdditionalProperties => "additionalProperties",
            SchemaField::AnyOf => "anyOf",
            SchemaField::Const => "const",
            SchemaField::Defs => "$defs",
            SchemaField::Description => "description",
            SchemaField::Items => "items",
            SchemaField::OneOf => "oneOf",
            SchemaField::Properties => "properties",
            SchemaField::Ref => "$ref",
            SchemaField::Required => "required",
            SchemaField::Type => "type",
        }
    }
}

/// The kinds of parameter that a schema can ask for.
#[derive(Clone, Copy, Debug, PartialEq, Eq, Hash, Structural)]
pub enum ParameterType {
    /// A string.
    String,
    /// A number.
    Number,
    /// A boolean.
    Boolean,
    /// An array of strings.
    StringArray,
    /// An array of numbers.
    NumberArray,
    /// An object.
    Object,
    /// Any JSON value.
    Any,
}

/// The kind of an array whose items have the named type.
pub open spec fn item_type(name: Seq<char>) -> ParameterType {
    if name == JsonSchemaType::String.name() {
        ParameterType::StringArray
    } else if name == JsonSchemaType::Integer.name() || name == JsonSchemaType::Number.name() {
        ParameterType::NumberArray
    } else {
        ParameterType::Any
    }
}

/// The kind of an array schema: that of its items, where they name a type.
pub open spec fn array_type(schema: JsonView) -> ParameterType {
    match schema.get(SchemaField::Items.name()) {
        Some(items) => match items.get_str(SchemaField::Type.name()) {
            Some(name) => item_type(name),
            None => ParameterType::Any,
        },
        None => ParameterType::Any,
    }
}

/// The kind of a scalar of the named type.
pub open spec fn scalar_type(name: Seq<char>) -> ParameterType {
    if name == JsonSchemaType::String.name() {
        ParameterType::String
    } else if name == JsonSchemaType::Integer.name() || name == JsonSchemaType::Number.name() {
        ParameterType::Number
    } else if name == JsonSchemaType::Boolean.name() {
        ParameterType::Boolean
    } else {
        ParameterType::Any
    }
}

/// The kind of a schema whose type is the given name.
pub open spec fn string_type(name: Seq<char>, schema: JsonView) -> ParameterType {
    if name == JsonSchemaType::String.name() {
        ParameterType::String
    } else if name == JsonSchemaType::Integer.name() || name == JsonSchemaType::Number.name() {
        ParameterType::Number
    } else if name == JsonSchemaType::Boolean.name() {
        ParameterType::Boolean
    } else if name == JsonSchemaType::Object.name() {
        ParameterType::Object
    } else if name == JsonSchemaType::Array.name() {
        array_type(schema)
    } else {
        ParameterType::Any
    }
}

/// The type names of a list of types, without `null` and without what is
/// no string.
pub open spec fn non_null_names(types: Seq<JsonView>) -> Seq<Seq<char>>
    decreases types.len(),
{
    if types.len() == 0 {
        Seq::empty()
    } else {
        let head = non_null_names(types.drop_last());
        match types.last().as_str() {
            Some(name) => if name != JsonSchemaType::Null.name() {
                head.push(name)
            } else {
                head
            },
            None => head,
        }
    }
}

/// The kind of a schema whose type is a list of types: that of the one type
/// beside `null`, where there is exactly one.
pub open spec fn type_array_type(types: Seq<JsonView>) -> ParameterType {
    let names = non_null_names(types);
    if names.len() == 1 {
        scalar_type(names[0])
    } else {
        ParameterType::Any
    }
}

/// Whether a variant is a string constant.
pub open spec fn is_string_constant(variant: JsonView) -> bool {
    variant.get_str(SchemaField::Type.name()) == Some(JsonSchemaType::String.name())
        && variant.get(SchemaField::Const.name()) is Some
}

/// The kind of a schema of alternatives: a string where every alternative
/// is a string constant.
pub open spec fn one_of_type(one_of: Seq<JsonView>) -> Option<ParameterType> {
    if forall|i: int| 0 <= i < one_of.len() ==> is_string_constant(#[trigger] one_of[i]) {
        Some(ParameterType::String)
    } else {
        None
    }
}

/// The value of a member is a part of the entries.
pub proof fn lemma_member_is_part(entries: Seq<(Seq<char>, JsonView)>, key: Seq<char>)
    ensures
        member(entries, key) matches Some(value) ==> decreases_to!(entries => value),
    decreases entries.len(),
{
    broadcast use vstd::seq::axiom_seq_index_decreases, vstd::seq::axiom_seq_subrange_decreases;

    if entries.len() > 0 {
        if entries[0].0 == key {
            assert(decreases_to!(entries => entries[0]));
            assert(decreases_to!(entries[0] => entries[0].1));
        } else {
            lemma_member_is_part(entries.drop_first(), key);
            assert(entries.drop_first() == entries.subrange(1, entries.len() as int));
            assert(decreases_to!(entries => entries.drop_first()));
        }
    }
}

/// The array under a name is a part of the document.
pub proof fn lemma_array_is_part(schema: JsonView, key: Seq<char>)
    ensures
        schema.get_array(key) matches Some(items) ==> decreases_to!(schema => items),
{
    if let JsonView::Object(entries) = schema {
        lemma_member_is_part(entries, key);
        if let Some(JsonView::Array(items)) = member(entries, key) {
            assert(decreases_to!(schema => entries));
            assert(decreases_to!(JsonView::Array(items) => items));
        }
    }
}

/// The kind of parameter that a schema asks for.
///
/// A schema with a type is judged by the type. Without one, a schema with
/// additional properties is an object; a schema with nothing but a
/// description is any value; a schema of alternatives that are all string
/// constants is a string; a schema of options is judged by its options.
pub open spec fn schema_type(schema: JsonView) -> ParameterType
    decreases schema,
    via schema_type_decreases
{
    if !(schema is Object) {
        ParameterType::Any
    } else {
        match schema.get(SchemaField::Type.name()) {
            Some(JsonView::Text(name)) => string_type(name, schema),
            Some(JsonView::Array(types)) => type_array_type(types),
            Some(_) => ParameterType::Any,
            None => if schema.get(SchemaField::AdditionalProperties.name()) is Some {
                ParameterType::Object
            } else if schema.get(SchemaField::Description.name()) is Some && schema.get(
                SchemaField::AnyOf.name(),
            ) is None && schema.get(SchemaField::OneOf.name()) is None {
                ParameterType::Any
            } else if one_of_alternatives(schema) is Some {
                one_of_alternatives(schema)->0
            } else {
                match schema.get_array(SchemaField::AnyOf.name()) {
                    Some(any_of) => any_of_type(any_of),
                    None => ParameterType::Any,
                }
            },
        }
    }
}

/// The kind that the alternatives of a schema give, where it has
/// alternatives and they give one.
pub open spec fn one_of_alternatives(schema: JsonView) -> Option<ParameterType> {
    match schema.get_array(SchemaField::OneOf.name()) {
        Some(one_of) => one_of_type(one_of),
        None => None,
    }
}

#[via_fn]
proof fn schema_type_decreases(schema: JsonView) {
    lemma_array_is_part(schema, SchemaField::AnyOf.name());
}

/// The kind of a schema of options, as for an optional value: the first
/// option decides that is an object, not `null` and not of kind `Any`. An
/// option that refers to a definition makes the schema an object, unless
/// the reference names a value of any kind.
pub open spec fn any_of_type(any_of: Seq<JsonView>) -> ParameterType
    decreases any_of,
    via any_of_type_decreases
{
    if any_of.len() == 0 {
        ParameterType::Any
    } else {
        let variant = any_of[0];
        let rest = any_of.drop_first();
        if !(variant is Object) {
            any_of_type(rest)
        } else if variant.get_str(SchemaField::Type.name()) == Some(JsonSchemaType::Null.name()) {
            any_of_type(rest)
        } else {
            match variant.get_str(SchemaField::Ref.name()) {
                Some(reference) => if has_substring(reference, "Value"@) {
                    any_of_type(rest)
                } else {
                    ParameterType::Object
                },
                None => if schema_type(variant) != ParameterType::Any {
                    schema_type(variant)
                } else {
                    any_of_type(rest)
                },
            }
        }
    }
}

#[via_fn]
proof fn any_of_type_decreases(any_of: Seq<JsonView>) {
    broadcast use vstd::seq::axiom_seq_index_decreases, vstd::seq::axiom_seq_subrange_decreases;

    if any_of.len() > 0 {
        assert(decreases_to!(any_of => any_of[0]));
        assert(any_of.drop_first() == any_of.subrange(1, any_of.len() as int));
        assert(decreases_to!(any_of => any_of.drop_first()));
    }
}

/// Finds the kind of an array schema.
pub fn handle_array_type(schema: &Json) -> (r: ParameterType)
    ensures
        r == array_type(schema@),
{
    let items = match schema.get_field(SchemaField::Items.as_str()) {
        Some(items) => items,
        None => {
            return ParameterType::Any;
        },
    };
    match items.get_field_str(SchemaField::Type.as_str()) {
        Some(name) => {
            if str_equal(name, JsonSchemaType::String.as_str()) {
                ParameterType::StringArray
            } else if str_equal(name, JsonSchemaType::Integer.as_str()) || str_equal(
                name,
                JsonSchemaType::Number.as_str(),
            ) {
                ParameterType::NumberArray
            } else {
                ParameterType::Any
            }
        },
        None => ParameterType::Any,
    }
}

/// Finds the kind of a scalar of the named type.
pub fn scalar_parameter_type(name: &str) -> (r: ParameterType)
    ensures
        r == scalar_type(name@),
{
    if str_equal(name, JsonSchemaType::String.as_str()) {
        ParameterType::String
    } else if str_equal(name, JsonSchemaType::Integer.as_str()) || str_equal(
        name,
        JsonSchemaType::Number.as_str(),
    ) {
        ParameterType::Number
    } else if str_equal(name, JsonSchemaType::Boolean.as_str()) {
        ParameterType::Boolean
    } else {
        ParameterType::Any
    }
}

/// Finds the kind of a schema whose type is the given name.
pub fn handle_string_type(type_str: &str, schema: &Json) -> (r: ParameterType)
    ensures
        r == string_type(type_str@, schema@),
{
    if str_equal(type_str, JsonSchemaType::String.as_str()) {
        ParameterType::String
    } else if str_equal(type_str, JsonSchemaType::Integer.as_str()) || str_equal(
        type_str,
        JsonSchemaType::Number.as_str(),
    ) {
        ParameterType::Number
    } else if str_equal(type_str, JsonSchemaType::Boolean.as_str()) {
        ParameterType::Boolean
    } else if str_equal(type_str, JsonSchemaType::Object.as_str()) {
        ParameterType::Object
    } else if str_equal(type_str, JsonSchemaType::Array.as_str()) {
        handle_array_type(schema)
    } else {
        ParameterType::Any
    }
}

/// Finds the kind of a schema whose type is a list of types.
pub fn handle_type_array(types: &Vec<Json>) -> (r: ParameterType)
    ensures
        r == type_array_type(trees_of(types@)),
{
    let ghost trees = trees_of(types@);
    let mut names: Vec<&str> = Vec::new();
    let mut i: usize = 0;
    proof {
        lemma_trees_of(types@);
        assert(trees.take(0) =~= Seq::empty());
        assert(names.deep_view() =~= Seq::empty());
    }
    while i < types.len()
        invariant
            i <= types.len(),
            trees == trees_of(types@),
            trees.len() == types.len(),
            forall|k: int| 0 <= k < types.len() ==> #[trigger] trees[k] == tree_of(types@[k]),
            names.deep_view() == non_null_names(trees.take(i as int)),
        decreases types.len() - i,
    {
        let ghost before = names.deep_view();
        proof {
            assert(trees.take(i + 1).drop_last() =~= trees.take(i as int));
            assert(trees.take(i + 1).last() == tree_of(types@[i as int]));
        }
        if let Some(name) = types[i].as_str() {
            if !str_equal(name, JsonSchemaType::Null.as_str()) {
                names.push(name);
                assert(names.deep_view() =~= before.push(name@));
            }
        }
        i += 1;
    }
    assert(trees.take(types.len() as int) =~= trees);
    if names.len() == 1 {
        scalar_parameter_type(names[0])
    } else {
        ParameterType::Any
    }
}

/// Finds the kind of a schema of alternatives.
pub fn handle_one_of_schema(one_of: &Vec<Json>) -> (r: Option<ParameterType>)
    ensures
        r == one_of_type(trees_of(one_of@)),
{
    let ghost trees = trees_of(one_of@);
    proof {
        lemma_trees_of(one_of@);
    }
    let mut i: usize = 0;
    while i < one_of.len()
        invariant
            i <= one_of.len(),
            trees == trees_of(one_of@),
            trees.len() == one_of.len(),
            forall|k: int| 0 <= k < one_of.len() ==> #[trigger] trees[k] == tree_of(one_of@[k]),
            forall|k: int| 0 <= k < i ==> is_string_constant(#[trigger] trees[k]),
        decreases one_of.len() - i,
    {
        let variant = &one_of[i];
        let is_string = match variant.get_field_str(SchemaField::Type.as_str()) {
            Some(name) => str_equal(name, JsonSchemaType::String.as_str()),
            None => false,
        };
        let has_const = variant.get_field(SchemaField::Const.as_str()).is_some();
        if !(is_string && has_const) {
            assert(!is_string_constant(trees[i as int]));
            return None;
        }
        i += 1;
    }
    Some(ParameterType::String)
}

/// Finds the kind of a schema of options, from the option at `from` on.
pub fn handle_any_of_schema(any_of: &Vec<Json>, from: usize) -> (r: ParameterType)
    requires
        from <= any_of.len(),
    ensures
        r == any_of_type(trees_of(any_of@).skip(from as int)),
    decreases any_of, any_of.len() - from,
{
    proof {
        lemma_trees_of(any_of@);
    }
    if from >= any_of.len() {
        return ParameterType::Any;
    }
    let variant = &any_of[from];
    proof {
        broadcast use vstd::std_specs::vec::axiom_vec_index_decreases;

        assert(trees_of(any_of@).skip(from as int)[0] == variant@);
        assert(trees_of(any_of@).skip(from as int).drop_first() =~= trees_of(any_of@).skip(
            from + 1,
        ));
    }
    if variant.as_object().is_none() {
        return handle_any_of_schema(any_of, from + 1);
    }
    let is_null = match variant.get_field_str(SchemaField::Type.as_str()) {
        Some(name) => str_equal(name, JsonSchemaType::Null.as_str()),
        None => false,
    };
    if is_null {
        return handle_any_of_schema(any_of, from + 1);
    }
    if let Some(reference) = variant.get_field_str(SchemaField::Ref.as_str()) {
        if contains(reference, "Value") {
            return handle_any_of_schema(any_of, from + 1);
        }
        return ParameterType::Object;
    }
    let variant_type = map_schema_type_to_parameter_type(variant);
    if variant_type != ParameterType::Any {
        return variant_type;
    }
    handle_any_of_schema(any_of, from + 1)
}

/// Finds the kind of parameter that a schema asks for.
pub fn map_schema_type_to_parameter_type(schema: &Json) -> (r: ParameterType)
    ensures
        r == schema_type(schema@),
    decreases schema,
{
    if schema.as_object().is_none() {
        return ParameterType::Any;
    }
    if let Some(type_value) = schema.get_field(SchemaField::Type.as_str()) {
        return match type_value {
            Json::Text(type_str) => handle_string_type(type_str.as_str(), schema),
            Json::Array(types) => handle_type_array(types),
            _ => ParameterType::Any,
        };
    }
    if schema.get_field(SchemaField::AdditionalProperties.as_str()).is_some() {
        return ParameterType::Object;
    }
    if schema.get_field(SchemaField::Description.as_str()).is_some() && schema.get_field(
        SchemaField::AnyOf.as_str(),
    ).is_none() && schema.get_field(SchemaField::OneOf.as_str()).is_none() {
        return ParameterType::Any;
    }
    if let Some(one_of) = schema.get_field_array(SchemaField::OneOf.as_str()) {
        if let Some(param_type) = handle_one_of_schema(one_of) {
            return param_type;
        }
    }
    if let Some(any_of) = schema.get_field_array(SchemaField::AnyOf.as_str()) {
        assert(trees_of(any_of@).skip(0) =~= trees_of(any_of@));
        return handle_any_of_schema(any_of, 0);
    }
    ParameterType::Any
}

/// An object without entries.
pub open spec fn empty_object() -> JsonView {
    JsonView::Object(Seq::empty())
}

/// The schema of a property of a plain type.
pub open spec fn typed_property(kind_name: Seq<char>, description: Seq<char>) -> JsonView {
    empty_object().insert(SchemaField::Type.name(), JsonView::Text(kind_name)).insert(
        SchemaField::Description.name(),
        JsonView::Text(description),
    )
}

/// The schema of a property that is an array of items of a plain type.
pub open spec fn array_property(item_kind_name: Seq<char>, description: Seq<char>) -> JsonView {
    empty_object().insert(
        SchemaField::Type.name(),
        JsonView::Text(JsonSchemaType::Array.name()),
    ).insert(
        SchemaField::Items.name(),
        empty_object().insert(SchemaField::Type.name(), JsonView::Text(item_kind_name)),
    ).insert(SchemaField::Description.name(), JsonView::Text(description))
}

/// The types of a property that takes any JSON value.
pub open spec fn every_type() -> Seq<JsonView> {
    seq![
        JsonView::Text(JsonSchemaType::Object.name()),
        JsonView::Text(JsonSchemaType::Array.name()),
        JsonView::Text(JsonSchemaType::String.name()),
        JsonView::Text(JsonSchemaType::Number.name()),
        JsonView::Text(JsonSchemaType::Boolean.name()),
        JsonView::Text(JsonSchemaType::Null.name()),
    ]
}

/// The schema of a property that takes any JSON value: all types, and
/// items of any kind for the case of an array.
pub open spec fn any_property(description: Seq<char>) -> JsonView {
    empty_object().insert(SchemaField::Type.name(), JsonView::Array(every_type())).insert(
        SchemaField::Items.name(),
        empty_object(),
    ).insert(SchemaField::Description.name(), JsonView::Text(description))
}

/// The schema of a property of a kind.
pub open spec fn property_schema(kind: ParameterType, description: Seq<char>) -> JsonView {
    match kind {
        ParameterType::String => typed_property(JsonSchemaType::String.name(), description),
        ParameterType::Number => typed_property(JsonSchemaType::Number.name(), description),
        ParameterType::Boolean => typed_property(JsonSchemaType::Boolean.name(), description),
        ParameterType::StringArray => array_property(JsonSchemaType::String.name(), description),
        ParameterType::NumberArray => array_property(JsonSchemaType::Number.name(), description),
        ParameterType::Object => typed_property(JsonSchemaType::Object.name(), description),
        ParameterType::Any => any_property(description),
    }
}

/// Collects the properties of the parameters of a tool and writes their
/// schema.
#[derive(Debug, PartialEq, Eq)]
pub struct ParameterBuilder {
    /// The schemas of the properties, by name.
    pub properties: Vec<(String, Json)>,
    /// The names of the properties that must be given, in the order in which
    /// they were added.
    pub required: Vec<String>,
}

/// The mathematical content of a [`ParameterBuilder`].
pub struct ParameterBuilderView {
    pub properties: Seq<(Seq<char>, JsonView)>,
    pub required: Seq<Seq<char>>,
}

impl View for ParameterBuilder {
    type V = ParameterBuilderView;

    open spec fn view(&self) -> ParameterBuilderView {
        ParameterBuilderView {
            properties: entry_trees_of(self.properties@),
            required: self.required.deep_view(),
        }
    }
}

/// A list of names as a list of string documents.
pub open spec fn texts(names: Seq<Seq<char>>) -> Seq<JsonView> {
    Seq::new(names.len(), |i: int| JsonView::Text(names[i]))
}

impl ParameterBuilderView {
    /// The builder without properties.
    pub open spec fn empty() -> ParameterBuilderView {
        ParameterBuilderView { properties: Seq::empty(), required: Seq::empty() }
    }

    /// The builder with one more property. A property that is added again
    /// replaces the earlier one of its name; its name is listed as required
    /// each time it is added as such.
    pub open spec fn with_property(
        self,
        name: Seq<char>,
        schema: JsonView,
        required: bool,
    ) -> ParameterBuilderView {
        ParameterBuilderView {
            properties: with_member(self.properties, name, schema),
            required: if required {
                self.required.push(name)
            } else {
                self.required
            },
        }
    }

    /// The schema of the collected properties: an object type with the
    /// properties and, where any is required, the list of required names.
    pub open spec fn built(self) -> JsonView {
        let base = empty_object().insert(
            SchemaField::Type.name(),
            JsonView::Text(JsonSchemaType::Object.name()),
        ).insert(SchemaField::Properties.name(), JsonView::Object(self.properties));
        if self.required.len() > 0 {
            base.insert(SchemaField::Required.name(), JsonView::Array(texts(self.required)))
        } else {
            base
        }
    }
}

/// Makes the schema of a property of a plain type.
fn make_typed_property(kind: JsonSchemaType, description: &str) -> (r: Json)
    ensures
        r@ == typed_property(kind.name(), description@),
{
    let mut prop = Json::object();
    prop.insert_field(SchemaField::Type.as_str(), Json::text(kind.as_str()));
    prop.insert_field(SchemaField::Description.as_str(), Json::text(description));
    prop
}

/// Makes the schema of a property that is an array.
fn make_array_property(item: JsonSchemaType, description: &str) -> (r: Json)
    ensures
        r@ == array_property(item.name(), description@),
{
    let mut prop = Json::object();
    prop.insert_field(SchemaField::Type.as_str(), Json::text(JsonSchemaType::Array.as_str()));
    let mut items = Json::object();
    items.insert_field(SchemaField::Type.as_str(), Json::text(item.as_str()));
    prop.insert_field(SchemaField::Items.as_str(), items);
    prop.insert_field(SchemaField::Description.as_str(), Json::text(description));
    prop
}

/// Makes the schema of a property that takes any JSON value.
fn make_any_property(description: &str) -> (r: Json)
    ensures
        r@ == any_property(description@),
{
    let mut types: Vec<Json> = Vec::new();
    types.push(Json::text(JsonSchemaType::Object.as_str()));
    types.push(Json::text(JsonSchemaType::Array.as_str()));
    types.push(Json::text(JsonSchemaType::String.as_str()));
    types.push(Json::text(JsonSchemaType::Number.as_str()));
    types.push(Json::text(JsonSchemaType::Boolean.as_str()));
    types.push(Json::text(JsonSchemaType::Null.as_str()));
    proof {
        lemma_trees_of(types@);
        assert(trees_of(types@) =~= every_type());
    }
    let mut prop = Json::object();
    prop.insert_field(SchemaField::Type.as_str(), Json::Array(types));
    prop.insert_field(SchemaField::Items.as_str(), Json::object());
    prop.insert_field(SchemaField::Description.as_str(), Json::text(description));
    prop
}

impl ParameterBuilder {
    /// A builder without properties.
    pub fn new() -> (r: Self)
        ensures
            r@ == ParameterBuilderView::empty(),
    {
        let r = ParameterBuilder { properties: Vec::new(), required: Vec::new() };
        assert(r.required.deep_view() =~= Seq::empty());
        r
    }

    /// Adds a property with the given schema.
    pub fn add_property(self, name: &str, schema: Json, required: bool) -> (r: Self)
        ensures
            r@ == self@.with_property(name@, schema@, required),
    {
        let mut builder = self;
        insert_entry(&mut builder.properties, name, schema);
        if required {
            let ghost before = builder.required.deep_view();
            builder.required.push(String::from_str(name));
            assert(builder.required.deep_view() =~= before.push(name@));
        }
        builder
    }

    /// Adds a string property.
    pub fn add_string_property(self, name: &str, description: &str, required: bool) -> (r: Self)
        ensures
            r@ == self@.with_property(
                name@,
                property_schema(ParameterType::String, description@),
                required,
            ),
    {
        self.add_property(name, make_typed_property(JsonSchemaType::String, description), required)
    }

    /// Adds a property that is an array of strings.
    pub fn add_string_array_property(self, name: &str, description: &str, required: bool) -> (r:
        Self)
        ensures
            r@ == self@.with_property(
                name@,
                property_schema(ParameterType::StringArray, description@),
                required,
            ),
    {
        self.add_property(name, make_array_property(JsonSchemaType::String, description), required)
    }

    /// Adds a property that is an array of numbers.
    pub fn add_number_array_property(self, name: &str, description: &str, required: bool) -> (r:
        Self)
        ensures
            r@ == self@.with_property(
                name@,
                property_schema(ParameterType::NumberArray, description@),
                required,
            ),
    {
        self.add_property(name, make_array_property(JsonSchemaType::Number, description), required)
    }

    /// Adds a number property.
    pub fn add_number_property(self, name: &str, description: &str, required: bool) -> (r: Self)
        ensures
            r@ == self@.with_property(
                name@,
                property_schema(ParameterType::Number, description@),
                required,
            ),
    {
        self.add_property(name, make_typed_property(JsonSchemaType::Number, description), required)
    }

    /// Adds a boolean property.
    pub fn add_boolean_property(self, name: &str, description: &str, required: bool) -> (r: Self)
        ensures
            r@ == self@.with_property(
                name@,
                property_schema(ParameterType::Boolean, description@),
                required,
            ),
    {
        self.add_property(
            name,
            make_typed_property(JsonSchemaType::Boolean, description),
            required,
        )
    }

    /// Adds an object property.
    pub fn add_object_property(self, name: &str, description: &str, required: bool) -> (r: Self)
        ensures
            r@ == self@.with_property(
                name@,
                property_schema(ParameterType::Object, description@),
                required,
            ),
    {
        self.add_property(name, make_typed_property(JsonSchemaType::Object, description), required)
    }

    /// Adds a property that takes any JSON value.
    pub fn add_any_property(self, name: &str, description: &str, required: bool) -> (r: Self)
        ensures
            r@ == self@.with_property(
                name@,
                property_schema(ParameterType::Any, description@),
                required,
            ),
    {
        self.add_property(name, make_any_property(description), required)
    }

    /// Adds a property of a kind.
    pub fn add_typed_property(
        self,
        kind: ParameterType,
        name: &str,
        description: &str,
        required: bool,
    ) -> (r: Self)
        ensures
            r@ == self@.with_property(name@, property_schema(kind, description@), required),
    {
        match kind {
            ParameterType::String => self.add_string_property(name, description, required),
            ParameterType::Number => self.add_number_property(name, description, required),
            ParameterType::Boolean => self.add_boolean_property(name, description, required),
            ParameterType::StringArray => self.add_string_array_property(
                name,
                description,
                required,
            ),
            ParameterType::NumberArray => self.add_number_array_property(
                name,
                description,
                required,
            ),
            ParameterType::Object => self.add_object_property(name, description, required),
            ParameterType::Any => self.add_any_property(name, description, required),
        }
    }

    /// Writes the schema of the collected properties.
    pub fn build(self) -> (r: Json)
        ensures
            r@ == self@.built(),
    {
        let ParameterBuilder { properties, required } = self;
        let mut schema = Json::object();
        schema.insert_field(
            SchemaField::Type.as_str(),
            Json::text(JsonSchemaType::Object.as_str()),
        );
        schema.insert_field(SchemaField::Properties.as_str(), Json::Object(properties));
        if required.len() > 0 {
            let mut names: Vec<Json> = Vec::new();
            let mut i: usize = 0;
            proof {
                lemma_trees_of(names@);
                assert(trees_of(names@) =~= texts(required.deep_view()).take(0));
            }
            while i < required.len()
                invariant
                    i <= required.len(),
                    trees_of(names@) == texts(required.deep_view()).take(i as int),
                decreases required.len() - i,
            {
                let ghost before = names@;
                names.push(Json::text(required[i].as_str()));
                proof {
                    lemma_trees_of(before);
                    lemma_trees_of(names@);
                    assert(trees_of(names@) =~= texts(required.deep_view()).take(i + 1));
                }
                i += 1;
            }
            assert(texts(required.deep_view()).take(required.len() as int) =~= texts(
                required.deep_view(),
            ));
            schema.insert_field(SchemaField::Required.as_str(), Json::Array(names));
        }
        schema
    }
}

/// After a property is added, its name gives its schema, and every other
/// name gives what it gave before.
pub proof fn lemma_added_property_is_found(
    builder: ParameterBuilderView,
    name: Seq<char>,
    schema: JsonView,
    required: bool,
    other: Seq<char>,
)
    ensures
        member(builder.with_property(name, schema, required).properties, other) == if other
            == name {
            Some(schema)
        } else {
            member(builder.properties, other)
        },
{
    crate::document::lemma_with_member(builder.properties, name, schema, other);
}

/// Whether the schema lists a property among the required ones.
pub open spec fn is_required(root: JsonView, name: Seq<char>) -> bool {
    match root.get_array(SchemaField::Required.name()) {
        Some(items) => exists|i: int|
            0 <= i < items.len() && (#[trigger] items[i]).as_str() == Some(name),
        None => false,
    }
}

/// The schema that stands for a property: the definition it refers to,
/// where it refers to one that the schema holds, else the property itself.
pub open spec fn resolved_property(root: JsonView, value: JsonView) -> JsonView {
    match value.get_str(SchemaField::Ref.name()) {
        Some(reference) => match without_prefix(reference, SCHEMA_REF_PREFIX@) {
            Some(definition) => match root.get(SchemaField::Defs.name()) {
                Some(defs) => match defs.get(definition) {
                    Some(found) => found,
                    None => value,
                },
                None => value,
            },
            None => value,
        },
        None => value,
    }
}

/// The description of a property: the one its schema gives, else its name.
pub open spec fn property_description(name: Seq<char>, resolved: JsonView) -> Seq<char> {
    match resolved.get_str(SchemaField::Description.name()) {
        Some(description) => description,
        None => name,
    }
}

/// The builder after a property of the schema is taken in. A property
/// whose schema is neither an object nor a boolean is passed over.
pub open spec fn with_schema_property(
    builder: ParameterBuilderView,
    root: JsonView,
    name: Seq<char>,
    value: JsonView,
) -> ParameterBuilderView {
    let resolved = resolved_property(root, value);
    if resolved is Object || resolved is Bool {
        builder.with_property(
            name,
            property_schema(schema_type(resolved), property_description(name, resolved)),
            is_required(root, name),
        )
    } else {
        builder
    }
}

/// The builder after the properties of the schema are taken in, in order.
pub open spec fn with_schema_properties(
    builder: ParameterBuilderView,
    root: JsonView,
    properties: Seq<(Seq<char>, JsonView)>,
) -> ParameterBuilderView
    decreases properties.len(),
{
    if properties.len() == 0 {
        builder
    } else {
        with_schema_property(
            with_schema_properties(builder, root, properties.drop_last()),
            root,
            properties.last().0,
            properties.last().1,
        )
    }
}

/// The parameters that the schema of a parameter struct describes: one
/// property per property of the schema, of the kind that its schema asks
/// for.
pub open spec fn parameters_of(root: JsonView) -> ParameterBuilderView {
    match root.get(SchemaField::Properties.name()) {
        Some(JsonView::Object(properties)) => with_schema_properties(
            ParameterBuilderView::empty(),
            root,
            properties,
        ),
        _ => ParameterBuilderView::empty(),
    }
}

/// Whether the schema lists a property among the required ones.
pub fn property_is_required(root: &Json, name: &str) -> (r: bool)
    ensures
        r == is_required(root@, name@),
{
    let items = match root.get_field_array(SchemaField::Required.as_str()) {
        Some(items) => items,
        None => {
            return false;
        },
    };
    let ghost trees = trees_of(items@);
    proof {
        lemma_trees_of(items@);
    }
    let mut i: usize = 0;
    while i < items.len()
        invariant
            i <= items.len(),
            trees == trees_of(items@),
            trees.len() == items.len(),
            root@.get_array(SchemaField::Required.name()) == Some(trees),
            forall|k: int| 0 <= k < items.len() ==> #[trigger] trees[k] == tree_of(items@[k]),
            forall|k: int| 0 <= k < i ==> (#[trigger] trees[k]).as_str() != Some(name@),
        decreases items.len() - i,
    {
        if let Some(listed) = items[i].as_str() {
            if str_equal(listed, name) {
                assert(trees[i as int].as_str() == Some(name@));
                return true;
            }
        }
        i += 1;
    }
    false
}

/// Finds the schema that stands for a property.
pub fn resolve_property<'a>(root: &'a Json, value: &'a Json) -> (r: &'a Json)
    ensures
        r@ == resolved_property(root@, value@),
{
    let reference = match value.get_field_str(SchemaField::Ref.as_str()) {
        Some(reference) => reference,
        None => {
            return value;
        },
    };
    let definition = match strip_prefix(reference, SCHEMA_REF_PREFIX) {
        Some(definition) => definition,
        None => {
            return value;
        },
    };
    let defs = match root.get_field(SchemaField::Defs.as_str()) {
        Some(defs) => defs,
        None => {
            return value;
        },
    };
    match defs.get_field(definition.as_str()) {
        Some(found) => found,
        None => value,
    }
}

/// Takes one property of a schema into a builder.
pub fn add_schema_property(builder: ParameterBuilder, root: &Json, name: &str, value: &Json) -> (r:
    ParameterBuilder)
    ensures
        r@ == with_schema_property(builder@, root@, name@, value@),
{
    let resolved = resolve_property(root, value);
    let is_schema = match resolved {
        Json::Object(_) => true,
        Json::Bool(_) => true,
        _ => false,
    };
    if !is_schema {
        return builder;
    }
    let required = property_is_required(root, name);
    let kind = map_schema_type_to_parameter_type(resolved);
    let description = match resolved.get_field_str(SchemaField::Description.as_str()) {
        Some(description) => description,
        None => name,
    };
    builder.add_typed_property(kind, name, description, required)
}

/// Builds the parameters of a tool from the schema of its parameter
/// struct.
pub fn build_parameters(root: &Json) -> (r: ParameterBuilder)
    ensures
        r@ == parameters_of(root@),
{
    let mut builder = ParameterBuilder::new();
    let properties = match root.get_properties() {
        Some(properties) => properties,
        None => {
            return builder;
        },
    };
    let ghost all = entry_trees_of(properties@);
    proof {
        lemma_entry_trees_of(properties@);
        assert(all.take(0) =~= Seq::empty());
    }
    let mut i: usize = 0;
    while i < properties.len()
        invariant
            i <= properties.len(),
            all == entry_trees_of(properties@),
            all.len() == properties.len(),
            forall|k: int|
                0 <= k < properties.len() ==> #[trigger] all[k] == (
                    properties@[k].0@,
                    tree_of(properties@[k].1),
                ),
            builder@ == with_schema_properties(
                ParameterBuilderView::empty(),
                root@,
                all.take(i as int),
            ),
        decreases properties.len() - i,
    {
        proof {
            assert(all.take(i + 1).drop_last() =~= all.take(i as int));
            assert(all.take(i + 1).last() == all[i as int]);
        }
        let entry = &properties[i];
        builder = add_schema_property(builder, root, entry.0.as_str(), &entry.1);
        i += 1;
    }
    assert(all.take(properties.len() as int) =~= all);
    builder
}

/// The parameters of a request for type schemas.
#[derive(Clone, Debug, PartialEq, Eq)]
pub struct RegistrySchemaParams {
    /// Include only types from these crates.
    pub with_crates: Vec<String>,
    /// Include only types with these reflect traits.
    pub with_types: Vec<String>,
    /// Leave out types from these crates.
    pub without_crates: Vec<String>,
    /// Leave out types with these reflect traits.
    pub without_types: Vec<String>,
    /// Port of the application.
    pub port: crate::port::Port,
}

impl Default for RegistrySchemaParams {
    fn default() -> (r: Self)
        ensures
            r.with_crates@.len() == 0,
            r.with_types@.len() == 0,
            r.without_crates@.len() == 0,
            r.without_types@.len() == 0,
            r.port.0 == crate::port::DEFAULT_BRP_EXTRAS_PORT,
    {
        RegistrySchemaParams {
            with_crates: Vec::new(),
            with_types: Vec::new(),
            without_crates: Vec::new(),
            without_types: Vec::new(),
            port: crate::port::Port(crate::port::DEFAULT_BRP_EXTRAS_PORT),
        }
    }
}

impl crate::params::ParamStruct for RegistrySchemaParams {

}

} // verus!
