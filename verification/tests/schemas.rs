use bevy_brp_mcp::document::Json;
use bevy_brp_mcp::params::{NoParams, ParameterName};
use bevy_brp_mcp::port::Port;
use bevy_brp_mcp::schema::{
    add_schema_property, build_parameters, handle_any_of_schema, handle_array_type,
    handle_one_of_schema, handle_string_type, handle_type_array,
    map_schema_type_to_parameter_type, property_is_required, resolve_property,
    scalar_parameter_type, JsonSchemaType, ParameterBuilder, ParameterType,
    RegistrySchemaParams, SchemaField,
};

fn text(s: &str) -> Json {
    Json::Text(s.to_string())
}

fn object(entries: Vec<(&str, Json)>) -> Json {
    Json::Object(entries.into_iter().map(|(k, v)| (k.to_string(), v)).collect())
}

fn typed(name: &str) -> Json {
    object(vec![("type", text(name))])
}

#[test]
fn parameter_names_are_snake_case() {
    assert_eq!(ParameterName::AppName.as_str(), "app_name");
    assert_eq!(ParameterName::OlderThanSeconds.as_str(), "older_than_seconds");
    assert_eq!(ParameterName::WithoutCrates.to_string(), "without_crates");
    assert_eq!(ParameterName::Entity.as_str(), "entity");
    assert_eq!(ParameterName::Entities.as_str(), "entities");
    assert_eq!(ParameterName::WatchId.as_str(), "watch_id");
}

#[test]
fn parameter_names_round_trip() {
    let all = ParameterName::all();
    assert_eq!(all.len(), 32);
    for name in &all {
        assert_eq!(ParameterName::from_name(name.as_str()), Some(*name));
    }
    for (i, a) in all.iter().enumerate() {
        for b in &all[i + 1..] {
            assert_ne!(a.as_str(), b.as_str());
        }
    }
    assert_eq!(ParameterName::from_name("AppName"), None);
    assert_eq!(ParameterName::from_name(""), None);
    assert_eq!(ParameterName::from_name("port "), None);
    assert_eq!(ParameterName::from_name("port"), Some(ParameterName::Port));
    assert_eq!(NoParams::default(), NoParams {});
}

#[test]
fn schema_words() {
    assert_eq!(JsonSchemaType::Integer.as_str(), "integer");
    assert_eq!(JsonSchemaType::Null.as_str(), "null");
    assert_eq!(SchemaField::Ref.as_str(), "$ref");
    assert_eq!(SchemaField::Defs.as_str(), "$defs");
    assert_eq!(SchemaField::AdditionalProperties.as_str(), "additionalProperties");
    assert_eq!(SchemaField::AnyOf.as_str(), "anyOf");
    assert_eq!(SchemaField::OneOf.as_str(), "oneOf");
}

#[test]
fn documents_are_read_by_name() {
    let doc = object(vec![
        ("a", text("x")),
        ("b", Json::Array(vec![Json::Null, Json::Bool(true)])),
        ("a", text("shadowed")),
        ("n", Json::Number("12".to_string())),
    ]);
    assert_eq!(doc.get_field("a"), Some(&text("x")));
    assert_eq!(doc.get_field("missing"), None);
    assert_eq!(doc.get_field_str("a"), Some("x"));
    assert_eq!(doc.get_field_str("b"), None);
    assert_eq!(doc.get_field_string("a"), Some("x".to_string()));
    assert_eq!(doc.get_field_array("b"), Some(&vec![Json::Null, Json::Bool(true)]));
    assert_eq!(doc.get_field_array("a"), None);
    assert_eq!(text("x").get_field("a"), None);
    assert_eq!(text("x").as_str(), Some("x"));
    assert_eq!(Json::Null.as_str(), None);
    assert!(doc.is_complex_type());
    assert!(Json::Array(Vec::new()).is_complex_type());
    assert!(!text("x").is_complex_type());
    assert!(!Json::Number("1".to_string()).is_complex_type());
    assert!(doc.as_object().is_some());
    assert!(doc.as_array().is_none());
    assert_eq!(doc.get_properties(), None);
    let with_props = object(vec![("properties", object(vec![("p", Json::Null)]))]);
    assert_eq!(with_props.get_properties(), Some(&vec![("p".to_string(), Json::Null)]));
    assert_eq!(object(vec![("properties", text("no"))]).get_properties(), None);
}

#[test]
fn fields_are_inserted_or_replaced() {
    let mut doc = Json::object();
    doc.insert_field("a", text("1"));
    doc.insert_field("b", text("2"));
    doc.insert_field("a", text("3"));
    assert_eq!(doc, object(vec![("a", text("3")), ("b", text("2"))]));
    let mut scalar = text("s");
    scalar.insert_field("a", Json::Null);
    assert_eq!(scalar, text("s"));
    assert_eq!(Json::text("t"), text("t"));
}

#[test]
fn field_types_come_from_references() {
    let field = object(vec![("type", object(vec![("$ref", text("#/$defs/glam::Vec3"))]))]);
    assert_eq!(field.extract_field_type(), Some("glam::Vec3".to_string()));
    let other = object(vec![("type", object(vec![("$ref", text("#/definitions/Vec3"))]))]);
    assert_eq!(other.extract_field_type(), None);
    assert_eq!(typed("string").extract_field_type(), None);
    assert_eq!(Json::Null.extract_field_type(), None);
    let holder = object(vec![("items", field), ("keyType", typed("x"))]);
    assert_eq!(holder.get_type("items"), Some("glam::Vec3".to_string()));
    assert_eq!(holder.get_type("keyType"), None);
    assert_eq!(holder.get_type("valueType"), None);
}

#[test]
fn plain_types_map_to_parameter_types() {
    assert_eq!(map_schema_type_to_parameter_type(&typed("string")), ParameterType::String);
    assert_eq!(map_schema_type_to_parameter_type(&typed("integer")), ParameterType::Number);
    assert_eq!(map_schema_type_to_parameter_type(&typed("number")), ParameterType::Number);
    assert_eq!(map_schema_type_to_parameter_type(&typed("boolean")), ParameterType::Boolean);
    assert_eq!(map_schema_type_to_parameter_type(&typed("object")), ParameterType::Object);
    assert_eq!(map_schema_type_to_parameter_type(&typed("null")), ParameterType::Any);
    assert_eq!(map_schema_type_to_parameter_type(&typed("array")), ParameterType::Any);
    assert_eq!(map_schema_type_to_parameter_type(&Json::Bool(true)), ParameterType::Any);
    assert_eq!(map_schema_type_to_parameter_type(&Json::object()), ParameterType::Any);
    assert_eq!(
        map_schema_type_to_parameter_type(&object(vec![("type", Json::Number("3".to_string()))])),
        ParameterType::Any
    );
    assert_eq!(handle_string_type("string", &Json::Null), ParameterType::String);
    assert_eq!(handle_string_type("String", &Json::Null), ParameterType::Any);
    assert_eq!(scalar_parameter_type("object"), ParameterType::Any);
    assert_eq!(scalar_parameter_type("boolean"), ParameterType::Boolean);
}

#[test]
fn array_types_follow_their_items() {
    let strings = object(vec![("type", text("array")), ("items", typed("string"))]);
    let integers = object(vec![("type", text("array")), ("items", typed("integer"))]);
    let numbers = object(vec![("type", text("array")), ("items", typed("number"))]);
    let objects = object(vec![("type", text("array")), ("items", typed("object"))]);
    let odd = object(vec![("type", text("array")), ("items", text("string"))]);
    assert_eq!(map_schema_type_to_parameter_type(&strings), ParameterType::StringArray);
    assert_eq!(map_schema_type_to_parameter_type(&integers), ParameterType::NumberArray);
    assert_eq!(handle_array_type(&numbers), ParameterType::NumberArray);
    assert_eq!(handle_array_type(&objects), ParameterType::Any);
    assert_eq!(handle_array_type(&odd), ParameterType::Any);
    assert_eq!(handle_array_type(&typed("array")), ParameterType::Any);
}

#[test]
fn type_lists_ignore_null() {
    assert_eq!(handle_type_array(&vec![text("string"), text("null")]), ParameterType::String);
    assert_eq!(handle_type_array(&vec![text("null"), text("integer")]), ParameterType::Number);
    assert_eq!(handle_type_array(&vec![text("boolean")]), ParameterType::Boolean);
    assert_eq!(handle_type_array(&vec![text("object"), text("null")]), ParameterType::Any);
    assert_eq!(handle_type_array(&vec![text("string"), text("integer")]), ParameterType::Any);
    assert_eq!(handle_type_array(&vec![text("null")]), ParameterType::Any);
    assert_eq!(handle_type_array(&vec![Json::Null, text("string")]), ParameterType::String);
    assert_eq!(handle_type_array(&Vec::new()), ParameterType::Any);
    let optional = object(vec![("type", Json::Array(vec![text("string"), text("null")]))]);
    assert_eq!(map_schema_type_to_parameter_type(&optional), ParameterType::String);
}

#[test]
fn alternatives_of_string_constants_are_strings() {
    let constant = |c: &str| object(vec![("type", text("string")), ("const", text(c))]);
    assert_eq!(handle_one_of_schema(&vec![constant("a"), constant("b")]), Some(ParameterType::String));
    assert_eq!(handle_one_of_schema(&Vec::new()), Some(ParameterType::String));
    assert_eq!(handle_one_of_schema(&vec![constant("a"), typed("string")]), None);
    assert_eq!(
        handle_one_of_schema(&vec![object(vec![("type", text("integer")), ("const", text("1"))])]),
        None
    );
    assert_eq!(handle_one_of_schema(&vec![text("a")]), None);
    let schema = object(vec![("oneOf", Json::Array(vec![constant("x")]))]);
    assert_eq!(map_schema_type_to_parameter_type(&schema), ParameterType::String);
    let mixed = object(vec![
        ("oneOf", Json::Array(vec![typed("string")])),
        ("anyOf", Json::Array(vec![typed("boolean")])),
    ]);
    assert_eq!(map_schema_type_to_parameter_type(&mixed), ParameterType::Boolean);
}

#[test]
fn options_are_judged_by_the_first_telling_option() {
    let reference = |r: &str| object(vec![("$ref", text(r))]);
    assert_eq!(handle_any_of_schema(&vec![typed("null"), typed("integer")], 0), ParameterType::Number);
    assert_eq!(handle_any_of_schema(&vec![typed("integer"), typed("string")], 0), ParameterType::Number);
    assert_eq!(handle_any_of_schema(&vec![typed("integer"), typed("string")], 1), ParameterType::String);
    assert_eq!(handle_any_of_schema(&vec![typed("integer"), typed("string")], 2), ParameterType::Any);
    assert_eq!(
        handle_any_of_schema(&vec![reference("#/$defs/BrpQueryFilter"), typed("null")], 0),
        ParameterType::Object
    );
    assert_eq!(
        handle_any_of_schema(&vec![reference("#/$defs/Value"), typed("null")], 0),
        ParameterType::Any
    );
    assert_eq!(
        handle_any_of_schema(&vec![reference("#/$defs/Value"), typed("string")], 0),
        ParameterType::String
    );
    assert_eq!(handle_any_of_schema(&vec![text("string"), Json::Bool(true)], 0), ParameterType::Any);
    assert_eq!(handle_any_of_schema(&Vec::new(), 0), ParameterType::Any);
    let nested = object(vec![(
        "anyOf",
        Json::Array(vec![
            typed("null"),
            object(vec![("anyOf", Json::Array(vec![typed("null"), typed("boolean")]))]),
        ]),
    )]);
    assert_eq!(map_schema_type_to_parameter_type(&nested), ParameterType::Boolean);
}

#[test]
fn untyped_schemas() {
    let map = object(vec![("additionalProperties", typed("string"))]);
    assert_eq!(map_schema_type_to_parameter_type(&map), ParameterType::Object);
    let described = object(vec![("description", text("any value"))]);
    assert_eq!(map_schema_type_to_parameter_type(&described), ParameterType::Any);
    let described_option = object(vec![
        ("description", text("maybe a number")),
        ("anyOf", Json::Array(vec![typed("integer"), typed("null")])),
    ]);
    assert_eq!(map_schema_type_to_parameter_type(&described_option), ParameterType::Number);
    let typed_wins = object(vec![("type", text("string")), ("additionalProperties", Json::Bool(true))]);
    assert_eq!(map_schema_type_to_parameter_type(&typed_wins), ParameterType::String);
    let any_of_not_array = object(vec![("anyOf", typed("string"))]);
    assert_eq!(map_schema_type_to_parameter_type(&any_of_not_array), ParameterType::Any);
}

#[test]
fn builder_writes_property_schemas() {
    let schema = ParameterBuilder::new()
        .add_string_property("name", "The name", true)
        .add_number_property("count", "How many", false)
        .add_boolean_property("flag", "Whether", true)
        .add_object_property("filter", "A filter", false)
        .add_string_array_property("keys", "Keys", false)
        .add_number_array_property("ids", "Ids", false)
        .add_any_property("value", "Anything", false)
        .build();
    let simple = |t: &str, d: &str| object(vec![("type", text(t)), ("description", text(d))]);
    let array = |t: &str, d: &str| {
        object(vec![("type", text("array")), ("items", typed(t)), ("description", text(d))])
    };
    let expected = object(vec![
        ("type", text("object")),
        (
            "properties",
            object(vec![
                ("name", simple("string", "The name")),
                ("count", simple("number", "How many")),
                ("flag", simple("boolean", "Whether")),
                ("filter", simple("object", "A filter")),
                ("keys", array("string", "Keys")),
                ("ids", array("number", "Ids")),
                (
                    "value",
                    object(vec![
                        (
                            "type",
                            Json::Array(vec![
                                text("object"),
                                text("array"),
                                text("string"),
                                text("number"),
                                text("boolean"),
                                text("null"),
                            ]),
                        ),
                        ("items", Json::object()),
                        ("description", text("Anything")),
                    ]),
                ),
            ]),
        ),
        ("required", Json::Array(vec![text("name"), text("flag")])),
    ]);
    assert_eq!(schema, expected);
}

#[test]
fn builder_without_required_properties() {
    assert_eq!(
        ParameterBuilder::new().build(),
        object(vec![("type", text("object")), ("properties", Json::object())])
    );
    let replaced = ParameterBuilder::new()
        .add_string_property("p", "first", false)
        .add_number_property("p", "second", false);
    assert_eq!(replaced.properties.len(), 1);
    assert_eq!(
        replaced.build(),
        object(vec![
            ("type", text("object")),
            ("properties", object(vec![("p", object(vec![("type", text("number")), ("description", text("second"))]))])),
        ])
    );
    let typed_any = ParameterBuilder::new().add_typed_property(ParameterType::StringArray, "k", "K", true);
    assert_eq!(typed_any, ParameterBuilder::new().add_string_array_property("k", "K", true));
}

fn registry_schema() -> Json {
    let strings = |d: &str| {
        object(vec![
            ("description", text(d)),
            ("type", text("array")),
            ("items", typed("string")),
            ("default", Json::Array(Vec::new())),
        ])
    };
    object(vec![
        ("$schema", text("https://json-schema.org/draft/2020-12/schema")),
        ("title", text("RegistrySchemaParams")),
        ("type", text("object")),
        (
            "properties",
            object(vec![
                ("port", object(vec![("description", text("The BRP port (default: 15702)")), ("$ref", text("#/$defs/Port"))])),
                ("with_crates", strings("Include only types from these crates")),
                ("with_types", strings("Include only types with these reflect traits")),
                ("without_crates", strings("Exclude types from these crates")),
                ("without_types", strings("Exclude types with these reflect traits")),
            ]),
        ),
        (
            "$defs",
            object(vec![(
                "Port",
                object(vec![("description", text("A port")), ("type", text("integer")), ("format", text("uint16"))]),
            )]),
        ),
    ])
}

#[test]
fn parameters_are_built_from_a_schema() {
    let root = registry_schema();
    let built = build_parameters(&root).build();
    let props = built.get_properties().unwrap();
    let names: Vec<&str> = props.iter().map(|(k, _)| k.as_str()).collect();
    assert_eq!(names, vec!["port", "with_crates", "with_types", "without_crates", "without_types"]);
    assert_eq!(built.get_field("required"), None);
    for field in ["with_crates", "with_types", "without_crates", "without_types"] {
        let prop = built.get_field("properties").unwrap().get_field(field).unwrap();
        assert_eq!(prop.get_field_str("type"), Some("array"));
        assert_eq!(prop.get_field("items").unwrap().get_field_str("type"), Some("string"));
    }
    let port = built.get_field("properties").unwrap().get_field("port").unwrap();
    assert_eq!(port.get_field_str("type"), Some("number"));
    assert_eq!(port.get_field_str("description"), Some("A port"));
}

#[test]
fn required_and_unresolved_properties() {
    let root = object(vec![
        (
            "properties",
            object(vec![
                ("entity", typed("integer")),
                ("filter", object(vec![("$ref", text("#/$defs/Missing"))])),
                ("strict", Json::Bool(true)),
                ("junk", text("not a schema")),
                ("method", object(vec![("$ref", text("http://elsewhere"))])),
            ]),
        ),
        ("required", Json::Array(vec![text("entity"), Json::Null, text("strict")])),
    ]);
    assert!(property_is_required(&root, "entity"));
    assert!(property_is_required(&root, "strict"));
    assert!(!property_is_required(&root, "filter"));
    assert!(!property_is_required(&Json::Null, "entity"));
    let builder = build_parameters(&root);
    assert_eq!(builder.required, vec!["entity".to_string(), "strict".to_string()]);
    let names: Vec<&str> = builder.properties.iter().map(|(k, _)| k.as_str()).collect();
    assert_eq!(names, vec!["entity", "filter", "strict", "method"]);
    let schema = builder.build();
    let props = schema.get_field("properties").unwrap();
    assert_eq!(props.get_field("entity").unwrap().get_field_str("type"), Some("number"));
    assert_eq!(props.get_field("entity").unwrap().get_field_str("description"), Some("entity"));
    assert!(props.get_field("filter").unwrap().get_field_array("type").is_some());
    assert!(props.get_field("strict").unwrap().get_field_array("type").is_some());
    assert_eq!(build_parameters(&Json::Null), ParameterBuilder::new());
    assert_eq!(build_parameters(&object(vec![("properties", text("x"))])), ParameterBuilder::new());
}

#[test]
fn references_resolve_into_definitions() {
    let root = registry_schema();
    let by_ref = object(vec![("$ref", text("#/$defs/Port"))]);
    assert_eq!(resolve_property(&root, &by_ref).get_field_str("type"), Some("integer"));
    let dangling = object(vec![("$ref", text("#/$defs/Nope"))]);
    assert_eq!(resolve_property(&root, &dangling), &dangling);
    let plain = typed("string");
    assert_eq!(resolve_property(&root, &plain), &plain);
    assert_eq!(resolve_property(&Json::Null, &by_ref), &by_ref);
    let added = add_schema_property(ParameterBuilder::new(), &root, "p", &by_ref);
    assert_eq!(added, ParameterBuilder::new().add_number_property("p", "A port", false));
    let skipped = add_schema_property(ParameterBuilder::new(), &root, "p", &Json::Null);
    assert_eq!(skipped, ParameterBuilder::new());
}

#[test]
fn registry_parameters_default_to_no_filter() {
    let params = RegistrySchemaParams::default();
    assert!(params.with_crates.is_empty());
    assert!(params.with_types.is_empty());
    assert!(params.without_crates.is_empty());
    assert!(params.without_types.is_empty());
    assert_eq!(params.port, Port(15702));
}
