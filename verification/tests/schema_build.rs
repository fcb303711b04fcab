use graphql_schema::{
    Argument, DeprecationStatus, DirectiveLocation, DirectiveType, EmptyMutation,
    EmptySubscription, EnumMeta, EnumValue, Field, GraphQLType, InputObjectMeta, MetaType,
    ObjectMeta, Registry, RootNode, ScalarMeta, SchemaError, SchemaType, Type, UnionMeta,
};
use std::cell::Cell;

struct Boolean;

impl GraphQLType for Boolean {
    type TypeInfo = ();

    fn name(_: &()) -> String {
        "Boolean".to_owned()
    }

    fn meta(_: &(), _: &mut Registry) -> MetaType {
        ScalarMeta::new("Boolean").into_meta()
    }
}

struct Query;

impl GraphQLType for Query {
    type TypeInfo = ();

    fn name(_: &()) -> String {
        "Query".to_owned()
    }

    fn meta(_: &(), registry: &mut Registry) -> MetaType {
        let fields = vec![registry.field::<Boolean>("blah", &())];
        ObjectMeta::new("Query", fields).into_meta()
    }
}

struct Mutation;

impl GraphQLType for Mutation {
    type TypeInfo = ();

    fn name(_: &()) -> String {
        "Mutation".to_owned()
    }

    fn meta(_: &(), registry: &mut Registry) -> MetaType {
        let fields = vec![registry.field::<Boolean>("flip", &())];
        ObjectMeta::new("Mutation", fields).into_meta()
    }
}

struct Person;

impl GraphQLType for Person {
    type TypeInfo = ();

    fn name(_: &()) -> String {
        "Person".to_owned()
    }

    fn meta(_: &(), registry: &mut Registry) -> MetaType {
        let fields = vec![
            registry.field::<Person>("bestFriend", &()),
            registry.field::<CyclicQuery>("root", &()),
        ];
        ObjectMeta::new("Person", fields).into_meta()
    }
}

struct CyclicQuery;

impl GraphQLType for CyclicQuery {
    type TypeInfo = ();

    fn name(_: &()) -> String {
        "Query".to_owned()
    }

    fn meta(_: &(), registry: &mut Registry) -> MetaType {
        let fields = vec![registry.field::<Person>("me", &())];
        ObjectMeta::new("Query", fields).into_meta()
    }
}

struct Counted;

impl GraphQLType for Counted {
    type TypeInfo = Cell<usize>;

    fn name(_: &Cell<usize>) -> String {
        "Counted".to_owned()
    }

    fn meta(calls: &Cell<usize>, _: &mut Registry) -> MetaType {
        calls.set(calls.get() + 1);
        ScalarMeta::new("Counted").into_meta()
    }
}

struct Misnamed;

impl GraphQLType for Misnamed {
    type TypeInfo = ();

    fn name(_: &()) -> String {
        "Ghost".to_owned()
    }

    fn meta(_: &(), _: &mut Registry) -> MetaType {
        ObjectMeta::new("Spirit", Vec::new()).into_meta()
    }
}

struct HauntedQuery;

impl GraphQLType for HauntedQuery {
    type TypeInfo = ();

    fn name(_: &()) -> String {
        "Query".to_owned()
    }

    fn meta(_: &(), registry: &mut Registry) -> MetaType {
        let fields = vec![registry.field::<Misnamed>("ghost", &())];
        ObjectMeta::new("Query", fields).into_meta()
    }
}

struct Clash;

impl GraphQLType for Clash {
    type TypeInfo = ();

    fn name(_: &()) -> String {
        "Clash".to_owned()
    }

    fn meta(_: &(), registry: &mut Registry) -> MetaType {
        let _ = registry.insert(ScalarMeta::new("Clash").into_meta());
        ObjectMeta::new("Clash", Vec::new()).into_meta()
    }
}

struct ClashingQuery;

impl GraphQLType for ClashingQuery {
    type TypeInfo = ();

    fn name(_: &()) -> String {
        "Query".to_owned()
    }

    fn meta(_: &(), registry: &mut Registry) -> MetaType {
        let fields = vec![registry.field::<Clash>("clash", &())];
        ObjectMeta::new("Query", fields).into_meta()
    }
}

struct ScalarRoot;

impl GraphQLType for ScalarRoot {
    type TypeInfo = ();

    fn name(_: &()) -> String {
        "Query".to_owned()
    }

    fn meta(_: &(), _: &mut Registry) -> MetaType {
        ScalarMeta::new("Query").into_meta()
    }
}

fn simple_schema() -> SchemaType {
    SchemaType::new::<Query, EmptyMutation, EmptySubscription>(&(), &(), &()).unwrap()
}

fn field_names(meta: &MetaType) -> Vec<String> {
    match meta {
        MetaType::Object(o) => o.fields.iter().map(|f| f.name.clone()).collect(),
        MetaType::Interface(i) => i.fields.iter().map(|f| f.name.clone()).collect(),
        _ => Vec::new(),
    }
}

fn query_registry() -> Registry {
    let mut registry = Registry::new();
    let fields = vec![Field::new("blah", Type::non_null_named("Boolean"))];
    registry.insert(ObjectMeta::new("Query", fields).into_meta()).unwrap();
    registry
}

fn build(registry: Registry, mutation: &str, subscription: &str) -> Result<SchemaType, SchemaError> {
    SchemaType::build(
        registry,
        "Query".to_owned(),
        mutation.to_owned(),
        subscription.to_owned(),
    )
}

#[test]
fn builds_a_schema_from_a_query_root() {
    let schema = simple_schema();
    assert_eq!(schema.query_type_name(), "Query");
    let root = schema.concrete_query_type();
    assert_eq!(root.meta().name(), Some("Query"));
    assert!(matches!(root.meta(), MetaType::Object(_)));
    assert_eq!(root.id(), 0);
    assert_eq!(schema.query_type().to_string(), "Query");
}

#[test]
fn schema_without_mutation_and_subscription_reports_both_absent() {
    let schema = simple_schema();
    assert!(schema.mutation_type().is_none());
    assert!(schema.concrete_mutation_type().is_none());
    assert!(schema.subscription_type().is_none());
    assert!(schema.concrete_subscription_type().is_none());
    assert_eq!(schema.mutation_type_name(), None);
    assert_eq!(schema.subscription_type_name(), None);
}

#[test]
fn introspection_fields_are_on_and_only_on_the_query_root() {
    let schema = simple_schema();
    let root = schema.concrete_query_type();
    assert_eq!(field_names(root.meta()), vec!["blah", "__schema", "__type"]);
    let mut others = 0;
    for entry in schema.concrete_type_list() {
        if entry.id() != root.id() {
            others += 1;
            let names = field_names(entry.meta());
            assert!(!names.contains(&"__schema".to_owned()));
            assert!(!names.contains(&"__type".to_owned()));
        }
    }
    assert!(others > 0);
}

#[test]
fn introspection_fields_have_their_types_and_arguments() {
    let schema = simple_schema();
    let root = schema.concrete_query_type();
    let fields = match root.meta() {
        MetaType::Object(o) => &o.fields,
        _ => panic!("the query root is an object"),
    };
    assert_eq!(fields[1], Field::new("__schema", Type::non_null_named("__Schema")));
    assert_eq!(
        fields[2],
        Field::new("__type", Type::non_null_named("__Type"))
            .argument(Argument::new("name", Type::non_null_named("String")))
    );
}

#[test]
fn schema_with_a_mutation_root_reports_it() {
    let schema = SchemaType::new::<Query, Mutation, EmptySubscription>(&(), &(), &()).unwrap();
    assert_eq!(schema.mutation_type_name(), Some("Mutation"));
    let mutation = schema.concrete_mutation_type().unwrap();
    assert_eq!(mutation.meta().name(), Some("Mutation"));
    assert_eq!(field_names(mutation.meta()), vec!["flip"]);
    assert_eq!(schema.mutation_type().unwrap().to_string(), "Mutation");
    assert!(schema.subscription_type().is_none());
}

#[test]
fn empty_operation_types_stay_in_the_type_list() {
    let schema = simple_schema();
    let empty = schema.concrete_type_by_name("_EmptyMutation").unwrap();
    assert_eq!(empty.meta(), &ObjectMeta::new("_EmptyMutation", Vec::new()).into_meta());
    assert!(schema.concrete_type_by_name("_EmptySubscription").is_some());
}

#[test]
fn cyclic_schema_builds_without_placeholders() {
    let schema =
        SchemaType::new::<CyclicQuery, EmptyMutation, EmptySubscription>(&(), &(), &()).unwrap();
    let types = schema.concrete_type_list();
    assert!(types.iter().all(|t| !t.meta().is_placeholder()));
    let person = schema.concrete_type_by_name("Person").unwrap();
    assert_eq!(field_names(person.meta()), vec!["bestFriend", "root"]);
    let names: Vec<&str> = types.iter().map(|t| t.meta().key()).collect();
    assert_eq!(names.iter().filter(|n| **n == "Query").count(), 1);
    assert_eq!(names.iter().filter(|n| **n == "Person").count(), 1);
}

#[test]
fn schema_holds_the_types_that_describe_it() {
    let schema = simple_schema();
    for name in [
        "__Schema",
        "__Type",
        "__TypeKind",
        "__Field",
        "__InputValue",
        "__EnumValue",
        "__Directive",
        "__DirectiveLocation",
        "String",
        "Boolean",
    ] {
        assert!(schema.concrete_type_by_name(name).is_some(), "{}", name);
    }
    let kinds = schema.concrete_type_by_name("__TypeKind").unwrap();
    let expected = EnumMeta::new(
        "__TypeKind",
        vec![
            EnumValue::new("SCALAR"),
            EnumValue::new("OBJECT"),
            EnumValue::new("INTERFACE"),
            EnumValue::new("UNION"),
            EnumValue::new("ENUM"),
            EnumValue::new("INPUT_OBJECT"),
            EnumValue::new("LIST"),
            EnumValue::new("NON_NULL"),
        ],
    )
    .into_meta();
    assert_eq!(kinds.meta(), &expected);
    let of_type = schema.concrete_type_by_name("__Type").unwrap();
    assert_eq!(
        field_names(of_type.meta()),
        vec![
            "name",
            "description",
            "specifiedByUrl",
            "kind",
            "fields",
            "ofType",
            "inputFields",
            "interfaces",
            "possibleTypes",
            "enumValues"
        ]
    );
}

#[test]
fn type_list_follows_the_order_of_registration() {
    let schema = simple_schema();
    let names: Vec<String> = schema
        .concrete_type_list()
        .iter()
        .map(|t| t.meta().key().to_owned())
        .collect();
    assert_eq!(
        names,
        vec![
            "Query",
            "Boolean",
            "_EmptyMutation",
            "_EmptySubscription",
            "__Schema",
            "__Type",
            "__TypeKind",
            "__Field",
            "__InputValue",
            "__EnumValue",
            "__Directive",
            "__DirectiveLocation",
            "String"
        ]
    );
    let list = schema.type_list();
    assert_eq!(list.len(), names.len());
    for (i, t) in list.iter().enumerate() {
        assert_eq!(t.to_concrete().unwrap().id(), i);
        assert_eq!(t.to_string(), names[i]);
    }
}

#[test]
fn builtin_directives_are_present() {
    let schema = simple_schema();
    let names: Vec<&str> = schema.directive_list().iter().map(|d| d.name.as_str()).collect();
    assert_eq!(names, vec!["skip", "include", "deprecated", "specifiedBy"]);

    let skip = schema.directive_by_name("skip").unwrap();
    assert_eq!(
        skip.locations,
        vec![
            DirectiveLocation::Field,
            DirectiveLocation::FragmentSpread,
            DirectiveLocation::InlineFragment
        ]
    );
    assert_eq!(skip.arguments, vec![Argument::new("if", Type::non_null_named("Boolean"))]);
    assert!(!skip.is_repeatable);
    assert_eq!(skip.description, None);

    let inclusion = schema.directive_by_name("include").unwrap();
    assert_eq!(inclusion.locations, skip.locations);
    assert_eq!(inclusion.arguments, skip.arguments);

    let deprecated = schema.directive_by_name("deprecated").unwrap();
    assert_eq!(
        deprecated.locations,
        vec![DirectiveLocation::FieldDefinition, DirectiveLocation::EnumValue]
    );
    assert_eq!(
        deprecated.arguments,
        vec![Argument::new("reason", Type::non_null_named("String"))]
    );

    let specified_by = schema.directive_by_name("specifiedBy").unwrap();
    assert_eq!(specified_by.locations, vec![DirectiveLocation::Scalar]);
    assert_eq!(
        specified_by.arguments,
        vec![Argument::new("url", Type::non_null_named("String"))]
    );
}

#[test]
fn directive_by_name_of_an_unknown_name_is_none() {
    let schema = simple_schema();
    assert!(schema.directive_by_name("unknown").is_none());
    assert!(schema.directive_by_name("Skip").is_none());
    assert!(schema.directive_by_name("").is_none());
}

#[test]
fn add_directive_adds_after_the_others() {
    let mut schema = simple_schema();
    let live = DirectiveType::new("live", &[DirectiveLocation::Query], &[], true)
        .description("keeps the query open");
    schema.add_directive(live);
    let names: Vec<&str> = schema.directive_list().iter().map(|d| d.name.as_str()).collect();
    assert_eq!(names, vec!["skip", "include", "deprecated", "specifiedBy", "live"]);
    let found = schema.directive_by_name("live").unwrap();
    assert!(found.is_repeatable);
    assert_eq!(found.description.as_deref(), Some("keeps the query open"));
    assert_eq!(found.locations, vec![DirectiveLocation::Query]);
}

#[test]
fn add_directive_replaces_the_directive_of_its_name() {
    let mut schema = simple_schema();
    schema.add_directive(DirectiveType::new("skip", &[DirectiveLocation::Mutation], &[], true));
    let names: Vec<&str> = schema.directive_list().iter().map(|d| d.name.as_str()).collect();
    assert_eq!(names, vec!["skip", "include", "deprecated", "specifiedBy"]);
    let skip = schema.directive_by_name("skip").unwrap();
    assert_eq!(skip.locations, vec![DirectiveLocation::Mutation]);
    assert!(skip.arguments.is_empty());
    assert!(skip.is_repeatable);
    schema.add_directive(DirectiveType::new("skip", &[DirectiveLocation::Field], &[], false));
    assert_eq!(
        schema.directive_by_name("skip").unwrap().locations,
        vec![DirectiveLocation::Field]
    );
    assert_eq!(schema.directive_list().len(), 4);
}

#[test]
fn set_description_sets_the_description() {
    let mut schema = simple_schema();
    assert_eq!(schema.description(), None);
    schema.set_description("a small schema");
    assert_eq!(schema.description(), Some("a small schema"));
    schema.set_description("another");
    assert_eq!(schema.description(), Some("another"));
    assert_eq!(schema.query_type_name(), "Query");
    assert_eq!(schema.directive_list().len(), 4);
}

#[test]
fn build_fails_when_the_query_root_is_missing() {
    let result = build(Registry::new(), "_EmptyMutation", "_EmptySubscription");
    assert_eq!(result.err(), Some(SchemaError::RootTypeNotFound("Query".to_owned())));
}

#[test]
fn build_fails_when_the_query_root_is_not_an_object() {
    let result = SchemaType::new::<ScalarRoot, EmptyMutation, EmptySubscription>(&(), &(), &());
    assert_eq!(result.err(), Some(SchemaError::RootTypeNotObject("Query".to_owned())));
}

#[test]
fn build_fails_when_a_placeholder_is_left() {
    let result = SchemaType::new::<HauntedQuery, EmptyMutation, EmptySubscription>(&(), &(), &());
    assert_eq!(result.err(), Some(SchemaError::UnresolvedPlaceholder("Ghost".to_owned())));
}

#[test]
fn build_fails_when_a_referenced_type_is_not_declared() {
    let mut registry = Registry::new();
    let fields = vec![
        Field::new("blah", Type::non_null_named("Boolean")),
        Field::new("lost", Type::list(Type::non_null_named("Missing"))),
        Field::new("gone", Type::named("AlsoMissing")),
    ];
    registry.insert(ObjectMeta::new("Query", fields).into_meta()).unwrap();
    let result = build(registry, "_EmptyMutation", "_EmptySubscription");
    assert_eq!(result.err(), Some(SchemaError::UndeclaredType("Missing".to_owned())));
}

#[test]
fn build_fails_when_an_argument_type_is_not_declared() {
    let mut registry = Registry::new();
    let fields = vec![Field::new("blah", Type::non_null_named("Boolean"))
        .argument(Argument::new("where", Type::named("Place")))];
    registry.insert(ObjectMeta::new("Query", fields).into_meta()).unwrap();
    let result = build(registry, "_EmptyMutation", "_EmptySubscription");
    assert_eq!(result.err(), Some(SchemaError::UndeclaredType("Place".to_owned())));
}

#[test]
fn build_fails_when_a_named_root_is_not_registered() {
    let result = build(query_registry(), "Mutation", "_EmptySubscription");
    assert_eq!(result.err(), Some(SchemaError::RootTypeNotFound("Mutation".to_owned())));
    let result = build(query_registry(), "_EmptyMutation", "Subscription");
    assert_eq!(result.err(), Some(SchemaError::RootTypeNotFound("Subscription".to_owned())));
    let result = build(query_registry(), "Mutation", "Subscription");
    assert_eq!(result.err(), Some(SchemaError::RootTypeNotFound("Mutation".to_owned())));
}

#[test]
fn build_accepts_unused_operation_names_without_their_types() {
    let schema = build(query_registry(), "_EmptyMutation", "_EmptySubscription").unwrap();
    assert!(schema.mutation_type().is_none());
    assert!(schema.subscription_type().is_none());
    assert!(schema.concrete_type_by_name("_EmptyMutation").is_none());
}

#[test]
fn build_fails_on_two_descriptions_of_one_name() {
    let result = SchemaType::new::<ClashingQuery, EmptyMutation, EmptySubscription>(&(), &(), &());
    assert_eq!(result.err(), Some(SchemaError::DuplicateTypeName("Clash".to_owned())));
}

#[test]
fn build_fails_when_a_type_takes_the_name_of_a_builtin_type() {
    let mut registry = query_registry();
    registry.insert(ObjectMeta::new("__Type", Vec::new()).into_meta()).unwrap();
    let result = build(registry, "_EmptyMutation", "_EmptySubscription");
    assert_eq!(result.err(), Some(SchemaError::DuplicateTypeName("__Type".to_owned())));

    let mut registry = query_registry();
    registry.insert(ObjectMeta::new("Boolean", Vec::new()).into_meta()).unwrap();
    let result = build(registry, "_EmptyMutation", "_EmptySubscription");
    assert_eq!(result.err(), Some(SchemaError::DuplicateTypeName("Boolean".to_owned())));
}

#[test]
fn duplicate_comes_before_every_other_fault() {
    let mut registry = Registry::new();
    registry.insert(ScalarMeta::new("A").into_meta()).unwrap();
    let second = registry.insert(ObjectMeta::new("A", Vec::new()).into_meta());
    assert_eq!(second, Err(SchemaError::DuplicateTypeName("A".to_owned())));
    let result = build(registry, "_EmptyMutation", "_EmptySubscription");
    assert_eq!(result.err(), Some(SchemaError::DuplicateTypeName("A".to_owned())));
}

#[test]
fn registry_describes_a_type_once() {
    let calls = Cell::new(0);
    let mut registry = Registry::new();
    let first = registry.get_type::<Counted>(&calls);
    let second = registry.get_type::<Counted>(&calls);
    let field = registry.field::<Counted>("count", &calls);
    let arg = registry.arg::<Counted>("count", &calls);
    assert_eq!(calls.get(), 1);
    assert_eq!(first, Type::non_null_named("Counted"));
    assert_eq!(second, first);
    assert_eq!(field, Field::new("count", Type::non_null_named("Counted")));
    assert_eq!(arg, Argument::new("count", Type::non_null_named("Counted")));
    assert_eq!(registry.len(), 1);
    assert_eq!(registry.get("Counted"), Some(&ScalarMeta::new("Counted").into_meta()));
}

#[test]
fn registry_finds_what_was_inserted() {
    let mut registry = Registry::new();
    assert_eq!(registry.len(), 0);
    assert!(!registry.contains("A"));
    assert!(registry.get("A").is_none());
    registry.insert(ScalarMeta::new("A").into_meta()).unwrap();
    registry.insert(ObjectMeta::new("B", Vec::new()).into_meta()).unwrap();
    assert_eq!(registry.len(), 2);
    assert!(registry.contains("A"));
    assert!(registry.contains("B"));
    assert!(!registry.contains("C"));
    assert!(!registry.contains("a"));
    assert_eq!(registry.get("B"), Some(&ObjectMeta::new("B", Vec::new()).into_meta()));
    assert_eq!(registry.get("A"), Some(&ScalarMeta::new("A").into_meta()));
    assert!(registry.fault().is_none());
}

#[test]
fn registry_insert_resolves_a_placeholder_in_place() {
    let mut registry = Registry::new();
    registry.insert(graphql_schema::PlaceholderMeta::new("A").into_meta()).unwrap();
    registry.insert(ScalarMeta::new("B").into_meta()).unwrap();
    assert!(registry.get("A").unwrap().is_placeholder());
    registry.insert(ScalarMeta::new("A").into_meta()).unwrap();
    assert_eq!(registry.len(), 2);
    assert_eq!(registry.get("A"), Some(&ScalarMeta::new("A").into_meta()));
    registry.insert(graphql_schema::PlaceholderMeta::new("A").into_meta()).unwrap();
    assert_eq!(registry.get("A"), Some(&ScalarMeta::new("A").into_meta()));
    assert!(registry.fault().is_none());
}

#[test]
fn registry_insert_accepts_an_equal_descriptor_and_refuses_another() {
    let mut registry = Registry::new();
    registry.insert(ScalarMeta::new("A").into_meta()).unwrap();
    assert_eq!(registry.insert(ScalarMeta::new("A").into_meta()), Ok(()));
    assert!(registry.fault().is_none());
    let other = ObjectMeta::new("A", vec![Field::new("x", Type::named("A"))]).into_meta();
    assert_eq!(registry.insert(other), Err(SchemaError::DuplicateTypeName("A".to_owned())));
    assert_eq!(registry.fault(), Some(&SchemaError::DuplicateTypeName("A".to_owned())));
    assert_eq!(registry.get("A"), Some(&ScalarMeta::new("A").into_meta()));
    registry.insert(ScalarMeta::new("B").into_meta()).unwrap();
    assert_eq!(
        registry.insert(ObjectMeta::new("B", Vec::new()).into_meta()),
        Err(SchemaError::DuplicateTypeName("B".to_owned()))
    );
    assert_eq!(registry.fault(), Some(&SchemaError::DuplicateTypeName("A".to_owned())));
    assert_eq!(registry.len(), 2);
}

#[test]
fn root_node_keeps_the_roots_and_the_schema() {
    let root = RootNode::new(Query, EmptyMutation::new(), EmptySubscription::new()).unwrap();
    assert_eq!(root.schema.query_type_name(), "Query");
    assert!(root.schema.mutation_type().is_none());
    let with_info = RootNode::new_with_info(
        Counted,
        EmptyMutation::new(),
        EmptySubscription::new(),
        Cell::new(0),
        (),
        (),
    );
    assert_eq!(with_info.err(), Some(SchemaError::RootTypeNotObject("Counted".to_owned())));
}

#[test]
fn root_node_fails_as_the_schema_does() {
    let result = RootNode::new(HauntedQuery, EmptyMutation::new(), EmptySubscription::new());
    assert_eq!(result.err(), Some(SchemaError::UnresolvedPlaceholder("Ghost".to_owned())));
}

#[test]
fn schema_error_says_what_is_wrong() {
    assert_eq!(
        SchemaError::DuplicateTypeName("A".to_owned()).to_string(),
        "duplicate type name: A"
    );
    assert_eq!(
        SchemaError::RootTypeNotFound("Query".to_owned()).to_string(),
        "root type not found: Query"
    );
    assert_eq!(
        SchemaError::RootTypeNotObject("Query".to_owned()).to_string(),
        "root type is not an object: Query"
    );
    assert_eq!(
        SchemaError::UnresolvedPlaceholder("Ghost".to_owned()).to_string(),
        "type is still a placeholder: Ghost"
    );
    assert_eq!(
        SchemaError::UndeclaredType("Missing".to_owned()).to_string(),
        "type is referenced and not declared: Missing"
    );
    assert_eq!(SchemaError::UndeclaredType("Missing".to_owned()).subject(), "Missing");
}

struct Float;

impl GraphQLType for Float {
    type TypeInfo = ();

    fn name(_: &()) -> String {
        "Float".to_owned()
    }

    fn meta(_: &(), _: &mut Registry) -> MetaType {
        ScalarMeta::new("Float").into_meta()
    }
}

struct Text;

impl GraphQLType for Text {
    type TypeInfo = ();

    fn name(_: &()) -> String {
        "String".to_owned()
    }

    fn meta(_: &(), _: &mut Registry) -> MetaType {
        ScalarMeta::new("String").into_meta()
    }
}

struct Int;

impl GraphQLType for Int {
    type TypeInfo = ();

    fn name(_: &()) -> String {
        "Int".to_owned()
    }

    fn meta(_: &(), _: &mut Registry) -> MetaType {
        ScalarMeta::new("Int").into_meta()
    }
}

struct Cake;

impl GraphQLType for Cake {
    type TypeInfo = ();

    fn name(_: &()) -> String {
        "Cake".to_owned()
    }

    fn meta(_: &(), registry: &mut Registry) -> MetaType {
        let fields = vec![registry.field::<Boolean>("fresh", &())];
        ObjectMeta::new("Cake", fields).into_meta()
    }
}

struct IceCream;

impl GraphQLType for IceCream {
    type TypeInfo = ();

    fn name(_: &()) -> String {
        "IceCream".to_owned()
    }

    fn meta(_: &(), registry: &mut Registry) -> MetaType {
        let fields = vec![registry.field::<Boolean>("cold", &())];
        ObjectMeta::new("IceCream", fields).into_meta()
    }
}

struct GlutenFree;

impl GraphQLType for GlutenFree {
    type TypeInfo = ();

    fn name(_: &()) -> String {
        "GlutenFree".to_owned()
    }

    fn meta(_: &(), registry: &mut Registry) -> MetaType {
        let members = vec![
            registry.get_type::<Cake>(&()).innermost_name().to_owned(),
            registry.get_type::<IceCream>(&()).innermost_name().to_owned(),
        ];
        UnionMeta::new("GlutenFree", members).into_meta()
    }
}

struct Fruit;

impl GraphQLType for Fruit {
    type TypeInfo = ();

    fn name(_: &()) -> String {
        "Fruit".to_owned()
    }

    fn meta(_: &(), _: &mut Registry) -> MetaType {
        EnumMeta::new("Fruit", vec![EnumValue::new("APPLE"), EnumValue::new("ORANGE")]).into_meta()
    }
}

struct Coordinate;

impl GraphQLType for Coordinate {
    type TypeInfo = ();

    fn name(_: &()) -> String {
        "Coordinate".to_owned()
    }

    fn meta(_: &(), registry: &mut Registry) -> MetaType {
        let fields = vec![
            registry.arg::<Float>("latitude", &()),
            registry.arg::<Float>("longitude", &()),
        ];
        InputObjectMeta::new("Coordinate", fields).into_meta()
    }
}

struct Bakery;

impl GraphQLType for Bakery {
    type TypeInfo = ();

    fn name(_: &()) -> String {
        "Query".to_owned()
    }

    fn meta(_: &(), registry: &mut Registry) -> MetaType {
        let coordinates = Type::non_null_list(registry.get_type::<Coordinate>(&()));
        let fields = vec![
            registry.field::<Boolean>("blah", &()),
            registry.field::<Text>("whatever", &()).description("This is whatever's description."),
            Field::new("arr", registry.get_type::<Text>(&()).into_nullable())
                .argument(Argument::new("stuff", coordinates)),
            registry.field::<Fruit>("fruit", &()),
            registry
                .field::<GlutenFree>("glutenFree", &())
                .argument(registry.arg::<Text>("flavor", &())),
            registry.field::<Int>("old", &()).deprecated(None),
            registry
                .field::<Float>("reallyOld", &())
                .deprecated(Some("This field is deprecated, use another.")),
        ];
        ObjectMeta::new("Query", fields).into_meta()
    }
}

#[test]
fn schema_keeps_its_own_types_apart_from_the_builtin_ones() {
    let root = RootNode::new(Bakery, EmptyMutation::new(), EmptySubscription::new()).unwrap();
    let schema = &root.schema;
    let own: Vec<&str> = schema
        .concrete_type_list()
        .iter()
        .filter(|t| !t.meta().is_builtin())
        .map(|t| t.meta().key())
        .collect();
    assert_eq!(own, vec!["Query", "Coordinate", "Fruit", "GlutenFree", "Cake", "IceCream"]);
    assert!(schema.mutation_type_name().is_none());
    assert!(schema.subscription_type_name().is_none());

    let query = schema.concrete_query_type();
    let fields = match query.meta() {
        MetaType::Object(o) => &o.fields,
        _ => panic!("the query root is an object"),
    };
    let shown: Vec<String> = fields
        .iter()
        .filter(|f| !f.is_builtin())
        .map(|f| {
            let arguments: Vec<String> = f
                .arguments
                .iter()
                .map(|a| format!("{}: {}", a.name, schema.make_type(&a.arg_type).to_string()))
                .collect();
            format!(
                "{}({}): {}",
                f.name,
                arguments.join(", "),
                schema.make_type(&f.field_type).to_string()
            )
        })
        .collect();
    assert_eq!(
        shown,
        vec![
            "blah(): Boolean!",
            "whatever(): String!",
            "arr(stuff: [Coordinate!]!): String",
            "fruit(): Fruit!",
            "glutenFree(flavor: String!): GlutenFree!",
            "old(): Int!",
            "reallyOld(): Float!",
        ]
    );
    assert_eq!(fields[1].description.as_deref(), Some("This is whatever's description."));
    assert_eq!(fields[5].deprecation_status, DeprecationStatus::Deprecated(None));
    assert_eq!(
        fields[6].deprecation_status,
        DeprecationStatus::Deprecated(Some("This field is deprecated, use another.".to_owned()))
    );
    let gluten_free = schema.concrete_type_by_name("GlutenFree").unwrap();
    let members: Vec<&str> =
        schema.possible_types(gluten_free.meta()).iter().map(|t| t.meta().key()).collect();
    assert_eq!(members, vec!["Cake", "IceCream"]);
    let fruit = schema.concrete_type_by_name("Fruit").unwrap();
    match fruit.meta() {
        MetaType::Enum(e) => {
            let values: Vec<&str> = e.values.iter().map(|v| v.name.as_str()).collect();
            assert_eq!(values, vec!["APPLE", "ORANGE"]);
        }
        _ => panic!("Fruit is an enum"),
    }
    let coordinate = schema.concrete_type_by_name("Coordinate").unwrap();
    assert_eq!(coordinate.meta().references(), vec!["Float", "Float"]);
}

struct Forgetful;

impl GraphQLType for Forgetful {
    type TypeInfo = ();

    fn name(_: &()) -> String {
        "Forgetful".to_owned()
    }

    fn meta(_: &(), registry: &mut Registry) -> MetaType {
        *registry = Registry::new();
        ScalarMeta::new("Other").into_meta()
    }
}

#[test]
fn registry_holds_the_name_it_hands_out() {
    let mut registry = Registry::new();
    registry.insert(ScalarMeta::new("Before").into_meta()).unwrap();
    let usage = registry.get_type::<Forgetful>(&());
    assert_eq!(usage, Type::non_null_named("Forgetful"));
    assert!(registry.contains("Forgetful"));
    assert!(registry.get("Forgetful").unwrap().is_placeholder());
    assert_eq!(registry.get("Other"), Some(&ScalarMeta::new("Other").into_meta()));
    assert!(!registry.contains("Before"));
    assert_eq!(registry.len(), 2);

    let mut registry = Registry::new();
    let usage = registry.get_type::<Misnamed>(&());
    assert_eq!(usage, Type::non_null_named("Ghost"));
    assert!(registry.get("Ghost").unwrap().is_placeholder());
    assert!(registry.contains("Spirit"));
    assert_eq!(registry.len(), 2);

    let mut registry = Registry::new();
    let field = registry.field::<Boolean>("flag", &());
    assert!(registry.contains(field.field_type.innermost_name()));
    let arg = registry.arg::<Query>("root", &());
    assert!(registry.contains(arg.arg_type.innermost_name()));
    assert_eq!(registry.get("Query").unwrap().name(), Some("Query"));
}

#[test]
fn schema_takes_the_names_that_its_roots_give_themselves() {
    let schema = SchemaType::new::<Query, Mutation, EmptySubscription>(&(), &(), &()).unwrap();
    assert_eq!(schema.query_type_name(), "Query");
    assert_eq!(schema.mutation_type_name(), Some("Mutation"));
    assert_eq!(schema.subscription_type_name(), None);
    assert_eq!(schema.description(), None);
    assert_eq!(schema.directive_list().len(), 4);
    let swapped = SchemaType::new::<Mutation, EmptyMutation, Query>(&(), &(), &()).unwrap();
    assert_eq!(swapped.query_type_name(), "Mutation");
    assert_eq!(swapped.mutation_type_name(), None);
    assert_eq!(swapped.subscription_type_name(), Some("Query"));
    let root = RootNode::new(Mutation, EmptyMutation::new(), Query).unwrap();
    assert_eq!(root.schema.query_type_name(), "Mutation");
    assert_eq!(root.schema.subscription_type_name(), Some("Query"));
    let lost = SchemaType::new::<Query, EmptyMutation, Forgetful>(&(), &(), &());
    assert_eq!(lost.err(), Some(SchemaError::RootTypeNotFound("Query".to_owned())));
}

#[test]
fn root_node_with_scalar_value_is_the_same_root_node() {
    let root =
        RootNode::new_with_scalar_value(Query, Mutation, EmptySubscription::new()).unwrap();
    let plain = RootNode::new(Query, Mutation, EmptySubscription::new()).unwrap();
    assert_eq!(root.schema.query_type_name(), "Query");
    assert_eq!(root.schema.mutation_type_name(), Some("Mutation"));
    assert_eq!(root.schema.subscription_type_name(), None);
    let names = |schema: &SchemaType| -> Vec<String> {
        schema.concrete_type_list().iter().map(|t| t.meta().key().to_owned()).collect()
    };
    assert_eq!(names(&root.schema), names(&plain.schema));
    for (a, b) in root.schema.concrete_type_list().iter().zip(plain.schema.concrete_type_list()) {
        assert!(a.same_entry(&b));
    }
    let failed = RootNode::new_with_scalar_value(
        ScalarRoot,
        EmptyMutation::new(),
        EmptySubscription::new(),
    );
    assert_eq!(failed.err(), Some(SchemaError::RootTypeNotObject("Query".to_owned())));
}

#[test]
fn build_succeeds_on_types_that_refer_to_each_other() {
    let mut registry = Registry::new();
    registry
        .insert(
            ObjectMeta::new("Query", vec![Field::new("me", Type::non_null_named("Person"))])
                .into_meta(),
        )
        .unwrap();
    registry
        .insert(
            ObjectMeta::new(
                "Person",
                vec![
                    Field::new("bestFriend", Type::named("Person")),
                    Field::new("friends", Type::non_null_list(Type::non_null_named("Person")))
                        .argument(Argument::new("first", Type::named("String"))),
                    Field::new("root", Type::non_null_named("Query")),
                    Field::new("kind", Type::named("__TypeKind")),
                ],
            )
            .into_meta(),
        )
        .unwrap();
    registry.insert(ScalarMeta::new("Boolean").into_meta()).unwrap();
    let schema = build(registry, "_EmptyMutation", "_EmptySubscription").unwrap();
    assert!(schema.concrete_type_list().iter().all(|t| !t.meta().is_placeholder()));
    let person = schema.concrete_type_by_name("Person").unwrap();
    assert_eq!(person.meta().references(), vec!["Person", "String", "Person", "Query", "__TypeKind"]);
    assert_eq!(person.id(), 1);
    assert_eq!(schema.concrete_type_by_name("Boolean").unwrap().id(), 2);
    assert_eq!(schema.concrete_type_by_name("__Schema").unwrap().id(), 3);
    assert_eq!(schema.concrete_query_type().id(), 0);
    assert_eq!(schema.concrete_type_list().len(), 12);
}
