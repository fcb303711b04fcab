use graphql_schema::{
    Field, InterfaceMeta, MetaType, ObjectMeta, Registry, ScalarMeta, SchemaType, Type, TypeRef,
    TypeType, UnionMeta,
};

fn names(list: &[&str]) -> Vec<String> {
    list.iter().map(|n| (*n).to_owned()).collect()
}

fn name_field() -> Vec<Field> {
    vec![Field::new("name", Type::named("String"))]
}

fn star_wars() -> SchemaType {
    star_wars_with(name_field(), false)
}

fn star_wars_with(human_fields: Vec<Field>, rock_first: bool) -> SchemaType {
    let mut registry = Registry::new();
    if rock_first {
        registry
            .insert(
                ObjectMeta::new("Rock", vec![Field::new("weight", Type::named("Int"))])
                    .into_meta(),
            )
            .unwrap();
    }
    let query = ObjectMeta::new(
        "Query",
        vec![
            Field::new("hero", Type::named("Character")),
            Field::new("search", Type::non_null_list(Type::non_null_named("SearchResult"))),
        ],
    );
    registry.insert(query.into_meta()).unwrap();
    registry.insert(InterfaceMeta::new("Character", name_field()).into_meta()).unwrap();
    registry
        .insert(ObjectMeta::new("Human", human_fields).interfaces(names(&["Character"])).into_meta())
        .unwrap();
    registry
        .insert(ObjectMeta::new("Rock", vec![Field::new("weight", Type::named("Int"))]).into_meta())
        .unwrap();
    registry
        .insert(
            ObjectMeta::new("Droid", name_field())
                .interfaces(names(&["Machine", "Character"]))
                .into_meta(),
        )
        .unwrap();
    registry.insert(InterfaceMeta::new("Machine", Vec::new()).into_meta()).unwrap();
    registry.insert(InterfaceMeta::new("Lonely", Vec::new()).into_meta()).unwrap();
    registry.insert(ScalarMeta::new("Int").into_meta()).unwrap();
    registry.insert(UnionMeta::new("SearchResult", names(&["Human", "Rock"])).into_meta()).unwrap();
    registry.insert(UnionMeta::new("Living", names(&["Droid", "Human"])).into_meta()).unwrap();
    registry.insert(UnionMeta::new("Minerals", names(&["Rock"])).into_meta()).unwrap();
    SchemaType::build(
        registry,
        "Query".to_owned(),
        "_EmptyMutation".to_owned(),
        "_EmptySubscription".to_owned(),
    )
    .unwrap()
}

fn assert_single_non_null_layers(t: &TypeType) {
    match t {
        TypeType::Concrete(_) => {}
        TypeType::NonNull(inner) => {
            assert!(!inner.is_non_null());
            assert_single_non_null_layers(inner);
        }
        TypeType::List(inner, _) => assert_single_non_null_layers(inner),
    }
}

fn entry<'a>(schema: &'a SchemaType, name: &str) -> TypeRef<'a> {
    schema.concrete_type_by_name(name).unwrap()
}

fn keys(types: &[TypeRef]) -> Vec<String> {
    types.iter().map(|t| t.meta().key().to_owned()).collect()
}

#[test]
fn possible_types_of_an_interface_are_its_implementors() {
    let schema = star_wars();
    let character = entry(&schema, "Character");
    let possible = schema.possible_types(character.meta());
    assert_eq!(keys(&possible), vec!["Human", "Droid"]);
    assert_eq!(possible[0].id(), entry(&schema, "Human").id());
    assert_eq!(possible[1].id(), entry(&schema, "Droid").id());
    let machine = entry(&schema, "Machine");
    assert_eq!(keys(&schema.possible_types(machine.meta())), vec!["Droid"]);
    let lonely = entry(&schema, "Lonely");
    assert!(schema.possible_types(lonely.meta()).is_empty());
}

#[test]
fn possible_types_of_a_union_are_exactly_its_members() {
    let schema = star_wars();
    let search = entry(&schema, "SearchResult");
    let possible = schema.possible_types(search.meta());
    assert_eq!(possible.len(), 2);
    let mut found = keys(&possible);
    found.sort();
    assert_eq!(found, vec!["Human", "Rock"]);
    assert_ne!(possible[0].id(), possible[1].id());
    assert_eq!(possible[0].meta(), entry(&schema, "Human").meta());
    assert_eq!(possible[1].meta(), entry(&schema, "Rock").meta());
    let living = entry(&schema, "Living");
    assert_eq!(keys(&schema.possible_types(living.meta())), vec!["Droid", "Human"]);
}

#[test]
fn possible_types_of_a_foreign_union_skip_unknown_members() {
    let schema = star_wars();
    let foreign = UnionMeta::new("Foreign", names(&["Nobody", "Rock", "Nothing"])).into_meta();
    let possible = schema.possible_types(&foreign);
    assert_eq!(keys(&possible), vec!["Rock"]);
    assert_eq!(possible[0].id(), entry(&schema, "Rock").id());
}

#[test]
fn implementor_is_a_possible_type_and_overlaps() {
    let schema = star_wars();
    let character = entry(&schema, "Character");
    for name in ["Human", "Droid"] {
        let object = entry(&schema, name);
        assert!(schema.is_possible_type(character.meta(), object));
        assert!(schema.type_overlap(character, object));
        assert!(schema.type_overlap(object, character));
    }
    let rock = entry(&schema, "Rock");
    assert!(!schema.is_possible_type(character.meta(), rock));
    assert!(!schema.type_overlap(character, rock));
    assert!(!schema.type_overlap(rock, character));
}

#[test]
fn is_possible_type_goes_by_entry() {
    let schema = star_wars();
    let search = entry(&schema, "SearchResult");
    assert!(schema.is_possible_type(search.meta(), entry(&schema, "Human")));
    assert!(schema.is_possible_type(search.meta(), entry(&schema, "Rock")));
    assert!(!schema.is_possible_type(search.meta(), entry(&schema, "Droid")));
    assert!(!schema.is_possible_type(search.meta(), entry(&schema, "Query")));
    assert!(!schema.is_possible_type(search.meta(), entry(&schema, "SearchResult")));
}

#[test]
fn entry_of_another_schema_is_no_possible_type() {
    let schema = star_wars();
    let search = entry(&schema, "SearchResult");
    let character = entry(&schema, "Character");
    let human = entry(&schema, "Human");

    let changed = star_wars_with(vec![Field::new("title", Type::named("String"))], false);
    let same_place = entry(&changed, "Human");
    assert_eq!(same_place.id(), human.id());
    assert_eq!(same_place.meta().name(), human.meta().name());
    assert!(!schema.is_possible_type(search.meta(), same_place));
    assert!(!schema.is_possible_type(character.meta(), same_place));
    assert!(changed.is_possible_type(search.meta(), same_place));
    assert!(!changed.is_possible_type(search.meta(), human));

    let moved = star_wars_with(name_field(), true);
    let other_place = entry(&moved, "Human");
    assert_ne!(other_place.id(), human.id());
    assert_eq!(other_place.meta(), human.meta());
    assert!(!schema.is_possible_type(search.meta(), other_place));
    assert!(!schema.is_possible_type(character.meta(), other_place));
    assert!(moved.is_possible_type(character.meta(), other_place));
    assert!(schema.is_possible_type(search.meta(), human));
}

#[test]
fn entry_of_another_schema_overlaps_only_with_itself() {
    let schema = star_wars();
    let search = entry(&schema, "SearchResult");
    let character = entry(&schema, "Character");
    let human = entry(&schema, "Human");
    let changed = star_wars_with(vec![Field::new("title", Type::named("String"))], false);
    let foreign = entry(&changed, "Human");
    assert_eq!(foreign.id(), human.id());
    assert!(!foreign.same_entry(&human));
    assert!(!human.same_entry(&foreign));
    assert!(human.same_entry(&human));
    assert!(!schema.type_overlap(foreign, human));
    assert!(!schema.type_overlap(human, foreign));
    assert!(!schema.type_overlap(search, foreign));
    assert!(!schema.type_overlap(foreign, search));
    assert!(!schema.type_overlap(character, foreign));
    assert!(schema.type_overlap(foreign, foreign));
    assert!(schema.type_overlap(search, human));

    let moved = star_wars_with(name_field(), true);
    let elsewhere = entry(&moved, "Human");
    assert!(!elsewhere.same_entry(&human));
    assert!(!schema.type_overlap(character, elsewhere));
    assert!(!schema.type_overlap(elsewhere, character));
    assert!(!schema.is_named_subtype("Nobody", "Character"));
}

#[test]
fn two_different_objects_do_not_overlap() {
    let schema = star_wars();
    let human = entry(&schema, "Human");
    let droid = entry(&schema, "Droid");
    let rock = entry(&schema, "Rock");
    assert_ne!(human.id(), droid.id());
    assert!(!schema.type_overlap(human, droid));
    assert!(!schema.type_overlap(droid, human));
    assert!(!schema.type_overlap(human, rock));
    assert!(!schema.type_overlap(entry(&schema, "Int"), rock));
}

#[test]
fn every_type_overlaps_with_itself() {
    let schema = star_wars();
    for t in schema.concrete_type_list() {
        assert!(schema.type_overlap(t, t));
        assert!(t.same_entry(&t));
    }
}

#[test]
fn abstract_types_overlap_where_they_share_a_possible_type() {
    let schema = star_wars();
    let character = entry(&schema, "Character");
    let search = entry(&schema, "SearchResult");
    let living = entry(&schema, "Living");
    let minerals = entry(&schema, "Minerals");
    let machine = entry(&schema, "Machine");
    let lonely = entry(&schema, "Lonely");
    assert!(schema.type_overlap(character, search));
    assert!(schema.type_overlap(search, character));
    assert!(schema.type_overlap(character, living));
    assert!(schema.type_overlap(search, minerals));
    assert!(schema.type_overlap(machine, living));
    assert!(!schema.type_overlap(character, minerals));
    assert!(!schema.type_overlap(minerals, character));
    assert!(!schema.type_overlap(machine, search));
    assert!(!schema.type_overlap(lonely, character));
    assert!(!schema.type_overlap(character, lonely));
    assert!(schema.type_overlap(lonely, lonely));
}

#[test]
fn named_type_is_a_subtype_of_itself() {
    let schema = star_wars();
    for t in schema.concrete_type_list() {
        let name = t.meta().key();
        assert!(schema.is_named_subtype(name, name), "{}", name);
    }
    assert!(schema.is_named_subtype("Unknown", "Unknown"));
}

#[test]
fn named_subtype_follows_possible_types() {
    let schema = star_wars();
    assert!(schema.is_named_subtype("Human", "Character"));
    assert!(schema.is_named_subtype("Droid", "Character"));
    assert!(schema.is_named_subtype("Droid", "Machine"));
    assert!(schema.is_named_subtype("Human", "SearchResult"));
    assert!(schema.is_named_subtype("Rock", "SearchResult"));
    assert!(!schema.is_named_subtype("Character", "Human"));
    assert!(!schema.is_named_subtype("Rock", "Character"));
    assert!(!schema.is_named_subtype("Droid", "SearchResult"));
    assert!(!schema.is_named_subtype("Human", "Rock"));
    assert!(!schema.is_named_subtype("Human", "Unknown"));
    assert!(!schema.is_named_subtype("Unknown", "Character"));
    assert!(!schema.is_named_subtype("Human", "human"));
    assert!(!schema.is_named_subtype("SearchResult", "Character"));
}

#[test]
fn non_null_items_are_a_subtype_of_nullable_items() {
    let schema = star_wars();
    let sub = Type::list(Type::non_null_named("String"));
    let sup = Type::list(Type::named("String"));
    assert!(schema.is_subtype(&sub, &sup));
    assert!(!schema.is_subtype(&sup, &sub));
}

#[test]
fn nullable_is_no_subtype_of_non_null() {
    let schema = star_wars();
    assert!(!schema.is_subtype(&Type::named("String"), &Type::non_null_named("String")));
    assert!(schema.is_subtype(&Type::non_null_named("String"), &Type::named("String")));
    assert!(!schema.is_subtype(
        &Type::list(Type::named("String")),
        &Type::non_null_list(Type::named("String"))
    ));
    assert!(schema.is_subtype(
        &Type::non_null_list(Type::named("String")),
        &Type::list(Type::named("String"))
    ));
}

#[test]
fn subtype_follows_the_layers() {
    let schema = star_wars();
    let human = Type::named("Human");
    let character = Type::named("Character");
    assert!(schema.is_subtype(&human, &character));
    assert!(!schema.is_subtype(&character, &human));
    assert!(schema.is_subtype(&Type::non_null_named("Human"), &character));
    assert!(schema.is_subtype(&Type::non_null_named("Human"), &Type::non_null_named("Character")));
    assert!(!schema.is_subtype(&human, &Type::non_null_named("Character")));
    assert!(schema.is_subtype(
        &Type::non_null_list(Type::non_null_named("Human")),
        &Type::list(Type::named("Character"))
    ));
    assert!(schema.is_subtype(
        &Type::list(Type::list(Type::non_null_named("Droid"))),
        &Type::list(Type::list(Type::named("Machine")))
    ));
    assert!(!schema.is_subtype(&Type::list(Type::named("Human")), &character));
    assert!(!schema.is_subtype(&human, &Type::list(Type::named("Character"))));
    assert!(!schema.is_subtype(
        &Type::list(Type::named("Rock")),
        &Type::list(Type::named("Character"))
    ));
    assert!(schema.is_subtype(&Type::named("Unknown"), &Type::named("Unknown")));
}

#[test]
fn subtype_looks_through_size_hints() {
    let schema = star_wars();
    let sized = Type::List(Box::new(Type::named("Human")), Some(2));
    let other = Type::List(Box::new(Type::named("Character")), Some(3));
    let plain = Type::list(Type::named("Human"));
    assert_ne!(sized, plain);
    assert!(schema.is_subtype(&sized, &other));
    assert!(schema.is_subtype(&sized, &plain));
    assert!(schema.is_subtype(&plain, &sized));
    assert!(!schema.is_subtype(&other, &sized));
}

#[test]
fn make_type_mirrors_the_layers() {
    let schema = star_wars();
    let human = entry(&schema, "Human");
    let cases = [
        (Type::named("Human"), "Human"),
        (Type::non_null_named("Human"), "Human!"),
        (Type::list(Type::named("Human")), "[Human]"),
        (Type::list(Type::non_null_named("Human")), "[Human!]"),
        (Type::non_null_list(Type::named("Human")), "[Human]!"),
        (Type::non_null_list(Type::non_null_named("Human")), "[Human!]!"),
        (Type::list(Type::non_null_list(Type::non_null_named("Human"))), "[[Human!]!]"),
    ];
    for (usage, text) in cases.iter() {
        assert!(schema.lookup_type(usage).is_some());
        let made = schema.make_type(usage);
        assert_eq!(made.to_string(), *text);
        assert_eq!(made.innermost_concrete().id(), human.id());
        assert_eq!(made.is_non_null(), usage.is_non_null());
    }
}

#[test]
fn make_type_never_stacks_non_null_layers() {
    let schema = star_wars();
    let made = schema.make_type(&Type::non_null_list(Type::non_null_list(Type::non_null_named(
        "Rock",
    ))));
    assert_single_non_null_layers(&made);
    assert_eq!(made.to_string(), "[[Rock!]!]!");
}

#[test]
fn make_type_keeps_size_hints() {
    let schema = star_wars();
    let made = schema.make_type(&Type::NonNullList(Box::new(Type::named("Rock")), Some(3)));
    match made {
        TypeType::NonNull(inner) => match *inner {
            TypeType::List(_, size) => assert_eq!(size, Some(3)),
            _ => panic!("a list under the non-null layer"),
        },
        _ => panic!("a non-null layer"),
    }
}

#[test]
fn navigator_finds_list_contents() {
    let schema = star_wars();
    let made = schema.make_type(&Type::non_null_list(Type::non_null_named("Human")));
    let contents = made.list_contents().unwrap();
    assert_eq!(contents.to_string(), "Human!");
    assert!(contents.is_non_null());
    assert!(contents.list_contents().is_none());
    assert!(made.to_concrete().is_none());

    let nested = schema.make_type(&Type::list(Type::list(Type::named("Rock"))));
    let outer = nested.list_contents().unwrap();
    assert_eq!(outer.to_string(), "[Rock]");
    assert_eq!(outer.list_contents().unwrap().to_string(), "Rock");

    let plain = schema.make_type(&Type::named("Human"));
    assert!(plain.list_contents().is_none());
    assert!(!plain.is_non_null());
    assert_eq!(plain.to_concrete().unwrap().id(), entry(&schema, "Human").id());
    let required = schema.make_type(&Type::non_null_named("Human"));
    assert!(required.list_contents().is_none());
    assert!(required.to_concrete().is_none());
    assert_eq!(required.innermost_concrete().meta(), entry(&schema, "Human").meta());
}

#[test]
fn navigator_clone_is_the_same_type() {
    let schema = star_wars();
    let made = schema.make_type(&Type::non_null_list(Type::named("Droid")));
    let copy = made.clone();
    assert_eq!(copy.to_string(), made.to_string());
    assert_eq!(copy.innermost_concrete().id(), made.innermost_concrete().id());
}

#[test]
fn lookups_by_name_find_registered_types_only() {
    let schema = star_wars();
    assert!(schema.type_by_name("Human").is_some());
    assert_eq!(schema.type_by_name("Human").unwrap().to_string(), "Human");
    assert!(schema.type_by_name("human").is_none());
    assert!(schema.type_by_name("").is_none());
    assert!(schema.concrete_type_by_name("Nobody").is_none());
    assert!(schema.lookup_type(&Type::list(Type::non_null_named("Nobody"))).is_none());
    let found = schema.lookup_type(&Type::non_null_list(Type::named("Droid"))).unwrap();
    assert_eq!(found.meta().name(), Some("Droid"));
    assert_eq!(found.id(), entry(&schema, "Droid").id());
    assert!(matches!(entry(&schema, "Character").meta(), MetaType::Interface(_)));
}
