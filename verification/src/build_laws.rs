//! When building a schema succeeds: the law, and the lemmas that lead to it.

use vstd::prelude::*;
use crate::ast::TypeExpr;
use crate::directive::{boolean_scalar, string_scalar};
use crate::introspection::{
    directive_location_meta, directive_meta, enum_value_meta, field_meta, filtered_field,
    input_value_meta, items, plain_field, required_items, schema_field, schema_meta, type_field,
    type_kind_meta, type_meta,
};
use crate::laws::{
    in_every_schema, law_first_dangling, law_first_placeholder, law_registering_keeps_names,
};
use crate::meta::{argument_references, field_references, FieldView, MetaView};
use crate::registry::{conflicts, declares, distinct_keys, position, registered, RegistryView};
use crate::error::SchemaFault;
use crate::schema::{
    build_fault, build_outcome, built, closed, described, extended, prepared, with_root_fields,
    SchemaView,
};

verus! {

/// Building from a prepared registry succeeds exactly where the registry met
/// no conflict, the query root is a registered object, every descriptor is
/// described, every name referred to is registered, and each of the other
/// two roots is registered or stands for an unused kind of operation.
pub proof fn law_build_fault(
    p: RegistryView,
    query: Seq<char>,
    mutation: Seq<char>,
    subscription: Seq<char>,
)
    ensures
        build_fault(p, query, mutation, subscription) is None <==> {
            &&& p.fault is None
            &&& declares(p.types, query)
            &&& p.types[position(p.types, query)] is Object
            &&& described(p.types)
            &&& closed(with_root_fields(p.types, query))
            &&& mutation == "_EmptyMutation"@ || declares(p.types, mutation)
            &&& subscription == "_EmptySubscription"@ || declares(p.types, subscription)
        },
{
    law_first_placeholder(p.types);
    law_first_dangling(with_root_fields(p.types, query));
}

/// The types that every schema has, each once.
pub open spec fn every_schema_types() -> Seq<MetaView> {
    seq![
        schema_meta(),
        type_meta(),
        type_kind_meta(),
        field_meta(),
        input_value_meta(),
        enum_value_meta(),
        directive_meta(),
        directive_location_meta(),
        boolean_scalar(),
        string_scalar(),
    ]
}

/// Whether every descriptor that has the name of a type that every schema
/// has is that type.
pub open spec fn keeps_to_every_schema(types: Seq<MetaView>) -> bool {
    forall|i: int, k: int|
        #![trigger types[i], every_schema_types()[k]]
        0 <= i < types.len() && 0 <= k < every_schema_types().len() && types[i].key()
            == every_schema_types()[k].key() ==> types[i] == every_schema_types()[k]
}

/// Whether every name that a descriptor refers to is registered or is the
/// name of a type that every schema has.
pub open spec fn closed_but_for_every_schema(types: Seq<MetaView>) -> bool {
    forall|i: int, k: int|
        0 <= i < types.len() && 0 <= k < types[i].references().len() ==> declares(
            types,
            #[trigger] types[i].references()[k],
        ) || in_every_schema(types[i].references()[k])
}

/// Whether a field refers to types that every schema has only.
spec fn field_within(f: FieldView) -> bool {
    forall|k: int|
        0 <= k < f.references().len() ==> in_every_schema(#[trigger] f.references()[k])
}

/// Whether a descriptor refers to types that every schema has only.
spec fn within(m: MetaView) -> bool {
    forall|k: int|
        0 <= k < m.references().len() ==> in_every_schema(#[trigger] m.references()[k])
}

/// A name that a list of fields refers to is one that one of the fields
/// refers to.
proof fn lemma_field_references(fields: Seq<FieldView>, k: int)
    requires
        0 <= k < field_references(fields).len(),
    ensures
        exists|i: int, l: int|
            0 <= i < fields.len() && 0 <= l < fields[i].references().len()
                && #[trigger] fields[i].references()[l] == field_references(fields)[k],
    decreases fields.len(),
{
    let before = field_references(fields.drop_last());
    if k < before.len() {
        lemma_field_references(fields.drop_last(), k);
        let (i, l) = choose|i: int, l: int|
            0 <= i < fields.drop_last().len() && 0 <= l < fields.drop_last()[i].references().len()
                && #[trigger] fields.drop_last()[i].references()[l] == before[k];
        assert(fields[i].references()[l] == field_references(fields)[k]);
    } else {
        let i = fields.len() - 1;
        let l = k - before.len();
        assert(fields[i].references()[l] == field_references(fields)[k]);
    }
}

/// An object that implements no interface and whose fields refer to types
/// that every schema has refers to such types only.
proof fn lemma_object_within(name: Seq<char>, fields: Seq<FieldView>)
    requires
        forall|i: int| 0 <= i < fields.len() ==> field_within(#[trigger] fields[i]),
    ensures
        within(crate::introspection::plain_object(name, fields)),
{
    let m = crate::introspection::plain_object(name, fields);
    assert(m.references() =~= field_references(fields));
    assert forall|k: int| 0 <= k < m.references().len() implies in_every_schema(
        #[trigger] m.references()[k],
    ) by {
        lemma_field_references(fields, k);
        let (i, l) = choose|i: int, l: int|
            0 <= i < fields.len() && 0 <= l < fields[i].references().len()
                && #[trigger] fields[i].references()[l] == field_references(fields)[k];
        assert(field_within(fields[i]));
    }
}

/// A field without arguments whose type is one that every schema has refers
/// to such types only; so does one that takes the argument of
/// `filtered_field` beside.
proof fn lemma_fields_within(name: Seq<char>, t: TypeExpr)
    requires
        in_every_schema(t.innermost_name()),
    ensures
        field_within(plain_field(name, t)),
        field_within(filtered_field(name, t)),
{
    let plain = plain_field(name, t);
    assert(plain.references() =~= seq![t.innermost_name()]);
    let filtered = filtered_field(name, t);
    assert(argument_references(filtered.arguments) =~= seq!["Boolean"@]);
    assert(filtered.references() =~= seq!["Boolean"@, t.innermost_name()]);
}

/// `__Schema` refers to types that every schema has only.
proof fn lemma_schema_meta_within()
    ensures
        within(schema_meta()),
{
    reveal_with_fuel(TypeExpr::innermost_name, 3);
    let fields = schema_meta()->Object_0.fields;
    lemma_fields_within("description"@, TypeExpr::Named("String"@));
    lemma_fields_within("types"@, required_items("__Type"@));
    lemma_fields_within("queryType"@, TypeExpr::NonNullNamed("__Type"@));
    lemma_fields_within("mutationType"@, TypeExpr::Named("__Type"@));
    lemma_fields_within("subscriptionType"@, TypeExpr::Named("__Type"@));
    lemma_fields_within("directives"@, required_items("__Directive"@));
    assert forall|i: int| 0 <= i < fields.len() implies field_within(#[trigger] fields[i]) by {
        if i == 0 {
        } else if i == 1 {
        } else if i == 2 {
        } else if i == 3 {
        } else if i == 4 {
        } else if i == 5 {
        }
    }
    lemma_object_within("__Schema"@, fields);
}

/// `__Type` refers to types that every schema has only.
proof fn lemma_type_meta_within()
    ensures
        within(type_meta()),
{
    reveal_with_fuel(TypeExpr::innermost_name, 3);
    let fields = type_meta()->Object_0.fields;
    lemma_fields_within("name"@, TypeExpr::Named("String"@));
    lemma_fields_within("description"@, TypeExpr::Named("String"@));
    lemma_fields_within("specifiedByUrl"@, TypeExpr::Named("String"@));
    lemma_fields_within("kind"@, TypeExpr::NonNullNamed("__TypeKind"@));
    lemma_fields_within("fields"@, items("__Field"@));
    lemma_fields_within("ofType"@, TypeExpr::Named("__Type"@));
    lemma_fields_within("inputFields"@, items("__InputValue"@));
    lemma_fields_within("interfaces"@, items("__Type"@));
    lemma_fields_within("possibleTypes"@, items("__Type"@));
    lemma_fields_within("enumValues"@, items("__EnumValue"@));
    assert forall|i: int| 0 <= i < fields.len() implies field_within(#[trigger] fields[i]) by {
        if i == 0 {
        } else if i == 1 {
        } else if i == 2 {
        } else if i == 3 {
        } else if i == 4 {
        } else if i == 5 {
        } else if i == 6 {
        } else if i == 7 {
        } else if i == 8 {
        } else if i == 9 {
        }
    }
    lemma_object_within("__Type"@, fields);
}

/// `__Field` refers to types that every schema has only.
proof fn lemma_field_meta_within()
    ensures
        within(field_meta()),
{
    reveal_with_fuel(TypeExpr::innermost_name, 3);
    let fields = field_meta()->Object_0.fields;
    lemma_fields_within("name"@, TypeExpr::NonNullNamed("String"@));
    lemma_fields_within("description"@, TypeExpr::Named("String"@));
    lemma_fields_within("args"@, required_items("__InputValue"@));
    lemma_fields_within("type"@, TypeExpr::NonNullNamed("__Type"@));
    lemma_fields_within("isDeprecated"@, TypeExpr::NonNullNamed("Boolean"@));
    lemma_fields_within("deprecationReason"@, TypeExpr::Named("String"@));
    assert forall|i: int| 0 <= i < fields.len() implies field_within(#[trigger] fields[i]) by {
        if i == 0 {
        } else if i == 1 {
        } else if i == 2 {
        } else if i == 3 {
        } else if i == 4 {
        } else if i == 5 {
        }
    }
    lemma_object_within("__Field"@, fields);
}

/// `__InputValue` refers to types that every schema has only.
proof fn lemma_input_value_meta_within()
    ensures
        within(input_value_meta()),
{
    reveal_with_fuel(TypeExpr::innermost_name, 3);
    let fields = input_value_meta()->Object_0.fields;
    lemma_fields_within("name"@, TypeExpr::NonNullNamed("String"@));
    lemma_fields_within("description"@, TypeExpr::Named("String"@));
    lemma_fields_within("type"@, TypeExpr::NonNullNamed("__Type"@));
    lemma_fields_within("defaultValue"@, TypeExpr::Named("String"@));
    assert forall|i: int| 0 <= i < fields.len() implies field_within(#[trigger] fields[i]) by {
        if i == 0 {
        } else if i == 1 {
        } else if i == 2 {
        } else if i == 3 {
        }
    }
    lemma_object_within("__InputValue"@, fields);
}

/// `__EnumValue` refers to types that every schema has only.
proof fn lemma_enum_value_meta_within()
    ensures
        within(enum_value_meta()),
{
    reveal_with_fuel(TypeExpr::innermost_name, 3);
    let fields = enum_value_meta()->Object_0.fields;
    lemma_fields_within("name"@, TypeExpr::NonNullNamed("String"@));
    lemma_fields_within("description"@, TypeExpr::Named("String"@));
    lemma_fields_within("isDeprecated"@, TypeExpr::NonNullNamed("Boolean"@));
    lemma_fields_within("deprecationReason"@, TypeExpr::Named("String"@));
    assert forall|i: int| 0 <= i < fields.len() implies field_within(#[trigger] fields[i]) by {
        if i == 0 {
        } else if i == 1 {
        } else if i == 2 {
        } else if i == 3 {
        }
    }
    lemma_object_within("__EnumValue"@, fields);
}

/// `__Directive` refers to types that every schema has only.
proof fn lemma_directive_meta_within()
    ensures
        within(directive_meta()),
{
    reveal_with_fuel(TypeExpr::innermost_name, 3);
    let fields = directive_meta()->Object_0.fields;
    lemma_fields_within("name"@, TypeExpr::NonNullNamed("String"@));
    lemma_fields_within("description"@, TypeExpr::Named("String"@));
    lemma_fields_within("locations"@, required_items("__DirectiveLocation"@));
    lemma_fields_within("isRepeatable"@, TypeExpr::NonNullNamed("Boolean"@));
    lemma_fields_within("args"@, required_items("__InputValue"@));
    assert forall|i: int| 0 <= i < fields.len() implies field_within(#[trigger] fields[i]) by {
        if i == 0 {
        } else if i == 1 {
        } else if i == 2 {
        } else if i == 3 {
        } else if i == 4 {
        }
    }
    lemma_object_within("__Directive"@, fields);
}

/// What holds of the types that every schema has: none is a placeholder,
/// each has a name of its own among the names of such types, and each
/// refers to such types only.
proof fn lemma_every_schema_types()
    ensures
        every_schema_types().len() == 10,
        forall|k: int|
            0 <= k < 10 ==> {
                let b = #[trigger] every_schema_types()[k];
                !(b is Placeholder) && in_every_schema(b.key()) && within(b)
            },
        forall|j: int, k: int|
            0 <= j < 10 && 0 <= k < 10 && (#[trigger] every_schema_types()[j]).key() == (
            #[trigger] every_schema_types()[k]).key() ==> j == k,
        forall|name: Seq<char>|
            in_every_schema(name) ==> exists|k: int|
                0 <= k < 10 && (#[trigger] every_schema_types()[k]).key() == name,
{
    let all = every_schema_types();
    reveal_strlit("__Schema");
    reveal_strlit("__Type");
    reveal_strlit("__TypeKind");
    reveal_strlit("__Field");
    reveal_strlit("__InputValue");
    reveal_strlit("__EnumValue");
    reveal_strlit("__Directive");
    reveal_strlit("__DirectiveLocation");
    reveal_strlit("Boolean");
    reveal_strlit("String");
    assert("__Schema"@.len() == 8);
    assert("__Type"@.len() == 6 && "__Type"@[0] == '_');
    assert("__TypeKind"@.len() == 10);
    assert("__Field"@.len() == 7 && "__Field"@[0] == '_');
    assert("__InputValue"@.len() == 12);
    assert("__EnumValue"@.len() == 11 && "__EnumValue"@[2] == 'E');
    assert("__Directive"@.len() == 11 && "__Directive"@[2] == 'D');
    assert("__DirectiveLocation"@.len() == 19);
    assert("Boolean"@.len() == 7 && "Boolean"@[0] == 'B');
    assert("String"@.len() == 6 && "String"@[0] == 'S');
    assert(all[0].key() == "__Schema"@);
    assert(all[1].key() == "__Type"@);
    assert(all[2].key() == "__TypeKind"@);
    assert(all[3].key() == "__Field"@);
    assert(all[4].key() == "__InputValue"@);
    assert(all[5].key() == "__EnumValue"@);
    assert(all[6].key() == "__Directive"@);
    assert(all[7].key() == "__DirectiveLocation"@);
    assert(all[8].key() == "Boolean"@);
    assert(all[9].key() == "String"@);
    lemma_schema_meta_within();
    lemma_type_meta_within();
    lemma_field_meta_within();
    lemma_input_value_meta_within();
    lemma_enum_value_meta_within();
    lemma_directive_meta_within();
    assert(within(all[2]));
    assert(within(all[7]));
    assert(within(all[8]));
    assert(within(all[9]));
}

/// Registering a type that every schema has, in a registry that keeps to
/// such types, meets no conflict and keeps what held.
proof fn lemma_prepare_step(t: Seq<MetaView>, k: int, query: Seq<char>)
    requires
        0 <= k < 10,
        distinct_keys(t),
        described(t),
        keeps_to_every_schema(t),
        closed_but_for_every_schema(t),
        declares(t, query),
        t[position(t, query)] is Object,
    ensures
        ({
            let m = every_schema_types()[k];
            let after = registered(t, m);
            &&& !conflicts(t, m)
            &&& distinct_keys(after)
            &&& described(after)
            &&& keeps_to_every_schema(after)
            &&& closed_but_for_every_schema(after)
            &&& declares(after, query)
            &&& after[position(after, query)] is Object
            &&& declares(after, m.key())
            &&& forall|name: Seq<char>| declares(t, name) ==> #[trigger] declares(after, name)
        }),
{
    lemma_every_schema_types();
    let m = every_schema_types()[k];
    let after = registered(t, m);
    law_registering_keeps_names(t, m, query);
    assert forall|name: Seq<char>| declares(t, name) implies #[trigger] declares(after, name) by {
        law_registering_keeps_names(t, m, name);
    }
    if declares(t, m.key()) {
        let at = position(t, m.key());
        assert(t[at].key() == every_schema_types()[k].key());
        assert(t[at] == m);
        assert(after == t);
    } else {
        assert(after == t.push(m));
        assert forall|i: int, j: int|
            #![trigger after[i], every_schema_types()[j]]
            0 <= i < after.len() && 0 <= j < every_schema_types().len() && after[i].key()
                == every_schema_types()[j].key() implies after[i] == every_schema_types()[j] by {
            if i < t.len() {
                assert(after[i] == t[i]);
            }
        }
        assert forall|i: int, l: int|
            0 <= i < after.len() && 0 <= l < after[i].references().len() implies declares(
            after,
            #[trigger] after[i].references()[l],
        ) || in_every_schema(after[i].references()[l]) by {
            if i < t.len() {
                assert(after[i] == t[i]);
                assert(declares(t, t[i].references()[l]) || in_every_schema(
                    t[i].references()[l],
                ));
            } else {
                assert(within(m));
            }
        }
        let at = position(t, query);
        assert(after[at] == t[at]);
        assert(after[at].key() == query);
        assert(described(after)) by {
            assert forall|i: int| 0 <= i < after.len() implies !((
            #[trigger] after[i]) is Placeholder) by {
                if i < t.len() {
                    assert(after[i] == t[i]);
                }
            }
        }
    }
}

/// A name that one of the fields refers to is one that the list of fields
/// refers to.
proof fn lemma_field_reference_kept(fields: Seq<FieldView>, i: int, l: int)
    requires
        0 <= i < fields.len(),
        0 <= l < fields[i].references().len(),
    ensures
        exists|k: int|
            0 <= k < field_references(fields).len() && #[trigger] field_references(fields)[k]
                == fields[i].references()[l],
    decreases fields.len(),
{
    let before = field_references(fields.drop_last());
    if i < fields.len() - 1 {
        lemma_field_reference_kept(fields.drop_last(), i, l);
        let k = choose|k: int|
            0 <= k < before.len() && #[trigger] before[k] == fields.drop_last()[i].references()[l];
        assert(field_references(fields)[k] == fields[i].references()[l]);
    } else {
        assert(field_references(fields)[before.len() + l] == fields[i].references()[l]);
    }
}

/// Giving the query root its two fields keeps every name registered and
/// every name referred to registered, where the three types that the two
/// fields refer to are registered.
proof fn lemma_root_fields_closed(t: Seq<MetaView>, query: Seq<char>)
    requires
        distinct_keys(t),
        closed(t),
        declares(t, query),
        t[position(t, query)] is Object,
        declares(t, "__Schema"@),
        declares(t, "__Type"@),
        declares(t, "String"@),
    ensures
        closed(with_root_fields(t, query)),
        forall|name: Seq<char>| #[trigger]
            declares(with_root_fields(t, query), name) == declares(t, name),
{
    let at = position(t, query);
    let w = with_root_fields(t, query);
    let old_root = t[at]->Object_0;
    let new_root = w[at]->Object_0;
    assert(w[at] == extended(t[at]));
    assert forall|i: int| 0 <= i < t.len() implies (#[trigger] w[i]).key() == t[i].key() by {
        if i != at {
            assert(w[i] == t[i]);
        }
    }
    assert forall|name: Seq<char>| #[trigger] declares(w, name) == declares(t, name) by {
        if declares(t, name) {
            assert(w[position(t, name)].key() == name);
        }
        if declares(w, name) {
            assert(t[position(w, name)].key() == name);
        }
    }
    assert(schema_field().references() =~= seq!["__Schema"@]);
    assert(argument_references(type_field().arguments) =~= seq!["String"@]);
    assert(type_field().references() =~= seq!["String"@, "__Type"@]);
    assert forall|i: int, l: int|
        0 <= i < w.len() && 0 <= l < w[i].references().len() implies declares(
        w,
        #[trigger] w[i].references()[l],
    ) by {
        if i != at {
            assert(w[i] == t[i]);
            assert(declares(t, t[i].references()[l]));
        } else {
            let refs = field_references(new_root.fields);
            if l < refs.len() {
                lemma_field_references(new_root.fields, l);
                let (f, g) = choose|f: int, g: int|
                    0 <= f < new_root.fields.len() && 0 <= g < new_root.fields[f].references().len()
                        && #[trigger] new_root.fields[f].references()[g] == refs[l];
                if f < old_root.fields.len() {
                    assert(new_root.fields[f] == old_root.fields[f]);
                    lemma_field_reference_kept(old_root.fields, f, g);
                    let k = choose|k: int|
                        0 <= k < field_references(old_root.fields).len()
                            && #[trigger] field_references(old_root.fields)[k]
                            == old_root.fields[f].references()[g];
                    assert(t[at].references()[k] == refs[l]);
                    assert(declares(t, t[at].references()[k]));
                } else if f == old_root.fields.len() {
                    assert(new_root.fields[f] == schema_field());
                } else {
                    assert(new_root.fields[f] == type_field());
                }
            } else {
                let k = field_references(old_root.fields).len() + (l - refs.len());
                assert(t[at].references()[k] == w[at].references()[l]);
                assert(declares(t, t[at].references()[k]));
            }
        }
    }
}

/// Building succeeds for every registry that met no conflict and in which
/// every descriptor is described, every name referred to is registered or
/// is the name of a type that every schema has, no descriptor takes the
/// name of such a type but that type itself, the query root is a registered
/// object, and each of the other two roots is registered or stands for an
/// unused kind of operation. That types refer to each other in a circle,
/// or a type to itself, stands in no way.
pub proof fn law_build_succeeds(
    r: RegistryView,
    query: Seq<char>,
    mutation: Seq<char>,
    subscription: Seq<char>,
)
    requires
        distinct_keys(r.types),
        r.fault is None,
        described(r.types),
        closed_but_for_every_schema(r.types),
        keeps_to_every_schema(r.types),
        declares(r.types, query),
        r.types[position(r.types, query)] is Object,
        mutation == "_EmptyMutation"@ || declares(r.types, mutation),
        subscription == "_EmptySubscription"@ || declares(r.types, subscription),
    ensures
        build_fault(prepared(r), query, mutation, subscription) is None,
        build_outcome(r, query, mutation, subscription) == Ok::<SchemaView, SchemaFault>(
            built(prepared(r), query, mutation, subscription),
        ),
{
    lemma_every_schema_types();
    let all = every_schema_types();
    assert(all[0] == schema_meta());
    assert(all[1] == type_meta());
    assert(all[2] == type_kind_meta());
    assert(all[3] == field_meta());
    assert(all[4] == input_value_meta());
    assert(all[5] == enum_value_meta());
    assert(all[6] == directive_meta());
    assert(all[7] == directive_location_meta());
    assert(all[8] == boolean_scalar());
    assert(all[9] == string_scalar());
    let r0 = r;
    lemma_prepare_step(r0.types, 0, query);
    let r1 = r0.insert(all[0]);
    lemma_prepare_step(r1.types, 1, query);
    let r2 = r1.insert(all[1]);
    lemma_prepare_step(r2.types, 2, query);
    let r3 = r2.insert(all[2]);
    lemma_prepare_step(r3.types, 3, query);
    let r4 = r3.insert(all[3]);
    lemma_prepare_step(r4.types, 4, query);
    let r5 = r4.insert(all[4]);
    lemma_prepare_step(r5.types, 5, query);
    let r6 = r5.insert(all[5]);
    lemma_prepare_step(r6.types, 6, query);
    let r7 = r6.insert(all[6]);
    lemma_prepare_step(r7.types, 7, query);
    let r8 = r7.insert(all[7]);
    lemma_prepare_step(r8.types, 8, query);
    let r9 = r8.insert(all[8]);
    lemma_prepare_step(r9.types, 8, query);
    let r10 = r9.insert(all[8]);
    lemma_prepare_step(r10.types, 9, query);
    let r11 = r10.insert(all[9]);
    lemma_prepare_step(r11.types, 9, query);
    let r12 = r11.insert(all[9]);
    let p = prepared(r);
    assert(p == r12);
    assert(p.fault is None);
    assert forall|name: Seq<char>| in_every_schema(name) implies declares(p.types, name) by {
        let k = choose|k: int| 0 <= k < 10 && (#[trigger] all[k]).key() == name;
        assert(declares(p.types, all[k].key()));
    }
    assert(closed(p.types)) by {
        assert forall|i: int, k: int|
            0 <= i < p.types.len() && 0 <= k < p.types[i].references().len() implies declares(
            p.types,
            #[trigger] p.types[i].references()[k],
        ) by {
            assert(declares(p.types, p.types[i].references()[k]) || in_every_schema(
                p.types[i].references()[k],
            ));
        }
    }
    assert(in_every_schema("__Schema"@) && in_every_schema("__Type"@) && in_every_schema(
        "String"@,
    ));
    lemma_root_fields_closed(p.types, query);
    law_build_fault(p, query, mutation, subscription);
}

} // verus!


