//! What holds of every schema, proved from the definitions that the
//! contracts of the schema's operations use.

use vstd::prelude::*;
use crate::ast::TypeExpr;
use crate::meta::MetaView;
use crate::navigator::TypeRefView;
use crate::error::SchemaFault;
use crate::registry::{
    conflicts, declares, distinct_keys, gives_name, position, registered, EmptyMutation,
    EmptySubscription, GraphQLType, RegistryView,
};
use crate::directive::{boolean_scalar, string_scalar};
use crate::introspection::{
    directive_location_meta, directive_meta, enum_value_meta, field_meta, input_value_meta,
    schema_meta, type_kind_meta, type_meta,
};
use crate::schema::{
    build_fault, built, built_of_roots, closed, dangling_at, described, extended,
    first_dangling, first_placeholder, placeholder_at, prepared, SchemaView,
};

verus! {

/// The implementors of an interface among the first `n` entries are the
/// objects among them that name the interface.
pub proof fn lemma_implementors(schema: SchemaView, interface: Seq<char>, n: int)
    requires
        0 <= n <= schema.types.len(),
    ensures
        forall|id: int| #[trigger]
            schema.implementors(interface, n).contains(id) <==> 0 <= id < n
                && schema.types[id].implements(interface),
    decreases n,
{
    if n > 0 {
        lemma_implementors(schema, interface, n - 1);
        let rest = schema.implementors(interface, n - 1);
        let all = schema.implementors(interface, n);
        assert forall|id: int| #[trigger]
            all.contains(id) <==> 0 <= id < n && schema.types[id].implements(interface) by {
            if schema.types[n - 1].implements(interface) {
                if all.contains(id) {
                    let k = choose|k: int| 0 <= k < all.len() && all[k] == id;
                    if k < rest.len() {
                        assert(rest.contains(id));
                    }
                }
                if 0 <= id < n && schema.types[id].implements(interface) {
                    if id == n - 1 {
                        assert(all[rest.len() as int] == id);
                    } else {
                        assert(rest.contains(id));
                        let k = choose|k: int| 0 <= k < rest.len() && rest[k] == id;
                        assert(all[k] == id);
                    }
                }
            }
        }
    }
}

/// Where the first `n` of `names` are all registered, their members are
/// their entries, name by name.
pub proof fn lemma_members(schema: SchemaView, names: Seq<Seq<char>>, n: int)
    requires
        0 <= n <= names.len(),
        forall|k: int| 0 <= k < n ==> declares(schema.types, #[trigger] names[k]),
    ensures
        schema.members(names, n).len() == n,
        forall|k: int|
            0 <= k < n ==> #[trigger] schema.members(names, n)[k] == position(
                schema.types,
                names[k],
            ),
    decreases n,
{
    if n > 0 {
        lemma_members(schema, names, n - 1);
    }
}

/// The members among the first `n` of `names` are the entries that some
/// registered name among them is registered under.
pub proof fn lemma_members_contain(schema: SchemaView, names: Seq<Seq<char>>, n: int)
    requires
        0 <= n <= names.len(),
    ensures
        forall|id: int| #[trigger]
            schema.members(names, n).contains(id) <==> exists|k: int|
                0 <= k < n && declares(schema.types, #[trigger] names[k]) && id == position(
                    schema.types,
                    names[k],
                ),
    decreases n,
{
    if n > 0 {
        lemma_members_contain(schema, names, n - 1);
        let rest = schema.members(names, n - 1);
        let all = schema.members(names, n);
        assert forall|id: int| #[trigger]
            all.contains(id) <==> exists|k: int|
                0 <= k < n && declares(schema.types, #[trigger] names[k]) && id == position(
                    schema.types,
                    names[k],
                ) by {
            if all.contains(id) {
                let i = choose|i: int| 0 <= i < all.len() && all[i] == id;
                if i < rest.len() {
                    assert(rest.contains(id));
                }
            }
            if exists|k: int|
                0 <= k < n && declares(schema.types, #[trigger] names[k]) && id == position(
                    schema.types,
                    names[k],
                ) {
                let k = choose|k: int|
                    0 <= k < n && declares(schema.types, #[trigger] names[k]) && id == position(
                        schema.types,
                        names[k],
                    );
                if k < n - 1 {
                    assert(rest.contains(id));
                    let i = choose|i: int| 0 <= i < rest.len() && rest[i] == id;
                    assert(all[i] == id);
                } else {
                    assert(all[rest.len() as int] == id);
                }
            }
        }
    }
}

/// The positions of the possible types of an interface are exactly those of
/// the objects of the schema that name it among the interfaces they
/// implement; those of a union are exactly the positions that its members
/// are registered at. The entry at each is a possible type.
pub proof fn law_possible_types(schema: SchemaView, t: MetaView, id: int)
    requires
        t.is_abstract(),
    ensures
        t matches MetaView::Interface(i) ==> (schema.possible_types(t).contains(id) <==> 0 <= id
            < schema.types.len() && schema.types[id].implements(i.name)),
        t matches MetaView::Union(u) ==> (schema.possible_types(t).contains(id) <==> exists|k: int|
            0 <= k < u.of_type_names.len() && declares(
                schema.types,
                #[trigger] u.of_type_names[k],
            ) && id == position(schema.types, u.of_type_names[k])),
        schema.possible_types(t).contains(id) ==> 0 <= id < schema.types.len()
            && schema.is_possible_type(t, schema.entry(id)),
{
    match t {
        MetaView::Interface(i) => {
            lemma_implementors(schema, i.name, schema.types.len() as int);
        },
        MetaView::Union(u) => {
            lemma_members_contain(schema, u.of_type_names, u.of_type_names.len() as int);
        },
        _ => {},
    }
}

/// Registering keeps every registered name registered, and keeps the names
/// distinct.
pub proof fn law_registering_keeps_names(types: Seq<MetaView>, meta: MetaView, name: Seq<char>)
    requires
        distinct_keys(types),
    ensures
        distinct_keys(registered(types, meta)),
        declares(registered(types, meta), meta.key()),
        declares(types, name) ==> declares(registered(types, meta), name),
        declares(registered(types, meta), name) ==> declares(types, name) || name == meta.key(),
{
    let after = registered(types, meta);
    if !declares(types, meta.key()) {
        assert(after[types.len() as int].key() == meta.key());
    } else {
        assert(after[position(types, meta.key())].key() == meta.key());
    }
    if declares(types, name) {
        assert(after[position(types, name)].key() == name);
    }
    if declares(after, name) {
        assert(after[position(after, name)].key() == name);
    }
}

/// Whether `name` is the name of a type that every schema has.
pub open spec fn in_every_schema(name: Seq<char>) -> bool {
    ||| name == "__Schema"@
    ||| name == "__Type"@
    ||| name == "__TypeKind"@
    ||| name == "__Field"@
    ||| name == "__InputValue"@
    ||| name == "__EnumValue"@
    ||| name == "__Directive"@
    ||| name == "__DirectiveLocation"@
    ||| name == "Boolean"@
    ||| name == "String"@
}

/// Preparing a registry keeps its names, adds those of the types that every
/// schema has, and adds no other.
pub proof fn law_prepared_names(r: RegistryView, name: Seq<char>)
    requires
        distinct_keys(r.types),
    ensures
        distinct_keys(prepared(r).types),
        declares(prepared(r).types, name) <==> declares(r.types, name) || in_every_schema(name),
{
    let t0 = r.types;
    law_registering_keeps_names(t0, schema_meta(), name);
    let t1 = registered(t0, schema_meta());
    law_registering_keeps_names(t1, type_meta(), name);
    let t2 = registered(t1, type_meta());
    law_registering_keeps_names(t2, type_kind_meta(), name);
    let t3 = registered(t2, type_kind_meta());
    law_registering_keeps_names(t3, field_meta(), name);
    let t4 = registered(t3, field_meta());
    law_registering_keeps_names(t4, input_value_meta(), name);
    let t5 = registered(t4, input_value_meta());
    law_registering_keeps_names(t5, enum_value_meta(), name);
    let t6 = registered(t5, enum_value_meta());
    law_registering_keeps_names(t6, directive_meta(), name);
    let t7 = registered(t6, directive_meta());
    law_registering_keeps_names(t7, directive_location_meta(), name);
    let t8 = registered(t7, directive_location_meta());
    law_registering_keeps_names(t8, boolean_scalar(), name);
    let t9 = registered(t8, boolean_scalar());
    law_registering_keeps_names(t9, boolean_scalar(), name);
    let t10 = registered(t9, boolean_scalar());
    law_registering_keeps_names(t10, string_scalar(), name);
    let t11 = registered(t10, string_scalar());
    law_registering_keeps_names(t11, string_scalar(), name);
}

/// A placeholder gives way to the description of its type, which nothing
/// replaces: once a described type holds a name, registering under that
/// name changes no descriptor.
pub proof fn law_registering_resolves_placeholders(types: Seq<MetaView>, meta: MetaView)
    requires
        distinct_keys(types),
        declares(types, meta.key()),
    ensures
        types[position(types, meta.key())] is Placeholder ==> registered(types, meta)
            == types.update(position(types, meta.key()), meta),
        !(types[position(types, meta.key())] is Placeholder) ==> registered(types, meta) == types,
{
}

/// Registering the same descriptor twice is registering it once, and the
/// second time is no conflict.
pub proof fn law_registering_twice(r: RegistryView, meta: MetaView)
    requires
        distinct_keys(r.types),
    ensures
        r.insert(meta).insert(meta) == r.insert(meta),
        !(meta is Placeholder) && !conflicts(r.types, meta) ==> !conflicts(
            r.insert(meta).types,
            meta,
        ),
{
    let once = registered(r.types, meta);
    law_registering_keeps_names(r.types, meta, meta.key());
    assert(once[position(once, meta.key())].key() == meta.key());
    assert(registered(once, meta) == once);
}

/// An object that names an interface among those it implements is a possible
/// type of that interface, and the two overlap.
pub proof fn law_implementor_is_possible_type(
    schema: SchemaView,
    interface: TypeRefView,
    object: TypeRefView,
)
    requires
        schema.owns(object),
        interface.meta is Interface,
        object.meta.implements(interface.meta.key()),
    ensures
        schema.is_possible_type(interface.meta, object),
        schema.type_overlap(interface, object),
        schema.type_overlap(object, interface),
{
    lemma_implementors(schema, interface.meta.key(), schema.types.len() as int);
}

/// Two types that are neither interface nor union overlap only where they
/// are one entry.
pub proof fn law_concrete_types_overlap_only_with_themselves(
    schema: SchemaView,
    t1: TypeRefView,
    t2: TypeRefView,
)
    requires
        !t1.meta.is_abstract(),
        !t2.meta.is_abstract(),
    ensures
        schema.type_overlap(t1, t2) == (t1 == t2),
{
}

/// An entry that the schema does not hold, by position and descriptor, is no
/// possible type of any type, whatever its name and wherever it stands; and
/// it overlaps with no concrete type but itself.
pub proof fn law_foreign_entry_is_no_possible_type(
    schema: SchemaView,
    abstract_type: MetaView,
    foreign: TypeRefView,
    other: TypeRefView,
)
    requires
        !schema.owns(foreign),
    ensures
        !schema.is_possible_type(abstract_type, foreign),
        !foreign.meta.is_abstract() && foreign != other ==> !schema.type_overlap(other, foreign)
            && !schema.type_overlap(foreign, other),
{
}

/// Every type overlaps with itself.
pub proof fn law_overlap_reflexive(schema: SchemaView, t: TypeRefView)
    ensures
        schema.type_overlap(t, t),
{
}

/// Every name is a named subtype of itself, and every usage a subtype of
/// itself.
pub proof fn law_subtype_reflexive(schema: SchemaView, name: Seq<char>, usage: TypeExpr)
    ensures
        schema.is_named_subtype(name, name),
        schema.is_subtype(usage, usage),
{
}

/// A usage is a subtype of the same usage with null allowed: a type that
/// forbids null can stand where null is allowed.
pub proof fn law_non_null_is_subtype_of_nullable(schema: SchemaView, usage: TypeExpr)
    ensures
        schema.is_subtype(usage, usage.nullable()),
{
    match usage {
        TypeExpr::NonNullList(inner, _) => {
            assert(schema.is_subtype(*inner, *inner));
        },
        _ => {},
    }
}

/// A usage that allows null is no subtype of one that forbids it, whatever
/// the names.
pub proof fn law_nullable_is_no_subtype_of_non_null(
    schema: SchemaView,
    sub: TypeExpr,
    sup: TypeExpr,
)
    requires
        !sub.is_non_null(),
        sup.is_non_null(),
    ensures
        !schema.is_subtype(sub, sup),
{
}

/// A list is a subtype of a list exactly where the two are equal or the
/// items of the one are a subtype of the items of the other, whatever their
/// size hints; a list that forbids null is one of a list that allows it on
/// the same condition.
pub proof fn law_list_subtype_by_items(
    schema: SchemaView,
    sub_items: TypeExpr,
    sub_size: Option<usize>,
    sup_items: TypeExpr,
    sup_size: Option<usize>,
)
    ensures
        schema.is_subtype(
            TypeExpr::List(Box::new(sub_items), sub_size),
            TypeExpr::List(Box::new(sup_items), sup_size),
        ) == ((sub_items == sup_items && sub_size == sup_size) || schema.is_subtype(
            sub_items,
            sup_items,
        )),
        schema.is_subtype(
            TypeExpr::NonNullList(Box::new(sub_items), sub_size),
            TypeExpr::List(Box::new(sup_items), sup_size),
        ) == schema.is_subtype(sub_items, sup_items),
{
}

/// The possible types of a union of a schema whose members are named once
/// each are the entries of its members, in the order of the names, each once.
pub proof fn law_union_possible_types(schema: SchemaView, union_type: TypeRefView)
    requires
        schema.well_formed(),
        schema.owns(union_type),
        union_type.meta is Union,
        union_type.meta->Union_0.of_type_names.no_duplicates(),
    ensures
        schema.possible_types(union_type.meta).len()
            == union_type.meta->Union_0.of_type_names.len(),
        forall|k: int|
            0 <= k < union_type.meta->Union_0.of_type_names.len() ==> {
                let at = #[trigger] schema.possible_types(union_type.meta)[k];
                0 <= at < schema.types.len() && schema.types[at].key()
                    == union_type.meta->Union_0.of_type_names[k]
            },
        schema.possible_types(union_type.meta).no_duplicates(),
{
    let names = union_type.meta->Union_0.of_type_names;
    assert forall|k: int| 0 <= k < names.len() implies declares(
        schema.types,
        #[trigger] names[k],
    ) by {
        assert(schema.types[union_type.id].references()[k] == names[k]);
    }
    lemma_members(schema, names, names.len() as int);
}

/// Some placeholder is the first where there is any.
proof fn lemma_earliest_placeholder(types: Seq<MetaView>, at: int)
    requires
        0 <= at < types.len(),
        types[at] is Placeholder,
    ensures
        exists|first: int| placeholder_at(types, first),
    decreases at,
{
    if exists|j: int| 0 <= j < at && (#[trigger] types[j]) is Placeholder {
        let j = choose|j: int| 0 <= j < at && (#[trigger] types[j]) is Placeholder;
        lemma_earliest_placeholder(types, j);
    } else {
        assert(placeholder_at(types, at));
    }
}

/// There is a first placeholder exactly where some descriptor is a
/// placeholder.
pub proof fn law_first_placeholder(types: Seq<MetaView>)
    ensures
        first_placeholder(types) is None <==> described(types),
{
    if !described(types) {
        let at = choose|at: int| 0 <= at < types.len() && (#[trigger] types[at]) is Placeholder;
        lemma_earliest_placeholder(types, at);
    }
}

/// Some unregistered name of the descriptor at `at` is its first, where it
/// has any among its first `k + 1`.
proof fn lemma_earliest_in_entry(types: Seq<MetaView>, at: int, k: int) -> (first: int)
    requires
        0 <= at < types.len(),
        0 <= k < types[at].references().len(),
        !declares(types, types[at].references()[k]),
    ensures
        0 <= first <= k,
        !declares(types, types[at].references()[first]),
        forall|l: int| 0 <= l < first ==> declares(types, #[trigger] types[at].references()[l]),
    decreases k,
{
    if exists|l: int| 0 <= l < k && !declares(types, #[trigger] types[at].references()[l]) {
        let l = choose|l: int| 0 <= l < k && !declares(types, #[trigger] types[at].references()[l]);
        lemma_earliest_in_entry(types, at, l)
    } else {
        k
    }
}

/// Some unregistered name is the first where there is any.
proof fn lemma_earliest_dangling(types: Seq<MetaView>, at: int, k: int)
    requires
        0 <= at < types.len(),
        0 <= k < types[at].references().len(),
        !declares(types, types[at].references()[k]),
    ensures
        exists|i: int, l: int| dangling_at(types, i, l),
    decreases at,
{
    if exists|j: int, l: int|
        0 <= j < at && 0 <= l < types[j].references().len() && !declares(
            types,
            #[trigger] types[j].references()[l],
        ) {
        let (j, l) = choose|j: int, l: int|
            0 <= j < at && 0 <= l < types[j].references().len() && !declares(
                types,
                #[trigger] types[j].references()[l],
            );
        lemma_earliest_dangling(types, j, l);
    } else {
        let first = lemma_earliest_in_entry(types, at, k);
        assert(dangling_at(types, at, first));
    }
}

/// There is a first unregistered name exactly where some descriptor refers
/// to a name that is not registered.
pub proof fn law_first_dangling(types: Seq<MetaView>)
    ensures
        first_dangling(types) is None <==> closed(types),
{
    if !closed(types) {
        let (at, k) = choose|at: int, k: int|
            0 <= at < types.len() && 0 <= k < types[at].references().len() && !declares(
                types,
                #[trigger] types[at].references()[k],
            );
        lemma_earliest_dangling(types, at, k);
    }
}

/// The types that stand for an unused kind of operation give themselves no
/// name but their own.
pub proof fn law_unused_roots_have_one_name(name: Seq<char>)
    ensures
        gives_name::<EmptyMutation>(&(), name) ==> name == "_EmptyMutation"@,
        gives_name::<EmptySubscription>(&(), name) ==> name == "_EmptySubscription"@,
{
}

/// A schema that is built of a query root and of the two types that stand
/// for an unused kind of operation has neither a mutation root nor a
/// subscription root, and its query root has the name that the query root
/// gave itself.
pub proof fn law_schema_of_a_query_root<QueryT: GraphQLType>(
    query_info: &QueryT::TypeInfo,
    outcome: Result<SchemaView, SchemaFault>,
)
    requires
        built_of_roots::<QueryT, EmptyMutation, EmptySubscription>(query_info, &(), &(), outcome),
    ensures
        outcome matches Ok(schema) ==> {
            &&& schema.mutation_type_name is None
            &&& schema.subscription_type_name is None
            &&& gives_name::<QueryT>(query_info, schema.query_type_name)
        },
{
    assert forall|name: Seq<char>| #[trigger]
        gives_name::<EmptyMutation>(&(), name) implies name == "_EmptyMutation"@ by {
        law_unused_roots_have_one_name(name);
    }
    assert forall|name: Seq<char>| #[trigger]
        gives_name::<EmptySubscription>(&(), name) implies name == "_EmptySubscription"@ by {
        law_unused_roots_have_one_name(name);
    }
}

/// A schema that is built differs from the registry it is built from in one
/// descriptor: the query root, which has the fields `__schema` and `__type`
/// after its own. Where the mutation or the subscription root is the type
/// that stands for an unused kind of operation, the schema has no such root.
pub proof fn law_built_schema(
    p: RegistryView,
    query: Seq<char>,
    mutation: Seq<char>,
    subscription: Seq<char>,
)
    requires
        distinct_keys(p.types),
        build_fault(p, query, mutation, subscription) is None,
    ensures
        ({
            let schema = built(p, query, mutation, subscription);
            let root = position(p.types, query);
            &&& schema.types.len() == p.types.len()
            &&& forall|i: int|
                0 <= i < p.types.len() && i != root ==> #[trigger] schema.types[i] == p.types[i]
            &&& schema.types[root] == extended(p.types[root])
            &&& schema.types[root] is Object
            &&& mutation == "_EmptyMutation"@ ==> schema.mutation_type_name is None
            &&& subscription == "_EmptySubscription"@ ==> schema.subscription_type_name is None
        }),
{
}

} // verus!
