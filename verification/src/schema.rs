//! The schema: the descriptors of all its types, its roots and its
//! directives, built once and read from then on.

use vstd::prelude::*;
use crate::ast::{Type, TypeExpr};
use crate::directive::{
    boolean_scalar, deprecated_directive, directive_views, include_directive, skip_directive,
    specified_by_directive, string_scalar, DirectiveType, DirectiveView,
};
use crate::error::{SchemaError, SchemaFault};
use crate::introspection::{
    introspection_fields, register_introspection, schema_field, type_field, with_introspection,
};
use crate::meta::{field_views, MetaType, MetaView, ObjectView, PlaceholderMeta};
use crate::navigator::{TypeRef, TypeRefView, TypeType, TypeTypeView};
use crate::registry::{
    declares, distinct_keys, gives_name, locate, meta_views, position, GraphQLType, Registry,
    RegistryView,
};
use crate::table::{distinct, keys_of, Table};
use crate::text::{str_eq, strs, text};

verus! {

/// Whether no descriptor is a placeholder.
pub open spec fn described(types: Seq<MetaView>) -> bool {
    forall|i: int| 0 <= i < types.len() ==> !((#[trigger] types[i]) is Placeholder)
}

/// Whether the descriptor at `at` is the first placeholder.
pub open spec fn placeholder_at(types: Seq<MetaView>, at: int) -> bool {
    &&& 0 <= at < types.len()
    &&& types[at] is Placeholder
    &&& forall|j: int| 0 <= j < at ==> !((#[trigger] types[j]) is Placeholder)
}

/// The name that the first placeholder stands for.
pub open spec fn first_placeholder(types: Seq<MetaView>) -> Option<Seq<char>> {
    if exists|at: int| placeholder_at(types, at) {
        Some(types[choose|at: int| placeholder_at(types, at)].key())
    } else {
        None
    }
}

/// Whether every name that a descriptor refers to is registered.
pub open spec fn closed(types: Seq<MetaView>) -> bool {
    forall|i: int, k: int|
        0 <= i < types.len() && 0 <= k < types[i].references().len() ==> declares(
            types,
            #[trigger] types[i].references()[k],
        )
}

/// Whether the `k`th name that the descriptor at `at` refers to is the first
/// one that is not registered: the first of the first such descriptor.
pub open spec fn dangling_at(types: Seq<MetaView>, at: int, k: int) -> bool {
    &&& 0 <= at < types.len()
    &&& 0 <= k < types[at].references().len()
    &&& !declares(types, types[at].references()[k])
    &&& forall|l: int| 0 <= l < k ==> declares(types, #[trigger] types[at].references()[l])
    &&& forall|j: int, l: int|
        0 <= j < at && 0 <= l < types[j].references().len() ==> declares(
            types,
            #[trigger] types[j].references()[l],
        )
}

/// The first name that a descriptor refers to and none is registered under.
pub open spec fn first_dangling(types: Seq<MetaView>) -> Option<Seq<char>> {
    if exists|at: int, k: int| dangling_at(types, at, k) {
        let (at, k) = choose|at: int, k: int| dangling_at(types, at, k);
        Some(types[at].references()[k])
    } else {
        None
    }
}

/// Whether no two directives have one name.
pub open spec fn distinct_directives(directives: Seq<DirectiveView>) -> bool {
    forall|i: int, j: int|
        #![trigger directives[i], directives[j]]
        0 <= i < directives.len() && 0 <= j < directives.len() && i != j ==> directives[i].name
            != directives[j].name
}

/// Whether a directive is called `name`.
pub open spec fn declares_directive(directives: Seq<DirectiveView>, name: Seq<char>) -> bool {
    exists|i: int| 0 <= i < directives.len() && (#[trigger] directives[i]).name == name
}

/// The position of a directive called `name`.
pub open spec fn directive_position(directives: Seq<DirectiveView>, name: Seq<char>) -> int {
    choose|i: int| 0 <= i < directives.len() && (#[trigger] directives[i]).name == name
}

/// The names of a table of directives are the names of their values.
pub(crate) proof fn lemma_directive_keys(items: Seq<DirectiveType>)
    ensures
        distinct(keys_of(items)) == distinct_directives(directive_views(items)),
        forall|name: Seq<char>| #[trigger]
            keys_of(items).contains(name) == declares_directive(directive_views(items), name),
{
    let keys = keys_of(items);
    let views = directive_views(items);
    assert forall|name: Seq<char>| #[trigger]
        keys.contains(name) == declares_directive(views, name) by {
        if keys.contains(name) {
            let i = choose|i: int| 0 <= i < keys.len() && keys[i] == name;
            assert(views[i].name == name);
        }
        if declares_directive(views, name) {
            let i = choose|i: int| 0 <= i < views.len() && (#[trigger] views[i]).name == name;
            assert(keys[i] == name);
        }
    }
    if distinct(keys) {
        assert forall|i: int, j: int|
            #![trigger views[i], views[j]]
            0 <= i < views.len() && 0 <= j < views.len() && i != j implies views[i].name
                != views[j].name by {
            assert(keys[i] != keys[j]);
        }
    }
    if distinct_directives(views) {
        assert forall|i: int, j: int|
            0 <= i < keys.len() && 0 <= j < keys.len() && i != j implies keys[i] != keys[j] by {
            assert(views[i].name != views[j].name);
        }
    }
}

/// The position of the directive called `name`.
fn locate_directive(directives: &Table<DirectiveType>, name: &str) -> (r: Option<usize>)
    ensures
        distinct_directives(directive_views(directives.items())),
        match r {
            Some(at) => at < directives.items().len() && declares_directive(
                directive_views(directives.items()),
                name@,
            ) && at == directive_position(directive_views(directives.items()), name@),
            None => !declares_directive(directive_views(directives.items()), name@),
        },
{
    let r = directives.find(name);
    proof {
        lemma_directive_keys(directives.items());
        if r is Some {
            assert(directive_views(directives.items())[r->0 as int].name == name@);
        }
    }
    r
}

/// The descriptor of a query root with the fields `__schema` and `__type`
/// after its own; any other descriptor as it is.
pub open spec fn extended(meta: MetaView) -> MetaView {
    match meta {
        MetaView::Object(o) => MetaView::Object(
            ObjectView { fields: o.fields + seq![schema_field(), type_field()], ..o },
        ),
        _ => meta,
    }
}

/// The descriptors with the query root `root` extended.
pub open spec fn with_root_fields(types: Seq<MetaView>, root: Seq<char>) -> Seq<MetaView> {
    types.update(position(types, root), extended(types[position(types, root)]))
}

/// A registry after the types that every schema has were registered: those
/// by which it describes itself, then the scalars that the built-in
/// directives take, once for each directive.
pub open spec fn prepared(r: RegistryView) -> RegistryView {
    with_introspection(r).insert(boolean_scalar()).insert(boolean_scalar()).insert(
        string_scalar(),
    ).insert(string_scalar())
}

/// The directives that every schema has.
pub open spec fn builtin_directives() -> Seq<DirectiveView> {
    seq![skip_directive(), include_directive(), deprecated_directive(), specified_by_directive()]
}

/// The name of an optional root: none where the root's type is the one that
/// stands for an unused kind of operation.
pub open spec fn optional_root(name: Seq<char>, unused: Seq<char>) -> Option<Seq<char>> {
    if name == unused {
        None
    } else {
        Some(name)
    }
}

/// Why no schema can be built from the prepared registry `p` with the roots
/// `query`, `mutation` and `subscription`: the first of the faults, in the
/// order of this definition; none where a schema can be built.
pub open spec fn build_fault(
    p: RegistryView,
    query: Seq<char>,
    mutation: Seq<char>,
    subscription: Seq<char>,
) -> Option<SchemaFault> {
    if p.fault is Some {
        p.fault
    } else if !declares(p.types, query) {
        Some(SchemaFault::RootTypeNotFound(query))
    } else if !(p.types[position(p.types, query)] is Object) {
        Some(SchemaFault::RootTypeNotObject(query))
    } else if first_placeholder(p.types) is Some {
        Some(SchemaFault::UnresolvedPlaceholder(first_placeholder(p.types)->0))
    } else if first_dangling(with_root_fields(p.types, query)) is Some {
        Some(SchemaFault::UndeclaredType(first_dangling(with_root_fields(p.types, query))->0))
    } else if mutation != "_EmptyMutation"@ && !declares(p.types, mutation) {
        Some(SchemaFault::RootTypeNotFound(mutation))
    } else if subscription != "_EmptySubscription"@ && !declares(p.types, subscription) {
        Some(SchemaFault::RootTypeNotFound(subscription))
    } else {
        None
    }
}

/// The schema that is built from the prepared registry `p` with the roots
/// `query`, `mutation` and `subscription`, where one can be built.
pub open spec fn built(
    p: RegistryView,
    query: Seq<char>,
    mutation: Seq<char>,
    subscription: Seq<char>,
) -> SchemaView {
    SchemaView {
        description: None,
        types: with_root_fields(p.types, query),
        query_type_name: query,
        mutation_type_name: optional_root(mutation, "_EmptyMutation"@),
        subscription_type_name: optional_root(subscription, "_EmptySubscription"@),
        directives: builtin_directives(),
    }
}

/// What building makes of the registry `r` with the roots `query`,
/// `mutation` and `subscription`: the schema, or the first fault.
pub open spec fn build_outcome(
    r: RegistryView,
    query: Seq<char>,
    mutation: Seq<char>,
    subscription: Seq<char>,
) -> Result<SchemaView, SchemaFault> {
    match build_fault(prepared(r), query, mutation, subscription) {
        Some(fault) => Err(fault),
        None => Ok(built(prepared(r), query, mutation, subscription)),
    }
}

/// Whether `outcome` is what building makes of the three roots: of the names
/// that they give themselves, and of a registry that holds no name twice and
/// holds the name of the subscription root, which describes itself last.
pub open spec fn built_of_roots<
    QueryT: GraphQLType,
    MutationT: GraphQLType,
    SubscriptionT: GraphQLType,
>(
    query_info: &QueryT::TypeInfo,
    mutation_info: &MutationT::TypeInfo,
    subscription_info: &SubscriptionT::TypeInfo,
    outcome: Result<SchemaView, SchemaFault>,
) -> bool {
    exists|r: RegistryView, query: Seq<char>, mutation: Seq<char>, subscription: Seq<char>|
        #![trigger build_outcome(r, query, mutation, subscription)]
        {
            &&& distinct_keys(r.types)
            &&& declares(r.types, subscription)
            &&& gives_name::<QueryT>(query_info, query)
            &&& gives_name::<MutationT>(mutation_info, mutation)
            &&& gives_name::<SubscriptionT>(subscription_info, subscription)
            &&& outcome == build_outcome(r, query, mutation, subscription)
        }
}

/// The value of the result of building a schema.
pub open spec fn outcome_of(r: Result<SchemaType, SchemaError>) -> Result<
    SchemaView,
    SchemaFault,
> {
    match r {
        Ok(schema) => Ok(schema@),
        Err(e) => Err(e@),
    }
}

/// The value of a [`SchemaType`].
pub struct SchemaView {
    pub description: Option<Seq<char>>,
    /// The descriptors; the position of each is its identity.
    pub types: Seq<MetaView>,
    pub query_type_name: Seq<char>,
    pub mutation_type_name: Option<Seq<char>>,
    pub subscription_type_name: Option<Seq<char>>,
    pub directives: Seq<DirectiveView>,
}

impl SchemaView {
    /// What holds of every schema: each name is registered once, every
    /// descriptor is described, every name referred to is registered, the
    /// query root is a registered object whose last fields are `__schema`
    /// and `__type`, the other roots are registered where the schema has
    /// them, and each directive has a name of its own.
    pub open spec fn well_formed(self) -> bool {
        &&& distinct_keys(self.types)
        &&& described(self.types)
        &&& closed(self.types)
        &&& declares(self.types, self.query_type_name)
        &&& self.types[position(self.types, self.query_type_name)] matches MetaView::Object(root)
        &&& root.fields.len() >= 2
        &&& root.fields[root.fields.len() - 2] == schema_field()
        &&& root.fields[root.fields.len() - 1] == type_field()
        &&& self.mutation_type_name matches Some(m) ==> declares(self.types, m)
        &&& self.subscription_type_name matches Some(s) ==> declares(self.types, s)
        &&& distinct_directives(self.directives)
    }

    /// The entry at `at`.
    pub open spec fn entry(self, at: int) -> TypeRefView {
        TypeRefView { id: at, meta: self.types[at] }
    }

    /// Whether `t` is an entry of this schema.
    pub open spec fn owns(self, t: TypeRefView) -> bool {
        0 <= t.id < self.types.len() && self.types[t.id] == t.meta
    }

    /// The entry registered under `name`.
    pub open spec fn type_by_name(self, name: Seq<char>) -> Option<TypeRefView> {
        if declares(self.types, name) {
            Some(self.entry(position(self.types, name)))
        } else {
            None
        }
    }

    /// The entry of an optional root.
    pub open spec fn optional_type(self, name: Option<Seq<char>>) -> Option<TypeRefView> {
        match name {
            Some(n) => Some(self.entry(position(self.types, n))),
            None => None,
        }
    }

    /// The type that the usage `t` stands for: the entry of its name under
    /// the layers of `t`, a non-null list being a non-null layer on a list.
    pub open spec fn resolve(self, t: TypeExpr) -> TypeTypeView
        decreases t,
    {
        match t {
            TypeExpr::Named(n) => TypeTypeView::Concrete(self.entry(position(self.types, n))),
            TypeExpr::NonNullNamed(n) => TypeTypeView::NonNull(
                Box::new(TypeTypeView::Concrete(self.entry(position(self.types, n)))),
            ),
            TypeExpr::List(inner, size) => TypeTypeView::List(
                Box::new(self.resolve(*inner)),
                size,
            ),
            TypeExpr::NonNullList(inner, size) => TypeTypeView::NonNull(
                Box::new(TypeTypeView::List(Box::new(self.resolve(*inner)), size)),
            ),
        }
    }

    /// The directive called `name`.
    pub open spec fn directive_by_name(self, name: Seq<char>) -> Option<DirectiveView> {
        if declares_directive(self.directives, name) {
            Some(self.directives[directive_position(self.directives, name)])
        } else {
            None
        }
    }

    /// The directives after `directive` was added: in the place of the one of
    /// its name, or after the others.
    pub open spec fn with_directive(self, directive: DirectiveView) -> Seq<DirectiveView> {
        if declares_directive(self.directives, directive.name) {
            self.directives.update(directive_position(self.directives, directive.name), directive)
        } else {
            self.directives.push(directive)
        }
    }
}

/// The first unregistered name is the only first one.
proof fn lemma_first_dangling(types: Seq<MetaView>, at: int, k: int)
    requires
        dangling_at(types, at, k),
    ensures
        first_dangling(types) == Some(types[at].references()[k]),
{
    let (j, l) = choose|j: int, l: int| dangling_at(types, j, l);
    assert(j == at && l == k);
}

/// Descriptors with the same names, place by place, declare the same names
/// at the same positions.
proof fn lemma_same_keys(a: Seq<MetaView>, b: Seq<MetaView>)
    requires
        a.len() == b.len(),
        forall|i: int| 0 <= i < a.len() ==> (#[trigger] a[i]).key() == b[i].key(),
        distinct_keys(a),
    ensures
        distinct_keys(b),
        forall|name: Seq<char>| #[trigger] declares(b, name) == declares(a, name),
        forall|name: Seq<char>|
            declares(a, name) ==> #[trigger] position(b, name) == position(a, name),
{
    assert forall|i: int, j: int|
        #![trigger b[i], b[j]]
        0 <= i < b.len() && 0 <= j < b.len() && i != j implies b[i].key() != b[j].key() by {
        assert(a[i].key() == b[i].key());
        assert(a[j].key() == b[j].key());
    }
    assert forall|name: Seq<char>| #[trigger] declares(b, name) == declares(a, name) by {
        if declares(a, name) {
            assert(b[position(a, name)].key() == name);
        }
        if declares(b, name) {
            assert(a[position(b, name)].key() == name);
        }
    }
}

/// The position of the first placeholder.
fn find_placeholder(types: &Table<MetaType>) -> (r: Option<usize>)
    ensures
        match r {
            Some(at) => placeholder_at(meta_views(types.items()), at as int),
            None => described(meta_views(types.items())),
        },
{
    let n: usize = types.len();
    let mut i: usize = 0;
    while i < n
        invariant
            n == types.items().len(),
            i <= n,
            forall|j: int|
                0 <= j < i ==> !((#[trigger] meta_views(types.items())[j]) is Placeholder),
        decreases n - i,
    {
        if types.get(i).is_placeholder() {
            return Some(i);
        }
        i += 1;
    }
    None
}

/// The first name that a descriptor refers to and none is registered under.
fn find_dangling(types: &Table<MetaType>) -> (r: Option<String>)
    ensures
        match r {
            Some(name) => first_dangling(meta_views(types.items())) == Some(name@),
            None => closed(meta_views(types.items())),
        },
{
    let ghost views = meta_views(types.items());
    let n: usize = types.len();
    let mut i: usize = 0;
    while i < n
        invariant
            views == meta_views(types.items()),
            n == views.len(),
            i <= n,
            forall|j: int, l: int|
                0 <= j < i && 0 <= l < views[j].references().len() ==> declares(
                    views,
                    #[trigger] views[j].references()[l],
                ),
        decreases n - i,
    {
        let refs = types.get(i).references();
        let mut k: usize = 0;
        while k < refs.len()
            invariant
                views == meta_views(types.items()),
                n == views.len(),
                i < n,
                k <= refs.len(),
                strs(refs@) == views[i as int].references(),
                forall|j: int, l: int|
                    0 <= j < i && 0 <= l < views[j].references().len() ==> declares(
                        views,
                        #[trigger] views[j].references()[l],
                    ),
                forall|l: int|
                    0 <= l < k ==> declares(views, #[trigger] views[i as int].references()[l]),
            decreases refs.len() - k,
        {
            if locate(types, refs[k]).is_none() {
                proof {
                    lemma_first_dangling(views, i as int, k as int);
                }
                return Some(refs[k].to_owned());
            }
            k += 1;
        }
        i += 1;
    }
    None
}

/// Gives the object at `at` the fields `__schema` and `__type` after its own.
fn add_root_fields(types: &mut Table<MetaType>, at: usize)
    requires
        at < old(types).items().len(),
    ensures
        meta_views(final(types).items()) == meta_views(old(types).items()).update(
            at as int,
            extended(old(types).items()[at as int]@),
        ),
{
    let key = types.get(at).key().to_owned();
    let root = types.replace(at, MetaType::Placeholder(PlaceholderMeta { name: key }));
    let root = match root {
        MetaType::Object(o) => {
            let mut o = o;
            let ghost own = field_views(o.fields@);
            let mut extra = introspection_fields();
            o.fields.append(&mut extra);
            assert(field_views(o.fields@) =~= own + seq![schema_field(), type_field()]);
            MetaType::Object(o)
        },
        other => other,
    };
    let _ = types.replace(at, root);
}

/// The directives that every schema has; the scalars that they take are
/// registered on the way.
fn register_directives(registry: &mut Registry) -> (r: Table<DirectiveType>)
    ensures
        directive_views(r.items()) == builtin_directives(),
        final(registry)@ == old(registry)@.insert(boolean_scalar()).insert(
            boolean_scalar(),
        ).insert(string_scalar()).insert(string_scalar()),
{
    proof {
        reveal_strlit("skip");
        reveal_strlit("include");
        reveal_strlit("deprecated");
        reveal_strlit("specifiedBy");
        assert("include"@.len() == 7);
        assert("deprecated"@.len() == 10);
        assert("specifiedBy"@.len() == 11);
    }
    let mut table: Table<DirectiveType> = Table::new();
    let skip = DirectiveType::new_skip(registry);
    table.push(skip);
    let inclusion = DirectiveType::new_include(registry);
    table.push(inclusion);
    let deprecated = DirectiveType::new_deprecated(registry);
    table.push(deprecated);
    let specified_by = DirectiveType::new_specified_by(registry);
    table.push(specified_by);
    table
}

/// The schema: every type under its name, the roots, and the directives.
///
/// A schema is built once, from the registry in which its types described
/// themselves. From then on it only answers questions, but for its
/// description and its directives, which may be set before it is shared.
#[derive(Debug)]
pub struct SchemaType {
    description: Option<String>,
    types: Table<MetaType>,
    query_type_name: String,
    mutation_type_name: Option<String>,
    subscription_type_name: Option<String>,
    directives: Table<DirectiveType>,
}

impl View for SchemaType {
    type V = SchemaView;

    closed spec fn view(&self) -> SchemaView {
        SchemaView {
            description: text(self.description),
            types: meta_views(self.types.items()),
            query_type_name: self.query_type_name@,
            mutation_type_name: text(self.mutation_type_name),
            subscription_type_name: text(self.subscription_type_name),
            directives: directive_views(self.directives.items()),
        }
    }
}

impl SchemaType {
    #[verifier::type_invariant]
    closed spec fn inv(self) -> bool {
        self@.well_formed()
    }

    /// Builds the schema of the types collected in `registry`, with the roots
    /// called `query_type_name`, `mutation_type_name` and
    /// `subscription_type_name`.
    ///
    /// The types that every schema has are registered first. The query root
    /// gets the fields `__schema` and `__type`. A mutation root called
    /// `_EmptyMutation` and a subscription root called `_EmptySubscription`
    /// stand for a schema without such a root. Any fault ends the build.
    pub fn build(
        registry: Registry,
        query_type_name: String,
        mutation_type_name: String,
        subscription_type_name: String,
    ) -> (r: Result<SchemaType, SchemaError>)
        ensures
            match r {
                Ok(schema) => build_fault(
                    prepared(registry@),
                    query_type_name@,
                    mutation_type_name@,
                    subscription_type_name@,
                ) is None && schema@ == built(
                    prepared(registry@),
                    query_type_name@,
                    mutation_type_name@,
                    subscription_type_name@,
                ) && schema@.well_formed(),
                Err(e) => build_fault(
                    prepared(registry@),
                    query_type_name@,
                    mutation_type_name@,
                    subscription_type_name@,
                ) == Some(e@),
            },
    {
        let mut registry = registry;
        register_introspection(&mut registry);
        let directives = register_directives(&mut registry);
        let ghost p = registry@;
        let (types, fault) = registry.into_parts();
        let mut types = types;
        match fault {
            Some(e) => {
                return Err(e);
            },
            None => {},
        }
        let at: usize = match locate(&types, query_type_name.as_str()) {
            Some(at) => at,
            None => {
                return Err(SchemaError::RootTypeNotFound(query_type_name));
            },
        };
        let is_object = match types.get(at) {
            MetaType::Object(_) => true,
            _ => false,
        };
        if !is_object {
            return Err(SchemaError::RootTypeNotObject(query_type_name));
        }
        match find_placeholder(&types) {
            Some(i) => {
                return Err(SchemaError::UnresolvedPlaceholder(types.get(i).key().to_owned()));
            },
            None => {},
        }
        add_root_fields(&mut types, at);
        let ghost full = meta_views(types.items());
        proof {
            lemma_same_keys(p.types, full);
        }
        match find_dangling(&types) {
            Some(name) => {
                return Err(SchemaError::UndeclaredType(name));
            },
            None => {},
        }
        let mutation = if str_eq(mutation_type_name.as_str(), "_EmptyMutation") {
            None
        } else {
            if locate(&types, mutation_type_name.as_str()).is_none() {
                return Err(SchemaError::RootTypeNotFound(mutation_type_name));
            }
            Some(mutation_type_name)
        };
        let subscription = if str_eq(subscription_type_name.as_str(), "_EmptySubscription") {
            None
        } else {
            if locate(&types, subscription_type_name.as_str()).is_none() {
                return Err(SchemaError::RootTypeNotFound(subscription_type_name));
            }
            Some(subscription_type_name)
        };
        directives.names_are_distinct();
        proof {
            lemma_directive_keys(directives.items());
        }
        let schema = SchemaType {
            description: None,
            types,
            query_type_name,
            mutation_type_name: mutation,
            subscription_type_name: subscription,
            directives,
        };
        Ok(schema)
    }

    /// Builds the schema whose roots are `QueryT`, `MutationT` and
    /// `SubscriptionT`: the three describe themselves to a new registry, in
    /// this order, and the schema is built from what the registry then
    /// holds, with the names that the three gave themselves. Which schema or
    /// which fault that is, `build` says.
    pub fn new<QueryT: GraphQLType, MutationT: GraphQLType, SubscriptionT: GraphQLType>(
        query_info: &QueryT::TypeInfo,
        mutation_info: &MutationT::TypeInfo,
        subscription_info: &SubscriptionT::TypeInfo,
    ) -> (r: Result<SchemaType, SchemaError>)
        ensures
            built_of_roots::<QueryT, MutationT, SubscriptionT>(
                query_info,
                mutation_info,
                subscription_info,
                outcome_of(r),
            ),
            r matches Ok(schema) ==> schema@.well_formed(),
    {
        let mut registry = Registry::new();
        let query = registry.get_type::<QueryT>(query_info);
        let mutation = registry.get_type::<MutationT>(mutation_info);
        let subscription = registry.get_type::<SubscriptionT>(subscription_info);
        let ghost collected = registry@;
        let r = Self::build(
            registry,
            query.innermost_name().to_owned(),
            mutation.innermost_name().to_owned(),
            subscription.innermost_name().to_owned(),
        );
        assert(outcome_of(r) == build_outcome(
            collected,
            query@.innermost_name(),
            mutation@.innermost_name(),
            subscription@.innermost_name(),
        ));
        r
    }
}

impl SchemaType {
    /// The descriptors, of which all that holds of a schema holds.
    pub(crate) fn types(&self) -> (r: &Table<MetaType>)
        ensures
            meta_views(r.items()) == self@.types,
            self@.well_formed(),
    {
        proof {
            use_type_invariant(&*self);
        }
        &self.types
    }

    /// The entry at `at`.
    pub(crate) fn entry(&self, at: usize) -> (r: TypeRef<'_>)
        requires
            at < self@.types.len(),
        ensures
            r@ == self@.entry(at as int),
            self@.owns(r@),
    {
        TypeRef::new(at, self.types.get(at))
    }

    /// The description of the schema, where it has one.
    pub fn description(&self) -> (r: Option<&str>)
        ensures
            match r {
                Some(d) => self@.description == Some(d@),
                None => self@.description is None,
            },
    {
        match &self.description {
            Some(d) => Some(d.as_str()),
            None => None,
        }
    }

    /// The name of the query root.
    pub fn query_type_name(&self) -> (r: &str)
        ensures
            r@ == self@.query_type_name,
    {
        self.query_type_name.as_str()
    }

    /// The name of the mutation root, where the schema has one.
    pub fn mutation_type_name(&self) -> (r: Option<&str>)
        ensures
            match r {
                Some(n) => self@.mutation_type_name == Some(n@),
                None => self@.mutation_type_name is None,
            },
    {
        match &self.mutation_type_name {
            Some(n) => Some(n.as_str()),
            None => None,
        }
    }

    /// The name of the subscription root, where the schema has one.
    pub fn subscription_type_name(&self) -> (r: Option<&str>)
        ensures
            match r {
                Some(n) => self@.subscription_type_name == Some(n@),
                None => self@.subscription_type_name is None,
            },
    {
        match &self.subscription_type_name {
            Some(n) => Some(n.as_str()),
            None => None,
        }
    }

    /// Gives the schema `description` as its description.
    pub fn set_description(&mut self, description: &str)
        ensures
            final(self)@ == (SchemaView { description: Some(description@), ..old(self)@ }),
            final(self)@.well_formed(),
    {
        proof {
            use_type_invariant(&*self);
        }
        self.description = Some(description.to_owned());
    }

    /// Adds `directive`: in the place of the directive of its name, where the
    /// schema has one, and after the others where it has none.
    pub fn add_directive(&mut self, directive: DirectiveType)
        ensures
            final(self)@ == (SchemaView {
                directives: old(self)@.with_directive(directive@),
                ..old(self)@
            }),
            final(self)@.well_formed(),
    {
        proof {
            use_type_invariant(&*self);
        }
        let mut table: Table<DirectiveType> = Table::new();
        std::mem::swap(&mut table, &mut self.directives);
        let ghost before = directive_views(table.items());
        match locate_directive(&table, directive.name.as_str()) {
            Some(at) => {
                let _ = table.replace(at, directive);
                assert(directive_views(table.items()) =~= before.update(at as int, directive@));
            },
            None => {
                proof {
                    lemma_directive_keys(table.items());
                }
                table.push(directive);
                assert(directive_views(table.items()) =~= before.push(directive@));
            },
        }
        table.names_are_distinct();
        self.directives = table;
    }

    /// The type registered under `name`, as a type without layers.
    pub fn type_by_name(&self, name: &str) -> (r: Option<TypeType<'_>>)
        ensures
            match self@.type_by_name(name@) {
                Some(t) => r matches Some(x) && x@ == TypeTypeView::Concrete(t),
                None => r is None,
            },
    {
        match self.concrete_type_by_name(name) {
            Some(t) => Some(TypeType::Concrete(t)),
            None => None,
        }
    }

    /// The entry registered under `name`.
    pub fn concrete_type_by_name(&self, name: &str) -> (r: Option<TypeRef<'_>>)
        ensures
            match self@.type_by_name(name@) {
                Some(t) => r matches Some(x) && x@ == t && self@.owns(t),
                None => r is None,
            },
    {
        match locate(&self.types, name) {
            Some(at) => Some(self.entry(at)),
            None => None,
        }
    }

    /// The entry that the usage `t` names under its layers.
    pub fn lookup_type(&self, t: &Type) -> (r: Option<TypeRef<'_>>)
        ensures
            match self@.type_by_name(t@.innermost_name()) {
                Some(found) => r matches Some(x) && x@ == found && self@.owns(found),
                None => r is None,
            },
    {
        self.concrete_type_by_name(t.innermost_name())
    }

    /// The query root, as a type without layers.
    pub fn query_type(&self) -> (r: TypeType<'_>)
        ensures
            r@ == TypeTypeView::Concrete(self@.entry(position(self@.types, self@.query_type_name))),
    {
        TypeType::Concrete(self.concrete_query_type())
    }

    /// The query root: an object.
    pub fn concrete_query_type(&self) -> (r: TypeRef<'_>)
        ensures
            r@ == self@.entry(position(self@.types, self@.query_type_name)),
            self@.owns(r@),
            r@.meta is Object,
    {
        proof {
            use_type_invariant(&*self);
        }
        let at = locate(&self.types, self.query_type_name.as_str());
        self.entry(at.unwrap())
    }

    /// The mutation root, as a type without layers, where the schema has one.
    pub fn mutation_type(&self) -> (r: Option<TypeType<'_>>)
        ensures
            match self@.optional_type(self@.mutation_type_name) {
                Some(t) => r matches Some(x) && x@ == TypeTypeView::Concrete(t),
                None => r is None,
            },
    {
        match self.concrete_mutation_type() {
            Some(t) => Some(TypeType::Concrete(t)),
            None => None,
        }
    }

    /// The mutation root, where the schema has one.
    pub fn concrete_mutation_type(&self) -> (r: Option<TypeRef<'_>>)
        ensures
            match self@.optional_type(self@.mutation_type_name) {
                Some(t) => r matches Some(x) && x@ == t && self@.owns(t),
                None => r is None,
            },
    {
        proof {
            use_type_invariant(&*self);
        }
        match &self.mutation_type_name {
            Some(name) => {
                let at = locate(&self.types, name.as_str());
                Some(self.entry(at.unwrap()))
            },
            None => None,
        }
    }

    /// The subscription root, as a type without layers, where the schema has
    /// one.
    pub fn subscription_type(&self) -> (r: Option<TypeType<'_>>)
        ensures
            match self@.optional_type(self@.subscription_type_name) {
                Some(t) => r matches Some(x) && x@ == TypeTypeView::Concrete(t),
                None => r is None,
            },
    {
        match self.concrete_subscription_type() {
            Some(t) => Some(TypeType::Concrete(t)),
            None => None,
        }
    }

    /// The subscription root, where the schema has one.
    pub fn concrete_subscription_type(&self) -> (r: Option<TypeRef<'_>>)
        ensures
            match self@.optional_type(self@.subscription_type_name) {
                Some(t) => r matches Some(x) && x@ == t && self@.owns(t),
                None => r is None,
            },
    {
        proof {
            use_type_invariant(&*self);
        }
        match &self.subscription_type_name {
            Some(name) => {
                let at = locate(&self.types, name.as_str());
                Some(self.entry(at.unwrap()))
            },
            None => None,
        }
    }

    /// Every type of the schema, as a type without layers, by position.
    pub fn type_list(&self) -> (r: Vec<TypeType<'_>>)
        ensures
            r@.len() == self@.types.len(),
            forall|i: int|
                0 <= i < r@.len() ==> (#[trigger] r@[i])@ == TypeTypeView::Concrete(self@.entry(i)),
    {
        let n: usize = self.types.len();
        let mut out: Vec<TypeType<'_>> = Vec::new();
        let mut i: usize = 0;
        while i < n
            invariant
                n == self@.types.len(),
                i <= n,
                out@.len() == i,
                forall|j: int|
                    0 <= j < i ==> (#[trigger] out@[j])@ == TypeTypeView::Concrete(self@.entry(j)),
            decreases n - i,
        {
            out.push(TypeType::Concrete(self.entry(i)));
            i += 1;
        }
        out
    }

    /// Every entry of the schema, by position.
    pub fn concrete_type_list(&self) -> (r: Vec<TypeRef<'_>>)
        ensures
            r@.len() == self@.types.len(),
            forall|i: int| 0 <= i < r@.len() ==> (#[trigger] r@[i])@ == self@.entry(i),
    {
        let n: usize = self.types.len();
        let mut out: Vec<TypeRef<'_>> = Vec::new();
        let mut i: usize = 0;
        while i < n
            invariant
                n == self@.types.len(),
                i <= n,
                out@.len() == i,
                forall|j: int| 0 <= j < i ==> (#[trigger] out@[j])@ == self@.entry(j),
            decreases n - i,
        {
            out.push(self.entry(i));
            i += 1;
        }
        out
    }

    /// The type that the usage `t` stands for. The type that `t` names must be
    /// registered: `lookup_type` tells.
    pub fn make_type(&self, t: &Type) -> (r: TypeType<'_>)
        requires
            declares(self@.types, t@.innermost_name()),
        ensures
            r@ == self@.resolve(t@),
            r@.well_nested(),
            !(t@.is_non_null()) ==> !(r@ is NonNull),
        decreases t,
    {
        proof {
            reveal_with_fuel(TypeType::shape, 3);
            reveal_with_fuel(TypeTypeView::well_nested, 3);
        }
        match t {
            Type::NonNullNamed(n) => {
                let entry = self.concrete_type_by_name(n.as_str()).unwrap();
                TypeType::NonNull(Box::new(TypeType::Concrete(entry)))
            },
            Type::NonNullList(inner, expected_size) => {
                let items = self.make_type(inner);
                TypeType::NonNull(Box::new(TypeType::List(Box::new(items), *expected_size)))
            },
            Type::Named(n) => {
                let entry = self.concrete_type_by_name(n.as_str()).unwrap();
                TypeType::Concrete(entry)
            },
            Type::List(inner, expected_size) => {
                let items = self.make_type(inner);
                TypeType::List(Box::new(items), *expected_size)
            },
        }
    }

    /// Every directive of the schema, by position.
    pub fn directive_list(&self) -> (r: Vec<&DirectiveType>)
        ensures
            r@.len() == self@.directives.len(),
            forall|i: int| 0 <= i < r@.len() ==> (#[trigger] r@[i])@ == self@.directives[i],
    {
        let n: usize = self.directives.len();
        let mut out: Vec<&DirectiveType> = Vec::new();
        let mut i: usize = 0;
        while i < n
            invariant
                n == self@.directives.len(),
                i <= n,
                out@.len() == i,
                forall|j: int| 0 <= j < i ==> (#[trigger] out@[j])@ == self@.directives[j],
            decreases n - i,
        {
            out.push(self.directives.get(i));
            i += 1;
        }
        out
    }

    /// The directive called `name`.
    pub fn directive_by_name(&self, name: &str) -> (r: Option<&DirectiveType>)
        ensures
            match self@.directive_by_name(name@) {
                Some(d) => r matches Some(x) && x@ == d,
                None => r is None,
            },
    {
        match locate_directive(&self.directives, name) {
            Some(at) => Some(self.directives.get(at)),
            None => None,
        }
    }
}

} // verus!
