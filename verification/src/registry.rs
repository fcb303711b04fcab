//! The registry that collects the descriptors of a schema's types while the
//! types describe themselves.

use vstd::prelude::*;
use crate::ast::{Type, TypeExpr};
use crate::error::{fault_of, SchemaError, SchemaFault};
use crate::introspection::plain_object;
use crate::meta::{
    field_views, Argument, ArgumentView, DeprecationView, Field, FieldView, MetaType, MetaView,
    ObjectMeta, PlaceholderMeta,
};
use crate::table::{distinct, keys_of, Keyed, Table};

verus! {

/// The values of a list of descriptors.
pub open spec fn meta_views(v: Seq<MetaType>) -> Seq<MetaView> {
    v.map_values(|m: MetaType| m@)
}

/// Whether a descriptor is registered under `name`.
pub open spec fn declares(types: Seq<MetaView>, name: Seq<char>) -> bool {
    exists|i: int| 0 <= i < types.len() && (#[trigger] types[i]).key() == name
}

/// The position of a descriptor registered under `name`.
pub open spec fn position(types: Seq<MetaView>, name: Seq<char>) -> int {
    choose|i: int| 0 <= i < types.len() && (#[trigger] types[i]).key() == name
}

/// Whether no two descriptors are registered under one name.
pub open spec fn distinct_keys(types: Seq<MetaView>) -> bool {
    forall|i: int, j: int|
        #![trigger types[i], types[j]]
        0 <= i < types.len() && 0 <= j < types.len() && i != j ==> types[i].key() != types[j].key()
}

impl Keyed for MetaType {
    open spec fn key_spec(&self) -> Seq<char> {
        self@.key()
    }

    fn key_text(&self) -> (r: &str) {
        self.key()
    }
}

/// Among descriptors with distinct names, the descriptor at `at` is the one
/// registered under its name.
pub proof fn lemma_position(types: Seq<MetaView>, at: int)
    requires
        distinct_keys(types),
        0 <= at < types.len(),
    ensures
        declares(types, types[at].key()),
        position(types, types[at].key()) == at,
{
}

/// The names of a table of descriptors are the names of their values.
pub(crate) proof fn lemma_table_keys(items: Seq<MetaType>)
    ensures
        distinct(keys_of(items)) == distinct_keys(meta_views(items)),
        forall|name: Seq<char>| #[trigger]
            keys_of(items).contains(name) == declares(meta_views(items), name),
{
    let keys = keys_of(items);
    let views = meta_views(items);
    assert forall|name: Seq<char>| #[trigger] keys.contains(name) == declares(views, name) by {
        if keys.contains(name) {
            let i = choose|i: int| 0 <= i < keys.len() && keys[i] == name;
            assert(views[i].key() == name);
        }
        if declares(views, name) {
            let i = choose|i: int| 0 <= i < views.len() && (#[trigger] views[i]).key() == name;
            assert(keys[i] == name);
        }
    }
    if distinct(keys) {
        assert forall|i: int, j: int|
            #![trigger views[i], views[j]]
            0 <= i < views.len() && 0 <= j < views.len() && i != j implies views[i].key()
                != views[j].key() by {
            assert(keys[i] != keys[j]);
        }
    }
    if distinct_keys(views) {
        assert forall|i: int, j: int|
            0 <= i < keys.len() && 0 <= j < keys.len() && i != j implies keys[i] != keys[j] by {
            assert(views[i].key() != views[j].key());
        }
    }
}

/// The position of the descriptor kept under `name`.
pub(crate) fn locate(types: &Table<MetaType>, name: &str) -> (r: Option<usize>)
    ensures
        distinct_keys(meta_views(types.items())),
        match r {
            Some(at) => at < types.items().len() && declares(meta_views(types.items()), name@)
                && at == position(meta_views(types.items()), name@),
            None => !declares(meta_views(types.items()), name@),
        },
{
    let r = types.find(name);
    proof {
        lemma_table_keys(types.items());
        if r is Some {
            lemma_position(meta_views(types.items()), r->0 as int);
        }
    }
    r
}

/// What registering `meta` makes of `types`: a descriptor under a new name
/// comes last; one under the name of a placeholder takes the placeholder's
/// place; one under the name of a described type changes nothing.
pub open spec fn registered(types: Seq<MetaView>, meta: MetaView) -> Seq<MetaView> {
    if !declares(types, meta.key()) {
        types.push(meta)
    } else if types[position(types, meta.key())] is Placeholder {
        types.update(position(types, meta.key()), meta)
    } else {
        types
    }
}

/// Whether registering `meta` meets a different description of a type of its
/// name.
pub open spec fn conflicts(types: Seq<MetaView>, meta: MetaView) -> bool {
    &&& declares(types, meta.key())
    &&& !(types[position(types, meta.key())] is Placeholder)
    &&& !(meta is Placeholder)
    &&& types[position(types, meta.key())] != meta
}

/// The value of a [`Registry`]: the descriptors in the order in which their
/// names came, and the first conflict met.
pub struct RegistryView {
    pub types: Seq<MetaView>,
    pub fault: Option<SchemaFault>,
}

impl RegistryView {
    /// The registry after `meta` was registered.
    pub open spec fn insert(self, meta: MetaView) -> RegistryView {
        RegistryView {
            types: registered(self.types, meta),
            fault: if self.fault is None && conflicts(self.types, meta) {
                Some(SchemaFault::DuplicateTypeName(meta.key()))
            } else {
                self.fault
            },
        }
    }
}

/// A type that can describe itself to a registry.
///
/// `meta` may ask the registry for the types that its own description refers
/// to; a type that refers to itself finds its name taken by a placeholder.
pub trait GraphQLType {
    /// What a value of the type needs to know to describe itself.
    type TypeInfo;

    /// The name under which the type is registered.
    fn name(info: &Self::TypeInfo) -> String;

    /// The descriptor of the type.
    fn meta(info: &Self::TypeInfo, registry: &mut Registry) -> MetaType;
}

/// Whether `name` is a name that `T` gives itself when it is asked with
/// `info`.
pub open spec fn gives_name<T: GraphQLType>(info: &T::TypeInfo, name: Seq<char>) -> bool {
    exists|s: String| #[trigger] call_ensures(T::name, (info,), s) && s@ == name
}

/// The descriptors collected so far, each under its name.
#[derive(Debug)]
pub struct Registry {
    types: Table<MetaType>,
    fault: Option<SchemaError>,
}

impl View for Registry {
    type V = RegistryView;

    closed spec fn view(&self) -> RegistryView {
        RegistryView { types: meta_views(self.types.items()), fault: fault_of(self.fault) }
    }
}

impl Registry {
    /// Whether no two descriptors are registered under one name. This holds
    /// of every registry.
    pub open spec fn valid(self) -> bool {
        distinct_keys(self@.types)
    }

    /// A registry without descriptors.
    pub fn new() -> (r: Registry)
        ensures
            r@ == (RegistryView { types: Seq::empty(), fault: None }),
            r.valid(),
    {
        let r = Registry { types: Table::new(), fault: None };
        assert(meta_views(r.types.items()) =~= Seq::empty());
        r
    }

    /// The number of registered names.
    pub fn len(&self) -> (r: usize)
        ensures
            r == self@.types.len(),
    {
        self.types.len()
    }

    /// The position of the descriptor registered under `name`.
    fn find(&self, name: &str) -> (r: Option<usize>)
        ensures
            self.valid(),
            match r {
                Some(at) => declares(self@.types, name@) && at == position(self@.types, name@),
                None => !declares(self@.types, name@),
            },
    {
        locate(&self.types, name)
    }

    /// Whether a descriptor is registered under `name`.
    pub fn contains(&self, name: &str) -> (r: bool)
        ensures
            r == declares(self@.types, name@),
            self.valid(),
    {
        self.find(name).is_some()
    }

    /// The descriptor registered under `name`.
    pub fn get(&self, name: &str) -> (r: Option<&MetaType>)
        ensures
            match r {
                Some(m) => declares(self@.types, name@) && m@ == self@.types[position(
                    self@.types,
                    name@,
                )],
                None => !declares(self@.types, name@),
            },
    {
        match self.find(name) {
            Some(at) => Some(self.types.get(at)),
            None => None,
        }
    }

    /// The first conflict met, if any was.
    pub fn fault(&self) -> (r: Option<&SchemaError>)
        ensures
            match r {
                Some(e) => self@.fault == Some(e@),
                None => self@.fault is None,
            },
    {
        self.fault.as_ref()
    }

    /// Registers `meta` under its name.
    ///
    /// A descriptor under a new name is added; one under the name of a
    /// placeholder replaces the placeholder. Where the name belongs to a
    /// described type, the registry keeps what it has: a placeholder or an
    /// equal descriptor is accepted, and a different one is a conflict,
    /// which is returned and, if it is the first, kept.
    pub fn insert(&mut self, meta: MetaType) -> (r: Result<(), SchemaError>)
        ensures
            final(self)@ == old(self)@.insert(meta@),
            final(self).valid(),
            declares(final(self)@.types, meta@.key()),
            match r {
                Ok(_) => !conflicts(old(self)@.types, meta@),
                Err(e) => conflicts(old(self)@.types, meta@) && e@
                    == SchemaFault::DuplicateTypeName(meta@.key()),
            },
    {
        let ghost before = self@.types;
        let found = self.find(meta.key());
        proof {
            lemma_table_keys(self.types.items());
        }
        match found {
            None => {
                self.types.push(meta);
                assert(self@.types =~= before.push(meta@));
                assert(self@.types[before.len() as int].key() == meta@.key());
                Ok(())
            },
            Some(at) => {
                if self.types.get(at).is_placeholder() {
                    let _ = self.types.replace(at, meta);
                    assert(self@.types =~= before.update(at as int, meta@));
                    assert(self@.types[at as int].key() == meta@.key());
                    Ok(())
                } else if meta.is_placeholder() || self.types.get(at).same(&meta) {
                    Ok(())
                } else {
                    if self.fault.is_none() {
                        self.fault = Some(SchemaError::DuplicateTypeName(meta.key().to_owned()));
                    }
                    Err(SchemaError::DuplicateTypeName(meta.key().to_owned()))
                }
            },
        }
    }

    /// The type of `T` as a field or an argument uses it, after making sure
    /// that `T` is registered.
    ///
    /// The result is the non-null usage of the name that `T` gives itself.
    /// Where that name is registered already, nothing is described and the
    /// registry stays as it is. Otherwise a placeholder takes the name, `T`
    /// describes itself, and its descriptor is registered. Should the name
    /// not be registered after that, the placeholder takes it again: the
    /// usage that comes back always names a type that the registry holds.
    pub fn get_type<T: GraphQLType>(&mut self, info: &T::TypeInfo) -> (r: Type)
        ensures
            r@ == TypeExpr::NonNullNamed(r@.innermost_name()),
            gives_name::<T>(info, r@.innermost_name()),
            declares(old(self)@.types, r@.innermost_name()) ==> final(self)@ == old(self)@,
            declares(final(self)@.types, r@.innermost_name()),
            final(self).valid(),
    {
        let name = T::name(info);
        if !self.contains(name.as_str()) {
            let _ = self.insert(PlaceholderMeta::new(name.as_str()).into_meta());
            let meta = T::meta(info, self);
            let _ = self.insert(meta);
            if !self.contains(name.as_str()) {
                let _ = self.insert(PlaceholderMeta::new(name.as_str()).into_meta());
            }
        }
        Type::NonNullNamed(name)
    }

    /// A field called `name` of the type `T`, which is registered on the way.
    pub fn field<T: GraphQLType>(&mut self, name: &str, info: &T::TypeInfo) -> (r: Field)
        ensures
            r@ == (FieldView {
                name: name@,
                description: None,
                arguments: Seq::empty(),
                field_type: TypeExpr::NonNullNamed(r@.field_type.innermost_name()),
                deprecation_status: DeprecationView::Current,
            }),
            gives_name::<T>(info, r@.field_type.innermost_name()),
            declares(old(self)@.types, r@.field_type.innermost_name()) ==> final(self)@ == old(
                self,
            )@,
            declares(final(self)@.types, r@.field_type.innermost_name()),
            final(self).valid(),
    {
        let field_type = self.get_type::<T>(info);
        Field::new(name, field_type)
    }

    /// An argument called `name` of the type `T`, which is registered on the way.
    pub fn arg<T: GraphQLType>(&mut self, name: &str, info: &T::TypeInfo) -> (r: Argument)
        ensures
            r@ == (ArgumentView {
                name: name@,
                description: None,
                arg_type: TypeExpr::NonNullNamed(r@.arg_type.innermost_name()),
                default_value: None,
            }),
            gives_name::<T>(info, r@.arg_type.innermost_name()),
            declares(old(self)@.types, r@.arg_type.innermost_name()) ==> final(self)@ == old(self)@,
            declares(final(self)@.types, r@.arg_type.innermost_name()),
            final(self).valid(),
    {
        let arg_type = self.get_type::<T>(info);
        Argument::new(name, arg_type)
    }

    /// The descriptors and the first conflict.
    pub(crate) fn into_parts(self) -> (r: (Table<MetaType>, Option<SchemaError>))
        ensures
            meta_views(r.0.items()) == self@.types,
            fault_of(r.1) == self@.fault,
    {
        let Registry { types, fault } = self;
        (types, fault)
    }
}

/// The mutation root of a schema without mutations.
pub struct EmptyMutation {}

/// The subscription root of a schema without subscriptions.
pub struct EmptySubscription {}

impl EmptyMutation {
    /// The mutation root of a schema without mutations.
    pub fn new() -> EmptyMutation {
        EmptyMutation {  }
    }
}

impl EmptySubscription {
    /// The subscription root of a schema without subscriptions.
    pub fn new() -> EmptySubscription {
        EmptySubscription {  }
    }
}

impl GraphQLType for EmptyMutation {
    type TypeInfo = ();

    fn name(info: &()) -> (r: String)
        ensures
            r@ == "_EmptyMutation"@,
    {
        "_EmptyMutation".to_owned()
    }

    fn meta(info: &(), registry: &mut Registry) -> (r: MetaType)
        ensures
            final(registry)@ == old(registry)@,
            r@ == plain_object("_EmptyMutation"@, Seq::empty()),
    {
        let r = ObjectMeta::new("_EmptyMutation", Vec::new()).into_meta();
        assert(field_views(Seq::<Field>::empty()) =~= Seq::empty());
        r
    }
}

impl GraphQLType for EmptySubscription {
    type TypeInfo = ();

    fn name(info: &()) -> (r: String)
        ensures
            r@ == "_EmptySubscription"@,
    {
        "_EmptySubscription".to_owned()
    }

    fn meta(info: &(), registry: &mut Registry) -> (r: MetaType)
        ensures
            final(registry)@ == old(registry)@,
            r@ == plain_object("_EmptySubscription"@, Seq::empty()),
    {
        let r = ObjectMeta::new("_EmptySubscription", Vec::new()).into_meta();
        assert(field_views(Seq::<Field>::empty()) =~= Seq::empty());
        r
    }
}

} // verus!
