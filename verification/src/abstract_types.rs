//! What query validation asks of a schema about interfaces and unions: which
//! types a value of an abstract type may have, whether two types can share a
//! value, and whether one type can stand where another is expected.

use vstd::prelude::*;
use crate::ast::{Type, TypeExpr};
use crate::meta::{MetaType, MetaView};
use crate::navigator::{type_ref_views, TypeRef, TypeRefView};
use crate::registry::{declares, locate, meta_views, position};
use crate::schema::{SchemaType, SchemaView};
use crate::text::{str_eq, texts};

verus! {

impl SchemaView {
    /// The positions, in rising order, of the objects among the first `n`
    /// entries that implement the interface called `interface`.
    pub open spec fn implementors(self, interface: Seq<char>, n: int) -> Seq<int>
        decreases n,
    {
        if n <= 0 {
            Seq::empty()
        } else if self.types[n - 1].implements(interface) {
            self.implementors(interface, n - 1).push(n - 1)
        } else {
            self.implementors(interface, n - 1)
        }
    }

    /// The positions of the entries that the first `n` of `names` are
    /// registered under, in the order of the names; a name that is not
    /// registered gives none.
    pub open spec fn members(self, names: Seq<Seq<char>>, n: int) -> Seq<int>
        decreases n,
    {
        if n <= 0 {
            Seq::empty()
        } else if declares(self.types, names[n - 1]) {
            self.members(names, n - 1).push(position(self.types, names[n - 1]))
        } else {
            self.members(names, n - 1)
        }
    }

    /// The positions of the types that a value of the abstract type `t` may
    /// have: the registered members of a union, in the order in which the
    /// union names them, and the objects that implement an interface, in the
    /// order of their positions. No other type has any.
    pub open spec fn possible_types(self, t: MetaView) -> Seq<int> {
        match t {
            MetaView::Union(u) => self.members(u.of_type_names, u.of_type_names.len() as int),
            MetaView::Interface(i) => self.implementors(i.name, self.types.len() as int),
            _ => Seq::empty(),
        }
    }

    /// The entries at `ids`.
    pub open spec fn entries(self, ids: Seq<int>) -> Seq<TypeRefView> {
        ids.map_values(|at: int| self.entry(at))
    }

    /// Whether `candidate` is one of the possible types of `abstract_type`:
    /// an entry of this schema, by its position and its descriptor, whose
    /// position is among them. A descriptor that the schema does not hold
    /// at that position is none, whatever its name.
    pub open spec fn is_possible_type(
        self,
        abstract_type: MetaView,
        candidate: TypeRefView,
    ) -> bool {
        self.owns(candidate) && self.possible_types(abstract_type).contains(candidate.id)
    }

    /// Whether a value can be of both types: the two are one entry, by
    /// position and descriptor, or one is a possible type of the other, or,
    /// where both are abstract, they have a possible type in common.
    pub open spec fn type_overlap(self, t1: TypeRefView, t2: TypeRefView) -> bool {
        t1 == t2 || if t1.meta.is_abstract() && t2.meta.is_abstract() {
            exists|k: int|
                0 <= k < self.possible_types(t1.meta).len() && self.is_possible_type(
                    t2.meta,
                    self.entry(#[trigger] self.possible_types(t1.meta)[k]),
                )
        } else if t1.meta.is_abstract() {
            self.is_possible_type(t1.meta, t2)
        } else if t2.meta.is_abstract() {
            self.is_possible_type(t2.meta, t1)
        } else {
            false
        }
    }

    /// Whether the type called `sub` can stand where the type called `sup`
    /// is expected: the names are equal, or both are registered, `sup` is
    /// abstract and `sub` is one of its possible types.
    pub open spec fn is_named_subtype(self, sub: Seq<char>, sup: Seq<char>) -> bool {
        sub == sup || (declares(self.types, sub) && declares(self.types, sup)
            && self.types[position(self.types, sup)].is_abstract() && self.is_possible_type(
            self.types[position(self.types, sup)],
            self.entry(position(self.types, sub)),
        ))
    }

    /// Whether a value of the usage `sub` can stand where the usage `sup` is
    /// expected. Equal usages can. A named type can where its name is a
    /// named subtype and it does not allow null where `sup` forbids it. A
    /// list can where its items can, under the same rule for null. Nothing
    /// else can.
    pub open spec fn is_subtype(self, sub: TypeExpr, sup: TypeExpr) -> bool
        decreases sub,
    {
        sub == sup || match sub {
            TypeExpr::NonNullNamed(b) => match sup {
                TypeExpr::NonNullNamed(p) => self.is_named_subtype(b, p),
                TypeExpr::Named(p) => self.is_named_subtype(b, p),
                _ => false,
            },
            TypeExpr::Named(b) => match sup {
                TypeExpr::Named(p) => self.is_named_subtype(b, p),
                _ => false,
            },
            TypeExpr::NonNullList(b, _) => match sup {
                TypeExpr::NonNullList(p, _) => self.is_subtype(*b, *p),
                TypeExpr::List(p, _) => self.is_subtype(*b, *p),
                _ => false,
            },
            TypeExpr::List(b, _) => match sup {
                TypeExpr::List(p, _) => self.is_subtype(*b, *p),
                _ => false,
            },
        }
    }
}

impl SchemaType {
    /// The types that a value of the abstract type `t` may have: for a
    /// union its registered members, for an interface the objects that
    /// implement it. To ask this of a type that is neither is an error of
    /// the caller.
    pub fn possible_types<'a>(&'a self, t: &MetaType) -> (r: Vec<TypeRef<'a>>)
        requires
            t@.is_abstract(),
        ensures
            type_ref_views(r@) == self@.entries(self@.possible_types(t@)),
            forall|k: int| 0 <= k < r@.len() ==> self@.owns(#[trigger] r@[k]@),
    {
        let types = self.types();
        let mut out: Vec<TypeRef<'a>> = Vec::new();
        match t {
            MetaType::Union(u) => {
                let ghost names = texts(u.of_type_names@);
                let mut i: usize = 0;
                while i < u.of_type_names.len()
                    invariant
                        i <= u.of_type_names.len(),
                        names == texts(u.of_type_names@),
                        meta_views(types.items()) == self@.types,
                        type_ref_views(out@) == self@.entries(self@.members(names, i as int)),
                        forall|k: int| 0 <= k < out@.len() ==> self@.owns(#[trigger] out@[k]@),
                    decreases u.of_type_names.len() - i,
                {
                    match locate(types, u.of_type_names[i].as_str()) {
                        Some(at) => {
                            let entry = self.entry(at);
                            out.push(entry);
                            assert(self@.entries(self@.members(names, i + 1)) =~= self@.entries(
                                self@.members(names, i as int),
                            ).push(self@.entry(at as int)));
                        },
                        None => {},
                    }
                    i += 1;
                }
            },
            MetaType::Interface(m) => {
                let n: usize = types.len();
                let ghost name = m.name@;
                let mut i: usize = 0;
                while i < n
                    invariant
                        i <= n,
                        n == self@.types.len(),
                        name == m.name@,
                        meta_views(types.items()) == self@.types,
                        type_ref_views(out@) == self@.entries(self@.implementors(name, i as int)),
                        forall|k: int| 0 <= k < out@.len() ==> self@.owns(#[trigger] out@[k]@),
                    decreases n - i,
                {
                    if types.get(i).implements(m.name.as_str()) {
                        let entry = self.entry(i);
                        out.push(entry);
                        assert(self@.entries(self@.implementors(name, i + 1)) =~= self@.entries(
                            self@.implementors(name, i as int),
                        ).push(self@.entry(i as int)));
                    }
                    i += 1;
                }
            },
            _ => {},
        }
        out
    }

    /// Whether `possible_type` is one of the possible types of
    /// `abstract_type`: the same entry, position and descriptor, not only a
    /// type of the same name or a type at the same position.
    pub fn is_possible_type(&self, abstract_type: &MetaType, possible_type: TypeRef) -> (r: bool)
        requires
            abstract_type@.is_abstract(),
        ensures
            r == self@.is_possible_type(abstract_type@, possible_type@),
    {
        let possible = self.possible_types(abstract_type);
        let ghost ids = self@.possible_types(abstract_type@);
        assert(type_ref_views(possible@).len() == self@.entries(ids).len());
        let mut k: usize = 0;
        while k < possible.len()
            invariant
                k <= possible.len(),
                ids == self@.possible_types(abstract_type@),
                possible@.len() == ids.len(),
                type_ref_views(possible@) == self@.entries(ids),
                forall|j: int| 0 <= j < possible@.len() ==> self@.owns(#[trigger] possible@[j]@),
                forall|j: int| 0 <= j < k ==> possible@[j]@ != possible_type@,
            decreases possible.len() - k,
        {
            assert(type_ref_views(possible@)[k as int] == self@.entries(ids)[k as int]);
            if possible[k].same_entry(&possible_type) {
                assert(ids[k as int] == possible_type@.id);
                return true;
            }
            k += 1;
        }
        proof {
            if self@.owns(possible_type@) && ids.contains(possible_type@.id) {
                let j = choose|j: int| 0 <= j < ids.len() && ids[j] == possible_type@.id;
                assert(type_ref_views(possible@)[j] == self@.entries(ids)[j]);
                assert(possible@[j]@ == possible_type@);
            }
        }
        false
    }

    /// Whether a value can be of both types.
    pub fn type_overlap(&self, t1: TypeRef, t2: TypeRef) -> (r: bool)
        ensures
            r == self@.type_overlap(t1@, t2@),
    {
        if t1.same_entry(&t2) {
            return true;
        }
        let first = t1.meta().is_abstract();
        let second = t2.meta().is_abstract();
        if first && second {
            let possible = self.possible_types(t1.meta());
            let ghost ids = self@.possible_types(t1@.meta);
            assert(type_ref_views(possible@).len() == self@.entries(ids).len());
            let mut k: usize = 0;
            while k < possible.len()
                invariant
                    k <= possible.len(),
                    ids == self@.possible_types(t1@.meta),
                    t1@ != t2@,
                    t1@.meta.is_abstract(),
                    possible@.len() == ids.len(),
                    t2@.meta.is_abstract(),
                    type_ref_views(possible@) == self@.entries(ids),
                    forall|j: int|
                        0 <= j < k ==> !self@.is_possible_type(
                            t2@.meta,
                            self@.entry(#[trigger] ids[j]),
                        ),
                decreases possible.len() - k,
            {
                assert(type_ref_views(possible@)[k as int] == self@.entries(ids)[k as int]);
                if self.is_possible_type(t2.meta(), possible[k]) {
                    return true;
                }
                k += 1;
            }
            false
        } else if first {
            self.is_possible_type(t1.meta(), t2)
        } else if second {
            self.is_possible_type(t2.meta(), t1)
        } else {
            false
        }
    }

    /// Whether a value of the usage `sub_type` can stand where the usage
    /// `super_type` is expected.
    pub fn is_subtype(&self, sub_type: &Type, super_type: &Type) -> (r: bool)
        ensures
            r == self@.is_subtype(sub_type@, super_type@),
        decreases sub_type,
    {
        if super_type.same(sub_type) {
            return true;
        }
        match sub_type {
            Type::NonNullNamed(sub_name) => match super_type {
                Type::NonNullNamed(super_name) => self.is_named_subtype(
                    sub_name.as_str(),
                    super_name.as_str(),
                ),
                Type::Named(super_name) => self.is_named_subtype(
                    sub_name.as_str(),
                    super_name.as_str(),
                ),
                _ => false,
            },
            Type::Named(sub_name) => match super_type {
                Type::Named(super_name) => self.is_named_subtype(
                    sub_name.as_str(),
                    super_name.as_str(),
                ),
                _ => false,
            },
            Type::NonNullList(sub_inner, _) => match super_type {
                Type::NonNullList(super_inner, _) => self.is_subtype(sub_inner, super_inner),
                Type::List(super_inner, _) => self.is_subtype(sub_inner, super_inner),
                _ => false,
            },
            Type::List(sub_inner, _) => match super_type {
                Type::List(super_inner, _) => self.is_subtype(sub_inner, super_inner),
                _ => false,
            },
        }
    }

    /// Whether the type called `sub_type_name` can stand where the type
    /// called `super_type_name` is expected.
    pub fn is_named_subtype(&self, sub_type_name: &str, super_type_name: &str) -> (r: bool)
        ensures
            r == self@.is_named_subtype(sub_type_name@, super_type_name@),
    {
        if str_eq(sub_type_name, super_type_name) {
            true
        } else {
            match self.concrete_type_by_name(sub_type_name) {
                Some(sub_type) => match self.concrete_type_by_name(super_type_name) {
                    Some(super_type) => super_type.meta().is_abstract() && self.is_possible_type(
                        super_type.meta(),
                        sub_type,
                    ),
                    None => false,
                },
                None => false,
            }
        }
    }
}

} // verus!
