//! Types as a schema hands them out: a descriptor with its place in the
//! schema, under list and non-null layers.

use vstd::prelude::*;
use vstd::string::StringExecFns;
use crate::meta::{MetaType, MetaView};

verus! {

/// A descriptor held by a schema, with the position that the schema keeps it
/// at. Two of these are the same entry exactly when their positions are equal.
#[derive(Clone, Copy, Debug)]
pub struct TypeRef<'a> {
    id: usize,
    meta: &'a MetaType,
}

/// The value of a [`TypeRef`].
pub struct TypeRefView {
    pub id: int,
    pub meta: MetaView,
}

impl<'a> View for TypeRef<'a> {
    type V = TypeRefView;

    closed spec fn view(&self) -> TypeRefView {
        TypeRefView { id: self.id as int, meta: (*self.meta)@ }
    }
}

/// The entries of a list.
pub open spec fn type_ref_views<'a>(v: Seq<TypeRef<'a>>) -> Seq<TypeRefView> {
    v.map_values(|t: TypeRef<'a>| t@)
}

impl<'a> TypeRef<'a> {
    pub(crate) fn new(id: usize, meta: &'a MetaType) -> (r: TypeRef<'a>)
        ensures
            r@ == (TypeRefView { id: id as int, meta: meta@ }),
    {
        TypeRef { id, meta }
    }

    /// The position of the entry in its schema.
    pub fn id(&self) -> (r: usize)
        ensures
            r == self@.id,
    {
        self.id
    }

    /// The descriptor.
    pub fn meta(&self) -> (r: &'a MetaType)
        ensures
            r@ == self@.meta,
    {
        self.meta
    }

    /// Whether both are the same entry: the same descriptor at the same
    /// position. Two entries of different schemas are the same only where
    /// nothing tells them apart.
    pub fn same_entry(&self, other: &TypeRef) -> (r: bool)
        ensures
            r == (self@ == other@),
    {
        self.id == other.id && self.meta.same(other.meta)
    }
}

/// A type as a field or an argument uses it: an entry of the schema under
/// list and non-null layers.
#[derive(Debug)]
pub enum TypeType<'a> {
    Concrete(TypeRef<'a>),
    NonNull(Box<TypeType<'a>>),
    List(Box<TypeType<'a>>, Option<usize>),
}

/// The value of a [`TypeType`].
pub enum TypeTypeView {
    Concrete(TypeRefView),
    NonNull(Box<TypeTypeView>),
    List(Box<TypeTypeView>, Option<usize>),
}

impl TypeTypeView {
    /// The entry under every layer.
    pub open spec fn innermost(self) -> TypeRefView
        decreases self,
    {
        match self {
            TypeTypeView::Concrete(t) => t,
            TypeTypeView::NonNull(inner) => inner.innermost(),
            TypeTypeView::List(inner, _) => inner.innermost(),
        }
    }

    /// What the nearest list layer holds, looking through non-null layers;
    /// nothing where an entry is reached first.
    pub open spec fn list_contents(self) -> Option<TypeTypeView>
        decreases self,
    {
        match self {
            TypeTypeView::List(inner, _) => Some(*inner),
            TypeTypeView::NonNull(inner) => inner.list_contents(),
            TypeTypeView::Concrete(_) => None,
        }
    }

    /// Whether no non-null layer stands directly on another.
    pub open spec fn well_nested(self) -> bool
        decreases self,
    {
        match self {
            TypeTypeView::Concrete(_) => true,
            TypeTypeView::NonNull(inner) => !(*inner is NonNull) && inner.well_nested(),
            TypeTypeView::List(inner, _) => inner.well_nested(),
        }
    }

    /// The type in the notation of schema documents: the name of the entry,
    /// a list in square brackets, `!` behind what is non-null.
    pub open spec fn text(self) -> Seq<char>
        decreases self,
    {
        match self {
            TypeTypeView::Concrete(t) => t.meta.key(),
            TypeTypeView::NonNull(inner) => inner.text() + "!"@,
            TypeTypeView::List(inner, _) => "["@ + inner.text() + "]"@,
        }
    }
}

impl<'a> View for TypeType<'a> {
    type V = TypeTypeView;

    open spec fn view(&self) -> TypeTypeView {
        self.shape()
    }
}

impl<'a> Clone for TypeType<'a> {
    fn clone(&self) -> (r: Self)
        ensures
            r@ == self@,
        decreases self,
    {
        match self {
            TypeType::Concrete(t) => TypeType::Concrete(*t),
            TypeType::NonNull(inner) => {
                let copy = (&**inner).clone();
                TypeType::NonNull(Box::new(copy))
            },
            TypeType::List(inner, size) => {
                let copy = (&**inner).clone();
                TypeType::List(Box::new(copy), *size)
            },
        }
    }
}

impl<'a> TypeType<'a> {
    /// The value of the type, defined by recursion on its layers.
    pub open spec fn shape(&self) -> TypeTypeView
        decreases self,
    {
        match self {
            TypeType::Concrete(t) => TypeTypeView::Concrete(t@),
            TypeType::NonNull(inner) => TypeTypeView::NonNull(Box::new(inner.shape())),
            TypeType::List(inner, size) => TypeTypeView::List(Box::new(inner.shape()), *size),
        }
    }

    /// The entry, where the type has no layer.
    pub fn to_concrete(&self) -> (r: Option<TypeRef<'a>>)
        ensures
            match self@ {
                TypeTypeView::Concrete(t) => r matches Some(x) && x@ == t,
                _ => r is None,
            },
    {
        match self {
            TypeType::Concrete(t) => Some(*t),
            _ => None,
        }
    }

    /// The entry under every list and non-null layer.
    pub fn innermost_concrete(&self) -> (r: TypeRef<'a>)
        ensures
            r@ == self@.innermost(),
        decreases self,
    {
        match self {
            TypeType::Concrete(t) => *t,
            TypeType::NonNull(n) => n.innermost_concrete(),
            TypeType::List(n, _) => n.innermost_concrete(),
        }
    }

    /// What the nearest list layer holds, looking through non-null layers;
    /// nothing where the type is not a list.
    pub fn list_contents(&self) -> (r: Option<&TypeType<'a>>)
        ensures
            match self@.list_contents() {
                Some(inner) => r matches Some(x) && x@ == inner,
                None => r is None,
            },
        decreases self,
    {
        match self {
            TypeType::List(n, _) => Some(&**n),
            TypeType::NonNull(n) => n.list_contents(),
            TypeType::Concrete(_) => None,
        }
    }

    /// Whether the outermost layer is non-null.
    pub fn is_non_null(&self) -> (r: bool)
        ensures
            r == (self@ is NonNull),
    {
        match self {
            TypeType::NonNull(_) => true,
            _ => false,
        }
    }

    /// The type in the notation of schema documents: `Name`, `[Name]`,
    /// `Name!`, `[Name!]!` and so on.
    pub fn to_string(&self) -> (r: String)
        ensures
            r@ == self@.text(),
        decreases self,
    {
        match self {
            TypeType::Concrete(t) => String::from_str(t.meta().key()),
            TypeType::NonNull(inner) => inner.to_string().concat("!"),
            TypeType::List(inner, _) => {
                let middle = inner.to_string();
                String::from_str("[").concat(middle.as_str()).concat("]")
            },
        }
    }
}

} // verus!
