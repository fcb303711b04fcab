//! Type usage expressions: a named type under list and non-null modifiers.

use vstd::prelude::*;

verus! {

/// A type as it is written at a use site: the type of a field or of an argument.
///
/// The expected size of a list is a hint for consumers and takes part in equality.
#[derive(Debug, PartialEq, Eq)]
pub enum Type {
    /// A nullable named type, `Name`.
    Named(String),
    /// A nullable list, `[inner]`.
    List(Box<Type>, Option<usize>),
    /// A non-null named type, `Name!`.
    NonNullNamed(String),
    /// A non-null list, `[inner]!`.
    NonNullList(Box<Type>, Option<usize>),
}

/// The mathematical value of a [`Type`]: the same tree over character sequences.
pub enum TypeExpr {
    Named(Seq<char>),
    List(Box<TypeExpr>, Option<usize>),
    NonNullNamed(Seq<char>),
    NonNullList(Box<TypeExpr>, Option<usize>),
}

impl TypeExpr {
    /// The name at the leaf of the expression.
    pub open spec fn innermost_name(self) -> Seq<char>
        decreases self,
    {
        match self {
            TypeExpr::Named(n) => n,
            TypeExpr::NonNullNamed(n) => n,
            TypeExpr::List(inner, _) => inner.innermost_name(),
            TypeExpr::NonNullList(inner, _) => inner.innermost_name(),
        }
    }

    /// Whether the outermost layer forbids null.
    pub open spec fn is_non_null(self) -> bool {
        self is NonNullNamed || self is NonNullList
    }

    /// The same expression with null allowed at the outermost layer.
    pub open spec fn nullable(self) -> TypeExpr {
        match self {
            TypeExpr::NonNullNamed(n) => TypeExpr::Named(n),
            TypeExpr::NonNullList(inner, size) => TypeExpr::List(inner, size),
            _ => self,
        }
    }
}

impl View for Type {
    type V = TypeExpr;

    open spec fn view(&self) -> TypeExpr {
        self.expr()
    }
}

impl Clone for Type {
    fn clone(&self) -> (r: Self)
        ensures
            r@ == self@,
        decreases self,
    {
        match self {
            Type::Named(n) => Type::Named(n.clone()),
            Type::NonNullNamed(n) => Type::NonNullNamed(n.clone()),
            Type::List(inner, size) => {
                let copy = (&**inner).clone();
                Type::List(Box::new(copy), *size)
            },
            Type::NonNullList(inner, size) => {
                let copy = (&**inner).clone();
                Type::NonNullList(Box::new(copy), *size)
            },
        }
    }
}

/// Whether two optional size hints are the same.
fn same_size(a: &Option<usize>, b: &Option<usize>) -> (r: bool)
    ensures
        r == (*a == *b),
{
    match (a, b) {
        (Some(x), Some(y)) => *x == *y,
        (None, None) => true,
        _ => false,
    }
}

impl Type {
    /// The value of the expression, defined by recursion on its structure.
    pub open spec fn expr(&self) -> TypeExpr
        decreases self,
    {
        match self {
            Type::Named(n) => TypeExpr::Named(n@),
            Type::NonNullNamed(n) => TypeExpr::NonNullNamed(n@),
            Type::List(inner, size) => TypeExpr::List(Box::new(inner.expr()), *size),
            Type::NonNullList(inner, size) => TypeExpr::NonNullList(Box::new(inner.expr()), *size),
        }
    }

    /// A nullable reference to the type called `name`.
    pub fn named(name: &str) -> (r: Type)
        ensures
            r@ == TypeExpr::Named(name@),
    {
        Type::Named(name.to_owned())
    }

    /// A non-null reference to the type called `name`.
    pub fn non_null_named(name: &str) -> (r: Type)
        ensures
            r@ == TypeExpr::NonNullNamed(name@),
    {
        Type::NonNullNamed(name.to_owned())
    }

    /// A nullable list of `inner`, without a size hint.
    pub fn list(inner: Type) -> (r: Type)
        ensures
            r@ == TypeExpr::List(Box::new(inner@), None),
    {
        Type::List(Box::new(inner), None)
    }

    /// A non-null list of `inner`, without a size hint.
    pub fn non_null_list(inner: Type) -> (r: Type)
        ensures
            r@ == TypeExpr::NonNullList(Box::new(inner@), None),
    {
        Type::NonNullList(Box::new(inner), None)
    }

    /// The name of a named type; nothing for a list.
    pub fn name(&self) -> (r: Option<&str>)
        ensures
            match self@ {
                TypeExpr::Named(n) => r matches Some(s) && s@ == n,
                TypeExpr::NonNullNamed(n) => r matches Some(s) && s@ == n,
                _ => r is None,
            },
    {
        match self {
            Type::Named(n) => Some(n.as_str()),
            Type::NonNullNamed(n) => Some(n.as_str()),
            _ => None,
        }
    }

    /// The name at the leaf of the expression, under every list and non-null layer.
    pub fn innermost_name(&self) -> (r: &str)
        ensures
            r@ == self@.innermost_name(),
        decreases self,
    {
        match self {
            Type::Named(n) => n.as_str(),
            Type::NonNullNamed(n) => n.as_str(),
            Type::List(inner, _) => inner.innermost_name(),
            Type::NonNullList(inner, _) => inner.innermost_name(),
        }
    }

    /// Whether the outermost layer forbids null.
    pub fn is_non_null(&self) -> (r: bool)
        ensures
            r == self@.is_non_null(),
    {
        match self {
            Type::NonNullNamed(_) => true,
            Type::NonNullList(_, _) => true,
            _ => false,
        }
    }

    /// The same expression with null allowed at the outermost layer.
    pub fn into_nullable(self) -> (r: Type)
        ensures
            r@ == self@.nullable(),
    {
        match self {
            Type::NonNullNamed(n) => Type::Named(n),
            Type::NonNullList(inner, size) => Type::List(inner, size),
            t => t,
        }
    }

    /// Structural equality: the same layers, the same size hints and the same name.
    pub fn same(&self, other: &Type) -> (r: bool)
        ensures
            r == (self@ == other@),
        decreases self,
    {
        match (self, other) {
            (Type::Named(a), Type::Named(b)) => *a == *b,
            (Type::NonNullNamed(a), Type::NonNullNamed(b)) => *a == *b,
            (Type::List(a, n), Type::List(b, m)) => same_size(n, m) && a.same(b),
            (Type::NonNullList(a, n), Type::NonNullList(b, m)) => same_size(n, m) && a.same(b),
            _ => false,
        }
    }
}

} // verus!
