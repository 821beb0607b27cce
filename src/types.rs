use vstd::prelude::*;

verus! {

/// The two color constants of the language.
#[derive(Debug, Clone, Copy, PartialEq, Eq, Structural)]
pub enum ColorType {
    Red,
    White,
}

/// The four keys that an `input` block can branch on.
#[derive(Debug, Clone, Copy, PartialEq, Eq, Hash, Structural)]
pub enum KeyType {
    W,
    A,
    S,
    D,
}

/// Operators: binary `+`, `-`, `*` and the increment / decrement operators.
#[derive(Debug, Clone, Copy, PartialEq, Eq, Structural)]
pub enum OpType {
    Plus,
    Minus,
    Times,
    UPlus,
    UMinus,
}

/// The types of the language.
///
/// `Int(low, high)` is a bounded integer, `List(element, length)` a list of
/// fixed length, and `Bottom` stands for "no value".
#[derive(Debug, PartialEq, Eq)]
pub enum Type {
    Bool,
    Int(u32, u32),
    Color,
    Key,
    Printable,
    List(Box<Type>, u32),
    Bottom,
}

/// `a` accepts every value of `b`: the types are equal, or both are intervals
/// and the interval of `a` encloses that of `b`.
pub open spec fn subtype_spec(a: Type, b: Type) -> bool {
    a == b || match (a, b) {
        (Type::Int(l1, h1), Type::Int(l2, h2)) => l1 <= l2 && h1 >= h2,
        _ => false,
    }
}

/// The smallest interval that encloses both intervals.
pub open spec fn join_spec(l1: u32, h1: u32, l2: u32, h2: u32) -> Type {
    Type::Int(
        if l1 <= l2 { l1 } else { l2 },
        if h1 >= h2 { h1 } else { h2 },
    )
}

impl Type {
    /// A copy of this type.
    pub fn duplicate(&self) -> (r: Type)
        ensures
            r == *self,
        decreases self,
    {
        match self {
            Type::Bool => Type::Bool,
            Type::Int(l, h) => Type::Int(*l, *h),
            Type::Color => Type::Color,
            Type::Key => Type::Key,
            Type::Printable => Type::Printable,
            Type::List(elem, n) => Type::List(Box::new((**elem).duplicate()), *n),
            Type::Bottom => Type::Bottom,
        }
    }

    /// Structural equality of two types.
    pub fn same(&self, other: &Type) -> (r: bool)
        ensures
            r == (*self == *other),
        decreases self,
    {
        match (self, other) {
            (Type::Bool, Type::Bool) => true,
            (Type::Int(l1, h1), Type::Int(l2, h2)) => *l1 == *l2 && *h1 == *h2,
            (Type::Color, Type::Color) => true,
            (Type::Key, Type::Key) => true,
            (Type::Printable, Type::Printable) => true,
            (Type::List(e1, n1), Type::List(e2, n2)) => *n1 == *n2 && (**e1).same(&**e2),
            (Type::Bottom, Type::Bottom) => true,
            _ => false,
        }
    }

    pub fn is_int(&self) -> (r: bool)
        ensures
            r == (*self is Int),
    {
        match self {
            Type::Int(_, _) => true,
            _ => false,
        }
    }
}

/// Whether a value of type `b` may stand where type `a` is expected.
pub fn subtype(a: &Type, b: &Type) -> (r: bool)
    ensures
        r == subtype_spec(*a, *b),
{
    if a.same(b) {
        return true;
    }
    match (a, b) {
        (Type::Int(l1, h1), Type::Int(l2, h2)) => *l1 <= *l2 && *h1 >= *h2,
        _ => false,
    }
}

/// The widest enclosing interval of two integer types.
pub fn join_interval(a: &Type, b: &Type) -> (r: Type)
    requires
        *a is Int,
        *b is Int,
    ensures
        r == join_spec(a->Int_0, a->Int_1, b->Int_0, b->Int_1),
{
    match (a, b) {
        (Type::Int(l1, h1), Type::Int(l2, h2)) => {
            let low = if *l1 <= *l2 { *l1 } else { *l2 };
            let high = if *h1 >= *h2 { *h1 } else { *h2 };
            Type::Int(low, high)
        },
        _ => Type::Bottom,
    }
}

} // verus!
