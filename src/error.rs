use vstd::prelude::*;
use crate::ast::Ident;
use crate::types::{KeyType, OpType, Type};

verus! {

/// Every way in which a program can fail to check, with the offending
/// names, types and operators.
#[derive(Debug, PartialEq, Eq)]
pub enum CheckError {
    /// An integer literal at or above the largest allowed constant.
    LiteralOutOfRange(u32),
    /// A list literal with too many elements (the count is given).
    ListTooLong(usize),
    /// A list literal whose elements do not share one type.
    HeterogeneousList,
    UndeclaredVariable(Ident),
    /// `++` or `--` used as a binary operator.
    IllegalUnaryInBinaryContext(OpType),
    UnsupportedOperator(OpType, Type, Type),
    ImmutableModification(Ident),
    /// The variable and its declared type.
    TypeMismatch(Ident, Type),
    UndeclaredFunction(Ident),
    /// The function, the number of parameters, the number of arguments.
    ArityMismatch(Ident, usize, usize),
    ArgumentTypeMismatch(Ident),
    NotAList(Type),
    IndexNotInteger(Type),
    /// The list type and the index type.
    IndexOutOfRange(Type, Type),
    DuplicateName(Ident),
    DuplicateBranch(KeyType),
    /// A function without a return type whose body returns.
    UnexpectedReturn(Ident),
    /// A function with a return type whose body does not return.
    MissingReturn(Ident),
    /// The function, its declared return type, the type returned.
    ReturnTypeMismatch(Ident, Type, Type),
    DuplicateFunction(Ident),
}

} // verus!
