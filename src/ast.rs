use vstd::prelude::*;
use crate::types::{ColorType, KeyType, OpType, Type};

verus! {

pub type Ident = String;

/// Expressions.
#[derive(Debug)]
pub enum Expr {
    ConstBool(bool),
    ConstInt(u32),
    ConstKey(KeyType),
    ConstColor(ColorType),
    ConstString(String),
    ConstList(Vec<Expr>),
    Var(Ident),
    Binop(Box<Expr>, OpType, Box<Expr>),
    Unop(Ident, OpType),
    Call(Ident, Vec<Expr>),
    Elem(Box<Expr>, Box<Expr>),
}

/// Statements.
#[derive(Debug)]
pub enum Statement {
    Mutable(Type, Ident, Expr),
    Const(Type, Ident, Expr),
    Assign(Ident, Expr),
    Block(Vec<Statement>),
    Loop(Box<Statement>),
    Break,
    Input(Vec<(KeyType, Statement)>),
    Return(Expr),
    Expr(Expr),
}

/// A function definition: optional return type, name, parameters and body.
#[derive(Debug)]
pub struct Function {
    pub ret: Option<Type>,
    pub name: Ident,
    pub args: Vec<(Type, Ident)>,
    pub body: Statement,
}

/// A whole program: its functions in order of appearance.
#[derive(Debug)]
pub struct AST(pub Vec<Function>);

} // verus!
