use vstd::prelude::*;
use crate::ast::{Expr, Function, Ident, Statement};
use crate::env::{lookup_fn, lookup_var, FnSig, VarBinding};
use crate::error::CheckError;
use crate::types::{join_spec, subtype_spec, KeyType, OpType, Type};

verus! {

/// Integer constants and list literals must stay strictly below this bound.
pub const MAX_CONSTANT: u32 = 65535;

/// The common type of two list elements: intervals widen to enclose both,
/// other types must be equal.
pub open spec fn unify_spec(a: Type, b: Type) -> Option<Type> {
    match (a, b) {
        (Type::Int(l1, h1), Type::Int(l2, h2)) => Some(join_spec(l1, h1, l2, h2)),
        _ => if a == b {
            Some(a)
        } else {
            None
        },
    }
}

/// The element type of a list literal whose elements have types `ts`;
/// `Bottom` for the empty list, `None` when the elements do not agree.
pub open spec fn element_type(ts: Seq<Type>) -> Option<Type>
    decreases ts.len(),
{
    if ts.len() == 0 {
        Some(Type::Bottom)
    } else if ts.len() == 1 {
        Some(ts[0])
    } else {
        match element_type(ts.drop_last()) {
            None => None,
            Some(a) => unify_spec(a, ts.last()),
        }
    }
}

/// The type of `t1 op t2`, given the operand types.
pub open spec fn binop_type(t1: Type, op: OpType, t2: Type) -> Result<Type, CheckError> {
    match (t1, op, t2) {
        (Type::Int(l1, h1), OpType::Plus, Type::Int(l2, h2)) => Ok(join_spec(l1, h1, l2, h2)),
        (Type::Int(l1, h1), OpType::Minus, Type::Int(l2, h2)) => Ok(join_spec(l1, h1, l2, h2)),
        (Type::Printable, OpType::Plus, Type::Printable) => Ok(Type::Printable),
        (Type::Printable, OpType::Plus, Type::Int(_, _)) => Ok(Type::Printable),
        (Type::Printable, OpType::Times, Type::Int(_, _)) => Ok(Type::Printable),
        (Type::Printable, OpType::Plus, Type::Color) => Ok(Type::Printable),
        (Type::Color, OpType::Plus, Type::Printable) => Ok(Type::Printable),
        _ => Err(CheckError::UnsupportedOperator(op, t1, t2)),
    }
}

/// The type of `list[index]`, given the types of both operands. An index
/// whose upper bound exceeds the list's length is rejected.
pub open spec fn index_type(list: Type, index: Type) -> Result<Type, CheckError> {
    match list {
        Type::List(elem, n) => match index {
            Type::Int(_, h) => if n < h {
                Err(CheckError::IndexOutOfRange(list, index))
            } else {
                Ok(*elem)
            },
            _ => Err(CheckError::IndexNotInteger(index)),
        },
        _ => Err(CheckError::NotAList(list)),
    }
}

/// Each parameter type accepts the argument type at its position.
pub open spec fn accepts_all(params: Seq<Type>, args: Seq<Type>) -> bool {
    forall|j: int| 0 <= j < params.len() ==> subtype_spec(#[trigger] params[j], args[j])
}

/// The inferred type of an expression, or the first error in it.
pub open spec fn infer_expr(e: Expr, ft: Seq<FnSig>, env: Seq<VarBinding>) -> Result<Type, CheckError>
    decreases e, 0int,
{
    match e {
        Expr::ConstBool(_) => Ok(Type::Bool),
        Expr::ConstInt(x) => if x >= MAX_CONSTANT {
            Err(CheckError::LiteralOutOfRange(x))
        } else {
            Ok(Type::Int(0, (x + 1) as u32))
        },
        Expr::ConstKey(_) => Ok(Type::Key),
        Expr::ConstColor(_) => Ok(Type::Color),
        Expr::ConstString(_) => Ok(Type::Printable),
        Expr::ConstList(elems) => if elems.len() >= MAX_CONSTANT {
            Err(CheckError::ListTooLong(elems.len()))
        } else {
            match infer_exprs(elems@, 0, ft, env) {
                Err(err) => Err(err),
                Ok(ts) => match element_type(ts) {
                    None => Err(CheckError::HeterogeneousList),
                    Some(t) => Ok(Type::List(Box::new(t), elems.len() as u32)),
                },
            }
        },
        Expr::Var(name) => match lookup_var(env, name@) {
            None => Err(CheckError::UndeclaredVariable(name)),
            Some(b) => Ok(b.ty),
        },
        Expr::Binop(l, op, r) => if op is UPlus || op is UMinus {
            Err(CheckError::IllegalUnaryInBinaryContext(op))
        } else {
            match infer_expr(*l, ft, env) {
                Err(err) => Err(err),
                Ok(t1) => match infer_expr(*r, ft, env) {
                    Err(err) => Err(err),
                    Ok(t2) => binop_type(t1, op, t2),
                },
            }
        },
        Expr::Unop(name, _) => match lookup_var(env, name@) {
            None => Err(CheckError::UndeclaredVariable(name)),
            Some(b) => if !b.mutable {
                Err(CheckError::ImmutableModification(name))
            } else if b.ty is Int {
                Ok(b.ty)
            } else {
                Err(CheckError::TypeMismatch(name, b.ty))
            },
        },
        Expr::Call(name, args) => match lookup_fn(ft, name@) {
            None => Err(CheckError::UndeclaredFunction(name)),
            Some(sig) => if sig.params.len() != args.len() {
                Err(CheckError::ArityMismatch(name, sig.params.len() as usize, args.len()))
            } else {
                match infer_exprs(args@, 0, ft, env) {
                    Err(err) => Err(err),
                    Ok(ts) => if accepts_all(sig.params, ts) {
                        Ok(sig.ret)
                    } else {
                        Err(CheckError::ArgumentTypeMismatch(name))
                    },
                }
            },
        },
        Expr::Elem(l, i) => match infer_expr(*l, ft, env) {
            Err(err) => Err(err),
            Ok(t1) => match infer_expr(*i, ft, env) {
                Err(err) => Err(err),
                Ok(t2) => index_type(t1, t2),
            },
        },
    }
}

/// The types of `es[i..]`, inferred left to right, or the first error.
pub open spec fn infer_exprs(es: Seq<Expr>, i: int, ft: Seq<FnSig>, env: Seq<VarBinding>) -> Result<
    Seq<Type>,
    CheckError,
>
    decreases es, es.len() - i,
{
    if i < 0 || i >= es.len() {
        Ok(Seq::empty())
    } else {
        match infer_expr(es[i], ft, env) {
            Err(err) => Err(err),
            Ok(t) => match infer_exprs(es, i + 1, ft, env) {
                Err(err) => Err(err),
                Ok(rest) => Ok(seq![t] + rest),
            },
        }
    }
}

/// The outcome of a declaration of `name` with type `t`.
pub open spec fn declare_spec(
    t: Type,
    name: Ident,
    e: Expr,
    mutable: bool,
    ft: Seq<FnSig>,
    env: Seq<VarBinding>,
) -> (Result<Option<Type>, CheckError>, Seq<VarBinding>) {
    if lookup_var(env, name@) is Some {
        (Err(CheckError::DuplicateName(name)), env)
    } else {
        match infer_expr(e, ft, env) {
            Err(err) => (Err(err), env),
            Ok(te) => if subtype_spec(t, te) {
                (Ok(None), env.push(VarBinding { name: name@, ty: t, mutable }))
            } else {
                (Err(CheckError::TypeMismatch(name, t)), env)
            },
        }
    }
}

/// The outcome of an assignment to `name`.
pub open spec fn assign_spec(name: Ident, e: Expr, ft: Seq<FnSig>, env: Seq<VarBinding>) -> Result<
    Option<Type>,
    CheckError,
> {
    match lookup_var(env, name@) {
        None => Err(CheckError::UndeclaredVariable(name)),
        Some(b) => if !b.mutable {
            Err(CheckError::ImmutableModification(name))
        } else {
            match infer_expr(e, ft, env) {
                Err(err) => Err(err),
                Ok(te) => if subtype_spec(b.ty, te) {
                    Ok(None)
                } else {
                    Err(CheckError::TypeMismatch(name, b.ty))
                },
            }
        },
    }
}

/// What a statement returns (`Some` of the returned type, `None` when it does
/// not return) or its first error, with the variables bound afterwards.
pub open spec fn check_stmt_spec(s: Statement, ft: Seq<FnSig>, env: Seq<VarBinding>) -> (Result<
    Option<Type>,
    CheckError,
>, Seq<VarBinding>)
    decreases s, 0int,
{
    match s {
        Statement::Mutable(t, name, e) => declare_spec(t, name, e, true, ft, env),
        Statement::Const(t, name, e) => declare_spec(t, name, e, false, ft, env),
        Statement::Assign(name, e) => (assign_spec(name, e, ft, env), env),
        Statement::Block(stmts) => check_block_spec(stmts@, 0, ft, env),
        Statement::Loop(body) => check_stmt_spec(*body, ft, env),
        Statement::Break => (Ok(None), env),
        Statement::Input(branches) => check_input_spec(branches@, 0, ft, env),
        Statement::Return(e) => (
            match infer_expr(e, ft, env) {
                Err(err) => Err(err),
                Ok(t) => Ok(Some(t)),
            },
            env,
        ),
        Statement::Expr(e) => (
            match infer_expr(e, ft, env) {
                Err(err) => Err(err),
                Ok(_) => Ok(None),
            },
            env,
        ),
    }
}

/// The statements `stmts[i..]` in sequence, in one shared scope: the first
/// one that returns or fails decides.
pub open spec fn check_block_spec(
    stmts: Seq<Statement>,
    i: int,
    ft: Seq<FnSig>,
    env: Seq<VarBinding>,
) -> (Result<Option<Type>, CheckError>, Seq<VarBinding>)
    decreases stmts, stmts.len() - i,
{
    if i < 0 || i >= stmts.len() {
        (Ok(None), env)
    } else {
        let (r, env1) = check_stmt_spec(stmts[i], ft, env);
        if r == Ok::<Option<Type>, CheckError>(None) {
            check_block_spec(stmts, i + 1, ft, env1)
        } else {
            (r, env1)
        }
    }
}

/// Some branch before position `i` is on key `k`.
pub open spec fn key_seen(branches: Seq<(KeyType, Statement)>, i: int, k: KeyType) -> bool {
    exists|j: int| 0 <= j < i && (#[trigger] branches[j]).0 == k
}

/// The branches `branches[i..]` of an `input` block: each key at most once,
/// each arm checked in turn; the block itself never returns.
pub open spec fn check_input_spec(
    branches: Seq<(KeyType, Statement)>,
    i: int,
    ft: Seq<FnSig>,
    env: Seq<VarBinding>,
) -> (Result<Option<Type>, CheckError>, Seq<VarBinding>)
    decreases branches, branches.len() - i,
{
    if i < 0 || i >= branches.len() {
        (Ok(None), env)
    } else if key_seen(branches, i, branches[i].0) {
        (Err(CheckError::DuplicateBranch(branches[i].0)), env)
    } else {
        let (r, env1) = check_stmt_spec(branches[i].1, ft, env);
        match r {
            Err(err) => (Err(err), env1),
            Ok(_) => check_input_spec(branches, i + 1, ft, env1),
        }
    }
}

/// The parameters of a function, bound as immutable variables.
pub open spec fn params_env(args: Seq<(Type, Ident)>) -> Seq<VarBinding> {
    args.map_values(|a: (Type, Ident)| VarBinding { name: a.1@, ty: a.0, mutable: false })
}

/// The outcome of checking one function body against its declared return type.
pub open spec fn check_function_spec(f: Function, ft: Seq<FnSig>) -> Result<(), CheckError> {
    match check_stmt_spec(f.body, ft, params_env(f.args@)).0 {
        Err(err) => Err(err),
        Ok(None) => match f.ret {
            None => Ok(()),
            Some(_) => Err(CheckError::MissingReturn(f.name)),
        },
        Ok(Some(t)) => match f.ret {
            None => Err(CheckError::UnexpectedReturn(f.name)),
            Some(u) => if subtype_spec(u, t) {
                Ok(())
            } else {
                Err(CheckError::ReturnTypeMismatch(f.name, u, t))
            },
        },
    }
}

/// The signature that a function definition declares.
pub open spec fn signature_of(f: Function) -> FnSig {
    FnSig {
        name: f.name@,
        ret: match f.ret {
            Some(t) => t,
            None => Type::Bottom,
        },
        params: f.args@.map_values(|a: (Type, Ident)| a.0),
    }
}

/// The built-in functions: `say` and `say_student`, each taking a string.
pub open spec fn builtin_table() -> Seq<FnSig> {
    seq![
        FnSig { name: "say"@, ret: Type::Bottom, params: seq![Type::Printable] },
        FnSig { name: "say_student"@, ret: Type::Bottom, params: seq![Type::Printable] },
    ]
}

/// The first pass: `fs[i..]` added to `table` in order; a name that is
/// already there is an error.
pub open spec fn register_spec(fs: Seq<Function>, i: int, table: Seq<FnSig>) -> Result<
    Seq<FnSig>,
    CheckError,
>
    decreases fs.len() - i,
{
    if i < 0 || i >= fs.len() {
        Ok(table)
    } else if lookup_fn(table, fs[i].name@) is Some {
        Err(CheckError::DuplicateFunction(fs[i].name))
    } else {
        register_spec(fs, i + 1, table.push(signature_of(fs[i])))
    }
}

/// The second pass: the bodies of `fs[i..]` in order; the first failure decides.
pub open spec fn check_bodies_spec(fs: Seq<Function>, i: int, table: Seq<FnSig>) -> Result<
    (),
    CheckError,
>
    decreases fs.len() - i,
{
    if i < 0 || i >= fs.len() {
        Ok(())
    } else {
        match check_function_spec(fs[i], table) {
            Err(err) => Err(err),
            Ok(()) => check_bodies_spec(fs, i + 1, table),
        }
    }
}

/// The outcome of checking a whole program.
pub open spec fn check_program(fs: Seq<Function>) -> Result<(), CheckError> {
    match register_spec(fs, 0, builtin_table()) {
        Err(err) => Err(err),
        Ok(table) => check_bodies_spec(fs, 0, table),
    }
}

} // verus!
