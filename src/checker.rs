use vstd::prelude::*;
use crate::ast::{Expr, Function, Ident, Statement, AST};
use crate::env::{lookup_fn, sig_of_entry, FnEntry, FnSig, FunctionTable, VarBinding, VarEnv};
use crate::error::CheckError;
use crate::rules::{
    accepts_all, assign_spec, binop_type, builtin_table, check_block_spec, check_bodies_spec,
    check_function_spec, check_input_spec, check_program, check_stmt_spec, declare_spec,
    element_type, index_type, infer_expr, infer_exprs, key_seen, params_env, register_spec,
    signature_of, unify_spec, MAX_CONSTANT,
};
use crate::types::{join_interval, subtype, subtype_spec, KeyType, OpType, Type};
use vstd::string::StringExecFns;

verus! {

/// The common type of two list elements.
fn unify(a: &Type, b: &Type) -> (r: Option<Type>)
    ensures
        r == unify_spec(*a, *b),
{
    if a.is_int() && b.is_int() {
        Some(join_interval(a, b))
    } else if a.same(b) {
        Some(a.duplicate())
    } else {
        None
    }
}

/// The element type of a list literal whose elements have types `ts`.
fn common_type(ts: &Vec<Type>) -> (r: Option<Type>)
    ensures
        r == element_type(ts@),
{
    if ts.len() == 0 {
        return Some(Type::Bottom);
    }
    let mut acc: Option<Type> = Some(ts[0].duplicate());
    let mut i: usize = 1;
    assert(ts@.subrange(0, 1).len() == 1);
    while i < ts.len()
        invariant
            1 <= i <= ts.len(),
            acc == element_type(ts@.subrange(0, i as int)),
        decreases ts.len() - i,
    {
        assert(ts@.subrange(0, i + 1).drop_last() =~= ts@.subrange(0, i as int));
        acc = match acc {
            None => None,
            Some(a) => unify(&a, &ts[i]),
        };
        i = i + 1;
    }
    assert(ts@.subrange(0, i as int) =~= ts@);
    acc
}

fn binop_result(t1: Type, op: OpType, t2: Type) -> (r: Result<Type, CheckError>)
    ensures
        r == binop_type(t1, op, t2),
{
    match (&t1, op, &t2) {
        (Type::Int(_, _), OpType::Plus, Type::Int(_, _)) => Ok(join_interval(&t1, &t2)),
        (Type::Int(_, _), OpType::Minus, Type::Int(_, _)) => Ok(join_interval(&t1, &t2)),
        (Type::Printable, OpType::Plus, Type::Printable) => Ok(Type::Printable),
        (Type::Printable, OpType::Plus, Type::Int(_, _)) => Ok(Type::Printable),
        (Type::Printable, OpType::Times, Type::Int(_, _)) => Ok(Type::Printable),
        (Type::Printable, OpType::Plus, Type::Color) => Ok(Type::Printable),
        (Type::Color, OpType::Plus, Type::Printable) => Ok(Type::Printable),
        _ => Err(CheckError::UnsupportedOperator(op, t1, t2)),
    }
}

fn index_result(list: Type, index: Type) -> (r: Result<Type, CheckError>)
    ensures
        r == index_type(list, index),
{
    match (&list, &index) {
        (Type::List(elem, n), Type::Int(_, h)) => {
            if *n < *h {
                Err(CheckError::IndexOutOfRange(list, index))
            } else {
                Ok((**elem).duplicate())
            }
        },
        (Type::List(_, _), _) => Err(CheckError::IndexNotInteger(index)),
        _ => Err(CheckError::NotAList(list)),
    }
}

/// Whether each parameter type accepts the argument type at its position.
fn accept_arguments(params: &Vec<Type>, args: &Vec<Type>) -> (r: bool)
    requires
        params@.len() == args@.len(),
    ensures
        r == accepts_all(params@, args@),
{
    let mut j: usize = 0;
    while j < params.len()
        invariant
            j <= params.len(),
            params@.len() == args@.len(),
            forall|k: int| 0 <= k < j ==> subtype_spec(#[trigger] params@[k], args@[k]),
        decreases params.len() - j,
    {
        if !subtype(&params[j], &args[j]) {
            assert(!subtype_spec(params@[j as int], args@[j as int]));
            return false;
        }
        j = j + 1;
    }
    true
}

/// Infers the type of an expression.
pub fn check_expr(e: &Expr, ft: &FunctionTable, env: &VarEnv) -> (r: Result<Type, CheckError>)
    ensures
        r == infer_expr(*e, ft@, env@),
    decreases e, 0int,
{
    match e {
        Expr::ConstBool(_) => Ok(Type::Bool),
        Expr::ConstInt(x) => {
            if *x >= MAX_CONSTANT {
                Err(CheckError::LiteralOutOfRange(*x))
            } else {
                Ok(Type::Int(0, *x + 1))
            }
        },
        Expr::ConstKey(_) => Ok(Type::Key),
        Expr::ConstColor(_) => Ok(Type::Color),
        Expr::ConstString(_) => Ok(Type::Printable),
        Expr::ConstList(elems) => {
            if elems.len() >= MAX_CONSTANT as usize {
                return Err(CheckError::ListTooLong(elems.len()));
            }
            match check_exprs(elems, ft, env) {
                Err(err) => Err(err),
                Ok(ts) => match common_type(&ts) {
                    None => Err(CheckError::HeterogeneousList),
                    Some(t) => Ok(Type::List(Box::new(t), elems.len() as u32)),
                },
            }
        },
        Expr::Var(name) => match env.lookup(name) {
            None => Err(CheckError::UndeclaredVariable(name.clone())),
            Some(i) => Ok(env.entries[i].ty.duplicate()),
        },
        Expr::Binop(l, op, r) => {
            if matches!(op, OpType::UPlus | OpType::UMinus) {
                return Err(CheckError::IllegalUnaryInBinaryContext(*op));
            }
            let t1 = match check_expr(l, ft, env) {
                Err(err) => return Err(err),
                Ok(t) => t,
            };
            let t2 = match check_expr(r, ft, env) {
                Err(err) => return Err(err),
                Ok(t) => t,
            };
            binop_result(t1, *op, t2)
        },
        Expr::Unop(name, _) => match env.lookup(name) {
            None => Err(CheckError::UndeclaredVariable(name.clone())),
            Some(i) => {
                let entry = &env.entries[i];
                if !entry.mutable {
                    Err(CheckError::ImmutableModification(name.clone()))
                } else if entry.ty.is_int() {
                    Ok(entry.ty.duplicate())
                } else {
                    Err(CheckError::TypeMismatch(name.clone(), entry.ty.duplicate()))
                }
            },
        },
        Expr::Call(name, args) => match ft.lookup(name) {
            None => Err(CheckError::UndeclaredFunction(name.clone())),
            Some(i) => {
                let sig: &FnEntry = &ft.entries[i];
                if sig.params.len() != args.len() {
                    return Err(CheckError::ArityMismatch(name.clone(), sig.params.len(), args.len()));
                }
                let ts = match check_exprs(args, ft, env) {
                    Err(err) => return Err(err),
                    Ok(ts) => ts,
                };
                if !accept_arguments(&sig.params, &ts) {
                    return Err(CheckError::ArgumentTypeMismatch(name.clone()));
                }
                Ok(sig.ret.duplicate())
            },
        },
        Expr::Elem(l, i) => {
            let t1 = match check_expr(l, ft, env) {
                Err(err) => return Err(err),
                Ok(t) => t,
            };
            let t2 = match check_expr(i, ft, env) {
                Err(err) => return Err(err),
                Ok(t) => t,
            };
            index_result(t1, t2)
        },
    }
}

/// Infers the types of `es`, left to right; the first error wins.
pub fn check_exprs(es: &Vec<Expr>, ft: &FunctionTable, env: &VarEnv) -> (r: Result<Vec<Type>, CheckError>)
    ensures
        match r {
            Ok(ts) => infer_exprs(es@, 0, ft@, env@) == Ok::<Seq<Type>, CheckError>(ts@)
                && ts@.len() == es@.len(),
            Err(err) => infer_exprs(es@, 0, ft@, env@) == Err::<Seq<Type>, CheckError>(err),
        },
    decreases es, 1int,
{
    let mut ts: Vec<Type> = Vec::new();
    let mut i: usize = 0;
    while i < es.len()
        invariant
            i <= es.len(),
            ts@.len() == i,
            infer_exprs(es@, 0, ft@, env@) == match infer_exprs(es@, i as int, ft@, env@) {
                Ok(rest) => Ok::<Seq<Type>, CheckError>(ts@ + rest),
                Err(err) => Err(err),
            },
        decreases es.len() - i,
    {
        let t = match check_expr(&es[i], ft, env) {
            Err(err) => return Err(err),
            Ok(t) => t,
        };
        proof {
            match infer_exprs(es@, i + 1, ft@, env@) {
                Ok(rest) => {
                    assert(ts@.push(t) + rest =~= ts@ + (seq![t] + rest));
                },
                Err(_) => {},
            }
        }
        ts.push(t);
        i = i + 1;
    }
    assert(ts@ + Seq::<Type>::empty() =~= ts@);
    Ok(ts)
}


/// Checks a declaration of `name` with type `t` and binds it.
fn check_declaration(
    t: &Type,
    name: &Ident,
    e: &Expr,
    mutable: bool,
    ft: &FunctionTable,
    env: &mut VarEnv,
) -> (r: Result<Option<Type>, CheckError>)
    ensures
        (r, final(env)@) == declare_spec(*t, *name, *e, mutable, ft@, old(env)@),
{
    if env.lookup(name).is_some() {
        return Err(CheckError::DuplicateName(name.clone()));
    }
    let te = match check_expr(e, ft, env) {
        Err(err) => return Err(err),
        Ok(te) => te,
    };
    if !subtype(t, &te) {
        return Err(CheckError::TypeMismatch(name.clone(), t.duplicate()));
    }
    match env.declare(name.clone(), t.duplicate(), mutable) {
        Err(err) => Err(err),
        Ok(()) => Ok(None),
    }
}

/// Checks an assignment to `name`.
fn check_assignment(name: &Ident, e: &Expr, ft: &FunctionTable, env: &VarEnv) -> (r: Result<
    Option<Type>,
    CheckError,
>)
    ensures
        r == assign_spec(*name, *e, ft@, env@),
{
    match env.lookup(name) {
        None => Err(CheckError::UndeclaredVariable(name.clone())),
        Some(i) => {
            let entry = &env.entries[i];
            if !entry.mutable {
                return Err(CheckError::ImmutableModification(name.clone()));
            }
            let te = match check_expr(e, ft, env) {
                Err(err) => return Err(err),
                Ok(te) => te,
            };
            if !subtype(&entry.ty, &te) {
                return Err(CheckError::TypeMismatch(name.clone(), entry.ty.duplicate()));
            }
            Ok(None)
        },
    }
}

/// Checks a statement: `Some` of the type it returns, `None` when it does not
/// return. Declarations are added to `env`.
pub fn check_statement(s: &Statement, ft: &FunctionTable, env: &mut VarEnv) -> (r: Result<
    Option<Type>,
    CheckError,
>)
    ensures
        (r, final(env)@) == check_stmt_spec(*s, ft@, old(env)@),
    decreases s, 0int,
{
    match s {
        Statement::Mutable(t, name, e) => check_declaration(t, name, e, true, ft, env),
        Statement::Const(t, name, e) => check_declaration(t, name, e, false, ft, env),
        Statement::Assign(name, e) => check_assignment(name, e, ft, env),
        Statement::Block(stmts) => check_block(stmts, ft, env),
        Statement::Loop(body) => check_statement(body, ft, env),
        Statement::Break => Ok(None),
        Statement::Input(branches) => check_input(branches, ft, env),
        Statement::Return(e) => match check_expr(e, ft, env) {
            Err(err) => Err(err),
            Ok(t) => Ok(Some(t)),
        },
        Statement::Expr(e) => match check_expr(e, ft, env) {
            Err(err) => Err(err),
            Ok(_) => Ok(None),
        },
    }
}

/// Checks the statements of a block in order, in the enclosing scope.
fn check_block(stmts: &Vec<Statement>, ft: &FunctionTable, env: &mut VarEnv) -> (r: Result<
    Option<Type>,
    CheckError,
>)
    ensures
        (r, final(env)@) == check_block_spec(stmts@, 0, ft@, old(env)@),
    decreases stmts, 1int,
{
    let mut i: usize = 0;
    while i < stmts.len()
        invariant
            i <= stmts.len(),
            check_block_spec(stmts@, i as int, ft@, env@) == check_block_spec(
                stmts@,
                0,
                ft@,
                old(env)@,
            ),
        decreases stmts.len() - i,
    {
        let r = check_statement(&stmts[i], ft, env);
        match r {
            Ok(None) => {},
            _ => return r,
        }
        i = i + 1;
    }
    Ok(None)
}

/// Whether one of the first `i` branches is on `key`.
fn key_before(branches: &Vec<(KeyType, Statement)>, i: usize, key: KeyType) -> (r: bool)
    requires
        i <= branches@.len(),
    ensures
        r == key_seen(branches@, i as int, key),
{
    let mut j: usize = 0;
    while j < i
        invariant
            j <= i <= branches@.len(),
            forall|k: int| 0 <= k < j ==> (#[trigger] branches@[k]).0 != key,
        decreases i - j,
    {
        if branches[j].0 == key {
            assert(branches@[j as int].0 == key);
            return true;
        }
        j = j + 1;
    }
    false
}

/// Checks the branches of an `input` block.
fn check_input(branches: &Vec<(KeyType, Statement)>, ft: &FunctionTable, env: &mut VarEnv) -> (r:
    Result<Option<Type>, CheckError>)
    ensures
        (r, final(env)@) == check_input_spec(branches@, 0, ft@, old(env)@),
    decreases branches, 1int,
{
    let mut i: usize = 0;
    while i < branches.len()
        invariant
            i <= branches.len(),
            check_input_spec(branches@, i as int, ft@, env@) == check_input_spec(
                branches@,
                0,
                ft@,
                old(env)@,
            ),
        decreases branches.len() - i,
    {
        let key = branches[i].0;
        if key_before(branches, i, key) {
            return Err(CheckError::DuplicateBranch(key));
        }
        match check_statement(&branches[i].1, ft, env) {
            Err(err) => return Err(err),
            Ok(_) => {},
        }
        i = i + 1;
    }
    Ok(None)
}

/// The parameters of a function as immutable variables.
fn params_of(args: &Vec<(Type, Ident)>) -> (r: VarEnv)
    ensures
        r@ == params_env(args@),
{
    let mut env = VarEnv::new();
    let mut i: usize = 0;
    while i < args.len()
        invariant
            i <= args.len(),
            env@ == params_env(args@.subrange(0, i as int)),
        decreases args.len() - i,
    {
        env.bind(args[i].1.clone(), args[i].0.duplicate(), false);
        assert(params_env(args@.subrange(0, i + 1)) =~= params_env(args@.subrange(0, i as int)).push(
            VarBinding { name: args@[i as int].1@, ty: args@[i as int].0, mutable: false },
        ));
        i = i + 1;
    }
    assert(args@.subrange(0, i as int) =~= args@);
    env
}

/// Checks one function body against its declared return type.
pub fn check_function(f: &Function, ft: &FunctionTable) -> (r: Result<(), CheckError>)
    ensures
        r == check_function_spec(*f, ft@),
{
    let mut env = params_of(&f.args);
    match check_statement(&f.body, ft, &mut env) {
        Err(err) => Err(err),
        Ok(None) => match &f.ret {
            None => Ok(()),
            Some(_) => Err(CheckError::MissingReturn(f.name.clone())),
        },
        Ok(Some(t)) => match &f.ret {
            None => Err(CheckError::UnexpectedReturn(f.name.clone())),
            Some(u) => {
                if subtype(u, &t) {
                    Ok(())
                } else {
                    Err(CheckError::ReturnTypeMismatch(f.name.clone(), u.duplicate(), t))
                }
            },
        },
    }
}

/// The signature that a function definition declares.
fn signature(f: &Function) -> (r: FnEntry)
    ensures
        sig_of_entry(r) == signature_of(*f),
{
    let mut params: Vec<Type> = Vec::new();
    let mut i: usize = 0;
    while i < f.args.len()
        invariant
            i <= f.args.len(),
            params@ == f.args@.subrange(0, i as int).map_values(|a: (Type, Ident)| a.0),
        decreases f.args.len() - i,
    {
        params.push(f.args[i].0.duplicate());
        assert(f.args@.subrange(0, i + 1).map_values(|a: (Type, Ident)| a.0) =~= f.args@.subrange(
            0,
            i as int,
        ).map_values(|a: (Type, Ident)| a.0).push(f.args@[i as int].0));
        i = i + 1;
    }
    assert(f.args@.subrange(0, i as int) =~= f.args@);
    let ret = match &f.ret {
        Some(t) => t.duplicate(),
        None => Type::Bottom,
    };
    let r = FnEntry { name: f.name.clone(), ret, params };
    assert(sig_of_entry(r).params =~= signature_of(*f).params);
    r
}

/// Adds the signature of `f` to the table, unless its name is taken.
fn register_function(f: &Function, ft: &mut FunctionTable) -> (r: Result<(), CheckError>)
    ensures
        lookup_fn(old(ft)@, f.name@) is Some ==> r == Err::<(), CheckError>(
            CheckError::DuplicateFunction(f.name),
        ) && final(ft)@ == old(ft)@,
        lookup_fn(old(ft)@, f.name@) is None ==> r is Ok && final(ft)@ == old(ft)@.push(
            signature_of(*f),
        ),
{
    if ft.lookup(&f.name).is_some() {
        return Err(CheckError::DuplicateFunction(f.name.clone()));
    }
    ft.add(signature(f));
    Ok(())
}

/// A table holding the built-in functions alone.
pub fn builtin_functions() -> (r: FunctionTable)
    ensures
        r@ == builtin_table(),
{
    let mut ft = FunctionTable::new();
    let mut say: Vec<Type> = Vec::new();
    say.push(Type::Printable);
    ft.add(FnEntry { name: <String as StringExecFns>::from_str("say"), ret: Type::Bottom, params: say });
    let mut say_student: Vec<Type> = Vec::new();
    say_student.push(Type::Printable);
    ft.add(
        FnEntry {
            name: <String as StringExecFns>::from_str("say_student"),
            ret: Type::Bottom,
            params: say_student,
        },
    );
    assert(ft@[0].params =~= seq![Type::Printable]);
    assert(ft@[1].params =~= seq![Type::Printable]);
    assert(ft@ =~= builtin_table());
    ft
}

/// Checks a whole program: first every signature is collected, so that a
/// function may call one defined after it; then every body is checked. The
/// first error stops the check.
pub fn check(t: AST) -> (r: Result<(), CheckError>)
    ensures
        r == check_program(t.0@),
{
    let mut ft = builtin_functions();
    let mut i: usize = 0;
    while i < t.0.len()
        invariant
            i <= t.0.len(),
            register_spec(t.0@, i as int, ft@) == register_spec(t.0@, 0, builtin_table()),
        decreases t.0.len() - i,
    {
        match register_function(&t.0[i], &mut ft) {
            Err(err) => return Err(err),
            Ok(()) => {},
        }
        i = i + 1;
    }
    let mut j: usize = 0;
    while j < t.0.len()
        invariant
            j <= t.0.len(),
            register_spec(t.0@, 0, builtin_table()) == Ok::<Seq<FnSig>, CheckError>(ft@),
            check_bodies_spec(t.0@, j as int, ft@) == check_bodies_spec(t.0@, 0, ft@),
        decreases t.0.len() - j,
    {
        match check_function(&t.0[j], &ft) {
            Err(err) => return Err(err),
            Ok(()) => {},
        }
        j = j + 1;
    }
    Ok(())
}

} // verus!
