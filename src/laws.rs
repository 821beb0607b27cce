use vstd::prelude::*;
use crate::ast::{Function, Statement};
use crate::env::{lookup_fn, lookup_var, FnSig, VarBinding};
use crate::error::CheckError;
use crate::rules::{
    builtin_table, check_block_spec, check_input_spec, check_program, check_stmt_spec, key_seen,
    register_spec, signature_of,
};
use crate::types::{subtype_spec, KeyType, Type};

verus! {

/// Every type accepts its own values: subtyping is reflexive.
pub proof fn subtype_reflexive(t: Type)
    ensures
        subtype_spec(t, t),
{
}

/// A name present in a table stays present after a push.
proof fn lookup_after_push(table: Seq<FnSig>, x: FnSig, n: Seq<char>)
    ensures
        x.name == n ==> lookup_fn(table.push(x), n) == Some(x),
        x.name != n ==> lookup_fn(table.push(x), n) == lookup_fn(table, n),
{
    assert(table.push(x).drop_last() =~= table);
}

/// Every error of the first pass is a duplicate function name.
proof fn register_fails_on_duplicates_only(fs: Seq<Function>, k: int, table: Seq<FnSig>)
    requires
        0 <= k,
    ensures
        register_spec(fs, k, table) is Err ==> register_spec(fs, k, table)->Err_0 is DuplicateFunction,
    decreases fs.len() - k,
{
    if k < fs.len() && lookup_fn(table, fs[k].name@) is None {
        register_fails_on_duplicates_only(fs, k + 1, table.push(signature_of(fs[k])));
    }
}

/// The first pass fails once a later function repeats a name that the table
/// holds or that a function still to come holds.
proof fn register_rejects_repeat(fs: Seq<Function>, k: int, table: Seq<FnSig>, i: int, j: int)
    requires
        0 <= k <= j < fs.len(),
        0 <= i < j,
        fs[i].name@ == fs[j].name@,
        i >= k || lookup_fn(table, fs[i].name@) is Some,
    ensures
        register_spec(fs, k, table) is Err,
    decreases fs.len() - k,
{
    if lookup_fn(table, fs[k].name@) is None {
        let next = table.push(signature_of(fs[k]));
        lookup_after_push(table, signature_of(fs[k]), fs[i].name@);
        register_rejects_repeat(fs, k + 1, next, i, j);
    }
}

/// Two functions with the same name make the program fail with
/// `DuplicateFunction`, whichever of them comes first.
pub proof fn duplicate_functions_rejected(fs: Seq<Function>, i: int, j: int)
    requires
        0 <= i < fs.len(),
        0 <= j < fs.len(),
        i != j,
        fs[i].name@ == fs[j].name@,
    ensures
        check_program(fs) is Err,
        check_program(fs)->Err_0 is DuplicateFunction,
{
    if i < j {
        register_rejects_repeat(fs, 0, builtin_table(), i, j);
    } else {
        register_rejects_repeat(fs, 0, builtin_table(), j, i);
    }
    register_fails_on_duplicates_only(fs, 0, builtin_table());
}

/// What the first pass builds from `fs[k..]` holds every signature of
/// `fs[k..]` and keeps every entry of the table it started from.
proof fn register_collects(fs: Seq<Function>, k: int, table: Seq<FnSig>, m: int, n: Seq<char>)
    requires
        0 <= k,
        register_spec(fs, k, table) is Ok,
    ensures
        k <= m < fs.len() ==> lookup_fn(register_spec(fs, k, table)->Ok_0, fs[m].name@) == Some(
            signature_of(fs[m]),
        ),
        lookup_fn(table, n) is Some ==> lookup_fn(register_spec(fs, k, table)->Ok_0, n)
            == lookup_fn(table, n),
    decreases fs.len() - k,
{
    if k < fs.len() {
        let next = table.push(signature_of(fs[k]));
        lookup_after_push(table, signature_of(fs[k]), n);
        lookup_after_push(table, signature_of(fs[k]), fs[m].name@);
        register_collects(fs, k + 1, next, m, n);
        register_collects(fs, k + 1, next, m, fs[k].name@);
    }
}

/// When the first pass succeeds, the table that every body is checked
/// against holds the signature of every function of the program, of those
/// defined later as much as of those defined earlier.
pub proof fn signatures_visible_everywhere(fs: Seq<Function>, m: int)
    requires
        0 <= m < fs.len(),
        register_spec(fs, 0, builtin_table()) is Ok,
    ensures
        lookup_fn(register_spec(fs, 0, builtin_table())->Ok_0, fs[m].name@) == Some(
            signature_of(fs[m]),
        ),
{
    register_collects(fs, 0, builtin_table(), m, fs[m].name@);
}

/// No two signatures of a table share a name.
pub open spec fn names_unique(table: Seq<FnSig>) -> bool {
    forall|a: int, b: int|
        0 <= a < b < table.len() ==> (#[trigger] table[a]).name != (#[trigger] table[b]).name
}

/// A name that lookup does not find is the name of no entry.
proof fn absent_after_failed_lookup(table: Seq<FnSig>, n: Seq<char>)
    requires
        lookup_fn(table, n) is None,
    ensures
        forall|a: int| 0 <= a < table.len() ==> (#[trigger] table[a]).name != n,
    decreases table.len(),
{
    if table.len() > 0 {
        absent_after_failed_lookup(table.drop_last(), n);
        assert forall|a: int| 0 <= a < table.len() implies (#[trigger] table[a]).name != n by {
            if a < table.len() - 1 {
                assert(table[a] == table.drop_last()[a]);
            }
        }
    }
}

/// The first pass keeps the names of a table unique.
proof fn register_keeps_names_unique(fs: Seq<Function>, k: int, table: Seq<FnSig>)
    requires
        0 <= k,
        names_unique(table),
        register_spec(fs, k, table) is Ok,
    ensures
        names_unique(register_spec(fs, k, table)->Ok_0),
    decreases fs.len() - k,
{
    if k < fs.len() {
        let next = table.push(signature_of(fs[k]));
        absent_after_failed_lookup(table, fs[k].name@);
        assert forall|a: int, b: int| 0 <= a < b < next.len() implies (#[trigger] next[a]).name
            != (#[trigger] next[b]).name by {
            if b == table.len() {
                assert(next[a] == table[a]);
            } else {
                assert(next[a] == table[a] && next[b] == table[b]);
            }
        }
        register_keeps_names_unique(fs, k + 1, next);
    }
}

/// The function table that the first pass builds never holds two
/// signatures of one name.
pub proof fn function_names_unique(fs: Seq<Function>)
    requires
        register_spec(fs, 0, builtin_table()) is Ok,
    ensures
        names_unique(register_spec(fs, 0, builtin_table())->Ok_0),
{
    reveal_strlit("say");
    reveal_strlit("say_student");
    assert("say"@.len() != "say_student"@.len());
    register_keeps_names_unique(fs, 0, builtin_table());
}

/// `later` keeps every binding of `earlier`, at the same place.
pub open spec fn extends(earlier: Seq<VarBinding>, later: Seq<VarBinding>) -> bool {
    earlier.len() <= later.len() && forall|i: int| 0 <= i < earlier.len() ==> #[trigger] later[i] == earlier[i]
}

/// No two bindings share a name.
pub open spec fn bindings_unique(env: Seq<VarBinding>) -> bool {
    forall|a: int, b: int| 0 <= a < b < env.len() ==> (#[trigger] env[a]).name != (#[trigger] env[b]).name
}

/// A name that lookup does not find is the name of no binding.
proof fn unbound_after_failed_lookup(env: Seq<VarBinding>, n: Seq<char>)
    requires
        lookup_var(env, n) is None,
    ensures
        forall|a: int| 0 <= a < env.len() ==> (#[trigger] env[a]).name != n,
    decreases env.len(),
{
    if env.len() > 0 {
        unbound_after_failed_lookup(env.drop_last(), n);
        assert forall|a: int| 0 <= a < env.len() implies (#[trigger] env[a]).name != n by {
            if a < env.len() - 1 {
                assert(env[a] == env.drop_last()[a]);
            }
        }
    }
}

/// A binding whose name lookup does not find keeps the bindings unique.
proof fn push_fresh(env: Seq<VarBinding>, x: VarBinding)
    requires
        lookup_var(env, x.name) is None,
    ensures
        extends(env, env.push(x)),
        bindings_unique(env) ==> bindings_unique(env.push(x)),
{
    unbound_after_failed_lookup(env, x.name);
    let next = env.push(x);
    assert forall|a: int, b: int| 0 <= a < b < next.len() && bindings_unique(env) implies (
    #[trigger] next[a]).name != (#[trigger] next[b]).name by {
        assert(next[a] == env[a]);
        if b < env.len() {
            assert(next[b] == env[b]);
        }
    }
}

/// Checking a statement only adds bindings: those made before stay as they
/// were, and a declaration never binds a name that is already bound.
pub proof fn statement_only_adds_fresh_bindings(s: Statement, ft: Seq<FnSig>, env: Seq<VarBinding>)
    ensures
        extends(env, check_stmt_spec(s, ft, env).1),
        bindings_unique(env) ==> bindings_unique(check_stmt_spec(s, ft, env).1),
    decreases s, 0int,
{
    match s {
        Statement::Mutable(t, name, _) => {
            if lookup_var(env, name@) is None {
                push_fresh(env, VarBinding { name: name@, ty: t, mutable: true });
            }
        },
        Statement::Const(t, name, _) => {
            if lookup_var(env, name@) is None {
                push_fresh(env, VarBinding { name: name@, ty: t, mutable: false });
            }
        },
        Statement::Block(stmts) => block_only_adds_fresh_bindings(stmts@, 0, ft, env),
        Statement::Loop(body) => statement_only_adds_fresh_bindings(*body, ft, env),
        Statement::Input(branches) => input_only_adds_fresh_bindings(branches@, 0, ft, env),
        _ => {},
    }
}

proof fn block_only_adds_fresh_bindings(stmts: Seq<Statement>, i: int, ft: Seq<FnSig>, env: Seq<VarBinding>)
    ensures
        extends(env, check_block_spec(stmts, i, ft, env).1),
        bindings_unique(env) ==> bindings_unique(check_block_spec(stmts, i, ft, env).1),
    decreases stmts, stmts.len() - i,
{
    if 0 <= i < stmts.len() {
        let (r, env1) = check_stmt_spec(stmts[i], ft, env);
        statement_only_adds_fresh_bindings(stmts[i], ft, env);
        if r == Ok::<Option<Type>, CheckError>(None) {
            block_only_adds_fresh_bindings(stmts, i + 1, ft, env1);
        }
    }
}

proof fn input_only_adds_fresh_bindings(
    branches: Seq<(KeyType, Statement)>,
    i: int,
    ft: Seq<FnSig>,
    env: Seq<VarBinding>,
)
    ensures
        extends(env, check_input_spec(branches, i, ft, env).1),
        bindings_unique(env) ==> bindings_unique(check_input_spec(branches, i, ft, env).1),
    decreases branches, branches.len() - i,
{
    if 0 <= i < branches.len() && !key_seen(branches, i, branches[i].0) {
        let (r, env1) = check_stmt_spec(branches[i].1, ft, env);
        statement_only_adds_fresh_bindings(branches[i].1, ft, env);
        if r is Ok {
            input_only_adds_fresh_bindings(branches, i + 1, ft, env1);
        }
    }
}

} // verus!
