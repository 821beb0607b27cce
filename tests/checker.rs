use keylang::ast::{Expr, Function, Statement, AST};
use keylang::checker::{check, check_expr};
use keylang::env::{FunctionTable, VarEnv};
use keylang::error::CheckError;
use keylang::parser::parse;
use keylang::types::{join_interval, subtype, ColorType, KeyType, OpType, Type};

fn run(source: &str) -> Result<(), CheckError> {
    let ast = parse(source.to_string()).expect("test program should parse");
    check(ast)
}

fn infer(e: Expr) -> Result<Type, CheckError> {
    check_expr(&e, &FunctionTable::new(), &VarEnv::new())
}

fn one_function(body: Vec<Statement>) -> AST {
    AST(vec![Function { ret: None, name: "main".to_string(), args: vec![], body: Statement::Block(body) }])
}

fn lit(x: u32) -> Expr {
    Expr::ConstInt(x)
}

#[test]
fn subtype_is_reflexive_on_samples() {
    let samples = vec![
        Type::Bool,
        Type::Int(3, 9),
        Type::Color,
        Type::Key,
        Type::Printable,
        Type::List(Box::new(Type::Int(0, 4)), 7),
        Type::Bottom,
    ];
    for t in &samples {
        assert!(subtype(t, t));
    }
}

#[test]
fn narrower_interval_is_accepted_by_wider() {
    assert!(subtype(&Type::Int(0, 10), &Type::Int(2, 5)));
    assert!(!subtype(&Type::Int(2, 5), &Type::Int(0, 10)));
}

#[test]
fn no_relation_across_kinds() {
    assert!(!subtype(&Type::Int(0, 10), &Type::Bool));
    assert!(!subtype(&Type::Printable, &Type::Color));
    assert!(!subtype(&Type::Bottom, &Type::Int(0, 1)));
    assert!(!subtype(&Type::List(Box::new(Type::Int(0, 10)), 2), &Type::List(Box::new(Type::Int(0, 3)), 2)));
}

#[test]
fn join_encloses_both_intervals() {
    assert_eq!(join_interval(&Type::Int(2, 5), &Type::Int(4, 9)), Type::Int(2, 9));
    assert_eq!(join_interval(&Type::Int(0, 3), &Type::Int(1, 2)), Type::Int(0, 3));
}

#[test]
fn literal_five_infers_zero_to_six() {
    assert_eq!(infer(lit(5)), Ok(Type::Int(0, 6)));
    assert_eq!(infer(lit(0)), Ok(Type::Int(0, 1)));
    assert_eq!(infer(lit(65534)), Ok(Type::Int(0, 65535)));
}

#[test]
fn literal_at_maximum_is_out_of_range() {
    assert_eq!(infer(lit(65535)), Err(CheckError::LiteralOutOfRange(65535)));
    assert_eq!(infer(lit(70000)), Err(CheckError::LiteralOutOfRange(70000)));
}

#[test]
fn plain_literals() {
    assert_eq!(infer(Expr::ConstBool(true)), Ok(Type::Bool));
    assert_eq!(infer(Expr::ConstKey(KeyType::S)), Ok(Type::Key));
    assert_eq!(infer(Expr::ConstColor(ColorType::Red)), Ok(Type::Color));
    assert_eq!(infer(Expr::ConstString("hi".to_string())), Ok(Type::Printable));
}

#[test]
fn mutable_variable_may_be_reassigned() {
    assert_eq!(run("f() { mut int<0,10> x = 5; x = 9; }"), Ok(()));
}

#[test]
fn immutable_variable_may_not_be_reassigned() {
    assert_eq!(
        run("f() { int<0,10> x = 5; x = 9; }"),
        Err(CheckError::ImmutableModification("x".to_string()))
    );
}

#[test]
fn assignment_to_undeclared_variable() {
    assert_eq!(
        run("f() { mut int<0,10> x = 5; y = 9; }"),
        Err(CheckError::UndeclaredVariable("y".to_string()))
    );
}

#[test]
fn duplicate_declaration() {
    assert_eq!(
        run("f() { bool b = true; bool b = false; }"),
        Err(CheckError::DuplicateName("b".to_string()))
    );
}

#[test]
fn duplicate_declaration_across_nested_blocks() {
    assert_eq!(
        run("f() { loop { mut bool b = true; break; } bool b = false; }"),
        Err(CheckError::DuplicateName("b".to_string()))
    );
}

#[test]
fn return_type_mismatch() {
    assert_eq!(
        run("int<0,5> f() { return true; }"),
        Err(CheckError::ReturnTypeMismatch("f".to_string(), Type::Int(0, 5), Type::Bool))
    );
}

#[test]
fn missing_return() {
    assert_eq!(run("int<0,5> f() { }"), Err(CheckError::MissingReturn("f".to_string())));
}

#[test]
fn unexpected_return() {
    assert_eq!(run("f() { return 1; }"), Err(CheckError::UnexpectedReturn("f".to_string())));
}

#[test]
fn return_of_narrower_interval() {
    assert_eq!(run("int<0,5> f() { return 3; }"), Ok(()));
    assert_eq!(
        run("int<0,5> f() { return 7; }"),
        Err(CheckError::ReturnTypeMismatch("f".to_string(), Type::Int(0, 5), Type::Int(0, 8)))
    );
}

#[test]
fn call_of_undeclared_function() {
    assert_eq!(run("f() { g(); }"), Err(CheckError::UndeclaredFunction("g".to_string())));
}

#[test]
fn call_with_wrong_argument_count() {
    assert_eq!(
        run("g(int<0,5> a) { } f() { g(1, 2); }"),
        Err(CheckError::ArityMismatch("g".to_string(), 1, 2))
    );
}

#[test]
fn call_with_wider_argument() {
    assert_eq!(
        run("g(int<0,5> a) { } f() { g(10); }"),
        Err(CheckError::ArgumentTypeMismatch("g".to_string()))
    );
    assert_eq!(run("g(int<0,5> a) { } f() { g(3); }"), Ok(()));
}

#[test]
fn call_yields_declared_return_type() {
    assert_eq!(run("int<0,9> g() { return 2; } int<0,9> f() { return g(); }"), Ok(()));
}

#[test]
fn first_argument_error_wins() {
    assert_eq!(
        run("g(int<0,5> a, int<0,5> b) { } f() { g(u, v); }"),
        Err(CheckError::UndeclaredVariable("u".to_string()))
    );
}

#[test]
fn duplicate_input_branch() {
    assert_eq!(
        run("f() { input { W => {} A => {} W => {} } }"),
        Err(CheckError::DuplicateBranch(KeyType::W))
    );
    assert_eq!(run("f() { input { W => {} A => {} S => {} D => {} } }"), Ok(()));
}

#[test]
fn duplicate_function_in_either_order() {
    assert_eq!(run("go() { } go() { }"), Err(CheckError::DuplicateFunction("go".to_string())));
    assert_eq!(
        run("int<0,3> go() { return 1; } go() { }"),
        Err(CheckError::DuplicateFunction("go".to_string()))
    );
    assert_eq!(run("go() { } f() { } go() { }"), Err(CheckError::DuplicateFunction("go".to_string())));
}

#[test]
fn forward_reference_resolves() {
    assert_eq!(run("f() { g(); } g() { }"), Ok(()));
}

#[test]
fn builtins_take_one_string() {
    assert_eq!(run("f() { say(\"hello\" + 3); }"), Ok(()));
    let call = Expr::Call("say_student".to_string(), vec![Expr::ConstString("hi".to_string())]);
    assert_eq!(check(one_function(vec![Statement::Expr(call)])), Ok(()));
    assert_eq!(run("f() { say(4); }"), Err(CheckError::ArgumentTypeMismatch("say".to_string())));
    assert_eq!(run("say() { }"), Err(CheckError::DuplicateFunction("say".to_string())));
}

#[test]
fn declaration_type_mismatch() {
    assert_eq!(
        run("f() { int<0,3> x = 7; }"),
        Err(CheckError::TypeMismatch("x".to_string(), Type::Int(0, 3)))
    );
    assert_eq!(
        run("f() { mut bool x = true; x = 1; }"),
        Err(CheckError::TypeMismatch("x".to_string(), Type::Bool))
    );
}

#[test]
fn arithmetic_widens() {
    let body = vec![
        Statement::Const(Type::Int(0, 20), "a".to_string(), Expr::Binop(Box::new(lit(3)), OpType::Plus, Box::new(lit(12)))),
    ];
    assert_eq!(check(one_function(body)), Ok(()));
    assert_eq!(
        infer(Expr::Binop(Box::new(lit(3)), OpType::Minus, Box::new(lit(12)))),
        Ok(Type::Int(0, 13))
    );
}

#[test]
fn string_operators() {
    let s = || Box::new(Expr::ConstString("a".to_string()));
    assert_eq!(infer(Expr::Binop(s(), OpType::Plus, s())), Ok(Type::Printable));
    assert_eq!(infer(Expr::Binop(s(), OpType::Plus, Box::new(lit(1)))), Ok(Type::Printable));
    assert_eq!(infer(Expr::Binop(s(), OpType::Times, Box::new(lit(3)))), Ok(Type::Printable));
    assert_eq!(
        infer(Expr::Binop(s(), OpType::Plus, Box::new(Expr::ConstColor(ColorType::White)))),
        Ok(Type::Printable)
    );
    assert_eq!(
        infer(Expr::Binop(Box::new(Expr::ConstColor(ColorType::Red)), OpType::Plus, s())),
        Ok(Type::Printable)
    );
}

#[test]
fn unsupported_operator() {
    assert_eq!(
        infer(Expr::Binop(Box::new(Expr::ConstBool(true)), OpType::Plus, Box::new(lit(1)))),
        Err(CheckError::UnsupportedOperator(OpType::Plus, Type::Bool, Type::Int(0, 2)))
    );
    assert_eq!(
        infer(Expr::Binop(Box::new(lit(1)), OpType::Times, Box::new(lit(1)))),
        Err(CheckError::UnsupportedOperator(OpType::Times, Type::Int(0, 2), Type::Int(0, 2)))
    );
}

#[test]
fn unary_operator_in_binary_position() {
    assert_eq!(
        infer(Expr::Binop(Box::new(lit(1)), OpType::UPlus, Box::new(lit(1)))),
        Err(CheckError::IllegalUnaryInBinaryContext(OpType::UPlus))
    );
    assert_eq!(
        infer(Expr::Binop(Box::new(Expr::Var("nope".to_string())), OpType::UMinus, Box::new(lit(1)))),
        Err(CheckError::IllegalUnaryInBinaryContext(OpType::UMinus))
    );
}

#[test]
fn increment_rules() {
    assert_eq!(run("f() { mut int<0,9> i = 1; i++; }"), Ok(()));
    assert_eq!(
        run("f() { int<0,9> i = 1; i++; }"),
        Err(CheckError::ImmutableModification("i".to_string()))
    );
    assert_eq!(
        run("f() { mut bool b = true; b--; }"),
        Err(CheckError::TypeMismatch("b".to_string(), Type::Bool))
    );
    assert_eq!(run("f() { k++; }"), Err(CheckError::UndeclaredVariable("k".to_string())));
}

#[test]
fn list_literals_and_indexing() {
    assert_eq!(run("f() { list<int<0,6>, 3> xs = [1, 5, 2]; int<0,9> y = xs[2]; }"), Ok(()));
    assert_eq!(
        run("f() { list<int<0,9>, 3> xs = [1, 5, 2]; }"),
        Err(CheckError::TypeMismatch("xs".to_string(), Type::List(Box::new(Type::Int(0, 9)), 3)))
    );
    assert_eq!(infer(Expr::ConstList(vec![])), Ok(Type::List(Box::new(Type::Bottom), 0)));
    assert_eq!(
        infer(Expr::ConstList(vec![lit(1), lit(4)])),
        Ok(Type::List(Box::new(Type::Int(0, 5)), 2))
    );
}

#[test]
fn heterogeneous_list() {
    assert_eq!(
        infer(Expr::ConstList(vec![lit(1), Expr::ConstBool(false)])),
        Err(CheckError::HeterogeneousList)
    );
}

#[test]
fn list_too_long() {
    let elems: Vec<Expr> = (0..65535).map(|_| Expr::ConstBool(true)).collect();
    assert_eq!(infer(Expr::ConstList(elems)), Err(CheckError::ListTooLong(65535)));
}

#[test]
fn index_errors() {
    let list = || Box::new(Expr::ConstList(vec![lit(1), lit(2)]));
    assert_eq!(
        infer(Expr::Elem(list(), Box::new(lit(2)))),
        Err(CheckError::IndexOutOfRange(Type::List(Box::new(Type::Int(0, 3)), 2), Type::Int(0, 3)))
    );
    assert_eq!(infer(Expr::Elem(list(), Box::new(lit(1)))), Ok(Type::Int(0, 3)));
    assert_eq!(
        infer(Expr::Elem(list(), Box::new(Expr::ConstBool(true)))),
        Err(CheckError::IndexNotInteger(Type::Bool))
    );
    assert_eq!(
        infer(Expr::Elem(Box::new(lit(4)), Box::new(lit(0)))),
        Err(CheckError::NotAList(Type::Int(0, 5)))
    );
}

#[test]
fn return_inside_loop_counts() {
    assert_eq!(run("int<0,9> f() { loop { return 3; } }"), Ok(()));
    assert_eq!(run("int<0,9> f() { input { W => { return 3; } } }"), Err(CheckError::MissingReturn("f".to_string())));
}

#[test]
fn first_failing_function_stops_the_check() {
    assert_eq!(
        run("f() { a = 1; } g() { b = 2; }"),
        Err(CheckError::UndeclaredVariable("a".to_string()))
    );
}

#[test]
fn parameters_are_immutable() {
    assert_eq!(
        run("f(int<0,9> n) { n = 3; }"),
        Err(CheckError::ImmutableModification("n".to_string()))
    );
    assert_eq!(run("int<0,9> f(int<0,9> n) { return n; }"), Ok(()));
}
