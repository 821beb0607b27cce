use keylang::ast::{Expr, Statement};
use keylang::parser::{parse, ParseError};
use keylang::types::{KeyType, OpType, Type};

#[test]
fn empty_source_is_rejected() {
    assert_eq!(parse(String::new()).err(), Some(ParseError { position: 0 }));
    assert_eq!(parse("   \n".to_string()).err(), Some(ParseError { position: 4 }));
}

#[test]
fn parses_signature() {
    let ast = parse("int<1, 7> count(bool flag, list<key, 4> keys) { return 1; }".to_string()).unwrap();
    assert_eq!(ast.0.len(), 1);
    let f = &ast.0[0];
    assert_eq!(f.name, "count");
    assert_eq!(f.ret, Some(Type::Int(1, 7)));
    assert_eq!(f.args.len(), 2);
    assert_eq!(f.args[0], (Type::Bool, "flag".to_string()));
    assert_eq!(f.args[1], (Type::List(Box::new(Type::Key), 4), "keys".to_string()));
}

#[test]
fn parses_statements() {
    let ast = parse("main() { mut int x = 12; x = x + 3; loop { input { W => { break; } } } say(\"hi there\"); }".to_string()).unwrap();
    let f = &ast.0[0];
    assert_eq!(f.ret, None);
    match &f.body {
        Statement::Block(stmts) => {
            assert_eq!(stmts.len(), 4);
            match &stmts[0] {
                Statement::Mutable(t, name, Expr::ConstInt(12)) => {
                    assert_eq!(*t, Type::Int(0, u32::MAX));
                    assert_eq!(name, "x");
                }
                other => panic!("unexpected {:?}", other),
            }
            match &stmts[1] {
                Statement::Assign(name, Expr::Binop(l, OpType::Plus, r)) => {
                    assert_eq!(name, "x");
                    assert!(matches!(**l, Expr::Var(ref v) if v == "x"));
                    assert!(matches!(**r, Expr::ConstInt(3)));
                }
                other => panic!("unexpected {:?}", other),
            }
            match &stmts[2] {
                Statement::Loop(body) => match &**body {
                    Statement::Block(inner) => match &inner[0] {
                        Statement::Input(branches) => {
                            assert_eq!(branches.len(), 1);
                            assert_eq!(branches[0].0, KeyType::W);
                        }
                        other => panic!("unexpected {:?}", other),
                    },
                    other => panic!("unexpected {:?}", other),
                },
                other => panic!("unexpected {:?}", other),
            }
            match &stmts[3] {
                Statement::Expr(Expr::Call(name, args)) => {
                    assert_eq!(name, "say");
                    assert!(matches!(&args[0], Expr::ConstString(s) if s == "hi there"));
                }
                other => panic!("unexpected {:?}", other),
            }
        }
        other => panic!("unexpected {:?}", other),
    }
}

#[test]
fn parses_several_functions() {
    let ast = parse("a() { }\n\nb() { a(); }\n".to_string()).unwrap();
    assert_eq!(ast.0.len(), 2);
    assert_eq!(ast.0[1].name, "b");
}

#[test]
fn missing_semicolon_is_reported() {
    assert_eq!(parse("f() { break }".to_string()).err(), Some(ParseError { position: 12 }));
}

#[test]
fn oversized_number_is_rejected() {
    assert!(parse("f() { int x = 99999999999; }".to_string()).is_err());
}
