use keylang::checker::builtin_functions;
use keylang::env::VarEnv;
use keylang::error::CheckError;
use keylang::types::Type;

#[test]
fn declare_rejects_a_second_binding() {
    let mut env = VarEnv::new();
    assert_eq!(env.declare("b".to_string(), Type::Bool, false), Ok(()));
    assert_eq!(
        env.declare("b".to_string(), Type::Int(0, 3), true),
        Err(CheckError::DuplicateName("b".to_string()))
    );
    assert_eq!(env.entries.len(), 1);
    let i = env.lookup(&"b".to_string()).unwrap();
    assert_eq!(env.entries[i].ty, Type::Bool);
    assert!(!env.entries[i].mutable);
    assert_eq!(env.lookup(&"c".to_string()), None);
}

#[test]
fn later_binding_wins_lookup() {
    let mut env = VarEnv::new();
    env.bind("n".to_string(), Type::Int(0, 2), false);
    env.bind("n".to_string(), Type::Key, false);
    assert_eq!(env.lookup(&"n".to_string()), Some(1));
}

#[test]
fn builtin_table_holds_say_functions() {
    let ft = builtin_functions();
    assert_eq!(ft.entries.len(), 2);
    for name in ["say", "say_student"] {
        let i = ft.lookup(&name.to_string()).unwrap();
        assert_eq!(ft.entries[i].ret, Type::Bottom);
        assert_eq!(ft.entries[i].params, vec![Type::Printable]);
    }
    assert_eq!(ft.lookup(&"shout".to_string()), None);
}
