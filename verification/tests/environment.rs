use xs_check::ast::identifier::Identifier;
use xs_check::ast::type_::Type;
use xs_check::type_env::TypeEnv;

fn e_id(s: &str) -> Identifier {
    Identifier::new(s)
}

#[test]
fn new_environment_binds_nothing() {
    let env = TypeEnv::new();
    assert_eq!(env.get(&e_id("x")), None);
    assert!(!env.contains(&e_id("x")));
}

#[test]
fn declare_reports_conflict_and_installs_the_new_binding() {
    let mut env = TypeEnv::new();
    assert!(!env.declare(e_id("x"), Type::Int));
    assert_eq!(env.get(&e_id("x")), Some(&Type::Int));
    assert!(env.declare(e_id("x"), Type::Float));
    assert_eq!(env.get(&e_id("x")), Some(&Type::Float));
    assert_eq!(env.get(&e_id("X")), None);
}

#[test]
fn insert_replaces_a_binding() {
    let mut env = TypeEnv::new();
    env.insert(e_id("a"), Type::Str);
    env.insert(e_id("b"), Type::Bool);
    env.insert(e_id("a"), Type::Vec);
    assert_eq!(env.get(&e_id("a")), Some(&Type::Vec));
    assert_eq!(env.get(&e_id("b")), Some(&Type::Bool));
}

#[test]
fn snapshot_is_independent_of_its_source() {
    let mut env = TypeEnv::new();
    env.insert(e_id("a"), Type::Int);
    let mut copy = env.snapshot();
    copy.insert(e_id("b"), Type::Float);
    copy.insert(e_id("a"), Type::Str);
    assert_eq!(env.get(&e_id("a")), Some(&Type::Int));
    assert_eq!(env.get(&e_id("b")), None);
    assert_eq!(copy.get(&e_id("a")), Some(&Type::Str));
    assert_eq!(copy.get(&e_id("b")), Some(&Type::Float));
}

#[test]
fn merge_into_prefers_what_is_moved_in() {
    let mut params = TypeEnv::new();
    params.insert(e_id("a"), Type::Float);
    params.insert(e_id("p"), Type::Bool);
    let mut scope = TypeEnv::new();
    scope.insert(e_id("a"), Type::Int);
    scope.insert(e_id("g"), Type::Str);
    params.merge_into(&mut scope);
    assert_eq!(scope.get(&e_id("a")), Some(&Type::Float));
    assert_eq!(scope.get(&e_id("p")), Some(&Type::Bool));
    assert_eq!(scope.get(&e_id("g")), Some(&Type::Str));
}

#[test]
fn types_are_compared_by_structure() {
    let f1 = Type::Func(vec![Type::Int, Type::Void]);
    let f2 = Type::Func(vec![Type::Int, Type::Void]);
    let f3 = Type::Func(vec![Type::Float, Type::Void]);
    let f4 = Type::Func(vec![Type::Int]);
    assert!(f1.same(&f2));
    assert!(!f1.same(&f3));
    assert!(!f1.same(&f4));
    assert!(!f1.same(&Type::Int));
    assert!(Type::Rule.same(&Type::Rule));
    assert!(!Type::Int.same(&Type::Float));
    assert_eq!(f1.clone(), f2);
}

#[test]
fn type_names() {
    assert_eq!(Type::Int.name(), "int");
    assert_eq!(Type::Float.name(), "float");
    assert_eq!(Type::Str.name(), "string");
    assert_eq!(Type::Bool.name(), "bool");
    assert_eq!(Type::Vec.name(), "vector");
    assert_eq!(Type::Void.name(), "void");
    assert_eq!(Type::Rule.name(), "rule");
    assert_eq!(Type::Func(vec![]).name(), "fn()");
    assert_eq!(Type::Func(vec![Type::Void]).name(), "fn(void)");
    assert_eq!(
        Type::Func(vec![Type::Int, Type::Func(vec![Type::Float, Type::Bool]), Type::Void]).name(),
        "fn(int, fn(float, bool), void)"
    );
}

#[test]
fn identifiers_are_case_sensitive() {
    assert!(e_id("abc").same(&e_id("abc")));
    assert!(!e_id("abc").same(&e_id("Abc")));
    assert_eq!(e_id("abc").clone(), e_id("abc"));
}
