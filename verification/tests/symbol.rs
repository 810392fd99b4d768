use gizmo::symbol::Scope;
use gizmo::symbol::SymbolController;
use gizmo::symbol::SymbolType;
use gizmo::symbol::autoc;
use gizmo::text::bool_to_string;
use gizmo::text::i64_to_string;
use gizmo::text::parse_u64;
use gizmo::text::u64_to_string;
use gizmo::text::usize_to_string;

fn fresh_table() -> SymbolController {
    let mut t = SymbolController { scopes: Vec::new() };
    t.scopes.push(Scope {
        var_symbols: Vec::new(),
        func_symbols: Vec::new(),
        struct_symbols: Vec::new(),
    });
    t
}

#[test]
fn add_symbol_refuses_same_scope_duplicates_only() {
    let mut t = fresh_table();
    assert!(t.add_symbol(
        "a".to_string(),
        "int".to_string(),
        SymbolType::Var,
        "%.0".to_string(),
        None,
        None
    ));
    // the same kind and name in the same scope is refused
    assert!(!t.add_symbol(
        "a".to_string(),
        "string".to_string(),
        SymbolType::Var,
        "%.1".to_string(),
        None,
        None
    ));
    // another kind under the same name goes through
    assert!(t.add_symbol(
        "a".to_string(),
        "void".to_string(),
        SymbolType::Func,
        "a".to_string(),
        None,
        None
    ));
    // a child scope may redeclare the name
    t.add_scope();
    assert!(t.add_symbol(
        "a".to_string(),
        "string".to_string(),
        SymbolType::Var,
        "%.2".to_string(),
        None,
        None
    ));
}

#[test]
fn lookup_shadows_and_pop_restores() {
    let mut t = fresh_table();
    t.add_symbol(
        "a".to_string(),
        "int".to_string(),
        SymbolType::Var,
        "%.0".to_string(),
        None,
        None,
    );
    t.add_scope();
    t.add_symbol(
        "a".to_string(),
        "string".to_string(),
        SymbolType::Var,
        "%.1".to_string(),
        None,
        None,
    );
    let inner = t.find_global_var(&"a".to_string()).unwrap();
    assert_eq!(inner.typ, "string");
    assert_eq!(inner.gen_id, "%.1");
    t.pop_scope();
    let outer = t.find_global_var(&"a".to_string()).unwrap();
    assert_eq!(outer.typ, "int");
    assert_eq!(outer.gen_id, "%.0");
}

#[test]
fn find_checks_the_current_scope_only() {
    let mut t = fresh_table();
    t.add_symbol(
        "a".to_string(),
        "int".to_string(),
        SymbolType::Var,
        "%.0".to_string(),
        None,
        None,
    );
    t.add_scope();
    // the outer declaration is not a redeclaration conflict here
    assert!(!t.find(&"a".to_string(), SymbolType::Var));
    // but the upward lookup still sees it
    assert!(t.find_global_var(&"a".to_string()).is_some());
    assert!(t.find_global_var(&"b".to_string()).is_none());
}

#[test]
fn lookup_separates_the_three_kinds() {
    let mut t = fresh_table();
    t.add_symbol(
        "x".to_string(),
        "int".to_string(),
        SymbolType::Var,
        "%.0".to_string(),
        None,
        None,
    );
    assert!(t.find_global_var(&"x".to_string()).is_some());
    assert!(t.find_global_func(&"x".to_string()).is_none());
    assert!(t.find_global_struct(&"x".to_string()).is_none());
}

#[test]
fn autoc_picks_the_most_similar_name() {
    let names = vec!["write".to_string(), "len".to_string()];
    assert_eq!(autoc("wrte".to_string(), names.clone()), "write");
    // with no shared characters the word itself comes back
    assert_eq!(autoc("qqq".to_string(), names), "qqq");
    assert_eq!(autoc("abc".to_string(), vec![]), "abc");
}

#[test]
fn number_formatting_is_exact() {
    assert_eq!(u64_to_string(0), "0");
    assert_eq!(u64_to_string(12345), "12345");
    assert_eq!(u64_to_string(u64::MAX), "18446744073709551615");
    assert_eq!(usize_to_string(42), "42");
    assert_eq!(i64_to_string(-7), "-7");
    assert_eq!(i64_to_string(0), "0");
    assert_eq!(i64_to_string(i64::MIN), "-9223372036854775808");
    assert_eq!(bool_to_string(true), "true");
    assert_eq!(bool_to_string(false), "false");
}

#[test]
fn number_parsing_is_exact() {
    assert_eq!(parse_u64("0"), Some(0));
    assert_eq!(parse_u64("98765"), Some(98765));
    assert_eq!(parse_u64("18446744073709551615"), Some(u64::MAX));
    assert_eq!(parse_u64("18446744073709551616"), None);
    assert_eq!(parse_u64(""), None);
    assert_eq!(parse_u64("12x"), None);
}
