use gizmo::ast::Expr;
use gizmo::ast::binary_rules;
use gizmo::ast::unary_rules;

#[test]
fn test_validate() {
    assert_eq!(Expr::Int(5).validate(), "int");
    assert_eq!(Expr::Chr('a').validate(), "char");
    assert_eq!(Expr::Dec("16.788".to_string()).validate(), "dec");
    assert_eq!(Expr::Bool(true).validate(), "bool");
    assert_eq!(Expr::Str("Hello, World!".to_string()).validate(), "string");
    assert_eq!(
        Expr::Id("foo".to_string(), "int".to_string(), "%.0".to_string()).validate(),
        "int"
    );
    assert_eq!(
        Expr::Array {
            values: vec![],
            typ: "int[]".to_string()
        }
        .validate(),
        "int[]"
    );
    assert_eq!(
        Expr::IndexedValue {
            src: Box::new(Expr::Non),
            index: Box::new(Expr::Int(0)),
            new_typ: "int".to_string()
        }
        .validate(),
        "int"
    );
    assert_eq!(
        Expr::NewStruct {
            id: "Foo".to_string(),
            fields: vec![]
        }
        .validate(),
        "Foo"
    );
    assert_eq!(
        Expr::StructDot {
            id: Box::new(Expr::Non),
            id2: "def".to_string(),
            typ: "int".to_string(),
            field_num: 0
        }
        .validate(),
        "int"
    );
}

#[test]
fn test_semantics() {
    let int = Box::new(Expr::Int(5));
    let dec = Box::new(Expr::Dec("5.5".to_string()));
    let boo = Box::new(Expr::Bool(true));
    let string = Box::new(Expr::Str("test".to_string()));

    assert_eq!(unary_rules(&"-".to_string(), &int), "int");
    assert_eq!(unary_rules(&"-".to_string(), &dec), "dec");
    assert_eq!(unary_rules(&"-".to_string(), &string), "error");

    assert_eq!(unary_rules(&"not".to_string(), &boo), "bool");
    assert_eq!(unary_rules(&"not".to_string(), &dec), "bool");

    assert_eq!(binary_rules(&"+".to_string(), &int, &int), "int");
    assert_eq!(binary_rules(&"-".to_string(), &int, &int), "int");
    assert_eq!(binary_rules(&"*".to_string(), &int, &int), "int");
    assert_eq!(binary_rules(&"/".to_string(), &int, &int), "dec");

    assert_eq!(binary_rules(&"+".to_string(), &dec, &dec), "dec");
    assert_eq!(binary_rules(&"-".to_string(), &dec, &dec), "dec");
    assert_eq!(binary_rules(&"*".to_string(), &dec, &dec), "dec");
    assert_eq!(binary_rules(&"/".to_string(), &dec, &dec), "dec");

    assert_eq!(binary_rules(&"<".to_string(), &dec, &dec), "bool");
    assert_eq!(binary_rules(&"<".to_string(), &int, &int), "bool");
    assert_eq!(binary_rules(&"<".to_string(), &string, &string), "error");

    assert_eq!(binary_rules(&">".to_string(), &dec, &dec), "bool");
    assert_eq!(binary_rules(&">".to_string(), &int, &int), "bool");
    assert_eq!(binary_rules(&">".to_string(), &string, &string), "error");

    assert_eq!(binary_rules(&"<=".to_string(), &dec, &dec), "bool");
    assert_eq!(binary_rules(&"<=".to_string(), &int, &int), "bool");
    assert_eq!(binary_rules(&"<=".to_string(), &string, &string), "error");

    assert_eq!(binary_rules(&">=".to_string(), &dec, &dec), "bool");
    assert_eq!(binary_rules(&">=".to_string(), &int, &int), "bool");
    assert_eq!(binary_rules(&">=".to_string(), &string, &string), "error");

    assert_eq!(binary_rules(&"==".to_string(), &dec, &dec), "bool");
    assert_eq!(binary_rules(&"==".to_string(), &int, &int), "bool");
    assert_eq!(binary_rules(&"==".to_string(), &string, &dec), "error");

    assert_eq!(binary_rules(&"!=".to_string(), &dec, &dec), "bool");
    assert_eq!(binary_rules(&"!=".to_string(), &int, &int), "bool");
    assert_eq!(binary_rules(&"!=".to_string(), &string, &dec), "error");

    assert_eq!(binary_rules(&"and".to_string(), &boo, &boo), "bool");
    assert_eq!(binary_rules(&"and".to_string(), &int, &int), "error");
    assert_eq!(binary_rules(&"and".to_string(), &string, &dec), "error");

    assert_eq!(binary_rules(&"or".to_string(), &boo, &boo), "bool");
    assert_eq!(binary_rules(&"or".to_string(), &int, &int), "error");
    assert_eq!(binary_rules(&"or".to_string(), &string, &dec), "error");
}

#[test]
fn operator_table_char_rows() {
    let int = Box::new(Expr::Int(5));
    let chr = Box::new(Expr::Chr('a'));
    let string = Box::new(Expr::Str("s".to_string()));

    // int combined with char behaves as int arithmetic
    assert_eq!(binary_rules(&"+".to_string(), &int, &chr), "int");
    assert_eq!(binary_rules(&"-".to_string(), &int, &chr), "int");
    assert_eq!(binary_rules(&"*".to_string(), &int, &chr), "int");
    // concatenation of strings and chars yields a string
    assert_eq!(binary_rules(&"+".to_string(), &string, &chr), "string");
    assert_eq!(binary_rules(&"+".to_string(), &chr, &chr), "string");
    assert_eq!(binary_rules(&"+".to_string(), &string, &string), "string");
    // comparisons accept int and char mixed
    assert_eq!(binary_rules(&"<".to_string(), &chr, &int), "bool");
    assert_eq!(binary_rules(&">=".to_string(), &chr, &chr), "bool");
    // division never accepts char
    assert_eq!(binary_rules(&"/".to_string(), &int, &chr), "error");
    // equality demands the very same type
    assert_eq!(binary_rules(&"==".to_string(), &chr, &chr), "bool");
    assert_eq!(binary_rules(&"==".to_string(), &int, &chr), "error");
    // an unknown operator is never well-typed
    assert_eq!(binary_rules(&"%".to_string(), &int, &int), "error");
    assert_eq!(unary_rules(&"!".to_string(), &int), "error");
}

#[test]
fn validate_is_structural() {
    // the type of an operator node is computed from its children
    let sum = Expr::BinaryOperator {
        oper: "+".to_string(),
        left: Box::new(Expr::Int(1)),
        right: Box::new(Expr::BinaryOperator {
            oper: "*".to_string(),
            left: Box::new(Expr::Int(2)),
            right: Box::new(Expr::Int(3)),
        }),
    };
    assert_eq!(sum.validate(), "int");
    let cmp = Expr::BinaryOperator {
        oper: "==".to_string(),
        left: Box::new(sum),
        right: Box::new(Expr::Int(7)),
    };
    assert_eq!(cmp.validate(), "bool");
    let bad = Expr::BinaryOperator {
        oper: "and".to_string(),
        left: Box::new(cmp),
        right: Box::new(Expr::Int(1)),
    };
    assert_eq!(bad.validate(), "error");
    assert_eq!(Expr::Non.validate(), "");
}
