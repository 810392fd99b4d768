use gizmo::ast::Expr;
use gizmo::ast::Node;
use gizmo::error::Error;
use gizmo::error::ErrorType;
use gizmo::lexer::Lexer;
use gizmo::parser::Parser;
use gizmo::symbol::Scope;
use gizmo::symbol::SymbolController;
use gizmo::symbol::SymbolType;

fn parse_program(code: &str) -> Result<Vec<Box<Node>>, Error> {
    let mut lexer = Lexer {
        pos: 0,
        code: code.to_string(),
        col: 0,
    };
    let tokens = lexer.lex()?;
    let mut sym_table = SymbolController { scopes: Vec::new() };
    sym_table.scopes.push(Scope {
        var_symbols: Vec::new(),
        func_symbols: Vec::new(),
        struct_symbols: Vec::new(),
    });
    sym_table.add_symbol(
        "write".to_string(),
        "void".to_string(),
        SymbolType::Func,
        "write".to_string(),
        None,
        None,
    );
    sym_table.add_symbol(
        "len".to_string(),
        "int".to_string(),
        SymbolType::Func,
        "len".to_string(),
        None,
        None,
    );
    let mut parser = Parser {
        pos: 0,
        tokens,
        symtable: sym_table,
        id_c: 0,
        label_c: 0,
    };
    parser.parse()
}

#[test]
fn precedence_multiplication_binds_tighter() {
    // 5 + 6 * 2 must parse as 5 + (6 * 2)
    let ast = parse_program("let r = 5 + 6 * 2;").unwrap();
    let expected = Expr::BinaryOperator {
        oper: "+".to_string(),
        left: Box::new(Expr::Int(5)),
        right: Box::new(Expr::BinaryOperator {
            oper: "*".to_string(),
            left: Box::new(Expr::Int(6)),
            right: Box::new(Expr::Int(2)),
        }),
    };
    match &*ast[0] {
        Node::Let { expr, .. } => assert_eq!(expr, &expected),
        other => panic!("expected a let statement, got {:?}", other),
    }
}

#[test]
fn shadowing_resolves_innermost_then_restores() {
    // the inner a is a string, the outer a stays an int
    let ast = parse_program("let a = 5; { let a = \"x\"; let b = a; } let c = a;").unwrap();
    match &*ast[1] {
        Node::Block { statements } => match &*statements[1] {
            Node::Let { expr, .. } => match expr {
                Expr::Id(name, typ, _) => {
                    assert_eq!(name, "a");
                    assert_eq!(typ, "string");
                }
                other => panic!("expected an identifier, got {:?}", other),
            },
            other => panic!("expected a let statement, got {:?}", other),
        },
        other => panic!("expected a block, got {:?}", other),
    }
    match &*ast[2] {
        Node::Let { expr, .. } => match expr {
            Expr::Id(name, typ, _) => {
                assert_eq!(name, "a");
                assert_eq!(typ, "int");
            }
            other => panic!("expected an identifier, got {:?}", other),
        },
        other => panic!("expected a let statement, got {:?}", other),
    }
}

#[test]
fn redeclaration_same_scope_fails_child_scope_succeeds() {
    let e = parse_program("let a = 5; let a = 6;").unwrap_err();
    assert_eq!(e.typ, ErrorType::DuplicateSymbol);
    assert!(parse_program("let a = 5; { let a = 6; }").is_ok());
}

#[test]
fn break_outside_loop_is_refused() {
    let e = parse_program("break;").unwrap_err();
    assert_eq!(e.typ, ErrorType::ExpectedToken);
    let e2 = parse_program("continue;").unwrap_err();
    assert_eq!(e2.typ, ErrorType::ExpectedToken);
}

#[test]
fn break_resolves_to_loop_end_label() {
    let ast = parse_program("while true { break; continue; }").unwrap();
    match &*ast[0] {
        Node::While {
            body, begin, end, ..
        } => {
            assert_eq!(*begin, 0);
            assert_eq!(*end, 1);
            match &**body {
                Node::Block { statements } => {
                    assert_eq!(*statements[0], Node::Pause { label: 1 });
                    assert_eq!(*statements[1], Node::Pause { label: 0 });
                }
                other => panic!("expected a block, got {:?}", other),
            }
        }
        other => panic!("expected a while loop, got {:?}", other),
    }
}

#[test]
fn sibling_loops_get_distinct_labels() {
    let ast = parse_program("while true { } while true { }").unwrap();
    let (b1, e1) = match &*ast[0] {
        Node::While { begin, end, .. } => (*begin, *end),
        other => panic!("expected a while loop, got {:?}", other),
    };
    let (b2, e2) = match &*ast[1] {
        Node::While { begin, end, .. } => (*begin, *end),
        other => panic!("expected a while loop, got {:?}", other),
    };
    assert_eq!((b1, e1), (0, 1));
    assert_eq!((b2, e2), (2, 3));
    assert!(b1 != b2 && e1 != e2 && e1 != b2 && b1 != e2);
}

#[test]
fn boolean_operand_is_an_equality() {
    // a and b == c parses as a and (b == c)
    let ast = parse_program("let a = true; let b = 1; let c = 2; let x = a and b == c;").unwrap();
    match &*ast[3] {
        Node::Let { expr, .. } => match expr {
            Expr::BinaryOperator { oper, left, right } => {
                assert_eq!(oper, "and");
                assert!(matches!(&**left, Expr::Id(name, _, _) if name == "a"));
                match &**right {
                    Expr::BinaryOperator { oper, .. } => assert_eq!(oper, "=="),
                    other => panic!("expected an equality, got {:?}", other),
                }
            }
            other => panic!("expected a boolean operation, got {:?}", other),
        },
        other => panic!("expected a let statement, got {:?}", other),
    }
}

#[test]
fn condition_must_be_bool() {
    assert_eq!(
        parse_program("while 5 { }").unwrap_err().typ,
        ErrorType::MismatchedTypes
    );
    assert_eq!(
        parse_program("if 5 { }").unwrap_err().typ,
        ErrorType::MismatchedTypes
    );
    assert!(parse_program("if 1 < 2 { } else { }").is_ok());
}

#[test]
fn ret_needs_function_and_matching_type() {
    assert_eq!(
        parse_program("ret 5;").unwrap_err().typ,
        ErrorType::ExpectedToken
    );
    assert_eq!(
        parse_program("func f(): int { ret \"x\"; }").unwrap_err().typ,
        ErrorType::MismatchedTypes
    );
    assert!(parse_program("func f(): int { ret 5; }").is_ok());
}

#[test]
fn nested_function_declarations_are_refused() {
    let e = parse_program("func f() { func g() { } }").unwrap_err();
    assert_eq!(e.typ, ErrorType::ExpectedToken);
}

#[test]
fn function_without_ret_still_type_checks() {
    // a function of type int whose body has no ret on any path
    assert!(parse_program("func f(): int { let x = 5; }").is_ok());
}

#[test]
fn undefined_symbol_gets_a_suggestion() {
    let e = parse_program("writ(5);").unwrap_err();
    assert_eq!(e.typ, ErrorType::UndefinedSymbol);
    assert!(e.helpers.contains("Perhaps you meant 'write'"));
    let e2 = parse_program("let a = b;").unwrap_err();
    assert_eq!(e2.typ, ErrorType::UndefinedSymbol);
}

#[test]
fn mismatched_operator_types_are_refused() {
    let e = parse_program("let a = 5 + \"x\";").unwrap_err();
    assert_eq!(e.typ, ErrorType::MismatchedTypes);
    let e2 = parse_program("let a: string = 5;").unwrap_err();
    assert_eq!(e2.typ, ErrorType::MismatchedTypes);
}

#[test]
fn empty_array_literal_has_no_type() {
    let e = parse_program("let a = [];").unwrap_err();
    assert_eq!(e.typ, ErrorType::UndefinedArray);
    let e2 = parse_program("let a = [1, \"x\"];").unwrap_err();
    assert_eq!(e2.typ, ErrorType::MismatchedTypes);
}

#[test]
fn index_must_be_int_for_strings_and_arrays() {
    assert!(parse_program("let s = \"ab\"; let c = s[0];").is_ok());
    assert!(parse_program("let a = [1, 2]; let x = a[1];").is_ok());
    assert_eq!(
        parse_program("let s = \"ab\"; let c = s[true];").unwrap_err().typ,
        ErrorType::MismatchedTypes
    );
    assert_eq!(
        parse_program("let a = [1, 2]; let x = a[\"y\"];").unwrap_err().typ,
        ErrorType::MismatchedTypes
    );
    // only strings and arrays can be indexed at all
    assert_eq!(
        parse_program("let n = 5; let x = n[0];").unwrap_err().typ,
        ErrorType::MismatchedTypes
    );
}

#[test]
fn struct_fields_are_checked_eagerly() {
    assert!(parse_program("struct Pair { a: int, b: int } let p = new Pair(1, 2);").is_ok());
    assert_eq!(
        parse_program("struct Pair { a: int, b: int } let p = new Pair(1, \"x\");")
            .unwrap_err()
            .typ,
        ErrorType::MismatchedTypes
    );
    assert_eq!(
        parse_program("struct Pair { a: int, b: int } let p = new Pair(1, 2, 3);")
            .unwrap_err()
            .typ,
        ErrorType::MismatchedTypes
    );
    assert_eq!(
        parse_program("let p = new Missing(1);").unwrap_err().typ,
        ErrorType::UndefinedSymbol
    );
}

#[test]
fn field_access_resolves_position_and_type() {
    let ast = parse_program(
        "struct Pair { a: int, b: string } let p = new Pair(1, \"x\"); let y = p.b;",
    )
    .unwrap();
    match &*ast[2] {
        Node::Let { expr, .. } => match expr {
            Expr::StructDot {
                id2,
                typ,
                field_num,
                ..
            } => {
                assert_eq!(id2, "b");
                assert_eq!(typ, "string");
                assert_eq!(*field_num, 1);
            }
            other => panic!("expected a field access, got {:?}", other),
        },
        other => panic!("expected a let statement, got {:?}", other),
    }
}

#[test]
fn assignment_checks_target_and_type() {
    assert!(parse_program("let a = 5; a = 6;").is_ok());
    assert_eq!(
        parse_program("let a = 5; a = \"x\";").unwrap_err().typ,
        ErrorType::MismatchedTypes
    );
    assert_eq!(
        parse_program("let a = 5; let b = c + a;").unwrap_err().typ,
        ErrorType::UndefinedSymbol
    );
}

#[test]
fn generated_names_are_fresh_per_declaration() {
    let ast = parse_program("let a = 1; let b = 2; { let c = 3; } let d = 4;").unwrap();
    let gen = |n: &Node| -> String {
        match n {
            Node::Let { gen_id, .. } => gen_id.clone(),
            other => panic!("expected a let statement, got {:?}", other),
        }
    };
    assert_eq!(gen(&ast[0]), "%.0");
    assert_eq!(gen(&ast[1]), "%.1");
    match &*ast[2] {
        Node::Block { statements } => assert_eq!(gen(&statements[0]), "%.2"),
        other => panic!("expected a block, got {:?}", other),
    }
    assert_eq!(gen(&ast[3]), "%.3");
}
