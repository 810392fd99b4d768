use gizmo::compile;
use gizmo::generator::Generator;
use gizmo::generator::type_of;
use gizmo::generator::type_of_oper;

#[test]
fn type_of_maps_source_types_to_ir_types() {
    assert_eq!(type_of("int".to_string()), "i32");
    assert_eq!(type_of("dec".to_string()), "double");
    assert_eq!(type_of("bool".to_string()), "i1");
    assert_eq!(type_of("char".to_string()), "i8");
    assert_eq!(type_of("string".to_string()), "i8*");
    assert_eq!(type_of("void".to_string()), "void");
    assert_eq!(type_of("int[]".to_string()), "%.Arr");
    assert_eq!(type_of("Pair".to_string()), "%Pair");
}

#[test]
fn type_of_oper_maps_operators_to_instructions() {
    assert_eq!(type_of_oper("+".to_string()), "add");
    assert_eq!(type_of_oper("-".to_string()), "sub");
    assert_eq!(type_of_oper("*".to_string()), "mul");
    assert_eq!(type_of_oper("/".to_string()), "sdiv");
    assert_eq!(type_of_oper("==".to_string()), "icmp eq");
    assert_eq!(type_of_oper("!=".to_string()), "icmp ne");
    assert_eq!(type_of_oper("<".to_string()), "icmp slt");
    assert_eq!(type_of_oper(">".to_string()), "icmp sgt");
    assert_eq!(type_of_oper("<=".to_string()), "icmp sle");
    assert_eq!(type_of_oper(">=".to_string()), "icmp sge");
    assert_eq!(type_of_oper("and".to_string()), "and");
    assert_eq!(type_of_oper("or".to_string()), "or");
    assert_eq!(type_of_oper("?".to_string()), "");
}

#[test]
fn get_str_length_splits_count_and_contents() {
    let g = Generator::construct();
    assert_eq!(g.get_str_length("3.abc".to_string()), (4, "abc".to_string()));
    assert_eq!(
        g.get_str_length("8.abc\\0Adef".to_string()),
        (9, "abc\\0Adef".to_string())
    );
    assert_eq!(g.get_str_length("abc".to_string()), (0, String::new()));
    assert_eq!(g.get_str_length(".abc".to_string()), (1, "abc".to_string()));
}

#[test]
fn empty_program_compiles_to_the_bare_skeleton() {
    assert_eq!(
        compile(String::new()).unwrap(),
        "define i32 @main() {\nentry:\n\tret i32 0\n}\n"
    );
}

#[test]
fn expression_lowering_follows_precedence() {
    // lowering 5 + (6 * 2) computes the product first
    let code = compile("let r = 5 + 6 * 2;".to_string()).unwrap();
    assert!(code.contains("\t%0 = mul i32 6, 2\n"));
    assert!(code.contains("\t%1 = add i32 5, %0\n"));
    assert!(code.contains("\t%.0 = alloca i32\n"));
    assert!(code.contains("\tstore i32 %1, i32* %.0\n"));
}

#[test]
fn generation_is_deterministic() {
    let program =
        "struct Pair { a: int, b: int } let p = new Pair(1, 2); write(p.a + p.b);".to_string();
    let first = compile(program.clone()).unwrap();
    let second = compile(program).unwrap();
    assert_eq!(first, second);
    assert!(!first.is_empty());
}

#[test]
fn function_body_gets_default_return_and_fresh_registers() {
    // a function of type int without a ret ends in a default return
    let code = compile("let a = 1 + 2; func f(): int { let x = 3 + 4; }".to_string()).unwrap();
    assert!(code.contains("define i32 @f() {\nentry:\n"));
    assert!(code.contains("\tret i32 0\n"));
    // the body's registers start over at %0 even though main already
    // used %0 for its own sum
    assert!(code.contains("\t%0 = add i32 1, 2\n"));
    assert!(code.contains("\t%0 = add i32 3, 4\n"));
}

#[test]
fn while_loop_uses_its_preassigned_labels() {
    let code = compile("while 1 < 2 { write(5); }".to_string()).unwrap();
    assert!(code.contains("label %l0"));
    assert!(code.contains("label %l1"));
    assert!(code.contains("l0:\n"));
    assert!(code.contains("l1:\n"));
}

#[test]
fn string_and_array_indexing_lower_through_different_paths() {
    let code = compile(
        "let s = \"ab\"; let a = [1, 2]; let x = s[0]; let y = a[1];".to_string(),
    )
    .unwrap();
    // a string is addressed directly as a byte array
    assert!(code.contains(" to [0 x i8]*\n"));
    // an array goes through the record's pointer field, cast to its
    // element type
    assert!(code.contains(" to [0 x i32]*\n"));
    assert!(code.contains("%.Arr = type {\n\ti8*,\n\ti32\n}\n"));
}

#[test]
fn write_builds_a_format_from_the_static_types() {
    let code = compile("write(5, \"x\", 'c');".to_string()).unwrap();
    assert!(code.contains("@fmt0 = constant [7 x i8] c\"%d%s%c\\00\""));
    assert!(code.contains("declare i32 @printf(i8*, ...)\n"));
}

#[test]
fn printf_is_declared_exactly_once() {
    let code = compile("write(1); write(2); write(3);".to_string()).unwrap();
    assert_eq!(code.matches("declare i32 @printf(i8*, ...)").count(), 1);
    // but each call gets a format constant of its own
    assert!(code.contains("@fmt0"));
    assert!(code.contains("@fmt1"));
    assert!(code.contains("@fmt2"));
}

#[test]
fn len_of_string_calls_strlen_len_of_array_reads_the_record() {
    let code = compile("let s = \"abc\"; let n = len(s);".to_string()).unwrap();
    assert!(code.contains("call i32 @strlen("));
    assert!(code.contains("declare i32 @strlen(i8*)\n"));
    let code2 = compile("let a = [1, 2, 3]; let n = len(a);".to_string()).unwrap();
    assert!(!code2.contains("strlen"));
    assert!(code2.contains("i32 1\n") || code2.contains(", i32 1"));
}

#[test]
fn string_literals_become_interned_globals() {
    let code = compile("let s = \"hi\";".to_string()).unwrap();
    assert!(code.contains("@.str.0 = constant [3 x i8] c\"hi\\00\""));
    assert!(code.contains("getelementptr inbounds [3 x i8], [3 x i8]* @.str.0, i32 0, i32 0"));
}

#[test]
fn struct_declarations_emit_a_type() {
    let code = compile("struct Pair { a: int, b: string }".to_string()).unwrap();
    assert!(code.contains("%Pair = type {\n\ti32,\n\ti8*\n}\n"));
}

#[test]
fn unary_operators_lower_to_arithmetic() {
    let code = compile("let a = -5; let b = not true;".to_string()).unwrap();
    assert!(code.contains("\t%0 = mul i32 5, -1\n"));
    assert!(code.contains("\t%1 = sub i1 true, 1\n"));
}

#[test]
fn functions_with_parameters_and_calls() {
    let code = compile(
        "func add2(int a, int b): int { ret a + b; } let r = add2(3, 4); write(r);".to_string(),
    )
    .unwrap();
    assert!(code.contains("define i32 @add2(i32* %.0, i32* %.1) {\nentry:\n"));
    assert!(code.contains(" = call i32 @add2("));
    // parameters are read out of their storage locations
    assert!(code.contains("\t%0 = load i32, i32* %.0\n"));
    assert!(code.contains("\t%1 = load i32, i32* %.1\n"));
    assert!(code.contains("\t%2 = add i32 %0, %1\n"));
    assert!(code.contains("\tret i32 %2\n"));
}

#[test]
fn if_else_uses_three_labels() {
    let code = compile(
        "let a = 5; if a == 5 { write(1); } else { write(2); }".to_string(),
    )
    .unwrap();
    assert!(code.contains("label %l0"));
    assert!(code.contains("label %l2"));
    assert!(code.contains("l1:\n"));
    assert!(code.contains("l2:\n"));
}

#[test]
fn assignment_stores_into_the_location() {
    let code = compile("let a = 5; a = 6;".to_string()).unwrap();
    assert!(code.contains("\t%.0 = alloca i32\n"));
    assert!(code.contains("\tstore i32 6, i32* %.0\n"));
}

#[test]
fn default_returns_are_nul_for_char_and_string() {
    let code = compile("func g(): char { }".to_string()).unwrap();
    assert!(code.contains("define i8 @g() {\nentry:\n"));
    assert!(code.contains("\tret i8 0\n"));
    let code2 = compile("func h(): string { }".to_string()).unwrap();
    assert!(code2.contains("\t%0 = alloca i8\n"));
    assert!(code2.contains("\tstore i8 0, i8* %0\n"));
    assert!(code2.contains("\tret i8* %0\n"));
}
