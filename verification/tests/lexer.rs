use gizmo::error::ErrorType;
use gizmo::lexer::Lexer;
use gizmo::token::Token;
use gizmo::token::TokenType;

#[test]
fn test_operators() {
    let mut lexer = Lexer {
        code: "+ - * / == != < > <= >=".to_string(),
        col: 0,
        pos: 0,
    };
    assert_eq!(
        lexer.lex().unwrap(),
        vec![
            Token {
                typ: TokenType::Plus,
                value: "+".to_string(),
                lineno: 1,
                col: 0,
                line: lexer.code.clone()
            },
            Token {
                typ: TokenType::Dash,
                value: "-".to_string(),
                lineno: 1,
                col: 2,
                line: lexer.code.clone()
            },
            Token {
                typ: TokenType::Star,
                value: "*".to_string(),
                lineno: 1,
                col: 4,
                line: lexer.code.clone()
            },
            Token {
                typ: TokenType::Slash,
                value: "/".to_string(),
                lineno: 1,
                col: 6,
                line: lexer.code.clone()
            },
            Token {
                typ: TokenType::EqualEqual,
                value: "==".to_string(),
                lineno: 1,
                col: 8,
                line: lexer.code.clone()
            },
            Token {
                typ: TokenType::NotEqual,
                value: "!=".to_string(),
                lineno: 1,
                col: 11,
                line: lexer.code.clone()
            },
            Token {
                typ: TokenType::LessThan,
                value: "<".to_string(),
                lineno: 1,
                col: 14,
                line: lexer.code.clone()
            },
            Token {
                typ: TokenType::GreaterThan,
                value: ">".to_string(),
                lineno: 1,
                col: 16,
                line: lexer.code.clone()
            },
            Token {
                typ: TokenType::LessEqual,
                value: "<=".to_string(),
                lineno: 1,
                col: 18,
                line: lexer.code.clone()
            },
            Token {
                typ: TokenType::GreaterEqual,
                value: ">=".to_string(),
                lineno: 1,
                col: 21,
                line: lexer.code.clone()
            },
        ]
    );
}

#[test]
fn test_identifiers_keywords_types() {
    let mut lexer = Lexer {
        code: "abc int dec bool string let while struct new and or not".to_string(),
        col: 0,
        pos: 0,
    };
    assert_eq!(
        lexer.lex().unwrap(),
        vec![
            Token {
                typ: TokenType::Id,
                value: "abc".to_string(),
                lineno: 1,
                col: 0,
                line: lexer.code.clone()
            },
            Token {
                typ: TokenType::Type,
                value: "int".to_string(),
                lineno: 1,
                col: 4,
                line: lexer.code.clone()
            },
            Token {
                typ: TokenType::Type,
                value: "dec".to_string(),
                lineno: 1,
                col: 8,
                line: lexer.code.clone()
            },
            Token {
                typ: TokenType::Type,
                value: "bool".to_string(),
                lineno: 1,
                col: 12,
                line: lexer.code.clone()
            },
            Token {
                typ: TokenType::Type,
                value: "string".to_string(),
                lineno: 1,
                col: 17,
                line: lexer.code.clone()
            },
            Token {
                typ: TokenType::Let,
                value: "let".to_string(),
                lineno: 1,
                col: 24,
                line: lexer.code.clone()
            },
            Token {
                typ: TokenType::While,
                value: "while".to_string(),
                lineno: 1,
                col: 28,
                line: lexer.code.clone()
            },
            Token {
                typ: TokenType::Struct,
                value: "struct".to_string(),
                lineno: 1,
                col: 34,
                line: lexer.code.clone()
            },
            Token {
                typ: TokenType::New,
                value: "new".to_string(),
                lineno: 1,
                col: 41,
                line: lexer.code.clone()
            },
            Token {
                typ: TokenType::And,
                value: "and".to_string(),
                lineno: 1,
                col: 45,
                line: lexer.code.clone()
            },
            Token {
                typ: TokenType::Or,
                value: "or".to_string(),
                lineno: 1,
                col: 49,
                line: lexer.code.clone()
            },
            Token {
                typ: TokenType::Not,
                value: "not".to_string(),
                lineno: 1,
                col: 52,
                line: lexer.code.clone()
            }
        ]
    );
}

#[test]
fn test_const_values() {
    let mut lexer = Lexer {
        code: "5 'a' 5.5 true false \"abc\"".to_string(),
        col: 0,
        pos: 0,
    };
    assert_eq!(
        lexer.lex().unwrap(),
        vec![
            Token {
                typ: TokenType::Int,
                value: "5".to_string(),
                lineno: 1,
                col: 0,
                line: lexer.code.clone()
            },
            Token {
                typ: TokenType::Char,
                value: "a".to_string(),
                lineno: 1,
                col: 2,
                line: lexer.code.clone()
            },
            Token {
                typ: TokenType::Dec,
                value: "5.5".to_string(),
                lineno: 1,
                col: 6,
                line: lexer.code.clone()
            },
            Token {
                typ: TokenType::Bool,
                value: "true".to_string(),
                lineno: 1,
                col: 10,
                line: lexer.code.clone()
            },
            Token {
                typ: TokenType::Bool,
                value: "false".to_string(),
                lineno: 1,
                col: 15,
                line: lexer.code.clone()
            },
            Token {
                typ: TokenType::Str,
                value: "3.abc".to_string(),
                lineno: 1,
                col: 21,
                line: lexer.code.clone()
            },
        ]
    );
}

#[test]
fn lex_unterminated_string_fault() {
    let mut lexer = Lexer {
        code: "\"abc".to_string(),
        col: 0,
        pos: 0,
    };
    let e = lexer.lex().unwrap_err();
    assert_eq!(e.typ, ErrorType::UnexpectedEOF);
}

#[test]
fn lex_unknown_character_fault() {
    let mut lexer = Lexer {
        code: "let a = #;".to_string(),
        col: 0,
        pos: 0,
    };
    let e = lexer.lex().unwrap_err();
    assert_eq!(e.typ, ErrorType::UnknownChar);
    assert!(e.helpers.contains("Unknown character '#'"));
}

#[test]
fn lex_decimal_faults() {
    let mut lexer = Lexer {
        code: "5.5.5".to_string(),
        col: 0,
        pos: 0,
    };
    assert_eq!(lexer.lex().unwrap_err().typ, ErrorType::DecTooManyDots);
    let mut lexer2 = Lexer {
        code: "5.x".to_string(),
        col: 0,
        pos: 0,
    };
    assert_eq!(lexer2.lex().unwrap_err().typ, ErrorType::DecNotFound);
}

#[test]
fn lex_empty_input() {
    let mut lexer = Lexer {
        code: String::new(),
        col: 0,
        pos: 0,
    };
    assert_eq!(lexer.lex().unwrap(), vec![]);
}

#[test]
fn lex_comments_and_lines() {
    let mut lexer = Lexer {
        code: "// nothing\nlet".to_string(),
        col: 0,
        pos: 0,
    };
    let tokens = lexer.lex().unwrap();
    assert_eq!(tokens.len(), 1);
    assert_eq!(tokens[0].typ, TokenType::Let);
    assert_eq!(tokens[0].lineno, 2);
    assert_eq!(tokens[0].col, 0);
    assert_eq!(tokens[0].line, "let".to_string());
}

#[test]
fn lex_char_escapes() {
    let mut lexer = Lexer {
        code: "'\\n' \"a\\tb\"".to_string(),
        col: 0,
        pos: 0,
    };
    let tokens = lexer.lex().unwrap();
    assert_eq!(tokens[0].typ, TokenType::Char);
    assert_eq!(tokens[0].value, "\\0A".to_string());
    assert_eq!(tokens[1].typ, TokenType::Str);
    // an escape counts as one source character in the stored length
    assert_eq!(tokens[1].value, "3.a\\09b".to_string());
}
