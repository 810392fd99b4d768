pub mod ast;
pub mod error;
pub mod generator;
pub mod lexer;
pub mod parser;
pub mod symbol;
pub mod text;
pub mod token;

use vstd::prelude::*;

use crate::ast::Node;
use crate::error::Error;
use crate::generator::Generator;
use crate::lexer::Lexer;
use crate::parser::Parser;
use crate::symbol::Scope;
use crate::symbol::SymbolController;
use crate::symbol::SymbolType;
use crate::token::Token;

verus! {

/// Compiles the given code: the lexed tokens are parsed against a
/// symbol table whose global scope is pre-seeded with the built-ins
/// `write` and `len`, and the checked tree is lowered to ir text.
/// The first fault of any stage comes back as its diagnostic and
/// nothing is produced
pub fn compile(code: String) -> (r: Result<String, Error>)
    requires
        code@.len() < usize::MAX / 4,
    ensures
        code@.len() == 0 ==> (r matches Ok(c) && c@ == "define i32 @main() {\nentry:\n"@
            + "\tret i32 0\n}\n"@),
        code@.len() == 1 && code@[0] == '+' ==> r is Err,
{
    // Create a lexer
    let mut lexer: Lexer = Lexer { pos: 0, code, col: 0 };

    // Lex the input
    let tokens: Vec<Token> = lexer.lex()?;

    // Create a symbol table holding the global scope, with the
    // built-in functions pre-seeded
    let mut sym_table = SymbolController { scopes: Vec::new() };
    sym_table.scopes.push(
        Scope { var_symbols: Vec::new(), func_symbols: Vec::new(), struct_symbols: Vec::new() },
    );
    let _seeded_write = sym_table.add_symbol(
        String::from_str("write"),
        String::from_str("void"),
        SymbolType::Func,
        String::from_str("write"),
        None,
        None,
    );
    let _seeded_len = sym_table.add_symbol(
        String::from_str("len"),
        String::from_str("int"),
        SymbolType::Func,
        String::from_str("len"),
        None,
        None,
    );

    // Create a parser and parse the tokens
    let mut parser: Parser = Parser {
        pos: 0,
        tokens,
        symtable: sym_table,
        id_c: 0,
        label_c: 0,
    };
    let ast: Vec<Box<Node>> = parser.parse()?;

    // Create a generator and lower the checked tree
    let mut generator = Generator::construct();
    generator.generate(&ast);
    generator.destruct();
    Ok(generator.ir_b.code)
}

} // verus!
