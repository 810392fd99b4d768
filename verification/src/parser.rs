use vstd::prelude::*;
use vstd::string::StrSliceExecFns;
use vstd::string::StringExecFns;

use crate::ast::Argument;
use crate::ast::Expr;
use crate::ast::Node;
use crate::ast::array_elem;
use crate::ast::binary_rules;
use crate::ast::binary_rules_spec;
use crate::ast::expr_checked;
use crate::ast::node_checked;
use crate::ast::unary_rules;
use crate::ast::validate_spec;
use crate::error::Error;
use crate::error::ErrorType;
use crate::error::error;
use crate::symbol::SymbolController;
use crate::symbol::SymbolType;
use crate::symbol::find_func_spec;
use crate::symbol::find_var_spec;
use crate::symbol::frame_has;
use crate::text::all_digits;
use crate::text::dec_digits;
use crate::text::digits_val;
use crate::text::lemma_dec_digits_injective;
use crate::text::parse_u64;
use crate::text::str_eq;
use crate::text::usize_to_string;
use crate::token::Token;
use crate::token::TokenType;

verus! {

/// The context a statement is parsed in: whether a loop encloses it,
/// and with which branch labels; whether a function encloses it, and
/// with which declared return type.
/// It is passed down each descent and never mutated, so nothing has
/// to be restored on the way out
#[derive(Debug, PartialEq, Eq)]
pub struct Context {
    pub in_loop: bool,
    pub loop_begin: usize,
    pub loop_end: usize,
    pub in_func: bool,
    pub func_ret: String,
}

/// Stores information for a "Parser"
pub struct Parser {
    /// Current position in `tokens`
    pub pos: usize,
    /// Input list of tokens
    pub tokens: Vec<Token>,
    /// The scoped symbol table used for name resolution
    pub symtable: SymbolController,
    /// Monotonic counter for generated variable names
    pub id_c: usize,
    /// Monotonic counter for pre-assigned control-flow labels
    pub label_c: usize,
}

/// What every parsing step keeps intact: the token stream, and the
/// bounds that keep the counters from wrapping. A step consumes
/// generated names no faster than tokens, and labels no faster than
/// two per token
pub open spec fn parse_step(a: Parser, b: Parser) -> bool {
    &&& b.tokens@ == a.tokens@
    &&& a.pos <= b.pos
    &&& b.pos <= b.tokens@.len()
    &&& a.id_c <= b.id_c
    &&& a.label_c <= b.label_c
    &&& b.id_c - a.id_c <= b.pos - a.pos
    &&& b.label_c - a.label_c <= 2 * (b.pos - a.pos)
    &&& b.symtable.scopes@.len() == a.symtable.scopes@.len()
    &&& forall|j: int|
        0 <= j < a.symtable.scopes@.len() - 1 ==> b.symtable.scopes@[j] == a.symtable.scopes@[j]
}

/// What is kept even on the failing path, where parsing stops at
/// once: the token stream, forward motion, and the counter pace
pub open spec fn weak_step(a: Parser, b: Parser) -> bool {
    &&& b.tokens@ == a.tokens@
    &&& a.pos <= b.pos
    &&& b.pos <= b.tokens@.len()
    &&& a.id_c <= b.id_c
    &&& a.label_c <= b.label_c
    &&& b.id_c - a.id_c <= b.pos - a.pos
    &&& b.label_c - a.label_c <= 2 * (b.pos - a.pos)
}

/// A step that resolves names but declares nothing: the symbol table
/// and the counters stay exactly as they were
pub open spec fn expr_step(a: Parser, b: Parser) -> bool {
    &&& parse_step(a, b)
    &&& b.symtable.scopes@ == a.symtable.scopes@
    &&& b.id_c == a.id_c
    &&& b.label_c == a.label_c
}

/// An integer constant token, whose digits fit the integer type,
/// stands at position `p` of the token stream
pub open spec fn int_tok_at(toks: Seq<Token>, p: int) -> bool {
    &&& 0 <= p < toks.len()
    &&& toks[p].typ == TokenType::Int
    &&& toks[p].value@.len() > 0
    &&& all_digits(toks[p].value@)
    &&& digits_val(toks[p].value@) <= i64::MAX as nat
}

/// An integer or boolean constant token stands at position `p`
pub open spec fn lit_tok_at(toks: Seq<Token>, p: int) -> bool {
    int_tok_at(toks, p) || (0 <= p < toks.len() && toks[p].typ == TokenType::Bool)
}

/// The expression node a constant token parses to
pub open spec fn lit_expr_of(t: Token) -> Expr {
    if t.typ == TokenType::Int {
        Expr::Int(digits_val(t.value@) as i64)
    } else {
        Expr::Bool(t.value@ == "true"@)
    }
}

/// Nothing of an expression continues at position `p`: a semicolon,
/// an opening brace, or the end of the input stands there
pub open spec fn stops_expr(toks: Seq<Token>, p: int) -> bool {
    p >= toks.len() || toks[p].typ == TokenType::SemiColon || toks[p].typ
        == TokenType::LeftBrace
}

/// No field access or index follows at position `p`
pub open spec fn stops_postfix(toks: Seq<Token>, p: int) -> bool {
    p >= toks.len() || (toks[p].typ != TokenType::Dot && toks[p].typ != TokenType::LeftBracket)
}

/// No multiplicative operator stands at position `p`
pub open spec fn not_muldiv(toks: Seq<Token>, p: int) -> bool {
    p >= toks.len() || (toks[p].typ != TokenType::Star && toks[p].typ != TokenType::Slash)
}

/// No additive operator stands at position `p`
pub open spec fn not_addsub(toks: Seq<Token>, p: int) -> bool {
    p >= toks.len() || (toks[p].typ != TokenType::Plus && toks[p].typ != TokenType::Dash)
}

/// A lone constant stands at position `p`: a literal token after
/// which no expression continues
pub open spec fn lone_lit_at(toks: Seq<Token>, p: int) -> bool {
    lit_tok_at(toks, p) && stops_expr(toks, p + 1)
}

/// The descent returned exactly the constant standing at the entry
/// position, consuming that one token
pub open spec fn lit_result(a: Parser, b: Parser, r: Result<Expr, Error>) -> bool {
    r matches Ok(e) && e == lit_expr_of(a.tokens@[a.pos as int]) && b.pos == a.pos + 1
}

/// What the expression descent owes on a lone constant: that very
/// constant, with exactly the one token consumed.
/// Success is owed here, so a descent that always failed could not
/// meet the contracts
pub open spec fn lone_lit_result(a: Parser, b: Parser, r: Result<Expr, Error>) -> bool {
    lone_lit_at(a.tokens@, a.pos as int) ==> lit_result(a, b, r)
}

/// Whether the expression is a binary operator node
pub open spec fn is_bin(e: Expr) -> bool {
    e matches Expr::BinaryOperator { .. }
}

/// The operator text of a binary node
pub open spec fn bin_oper(e: Expr) -> Seq<char> {
    match e {
        Expr::BinaryOperator { oper, .. } => oper@,
        _ => Seq::empty(),
    }
}

/// The left operand of a binary node
pub open spec fn bin_left(e: Expr) -> Expr {
    match e {
        Expr::BinaryOperator { left, .. } => *left,
        _ => Expr::Non,
    }
}

/// The right operand of a binary node
pub open spec fn bin_right(e: Expr) -> Expr {
    match e {
        Expr::BinaryOperator { right, .. } => *right,
        _ => Expr::Non,
    }
}

/// A multiplicative pair stands at position `p`: constant, `*`,
/// constant
pub open spec fn mul_shape_at(toks: Seq<Token>, p: int) -> bool {
    &&& int_tok_at(toks, p)
    &&& p + 1 < toks.len()
    &&& toks[p + 1].typ == TokenType::Star
    &&& toks[p + 1].value@ == "*"@
    &&& int_tok_at(toks, p + 2)
}

/// The tree a multiplicative pair must parse to: the operator token's
/// text over the two constants
pub open spec fn mul_tree(e: Expr, toks: Seq<Token>, p: int) -> bool {
    &&& is_bin(e)
    &&& bin_oper(e) == toks[p + 1].value@
    &&& bin_left(e) == lit_expr_of(toks[p])
    &&& bin_right(e) == lit_expr_of(toks[p + 2])
}

/// The canonical precedence shape stands at position `p`: constant,
/// `+`, constant, `*`, constant, and nothing continuing after
pub open spec fn prec_shape_at(toks: Seq<Token>, p: int) -> bool {
    &&& int_tok_at(toks, p)
    &&& p + 1 < toks.len()
    &&& toks[p + 1].typ == TokenType::Plus
    &&& toks[p + 1].value@ == "+"@
    &&& mul_shape_at(toks, p + 2)
    &&& stops_expr(toks, p + 5)
}

/// The tree the precedence shape must parse to: the multiplication
/// bound tighter, as the right operand of the addition
pub open spec fn prec_tree(e: Expr, toks: Seq<Token>, p: int) -> bool {
    &&& is_bin(e)
    &&& bin_oper(e) == toks[p + 1].value@
    &&& bin_left(e) == lit_expr_of(toks[p])
    &&& mul_tree(bin_right(e), toks, p + 2)
}

/// What the expression descent owes on the precedence shape: the
/// right-shaped tree, with exactly its five tokens consumed
pub open spec fn prec_result(a: Parser, b: Parser, r: Result<Expr, Error>) -> bool {
    prec_shape_at(a.tokens@, a.pos as int) ==> (r matches Ok(e) && prec_tree(
        e,
        a.tokens@,
        a.pos as int,
    ) && b.pos == a.pos + 5)
}

/// A whole canonical declaration stands at position `p` of the token
/// stream: `let`, a name, `=`, a lone integer constant, `;`
pub open spec fn lone_let_at(toks: Seq<Token>, p: int) -> bool {
    &&& 0 <= p
    &&& p + 4 < toks.len()
    &&& toks[p].typ == TokenType::Let
    &&& toks[p + 1].typ == TokenType::Id
    &&& toks[p + 2].typ == TokenType::Equal
    &&& lone_lit_at(toks, p + 3)
    &&& toks[p + 4].typ == TokenType::SemiColon
}

/// An argument-free call stands at position `p` of the token stream:
/// an opening parenthesis, at once closed, then the semicolon
pub open spec fn lone_call_at(toks: Seq<Token>, p: int) -> bool {
    &&& 0 <= p
    &&& p + 2 < toks.len()
    &&& toks[p].typ == TokenType::LeftParen
    &&& toks[p + 1].typ == TokenType::RightParen
    &&& toks[p + 2].typ == TokenType::SemiColon
}

impl Parser {
    /// The parser state the descent relies on: the position inside
    /// the token list, an open scope, and room in the counters
    pub open spec fn wf(&self) -> bool {
        &&& self.pos <= self.tokens@.len()
        &&& self.symtable.wf()
        &&& self.id_c + (self.tokens@.len() - self.pos) <= usize::MAX
        &&& self.label_c + 2 * (self.tokens@.len() - self.pos) <= usize::MAX
    }

    /// Consumes the current token if its type is one of "types";
    /// returns whether it did
    #[verifier::loop_isolation(false)]
    fn matches(&mut self, types: Vec<TokenType>) -> (r: bool)
        requires
            old(self).wf(),
        ensures
            final(self).wf(),
            expr_step(*old(self), *final(self)),
            r ==> old(self).pos < old(self).tokens@.len() && final(self).pos == old(self).pos + 1
                && types@.contains(old(self).tokens@[old(self).pos as int].typ),
            !r ==> *final(self) == *old(self) && (old(self).pos < old(self).tokens@.len()
                ==> !types@.contains(old(self).tokens@[old(self).pos as int].typ)),
    {
        if self.pos >= self.tokens.len() {
            return false;
        }
        let mut i: usize = 0;
        while i < types.len()
            invariant
                i <= types@.len(),
                *self == *old(self),
                forall|k: int|
                    0 <= k < i ==> types@[k] != self.tokens@[self.pos as int].typ,
            decreases types@.len() - i,
        {
            if self.tokens[self.pos].typ == types[i] {
                proof {
                    assert(types@[i as int] == self.tokens@[self.pos as int].typ);
                }
                self.pos += 1;
                return true;
            }
            i += 1;
        }
        return false;
    }

    /// Consumes a token of type "t" and hands its text back, or fails
    /// with a diagnostic carrying "msg" if the current token is of
    /// another type
    fn consume(&mut self, t: TokenType, msg: &str) -> (r: Result<String, Error>)
        requires
            old(self).wf(),
            1 <= old(self).pos,
        ensures
            final(self).wf(),
            expr_step(*old(self), *final(self)),
            match r {
                Ok(v) => {
                    &&& old(self).pos < old(self).tokens@.len()
                    &&& old(self).tokens@[old(self).pos as int].typ == t
                    &&& v == old(self).tokens@[old(self).pos as int].value
                    &&& final(self).pos == old(self).pos + 1
                },
                Err(e) => {
                    &&& *final(self) == *old(self)
                    &&& (old(self).pos < old(self).tokens@.len() ==> old(
                        self,
                    ).tokens@[old(self).pos as int].typ != t)
                    &&& e.typ == ErrorType::ExpectedToken
                    &&& e.helpers@ == "note: "@ + msg@ + "\n"@
                    &&& e.location.0 == old(self).tokens@[old(self).pos - 1].lineno
                    &&& e.location.1 == old(self).tokens@[old(self).pos - 1].col
                },
            },
    {
        if self.pos < self.tokens.len() && self.tokens[self.pos].typ == t {
            self.pos += 1;
            return Ok(self.previous().value);
        }
        let prev = self.previous();
        let mut e = error(ErrorType::ExpectedToken, &prev);
        e.note(msg);
        return Err(e);
    }

    /// The current token, or the last consumed one at the end of the
    /// input
    fn check(&self) -> (r: Token)
        requires
            self.pos < self.tokens@.len() || 1 <= self.pos <= self.tokens@.len(),
        ensures
            r == if self.pos < self.tokens@.len() {
                self.tokens@[self.pos as int]
            } else {
                self.tokens@[self.pos - 1]
            },
    {
        if self.eof() {
            return self.previous();
        }
        return self.peek();
    }

    /// The current token
    fn peek(&self) -> (r: Token)
        requires
            self.pos < self.tokens@.len(),
        ensures
            r == self.tokens@[self.pos as int],
    {
        return self.tokens[self.pos].clone();
    }

    /// The last consumed token
    fn previous(&self) -> (r: Token)
        requires
            1 <= self.pos <= self.tokens@.len(),
        ensures
            r == self.tokens@[self.pos - 1],
    {
        return self.tokens[self.pos - 1].clone();
    }

    /// Whether the whole input was consumed
    fn eof(&self) -> (r: bool)
        ensures
            r == (self.pos >= self.tokens@.len()),
    {
        self.pos >= self.tokens.len()
    }

    /// Returns a recursively parsed expression node
    fn expression(&mut self) -> (r: Result<Expr, Error>)
        requires
            old(self).wf(),
            1 <= old(self).pos || old(self).pos < old(self).tokens@.len(),
        ensures
            final(self).wf(),
            expr_step(*old(self), *final(self)),
            r matches Ok(e) ==> final(self).pos > old(self).pos && expr_checked(e),
            lone_lit_result(*old(self), *final(self), r),
            prec_result(*old(self), *final(self), r),
        decreases old(self).tokens@.len() - old(self).pos, 9int,
    {
        self.boolean()
    }

    /// Parse a boolean operation (i.e., a and b, a or b)
    #[verifier::loop_isolation(false)]
    fn boolean(&mut self) -> (r: Result<Expr, Error>)
        requires
            old(self).wf(),
            1 <= old(self).pos || old(self).pos < old(self).tokens@.len(),
        ensures
            final(self).wf(),
            expr_step(*old(self), *final(self)),
            r matches Ok(e) ==> final(self).pos > old(self).pos && expr_checked(e),
            lone_lit_result(*old(self), *final(self), r),
            prec_result(*old(self), *final(self), r),
        decreases old(self).tokens@.len() - old(self).pos, 8int,
    {
        let mut expr = self.equality()?;

        while self.matches(vec![TokenType::And, TokenType::Or])
            invariant
                self.wf(),
                expr_step(*old(self), *self),
                self.pos > old(self).pos,
                expr_checked(expr),
                lone_lit_at(old(self).tokens@, old(self).pos as int) ==> expr == lit_expr_of(
                    old(self).tokens@[old(self).pos as int],
                ) && self.pos == old(self).pos + 1,
                prec_shape_at(old(self).tokens@, old(self).pos as int) ==> prec_tree(
                    expr,
                    old(self).tokens@,
                    old(self).pos as int,
                ) && self.pos == old(self).pos + 5,
            decreases self.tokens@.len() - self.pos,
        {
            let oper = self.previous().value;
            let right = self.equality()?;
            expr = self.typed_binary(oper, expr, right)?;
        }

        return Ok(expr);
    }

    /// Parse an equality operation (i.e., a == b, a != b)
    #[verifier::loop_isolation(false)]
    fn equality(&mut self) -> (r: Result<Expr, Error>)
        requires
            old(self).wf(),
            1 <= old(self).pos || old(self).pos < old(self).tokens@.len(),
        ensures
            final(self).wf(),
            expr_step(*old(self), *final(self)),
            r matches Ok(e) ==> final(self).pos > old(self).pos && expr_checked(e),
            lone_lit_result(*old(self), *final(self), r),
            prec_result(*old(self), *final(self), r),
        decreases old(self).tokens@.len() - old(self).pos, 7int,
    {
        let mut expr = self.comparison()?;

        while self.matches(vec![TokenType::EqualEqual, TokenType::NotEqual])
            invariant
                self.wf(),
                expr_step(*old(self), *self),
                self.pos > old(self).pos,
                expr_checked(expr),
                lone_lit_at(old(self).tokens@, old(self).pos as int) ==> expr == lit_expr_of(
                    old(self).tokens@[old(self).pos as int],
                ) && self.pos == old(self).pos + 1,
                prec_shape_at(old(self).tokens@, old(self).pos as int) ==> prec_tree(
                    expr,
                    old(self).tokens@,
                    old(self).pos as int,
                ) && self.pos == old(self).pos + 5,
            decreases self.tokens@.len() - self.pos,
        {
            let oper = self.previous().value;
            let right = self.comparison()?;
            expr = self.typed_binary(oper, expr, right)?;
        }

        return Ok(expr);
    }

    /// Parse a comparison operation (i.e., a < b, a >= b)
    #[verifier::loop_isolation(false)]
    fn comparison(&mut self) -> (r: Result<Expr, Error>)
        requires
            old(self).wf(),
            1 <= old(self).pos || old(self).pos < old(self).tokens@.len(),
        ensures
            final(self).wf(),
            expr_step(*old(self), *final(self)),
            r matches Ok(e) ==> final(self).pos > old(self).pos && expr_checked(e),
            lone_lit_result(*old(self), *final(self), r),
            prec_result(*old(self), *final(self), r),
        decreases old(self).tokens@.len() - old(self).pos, 6int,
    {
        let mut expr = self.term()?;

        while self.matches(
            vec![
                TokenType::GreaterThan,
                TokenType::GreaterEqual,
                TokenType::LessThan,
                TokenType::LessEqual,
            ],
        )
            invariant
                self.wf(),
                expr_step(*old(self), *self),
                self.pos > old(self).pos,
                expr_checked(expr),
                lone_lit_at(old(self).tokens@, old(self).pos as int) ==> expr == lit_expr_of(
                    old(self).tokens@[old(self).pos as int],
                ) && self.pos == old(self).pos + 1,
                prec_shape_at(old(self).tokens@, old(self).pos as int) ==> prec_tree(
                    expr,
                    old(self).tokens@,
                    old(self).pos as int,
                ) && self.pos == old(self).pos + 5,
            decreases self.tokens@.len() - self.pos,
        {
            let oper = self.previous().value;
            let right = self.term()?;
            expr = self.typed_binary(oper, expr, right)?;
        }

        return Ok(expr);
    }

    /// Parse an additive operation (i.e., a + b, a - b)
    #[verifier::loop_isolation(false)]
    fn term(&mut self) -> (r: Result<Expr, Error>)
        requires
            old(self).wf(),
            1 <= old(self).pos || old(self).pos < old(self).tokens@.len(),
        ensures
            final(self).wf(),
            expr_step(*old(self), *final(self)),
            r matches Ok(e) ==> final(self).pos > old(self).pos && expr_checked(e),
            lit_tok_at(old(self).tokens@, old(self).pos as int) && stops_postfix(
                old(self).tokens@,
                old(self).pos + 1,
            ) && not_muldiv(old(self).tokens@, old(self).pos + 1) && not_addsub(
                old(self).tokens@,
                old(self).pos + 1,
            ) ==> lit_result(*old(self), *final(self), r),
            prec_result(*old(self), *final(self), r),
        decreases old(self).tokens@.len() - old(self).pos, 5int,
    {
        let mut expr = self.factor()?;

        while self.matches(vec![TokenType::Plus, TokenType::Dash])
            invariant
                self.wf(),
                expr_step(*old(self), *self),
                self.pos > old(self).pos,
                expr_checked(expr),
                lit_tok_at(old(self).tokens@, old(self).pos as int) && stops_postfix(
                    old(self).tokens@,
                    old(self).pos + 1,
                ) && not_muldiv(old(self).tokens@, old(self).pos + 1) && not_addsub(
                    old(self).tokens@,
                    old(self).pos + 1,
                ) ==> expr == lit_expr_of(old(self).tokens@[old(self).pos as int]) && self.pos
                    == old(self).pos + 1,
                prec_shape_at(old(self).tokens@, old(self).pos as int) ==> ((expr == lit_expr_of(
                    old(self).tokens@[old(self).pos as int],
                ) && self.pos == old(self).pos + 1) || (prec_tree(
                    expr,
                    old(self).tokens@,
                    old(self).pos as int,
                ) && self.pos == old(self).pos + 5)),
            decreases self.tokens@.len() - self.pos,
        {
            proof {
                reveal_strlit("+");
                reveal_strlit("*");
                reveal_strlit("int");
                reveal_strlit("error");
            }
            let oper = self.previous().value;
            let right = self.factor()?;
            expr = self.typed_binary(oper, expr, right)?;
        }

        return Ok(expr);
    }

    /// Parse a multiplicative operation (i.e., a * b, a / b), which
    /// binds tighter than the additive ones
    #[verifier::loop_isolation(false)]
    fn factor(&mut self) -> (r: Result<Expr, Error>)
        requires
            old(self).wf(),
            1 <= old(self).pos || old(self).pos < old(self).tokens@.len(),
        ensures
            final(self).wf(),
            expr_step(*old(self), *final(self)),
            r matches Ok(e) ==> final(self).pos > old(self).pos && expr_checked(e),
            lit_tok_at(old(self).tokens@, old(self).pos as int) && stops_postfix(
                old(self).tokens@,
                old(self).pos + 1,
            ) && not_muldiv(old(self).tokens@, old(self).pos + 1) ==> lit_result(
                *old(self),
                *final(self),
                r,
            ),
            mul_shape_at(old(self).tokens@, old(self).pos as int) && stops_postfix(
                old(self).tokens@,
                old(self).pos + 3,
            ) && not_muldiv(old(self).tokens@, old(self).pos + 3) ==> (r matches Ok(e)
                && mul_tree(e, old(self).tokens@, old(self).pos as int) && final(self).pos == old(
                self,
            ).pos + 3),
        decreases old(self).tokens@.len() - old(self).pos, 4int,
    {
        let mut expr = self.unary()?;

        while self.matches(vec![TokenType::Star, TokenType::Slash])
            invariant
                self.wf(),
                expr_step(*old(self), *self),
                self.pos > old(self).pos,
                expr_checked(expr),
                lit_tok_at(old(self).tokens@, old(self).pos as int) && stops_postfix(
                    old(self).tokens@,
                    old(self).pos + 1,
                ) && not_muldiv(old(self).tokens@, old(self).pos + 1) ==> expr == lit_expr_of(
                    old(self).tokens@[old(self).pos as int],
                ) && self.pos == old(self).pos + 1,
                mul_shape_at(old(self).tokens@, old(self).pos as int) && stops_postfix(
                    old(self).tokens@,
                    old(self).pos + 3,
                ) && not_muldiv(old(self).tokens@, old(self).pos + 3) ==> ((expr == lit_expr_of(
                    old(self).tokens@[old(self).pos as int],
                ) && self.pos == old(self).pos + 1) || (mul_tree(
                    expr,
                    old(self).tokens@,
                    old(self).pos as int,
                ) && self.pos == old(self).pos + 3)),
            decreases self.tokens@.len() - self.pos,
        {
            proof {
                reveal_strlit("+");
                reveal_strlit("*");
                reveal_strlit("int");
                reveal_strlit("error");
            }
            let oper = self.previous().value;
            let right = self.unary()?;
            proof {
                let toks = old(self).tokens@;
                let pp = old(self).pos as int;
                if mul_shape_at(toks, pp) && stops_postfix(toks, pp + 3) && not_muldiv(
                    toks,
                    pp + 3,
                ) {
                    assert(oper@ == "*"@);
                    assert(expr == lit_expr_of(toks[pp]));
                    assert(right == lit_expr_of(toks[pp + 2]));
                    assert(validate_spec(expr) == "int"@);
                    assert(validate_spec(right) == "int"@);
                    assert(binary_rules_spec(oper@, validate_spec(expr), validate_spec(right))
                        != "error"@);
                }
            }
            expr = self.typed_binary(oper, expr, right)?;
        }

        return Ok(expr);
    }

    /// Builds a binary node from its parts and validates it at once:
    /// an operand combination outside the type rules is a fault here
    /// and parsing ends
    fn typed_binary(&mut self, oper: String, left: Expr, right: Expr) -> (r: Result<Expr, Error>)
        requires
            old(self).wf(),
            1 <= old(self).pos,
            expr_checked(left),
            expr_checked(right),
        ensures
            *final(self) == *old(self),
            match r {
                Ok(e) => expr_checked(e) && is_bin(e) && bin_oper(e) == oper@ && bin_left(e)
                    == left && bin_right(e) == right,
                Err(e) => e.typ == ErrorType::MismatchedTypes,
            },
            binary_rules_spec(oper@, validate_spec(left), validate_spec(right)) != "error"@
                ==> r is Ok,
    {
        let lb = Box::new(left);
        let rb = Box::new(right);
        let t = binary_rules(&oper, &lb, &rb);
        if str_eq(t, "error") {
            let mut msg = String::from_str("Operator '");
            msg.append(oper.as_str());
            msg.append("' cannot be applied to '");
            msg.append(lb.validate());
            msg.append("' and '");
            msg.append(rb.validate());
            msg.append("'");
            let prev = self.previous();
            let mut e = error(ErrorType::MismatchedTypes, &prev);
            e.note(msg.as_str());
            return Err(e);
        }
        return Ok(Expr::BinaryOperator { oper, left: lb, right: rb });
    }

    /// Parse a unary operation (i.e., -a, not a), validating it at
    /// once against the unary type rules
    fn unary(&mut self) -> (r: Result<Expr, Error>)
        requires
            old(self).wf(),
            1 <= old(self).pos || old(self).pos < old(self).tokens@.len(),
        ensures
            final(self).wf(),
            expr_step(*old(self), *final(self)),
            r matches Ok(e) ==> final(self).pos > old(self).pos && expr_checked(e),
            lit_tok_at(old(self).tokens@, old(self).pos as int) && stops_postfix(
                old(self).tokens@,
                old(self).pos + 1,
            ) ==> lit_result(*old(self), *final(self), r),
        decreases old(self).tokens@.len() - old(self).pos, 3int,
    {
        if self.matches(vec![TokenType::Not, TokenType::Dash]) {
            let oper = self.previous().value;
            let right = self.unary()?;
            let cb = Box::new(right);
            let t = unary_rules(&oper, &cb);
            if str_eq(t, "error") {
                let mut msg = String::from_str("Operator '");
                msg.append(oper.as_str());
                msg.append("' cannot be applied to '");
                msg.append(cb.validate());
                msg.append("'");
                let prev = self.previous();
                let mut e = error(ErrorType::MismatchedTypes, &prev);
                e.note(msg.as_str());
                return Err(e);
            }
            return Ok(Expr::UnaryOperator { oper, child: cb });
        }
        return self.indexed();
    }

    /// Parse field access and indexing (i.e., a.b, a[i]), which bind
    /// tighter than any operator
    #[verifier::loop_isolation(false)]
    fn indexed(&mut self) -> (r: Result<Expr, Error>)
        requires
            old(self).wf(),
            1 <= old(self).pos || old(self).pos < old(self).tokens@.len(),
        ensures
            final(self).wf(),
            expr_step(*old(self), *final(self)),
            r matches Ok(e) ==> final(self).pos > old(self).pos && expr_checked(e),
            lit_tok_at(old(self).tokens@, old(self).pos as int) && stops_postfix(
                old(self).tokens@,
                old(self).pos + 1,
            ) ==> lit_result(*old(self), *final(self), r),
        decreases old(self).tokens@.len() - old(self).pos, 2int,
    {
        let mut expr = self.primary()?;

        loop
            invariant
                self.wf(),
                expr_step(*old(self), *self),
                self.pos > old(self).pos,
                expr_checked(expr),
                lit_tok_at(old(self).tokens@, old(self).pos as int) && stops_postfix(
                    old(self).tokens@,
                    old(self).pos + 1,
                ) ==> expr == lit_expr_of(old(self).tokens@[old(self).pos as int]) && self.pos
                    == old(self).pos + 1,
            decreases self.tokens@.len() - self.pos,
        {
            if self.matches(vec![TokenType::Dot]) {
                // Field access: the base must have a declared struct
                // type, and the field name must be one of its fields
                let field = self.consume(TokenType::Id, "Expect a field name after this '.'")?;
                let prev = self.previous();
                let base_typ = String::from_str(expr.validate());
                let symbol = match self.symtable.find_global_struct_error(base_typ, &prev) {
                    Ok(s) => s,
                    Err(e) => {
                        return Err(e);
                    },
                };
                let mut idx: usize = 0;
                while idx < symbol.field_names.len() && !symbol.field_names[idx].eq(&field)
                    invariant
                        idx <= symbol.field_names@.len(),
                    decreases symbol.field_names@.len() - idx,
                {
                    idx += 1;
                }
                if idx >= symbol.field_names.len() || idx >= symbol.arg_types.len() {
                    let mut msg = String::from_str("No field named '");
                    msg.append(field.as_str());
                    msg.append("' in this type");
                    let mut e = error(ErrorType::UndefinedSymbol, &prev);
                    e.note(msg.as_str());
                    return Err(e);
                }
                let typ = symbol.arg_types[idx].clone();
                expr = Expr::StructDot { id: Box::new(expr), id2: field, typ, field_num: idx };
            } else if self.matches(vec![TokenType::LeftBracket]) {
                // Indexing: strings index to a char, arrays to their
                // element type, and the index itself must be an int
                let index = self.expression()?;
                self.consume(TokenType::RightBracket, "Expect an ']' after this expression")?;
                let prev = self.previous();
                if !str_eq(index.validate(), "int") {
                    let mut e = error(ErrorType::MismatchedTypes, &prev);
                    e.note("The index of this expression is not an int");
                    return Err(e);
                }
                let src_typ = String::from_str(expr.validate());
                let n = src_typ.as_str().unicode_len();
                let new_typ: String;
                if str_eq(src_typ.as_str(), "string") {
                    new_typ = String::from_str("char");
                } else if n >= 2 && src_typ.as_str().get_char(n - 1) == ']'
                    && src_typ.as_str().get_char(n - 2) == '[' {
                    new_typ = String::from_str(src_typ.as_str().substring_char(0, n - 2));
                    proof {
                        assert(new_typ@ == array_elem(validate_spec(expr)));
                    }
                } else {
                    let mut e = error(ErrorType::MismatchedTypes, &prev);
                    e.note("Only a string or an array can be indexed");
                    return Err(e);
                }
                expr = Expr::IndexedValue {
                    src: Box::new(expr),
                    index: Box::new(index),
                    new_typ,
                };
            } else {
                return Ok(expr);
            }
        }
    }

    /// Parse a primary expression: a constant, an identifier, a call,
    /// an array literal, or a struct instantiation.
    /// A plain identifier comes back carrying exactly the type and
    /// generated name of the variable symbol the scoped lookup finds
    #[verifier::loop_isolation(false)]
    fn primary(&mut self) -> (r: Result<Expr, Error>)
        requires
            old(self).wf(),
            1 <= old(self).pos || old(self).pos < old(self).tokens@.len(),
        ensures
            final(self).wf(),
            expr_step(*old(self), *final(self)),
            r matches Ok(e) ==> final(self).pos > old(self).pos && expr_checked(e),
            lit_tok_at(old(self).tokens@, old(self).pos as int) ==> lit_result(
                *old(self),
                *final(self),
                r,
            ),
            ({
                let toks = old(self).tokens@;
                let p = old(self).pos as int;
                r matches Ok(e) ==> ((p < toks.len() && toks[p].typ == TokenType::Id && (p + 1
                    >= toks.len() || toks[p + 1].typ != TokenType::LeftParen)) ==> (
                e matches Expr::Id(name, typ, gen) && name == toks[p].value && (find_var_spec(
                    old(self).symtable.scopes@,
                    toks[p].value@,
                ) matches Some(sym) && typ == sym.typ && gen == sym.gen_id)))
            }),
        decreases old(self).tokens@.len() - old(self).pos, 1int,
    {
        if self.matches(vec![TokenType::Int]) {
            let value = self.previous().value;
            let parsed = parse_u64(value.as_str());
            match parsed {
                Some(v) => {
                    if v <= i64::MAX as u64 {
                        return Ok(Expr::Int(v as i64));
                    }
                },
                None => {},
            }
            let prev = self.previous();
            let mut e = error(ErrorType::ExpectedToken, &prev);
            e.note("This integer constant is too large");
            return Err(e);
        }
        if self.matches(vec![TokenType::Dec]) {
            return Ok(Expr::Dec(self.previous().value));
        }
        if self.matches(vec![TokenType::Str]) {
            return Ok(Expr::Str(self.previous().value));
        }
        if self.matches(vec![TokenType::Bool]) {
            let value = self.previous().value;
            return Ok(Expr::Bool(str_eq(value.as_str(), "true")));
        }
        if self.matches(vec![TokenType::Char]) {
            let value = self.previous().value;
            return Ok(Expr::Chr(unescape(&value)));
        }
        if self.matches(vec![TokenType::Id]) {
            let prev = self.previous();
            if !self.eof() && self.peek().typ == TokenType::LeftParen {
                // A call with a result: resolve the function for its
                // return type
                self.consume(TokenType::LeftParen, "Expect an '(' after this identifier")?;
                let args = self.call_arguments()?;
                self.consume(TokenType::RightParen, "Expect an ')' after this expression")?;
                let symbol = match self.symtable.find_global_func_error(prev.value.clone(), &prev) {
                    Ok(s) => s,
                    Err(e) => {
                        return Err(e);
                    },
                };
                return Ok(Expr::FuncCall { id: prev.value, typ: symbol.typ, args });
            }
            let symbol = match self.symtable.find_global_var_error(prev.value.clone(), &prev) {
                Ok(s) => s,
                Err(e) => {
                    return Err(e);
                },
            };
            return Ok(Expr::Id(prev.value, symbol.typ, symbol.gen_id));
        }
        if self.matches(vec![TokenType::New]) {
            let id = self.consume(TokenType::Id, "Expect an identifier after this 'new'")?;
            let prev = self.previous();
            self.consume(TokenType::LeftParen, "Expect an '(' after this identifier")?;
            let symbol = match self.symtable.find_global_struct_error(id.clone(), &prev) {
                Ok(s) => s,
                Err(e) => {
                    return Err(e);
                },
            };
            let mut fields: Vec<Expr> = Vec::new();
            let mut done = self.at_list_end(TokenType::RightParen);
            while !done
                invariant
                    self.wf(),
                    expr_step(*old(self), *self),
                    self.pos > old(self).pos,
                    forall|i: int| 0 <= i < fields@.len() ==> expr_checked(#[trigger] fields@[i]),
                decreases self.tokens@.len() - self.pos + 1 - (if done {
                    1int
                } else {
                    0int
                }),
            {
                let expr = self.expression()?;
                // Eagerly check the positional argument against the
                // declared field type
                if fields.len() >= symbol.arg_types.len() {
                    let prev2 = self.previous();
                    let mut e = error(ErrorType::MismatchedTypes, &prev2);
                    e.note("Too many fields for this struct type");
                    return Err(e);
                }
                if !str_eq(expr.validate(), symbol.arg_types[fields.len()].as_str()) {
                    let prev2 = self.previous();
                    let mut msg = String::from_str("This field should be a '");
                    msg.append(symbol.arg_types[fields.len()].as_str());
                    msg.append("'");
                    let mut e = error(ErrorType::MismatchedTypes, &prev2);
                    e.note(msg.as_str());
                    return Err(e);
                }
                fields.push(expr);
                if !self.matches(vec![TokenType::Comma]) {
                    done = true;
                } else {
                    done = self.at_list_end(TokenType::RightParen);
                }
            }
            self.consume(TokenType::RightParen, "Expect an ')' after this expression")?;
            if fields.len() < symbol.arg_types.len() {
                let prev2 = self.previous();
                let mut e = error(ErrorType::MismatchedTypes, &prev2);
                e.note("Too few fields for this struct type");
                return Err(e);
            }
            return Ok(Expr::NewStruct { id, fields });
        }
        if self.matches(vec![TokenType::LeftBracket]) {
            // An array literal: at least one element, all of one type;
            // an empty literal has no type to infer
            if !self.eof() && self.tokens[self.pos].typ == TokenType::RightBracket {
                let prev = self.previous();
                let e = error(ErrorType::UndefinedArray, &prev);
                return Err(e);
            }
            let first = self.expression()?;
            let elem_typ = String::from_str(first.validate());
            let mut values: Vec<Expr> = Vec::new();
            values.push(first);
            while self.matches(vec![TokenType::Comma])
                invariant
                    self.wf(),
                    expr_step(*old(self), *self),
                    self.pos > old(self).pos,
                    values@.len() >= 1,
                    forall|i: int| 0 <= i < values@.len() ==> expr_checked(#[trigger] values@[i]),
                    forall|i: int|
                        0 <= i < values@.len() ==> validate_spec(#[trigger] values@[i])
                            == validate_spec(values@[0]),
                    elem_typ@ == validate_spec(values@[0]),
                decreases self.tokens@.len() - self.pos,
            {
                let value = self.expression()?;
                if !str_eq(value.validate(), elem_typ.as_str()) {
                    let prev = self.previous();
                    let mut e = error(ErrorType::MismatchedTypes, &prev);
                    e.note("The elements of this array do not all share one type");
                    return Err(e);
                }
                values.push(value);
            }
            self.consume(TokenType::RightBracket, "Expect an ']' after this expression")?;
            let mut typ = elem_typ;
            typ.append("[]");
            return Ok(Expr::Array { values, typ });
        }
        let tok = if self.pos < self.tokens.len() {
            self.peek()
        } else {
            self.previous()
        };
        let mut e = error(ErrorType::ExpectedToken, &tok);
        e.note("Expect a constant expression");
        return Err(e);
    }

    /// Whether the argument list ends here, at the given closing token
    /// or at the end of the input
    fn at_list_end(&self, closing: TokenType) -> (r: bool)
        ensures
            r == (self.pos >= self.tokens@.len() || self.tokens@[self.pos as int].typ == closing),
    {
        self.pos >= self.tokens.len() || self.tokens[self.pos].typ == closing
    }

    /// Parse a comma-separated list of call arguments, up to a
    /// closing parenthesis
    #[verifier::loop_isolation(false)]
    fn call_arguments(&mut self) -> (r: Result<Vec<Box<Expr>>, Error>)
        requires
            old(self).wf(),
            1 <= old(self).pos || old(self).pos < old(self).tokens@.len(),
        ensures
            final(self).wf(),
            expr_step(*old(self), *final(self)),
            r matches Ok(args) ==> forall|i: int|
                0 <= i < args@.len() ==> expr_checked(*#[trigger] args@[i]),
            (old(self).pos >= old(self).tokens@.len() || old(self).tokens@[old(
                self,
            ).pos as int].typ == TokenType::RightParen) ==> (r matches Ok(args) && args@.len()
                == 0 && *final(self) == *old(self)),
        decreases old(self).tokens@.len() - old(self).pos, 10int,
    {
        let mut args: Vec<Box<Expr>> = Vec::new();
        let mut done = self.at_list_end(TokenType::RightParen);
        while !done
            invariant
                self.wf(),
                expr_step(*old(self), *self),
                forall|i: int| 0 <= i < args@.len() ==> expr_checked(*#[trigger] args@[i]),
                (old(self).pos >= old(self).tokens@.len() || old(self).tokens@[old(
                    self,
                ).pos as int].typ == TokenType::RightParen) ==> done && *self == *old(self)
                    && args@.len() == 0,
            decreases self.tokens@.len() - self.pos + 1 - (if done {
                1int
            } else {
                0int
            }),
        {
            let expr = self.expression()?;
            args.push(Box::new(expr));
            if !self.matches(vec![TokenType::Comma]) {
                done = true;
            } else {
                done = self.at_list_end(TokenType::RightParen);
            }
        }
        return Ok(args);
    }

    /// Parse one statement in the given context.
    /// A `break` or `continue` is legal exactly when a loop encloses
    /// it, and then resolves to that loop's end or begin label
    pub fn statement(&mut self, ctx: &Context) -> (r: Result<Node, Error>)
        requires
            old(self).wf(),
            old(self).pos < old(self).tokens@.len(),
        ensures
            final(self).wf(),
            weak_step(*old(self), *final(self)),
            r matches Ok(n) ==> parse_step(*old(self), *final(self)) && final(self).pos > old(
                self,
            ).pos && node_checked(n, ctx.in_func),
            (old(self).tokens@[old(self).pos as int].typ == TokenType::Break || old(
                self,
            ).tokens@[old(self).pos as int].typ == TokenType::Continue) && !ctx.in_loop ==> r
                is Err,
            r matches Ok(n) ==> (old(self).tokens@[old(self).pos as int].typ == TokenType::Break
                ==> n == (Node::Pause { label: ctx.loop_end })),
            r matches Ok(n) ==> (old(self).tokens@[old(self).pos as int].typ
                == TokenType::Continue ==> n == (Node::Pause { label: ctx.loop_begin })),
            (lone_let_at(old(self).tokens@, old(self).pos as int) && !frame_has(
                old(self).symtable.scopes@.last(),
                SymbolType::Var,
                old(self).tokens@[old(self).pos + 1].value@,
            )) ==> (r is Ok && final(self).pos == old(self).pos + 5),
            old(self).tokens@[old(self).pos as int].typ == TokenType::Plus ==> r is Err,
        decreases old(self).tokens@.len() - old(self).pos, 12int,
    {
        let n = self.tokens.len();
        let t = self.tokens[self.pos].typ;
        if t == TokenType::Let {
            self.pos = self.pos + 1;
            return self.let_statement();
        }
        if t == TokenType::Id {
            if self.pos + 1 < self.tokens.len() && self.tokens[self.pos + 1].typ
                == TokenType::LeftParen {
                self.pos = self.pos + 1;
                return self.function_call();
            }
            return self.assign_statement();
        }
        if t == TokenType::Struct {
            self.pos = self.pos + 1;
            return self.struct_definition();
        }
        if t == TokenType::While {
            self.pos = self.pos + 1;
            return self.while_statement(ctx);
        }
        if t == TokenType::If {
            self.pos = self.pos + 1;
            return self.if_statement(ctx);
        }
        if t == TokenType::Func {
            self.pos = self.pos + 1;
            return self.func_statement(ctx);
        }
        if t == TokenType::Ret {
            self.pos = self.pos + 1;
            return self.ret_statement(ctx);
        }
        if t == TokenType::Break || t == TokenType::Continue {
            self.pos = self.pos + 1;
            if !ctx.in_loop {
                let prev = self.previous();
                let mut e = error(ErrorType::ExpectedToken, &prev);
                e.note("This statement stands outside of a loop");
                return Err(e);
            }
            self.consume(TokenType::SemiColon, "Expect an ';' after this statement")?;
            if t == TokenType::Break {
                return Ok(Node::Pause { label: ctx.loop_end });
            }
            return Ok(Node::Pause { label: ctx.loop_begin });
        }
        if t == TokenType::LeftBrace {
            self.pos = self.pos + 1;
            return self.parse_block(ctx);
        }
        let tok = self.peek();
        let mut e = error(ErrorType::ExpectedToken, &tok);
        e.note("Expect a statement");
        return Err(e);
    }

    /// Parses a let statement: the value's type is validated, an
    /// optional declared type must agree with it, and the variable is
    /// declared in the current scope under a fresh generated name.
    /// Declaring a name twice in the same scope is refused; a
    /// declaration that only shadows an enclosing scope goes through
    fn let_statement(&mut self) -> (r: Result<Node, Error>)
        requires
            old(self).wf(),
            1 <= old(self).pos,
        ensures
            final(self).wf(),
            weak_step(*old(self), *final(self)),
            final(self).label_c == old(self).label_c,
            r matches Ok(n) ==> parse_step(*old(self), *final(self)) && final(self).pos > old(
                self,
            ).pos && final(self).id_c == old(self).id_c + 1 && (n matches Node::Let {
                id,
                expr,
                gen_id,
            } && {
                &&& expr_checked(expr)
                &&& validate_spec(expr) != "error"@
                &&& gen_id@ == "%."@ + dec_digits(old(self).id_c as nat)
                &&& !frame_has(old(self).symtable.scopes@.last(), SymbolType::Var, id@)
                &&& final(self).symtable.scopes@.last().var_symbols@.len() == old(
                    self,
                ).symtable.scopes@.last().var_symbols@.len() + 1
                &&& final(self).symtable.scopes@.last().var_symbols@.drop_last() == old(
                    self,
                ).symtable.scopes@.last().var_symbols@
                &&& final(self).symtable.scopes@.last().var_symbols@.last().id == id
                &&& final(self).symtable.scopes@.last().var_symbols@.last().typ@ == validate_spec(
                    expr,
                )
                &&& final(self).symtable.scopes@.last().var_symbols@.last().gen_id == gen_id
                &&& final(self).symtable.scopes@.last().func_symbols@ == old(
                    self,
                ).symtable.scopes@.last().func_symbols@
                &&& final(self).symtable.scopes@.last().struct_symbols@ == old(
                    self,
                ).symtable.scopes@.last().struct_symbols@
            }),
            ({
                let toks = old(self).tokens@;
                let p = old(self).pos as int;
                (p + 1 < toks.len() && toks[p].typ == TokenType::Id && toks[p + 1].typ
                    == TokenType::Equal && lone_lit_at(toks, p + 2) && p + 3 < toks.len()
                    && toks[p + 3].typ == TokenType::SemiColon && !frame_has(
                    old(self).symtable.scopes@.last(),
                    SymbolType::Var,
                    toks[p].value@,
                )) ==> (r is Ok && final(self).pos == old(self).pos + 4)
            }),
        decreases old(self).tokens@.len() - old(self).pos, 11int,
    {
        let id = self.consume(TokenType::Id, "Expect an identifier after this 'let'")?;
        let mut declared: Option<String> = None;
        if self.matches(vec![TokenType::Colon]) {
            let pt = self.parse_type()?;
            match pt {
                Some(tname) => {
                    declared = Some(tname);
                },
                None => {
                    let prev = self.previous();
                    let mut e = error(ErrorType::ExpectedToken, &prev);
                    e.note("Expect a type after this ':'");
                    return Err(e);
                },
            }
        }
        self.consume(TokenType::Equal, "Expect an '=' after this identifier")?;
        let expr = self.expression()?;
        let t = String::from_str(expr.validate());
        proof {
            reveal_strlit("int");
            reveal_strlit("bool");
            reveal_strlit("error");
            assert("int"@.len() == 3);
            assert("bool"@.len() == 4);
            assert("error"@.len() == 5);
        }
        if str_eq(t.as_str(), "error") {
            let prev = self.previous();
            let mut e = error(ErrorType::MismatchedTypes, &prev);
            e.note("Mismatched types within this expression");
            return Err(e);
        }
        match &declared {
            Some(d) => {
                if !d.eq(&t) {
                    let prev = self.previous();
                    let mut msg = String::from_str("Change this to ");
                    msg.append(t.as_str());
                    let mut e = error(ErrorType::MismatchedTypes, &prev);
                    e.note("The type of the variable and the type of the expression do not match");
                    e.help(msg.as_str());
                    return Err(e);
                }
            },
            None => {},
        }
        self.consume(TokenType::SemiColon, "Expect an ';' after this expression")?;
        let mut gen_id = String::from_str("%.");
        gen_id.append(usize_to_string(self.id_c).as_str());
        let added = self.symtable.add_symbol(
            id.clone(),
            t,
            SymbolType::Var,
            gen_id.clone(),
            None,
            None,
        );
        if !added {
            let prev = self.previous();
            let mut msg = String::from_str("Identifier '");
            msg.append(id.as_str());
            msg.append("' already exists");
            let mut e = error(ErrorType::DuplicateSymbol, &prev);
            e.note(msg.as_str());
            return Err(e);
        }
        self.id_c = self.id_c + 1;
        return Ok(Node::Let { id, expr, gen_id });
    }

    /// Parses a statement-level function call: the callee must
    /// resolve to a known function
    fn function_call(&mut self) -> (r: Result<Node, Error>)
        requires
            old(self).wf(),
            1 <= old(self).pos,
        ensures
            final(self).wf(),
            weak_step(*old(self), *final(self)),
            r matches Ok(n) ==> parse_step(*old(self), *final(self)) && final(self).pos > old(
                self,
            ).pos && expr_step(*old(self), *final(self)) && (n matches Node::FuncCall { id, args }
                && (forall|i: int| 0 <= i < args@.len() ==> expr_checked(*#[trigger] args@[i]))
                && find_func_spec(old(self).symtable.scopes@, id@) is Some),
            (lone_call_at(old(self).tokens@, old(self).pos as int) && find_func_spec(
                old(self).symtable.scopes@,
                old(self).tokens@[old(self).pos - 1].value@,
            ) is Some) ==> r is Ok,
        decreases old(self).tokens@.len() - old(self).pos, 11int,
    {
        let prev = self.previous();
        let id = prev.value.clone();
        self.consume(TokenType::LeftParen, "Expect an '(' after this identifier")?;
        let args = self.call_arguments()?;
        self.consume(TokenType::RightParen, "Expect an ')' after this expression")?;
        self.consume(TokenType::SemiColon, "Expect an ';' after this ')'")?;
        match self.symtable.find_global_func_error(id.clone(), &prev) {
            Ok(_) => {},
            Err(e) => {
                return Err(e);
            },
        }
        return Ok(Node::FuncCall { id, args });
    }

    /// Parses an assignment: the left side must be an identifier, a
    /// field access or an index, and the value's type must match it
    fn assign_statement(&mut self) -> (r: Result<Node, Error>)
        requires
            old(self).wf(),
            1 <= old(self).pos || old(self).pos < old(self).tokens@.len(),
        ensures
            final(self).wf(),
            weak_step(*old(self), *final(self)),
            r matches Ok(n) ==> parse_step(*old(self), *final(self)) && final(self).pos > old(
                self,
            ).pos && expr_step(*old(self), *final(self)) && (n matches Node::Assign { id, expr }
                && expr_checked(id) && expr_checked(expr) && validate_spec(expr) == validate_spec(
                id,
            )),
        decreases old(self).tokens@.len() - old(self).pos, 11int,
    {
        let target = self.indexed()?;
        let assignable = match &target {
            Expr::Id(_, _, _) => true,
            Expr::StructDot { .. } => true,
            Expr::IndexedValue { .. } => true,
            _ => false,
        };
        if !assignable {
            let prev = self.previous();
            let mut e = error(ErrorType::ExpectedToken, &prev);
            e.note("Expect an assignable expression");
            return Err(e);
        }
        self.consume(TokenType::Equal, "Expect an '=' after this expression")?;
        let expr = self.expression()?;
        if !str_eq(expr.validate(), target.validate()) {
            let prev = self.previous();
            let mut e = error(ErrorType::MismatchedTypes, &prev);
            e.note("The type of this expression does not match the target of the assignment");
            return Err(e);
        }
        self.consume(TokenType::SemiColon, "Expect an ';' after this expression")?;
        return Ok(Node::Assign { id: target, expr });
    }

    /// Parses an optional type name: a primitive type, possibly with
    /// an array suffix, or the name of a declared struct
    fn parse_type(&mut self) -> (r: Result<Option<String>, Error>)
        requires
            old(self).wf(),
            1 <= old(self).pos,
        ensures
            final(self).wf(),
            expr_step(*old(self), *final(self)),
            r matches Ok(o) ==> (o is Some ==> final(self).pos > old(self).pos) && (o is None
                ==> final(self).pos == old(self).pos),
        decreases old(self).tokens@.len() - old(self).pos, 11int,
    {
        if self.matches(vec![TokenType::Type]) {
            let mut base = self.previous().value;
            if self.matches(vec![TokenType::LeftBracket]) {
                self.consume(TokenType::RightBracket, "Expect an ']' after this '['")?;
                base.append("[]");
            }
            return Ok(Some(base));
        }
        if self.matches(vec![TokenType::Id]) {
            let prev = self.previous();
            let symbol = match self.symtable.find_global_struct_error(prev.value.clone(), &prev) {
                Ok(s) => s,
                Err(e) => {
                    return Err(e);
                },
            };
            return Ok(Some(symbol.id));
        }
        return Ok(None);
    }

    /// Parses a struct definition and registers the struct type, with
    /// its field names and types in declaration order, in the current
    /// scope
    #[verifier::loop_isolation(false)]
    fn struct_definition(&mut self) -> (r: Result<Node, Error>)
        requires
            old(self).wf(),
            1 <= old(self).pos,
        ensures
            final(self).wf(),
            weak_step(*old(self), *final(self)),
            r matches Ok(n) ==> parse_step(*old(self), *final(self)) && final(self).pos > old(
                self,
            ).pos && (n matches Node::Struct { id, fields } && !frame_has(
                old(self).symtable.scopes@.last(),
                SymbolType::Struct,
                id@,
            ) && final(self).symtable.scopes@.last().struct_symbols@.len() == old(
                self,
            ).symtable.scopes@.last().struct_symbols@.len() + 1),
        decreases old(self).tokens@.len() - old(self).pos, 11int,
    {
        let id = self.consume(TokenType::Id, "Expect an identifier after this 'struct'")?;
        self.consume(TokenType::LeftBrace, "Expect an '{' after this identifier")?;
        let mut fields: Vec<(String, String)> = Vec::new();
        let mut names: Vec<String> = Vec::new();
        let mut types: Vec<String> = Vec::new();
        let mut done = self.at_list_end(TokenType::RightBrace);
        while !done
            invariant
                self.wf(),
                expr_step(*old(self), *self),
                self.pos > old(self).pos,
            decreases self.tokens@.len() - self.pos,
        {
            let fid = self.consume(TokenType::Id, "Expect an identifier after this ','")?;
            self.consume(TokenType::Colon, "Expect ':' after this identifier")?;
            let ftyp = match self.parse_type()? {
                Some(t) => t,
                None => {
                    let prev = self.previous();
                    let mut e = error(ErrorType::ExpectedToken, &prev);
                    e.note("Expect a type after this ':'");
                    return Err(e);
                },
            };
            names.push(fid.clone());
            types.push(ftyp.clone());
            fields.push((fid, ftyp));
            if !self.matches(vec![TokenType::Comma]) {
                done = true;
            } else {
                done = self.at_list_end(TokenType::RightBrace);
            }
        }
        self.consume(TokenType::RightBrace, "Expect an '}' after this type")?;
        let added = self.symtable.add_symbol(
            id.clone(),
            String::new(),
            SymbolType::Struct,
            id.clone(),
            Some(types),
            Some(names),
        );
        if !added {
            let prev = self.previous();
            let mut msg = String::from_str("Identifier '");
            msg.append(id.as_str());
            msg.append("' already exists");
            let mut e = error(ErrorType::DuplicateSymbol, &prev);
            e.note(msg.as_str());
            return Err(e);
        }
        return Ok(Node::Struct { id, fields });
    }

    /// Parses a while loop: the condition must type as bool, and the
    /// two branch labels are taken from the shared counter before the
    /// body is descended into, so nested and later loops never share
    /// a label
    pub fn while_statement(&mut self, ctx: &Context) -> (r: Result<Node, Error>)
        requires
            old(self).wf(),
            1 <= old(self).pos,
        ensures
            final(self).wf(),
            weak_step(*old(self), *final(self)),
            r matches Ok(n) ==> parse_step(*old(self), *final(self)) && final(self).pos > old(
                self,
            ).pos && node_checked(n, ctx.in_func) && (n matches Node::While {
                cond,
                body,
                begin,
                end,
            } && {
                &&& begin == old(self).label_c
                &&& end == old(self).label_c + 1
                &&& final(self).label_c >= old(self).label_c + 2
                &&& expr_checked(cond)
                &&& validate_spec(cond) == "bool"@
            }),
            ({
                let toks = old(self).tokens@;
                let p = old(self).pos as int;
                (p < toks.len() && toks[p].typ == TokenType::Bool && p + 2 < toks.len()
                    && toks[p + 1].typ == TokenType::LeftBrace && toks[p + 2].typ
                    == TokenType::RightBrace) ==> r is Ok
            }),
        decreases old(self).tokens@.len() - old(self).pos, 11int,
    {
        let cond = self.expression()?;
        if !str_eq(cond.validate(), "bool") {
            let prev = self.previous();
            let mut e = error(ErrorType::MismatchedTypes, &prev);
            e.note("The condition of this loop is not a bool");
            return Err(e);
        }
        let begin = self.label_c;
        let end = self.label_c + 1;
        self.label_c = self.label_c + 2;
        let body_ctx = Context {
            in_loop: true,
            loop_begin: begin,
            loop_end: end,
            in_func: ctx.in_func,
            func_ret: ctx.func_ret.clone(),
        };
        self.consume(TokenType::LeftBrace, "Expect an '{' after this expression")?;
        let body = self.parse_block(&body_ctx)?;
        return Ok(Node::While { cond, body: Box::new(body), begin, end });
    }

    /// Parses an if statement: the condition must type as bool; the
    /// branch labels come from the shared counter, the begin and end
    /// ones before the body
    fn if_statement(&mut self, ctx: &Context) -> (r: Result<Node, Error>)
        requires
            old(self).wf(),
            1 <= old(self).pos,
        ensures
            final(self).wf(),
            weak_step(*old(self), *final(self)),
            r matches Ok(n) ==> parse_step(*old(self), *final(self)) && final(self).pos > old(
                self,
            ).pos && node_checked(n, ctx.in_func) && (n matches Node::If { cond, begin, end, .. }
                && {
                &&& begin == old(self).label_c
                &&& end == old(self).label_c + 1
                &&& final(self).label_c >= old(self).label_c + 2
                &&& expr_checked(cond)
                &&& validate_spec(cond) == "bool"@
            }),
        decreases old(self).tokens@.len() - old(self).pos, 11int,
    {
        let cond = self.expression()?;
        if !str_eq(cond.validate(), "bool") {
            let prev = self.previous();
            let mut e = error(ErrorType::MismatchedTypes, &prev);
            e.note("The condition of this statement is not a bool");
            return Err(e);
        }
        let begin = self.label_c;
        let end = self.label_c + 1;
        self.label_c = self.label_c + 2;
        self.consume(TokenType::LeftBrace, "Expect an '{' after this expression")?;
        let body = self.parse_block(ctx)?;
        if self.matches(vec![TokenType::Else]) {
            let else_ = self.label_c;
            self.label_c = self.label_c + 1;
            self.consume(TokenType::LeftBrace, "Expect an '{' after this 'else'")?;
            let else_body = self.parse_block(ctx)?;
            return Ok(
                Node::If {
                    cond,
                    body: Box::new(body),
                    else_body: Some(Box::new(else_body)),
                    begin,
                    else_,
                    end,
                },
            );
        }
        return Ok(
            Node::If {
                cond,
                body: Box::new(body),
                else_body: None,
                begin,
                else_: end,
                end,
            },
        );
    }

    /// Parses a function declaration: nested declarations are
    /// refused, the parameters are declared inside the function's new
    /// scope before the body is parsed, and the function itself is
    /// registered in the enclosing scope so the body can call it
    #[verifier::loop_isolation(false)]
    fn func_statement(&mut self, ctx: &Context) -> (r: Result<Node, Error>)
        requires
            old(self).wf(),
            1 <= old(self).pos,
        ensures
            final(self).wf(),
            weak_step(*old(self), *final(self)),
            ctx.in_func ==> r is Err,
            r matches Ok(n) ==> parse_step(*old(self), *final(self)) && final(self).pos > old(
                self,
            ).pos && node_checked(n, ctx.in_func) && (n matches Node::FuncDecl { id, .. }
                && !frame_has(
                old(self).symtable.scopes@.last(),
                SymbolType::Func,
                id@,
            )),
        decreases old(self).tokens@.len() - old(self).pos, 11int,
    {
        if ctx.in_func {
            let prev = self.previous();
            let mut e = error(ErrorType::ExpectedToken, &prev);
            e.note("Nested function declarations are not allowed");
            return Err(e);
        }
        let id = self.consume(TokenType::Id, "Expect an identifier after this 'func'")?;
        self.consume(TokenType::LeftParen, "Expect an '(' after this identifier")?;
        let mut args: Vec<Argument> = Vec::new();
        let mut arg_types: Vec<String> = Vec::new();
        let mut done = self.at_list_end(TokenType::RightParen);
        while !done
            invariant
                self.wf(),
                weak_step(*old(self), *self),
                self.pos > old(self).pos,
                self.label_c == old(self).label_c,
                self.symtable.scopes@ == old(self).symtable.scopes@,
            decreases self.tokens@.len() - self.pos,
        {
            let ptyp = match self.parse_type()? {
                Some(t) => t,
                None => {
                    let prev = self.previous();
                    let mut e = error(ErrorType::ExpectedToken, &prev);
                    e.note("Expect a parameter type");
                    return Err(e);
                },
            };
            let pname = self.consume(TokenType::Id, "Expect a parameter name after this type")?;
            arg_types.push(ptyp.clone());
            args.push(Argument { name: pname, typ: ptyp, id_c: self.id_c });
            self.id_c = self.id_c + 1;
            if !self.matches(vec![TokenType::Comma]) {
                done = true;
            } else {
                done = self.at_list_end(TokenType::RightParen);
            }
        }
        self.consume(TokenType::RightParen, "Expect an ')' after these parameters")?;
        let mut rtyp = String::from_str("void");
        if self.matches(vec![TokenType::Colon]) {
            rtyp = match self.parse_type()? {
                Some(t) => t,
                None => {
                    let prev = self.previous();
                    let mut e = error(ErrorType::ExpectedToken, &prev);
                    e.note("Expect a type after this ':'");
                    return Err(e);
                },
            };
        }
        let added = self.symtable.add_symbol(
            id.clone(),
            rtyp.clone(),
            SymbolType::Func,
            id.clone(),
            Some(arg_types),
            None,
        );
        if !added {
            let prev = self.previous();
            let mut msg = String::from_str("Identifier '");
            msg.append(id.as_str());
            msg.append("' already exists");
            let mut e = error(ErrorType::DuplicateSymbol, &prev);
            e.note(msg.as_str());
            return Err(e);
        }
        // The parameters live in a scope of their own, which the
        // body's scope nests inside
        self.symtable.add_scope();
        let mut k: usize = 0;
        while k < args.len()
            invariant
                self.wf(),
                weak_step(*old(self), *self),
                self.pos > old(self).pos,
                1 <= self.pos,
                self.label_c == old(self).label_c,
                self.symtable.scopes@.len() == old(self).symtable.scopes@.len() + 1,
                forall|j: int|
                    0 <= j < old(self).symtable.scopes@.len() - 1 ==> self.symtable.scopes@[j]
                        == old(self).symtable.scopes@[j],
                k <= args@.len(),
            decreases args@.len() - k,
        {
            let mut gid = String::from_str("%.");
            gid.append(usize_to_string(args[k].id_c).as_str());
            let added2 = self.symtable.add_symbol(
                args[k].name.clone(),
                args[k].typ.clone(),
                SymbolType::Var,
                gid,
                None,
                None,
            );
            if !added2 {
                let prev = self.previous();
                let mut e = error(ErrorType::DuplicateSymbol, &prev);
                e.note("This parameter name is already used");
                return Err(e);
            }
            k = k + 1;
        }
        let body_ctx = Context {
            in_loop: false,
            loop_begin: 0,
            loop_end: 0,
            in_func: true,
            func_ret: rtyp.clone(),
        };
        self.consume(TokenType::LeftBrace, "Expect an '{' after this declaration")?;
        let body = self.parse_block(&body_ctx)?;
        self.symtable.pop_scope();
        return Ok(Node::FuncDecl { id, typ: rtyp, args, body: Box::new(body) });
    }

    /// Parses a return statement: it is legal only inside a function,
    /// and the value's type must equal the function's declared return
    /// type
    fn ret_statement(&mut self, ctx: &Context) -> (r: Result<Node, Error>)
        requires
            old(self).wf(),
            1 <= old(self).pos,
        ensures
            final(self).wf(),
            weak_step(*old(self), *final(self)),
            !ctx.in_func ==> r is Err,
            r matches Ok(n) ==> parse_step(*old(self), *final(self)) && final(self).pos > old(
                self,
            ).pos && expr_step(*old(self), *final(self)) && node_checked(n, ctx.in_func) && (
            n matches Node::Ret { expr } && expr_checked(expr) && validate_spec(expr)
                == ctx.func_ret@),
        decreases old(self).tokens@.len() - old(self).pos, 11int,
    {
        if !ctx.in_func {
            let prev = self.previous();
            let mut e = error(ErrorType::ExpectedToken, &prev);
            e.note("This statement stands outside of a function");
            return Err(e);
        }
        let expr = self.expression()?;
        if !str_eq(expr.validate(), ctx.func_ret.as_str()) {
            let prev = self.previous();
            let mut e = error(ErrorType::MismatchedTypes, &prev);
            e.note("The type of this expression does not match the return type of the function");
            return Err(e);
        }
        self.consume(TokenType::SemiColon, "Expect an ';' after this expression")?;
        return Ok(Node::Ret { expr });
    }

    /// Parses the statements of a block up to its closing brace, in a
    /// scope of their own that is discarded afterwards: the
    /// surrounding scopes come out exactly as they went in
    #[verifier::loop_isolation(false)]
    fn parse_block(&mut self, ctx: &Context) -> (r: Result<Node, Error>)
        requires
            old(self).wf(),
            1 <= old(self).pos,
        ensures
            final(self).wf(),
            weak_step(*old(self), *final(self)),
            r matches Ok(n) ==> parse_step(*old(self), *final(self)) && final(self).pos > old(
                self,
            ).pos && final(self).symtable.scopes@ == old(self).symtable.scopes@ && node_checked(
                n,
                ctx.in_func,
            ) && (n matches Node::Block { statements }),
            (old(self).pos < old(self).tokens@.len() && old(self).tokens@[old(
                self,
            ).pos as int].typ == TokenType::RightBrace) ==> (r is Ok && final(self).pos == old(
                self,
            ).pos + 1),
        decreases old(self).tokens@.len() - old(self).pos, 13int,
    {
        self.symtable.add_scope();
        let mut statements: Vec<Box<Node>> = Vec::new();
        while !self.at_list_end(TokenType::RightBrace)
            invariant
                self.wf(),
                weak_step(*old(self), *self),
                self.symtable.scopes@.len() == old(self).symtable.scopes@.len() + 1,
                forall|j: int|
                    0 <= j < old(self).symtable.scopes@.len() ==> self.symtable.scopes@[j] == old(
                        self,
                    ).symtable.scopes@[j],
                forall|i: int|
                    0 <= i < statements@.len() ==> node_checked(
                        *#[trigger] statements@[i],
                        ctx.in_func,
                    ),
                (old(self).pos < old(self).tokens@.len() && old(self).tokens@[old(
                    self,
                ).pos as int].typ == TokenType::RightBrace) ==> self.pos == old(self).pos,
            decreases self.tokens@.len() - self.pos,
        {
            let stmt = self.statement(ctx)?;
            statements.push(Box::new(stmt));
        }
        self.consume(TokenType::RightBrace, "Expect an '}' after this block")?;
        self.symtable.pop_scope();
        proof {
            assert(self.symtable.scopes@ =~= old(self).symtable.scopes@);
        }
        return Ok(Node::Block { statements });
    }

    /// Parses the top-level statement list of a whole program.
    /// Parsing stops at the first fault; on success the whole input
    /// was consumed
    #[verifier::loop_isolation(false)]
    pub fn parse(&mut self) -> (r: Result<Vec<Box<Node>>, Error>)
        requires
            old(self).wf(),
        ensures
            final(self).wf(),
            weak_step(*old(self), *final(self)),
            r is Ok ==> parse_step(*old(self), *final(self)) && final(self).pos
                == final(self).tokens@.len(),
            r matches Ok(nodes) ==> forall|i: int|
                0 <= i < nodes@.len() ==> node_checked(*#[trigger] nodes@[i], false),
            old(self).pos >= old(self).tokens@.len() ==> (r matches Ok(nodes) && nodes@.len()
                == 0),
            (old(self).pos == 0 && old(self).tokens@.len() == 5 && lone_let_at(
                old(self).tokens@,
                0,
            ) && !frame_has(
                old(self).symtable.scopes@.last(),
                SymbolType::Var,
                old(self).tokens@[1].value@,
            )) ==> r is Ok,
            (old(self).pos == 0 && old(self).tokens@.len() >= 1 && old(self).tokens@[0].typ
                == TokenType::Plus) ==> r is Err,
    {
        let ctx = Context {
            in_loop: false,
            loop_begin: 0,
            loop_end: 0,
            in_func: false,
            func_ret: String::from_str("void"),
        };
        let mut stmts: Vec<Box<Node>> = Vec::new();
        while !self.eof()
            invariant
                self.wf(),
                weak_step(*old(self), *self),
                self.symtable.scopes@.len() == old(self).symtable.scopes@.len(),
                forall|j: int|
                    0 <= j < old(self).symtable.scopes@.len() - 1 ==> self.symtable.scopes@[j]
                        == old(self).symtable.scopes@[j],
                forall|i: int|
                    0 <= i < stmts@.len() ==> node_checked(*#[trigger] stmts@[i], false),
                old(self).pos >= old(self).tokens@.len() ==> *self == *old(self) && stmts@.len()
                    == 0,
                (old(self).pos == 0 && old(self).tokens@.len() == 5 && lone_let_at(
                    old(self).tokens@,
                    0,
                ) && !frame_has(
                    old(self).symtable.scopes@.last(),
                    SymbolType::Var,
                    old(self).tokens@[1].value@,
                )) ==> ((self.pos == 0 && self.symtable.scopes@ == old(self).symtable.scopes@)
                    || self.pos == 5),
                (old(self).pos == 0 && old(self).tokens@.len() >= 1 && old(self).tokens@[0].typ
                    == TokenType::Plus) ==> self.pos == 0,
            decreases self.tokens@.len() - self.pos,
        {
            let stmt = self.statement(&ctx)?;
            stmts.push(Box::new(stmt));
        }
        return Ok(stmts);
    }
}

/// A generated name is assigned exactly once per declaration: the
/// let statement takes "%." followed by the monotonic counter's
/// value, and distinct counter values give distinct names, so no
/// storage location is ever reused across declarations or scopes
pub proof fn lemma_generated_names_unique(m: nat, n: nat)
    requires
        m != n,
    ensures
        "%."@ + dec_digits(m) != "%."@ + dec_digits(n),
{
    if "%."@ + dec_digits(m) == "%."@ + dec_digits(n) {
        reveal_strlit("%.");
        assert(("%."@ + dec_digits(m)).skip(2) =~= dec_digits(m));
        assert(("%."@ + dec_digits(n)).skip(2) =~= dec_digits(n));
        lemma_dec_digits_injective(m, n);
    }
}

/// Sibling loops never share a label: a while statement takes the
/// pair (c, c + 1) from the shared label counter standing at c and
/// leaves the counter at c + 2 or beyond, so a loop parsed later
/// draws its pair entirely above the first one's
pub proof fn lemma_sibling_loop_labels(b1: usize, e1: usize, after1: usize, b2: usize, e2: usize)
    requires
        e1 == b1 + 1,
        after1 >= b1 + 2,
        b2 >= after1,
        e2 == b2 + 1,
    ensures
        b1 != b2,
        e1 != e2,
        e1 != b2,
        b1 != e2,
{
}

/// The single character an escape text stands for
pub open spec fn unescape_spec(v: Seq<char>) -> char {
    if v == "\\0A"@ {
        '\n'
    } else if v == "\\09"@ {
        '\t'
    } else if v == "\\27"@ {
        '\''
    } else if v == "\\22"@ {
        '\"'
    } else if v.len() == 1 {
        v[0]
    } else {
        '\\'
    }
}

/// Maps an escape text back to the single character it stands for:
/// the lexer hands a character constant over either plainly or as a
/// byte escape
fn unescape(value: &String) -> (c: char)
    ensures
        c == unescape_spec(value@),
{
    if str_eq(value.as_str(), "\\0A") {
        '\n'
    } else if str_eq(value.as_str(), "\\09") {
        '\t'
    } else if str_eq(value.as_str(), "\\27") {
        '\''
    } else if str_eq(value.as_str(), "\\22") {
        '\"'
    } else if value.as_str().unicode_len() == 1 {
        value.as_str().get_char(0)
    } else {
        '\\'
    }
}

} // verus!
