use vstd::prelude::*;

use crate::text::str_eq;

verus! {

/// An enum to store each possible statement node
#[derive(Debug, PartialEq, Eq)]
#[allow(inconsistent_fields)]
pub enum Node {
    /// Let statement
    /// let a: int = 5;
    /// or
    /// let a = 5;
    Let { id: String, expr: Expr, gen_id: String },
    /// Function declaration
    FuncDecl { id: String, typ: String, args: Vec<Argument>, body: Box<Node> },
    /// Return statement
    /// # Example
    /// ret 10;
    Ret { expr: Expr },
    /// Break or continue statement, already resolved to its branch target
    /// # Example
    /// break;
    /// or
    /// continue;
    Pause { label: usize },
    /// If statement
    /// if "abc" == "abc" {
    ///     write("Yay");
    /// }
    If {
        cond: Expr,
        body: Box<Node>,
        else_body: Option<Box<Node>>,
        begin: usize,
        else_: usize,
        end: usize,
    },
    /// Assign statement
    /// a = 5;
    Assign { id: Expr, expr: Expr },
    /// Function call
    /// write(5);
    FuncCall { id: String, args: Vec<Box<Expr>> },
    /// Struct definition
    /// struct foo {
    ///     bar: int
    /// }
    Struct { id: String, fields: Vec<(String, String)> },
    /// Block
    /// {
    ///     // Statements
    /// }
    Block { statements: Vec<Box<Node>> },
    /// While loop
    /// while condition {
    ///     // Statements
    /// }
    While { cond: Expr, body: Box<Node>, begin: usize, end: usize },
    Non,
}

/// A declared function parameter: its source name, its type, and the
/// number of the storage location generated for it
#[derive(Debug, PartialEq, Eq)]
pub struct Argument {
    pub name: String,
    pub typ: String,
    pub id_c: usize,
}

/// An enum to store each possible expression node
#[derive(Debug, PartialEq, Eq)]
#[allow(inconsistent_fields)]
pub enum Expr {
    /// Integer
    /// # Example
    /// let my_int: int = 10;
    Int(i64),
    /// Character
    /// # Example
    /// let my_chr: char = 'a';
    Chr(char),
    /// Decimal number, kept as its source text
    /// # Example
    /// let my_dec: dec = 5.5;
    Dec(String),
    /// Boolean value (true or false)
    Bool(bool),
    /// String value
    Str(String),
    /// Identifier: source name, static type, generated name
    Id(String, String, String),
    /// Array literal
    Array { values: Vec<Expr>, typ: String },
    /// An index
    /// # Example
    /// `array[num]` or `string[num]`
    IndexedValue { src: Box<Expr>, index: Box<Expr>, new_typ: String },
    /// Binary operator
    /// # Example
    /// `5 + 6`
    BinaryOperator { oper: String, left: Box<Expr>, right: Box<Expr> },
    /// Unary operator
    /// # Example
    /// `-6`
    UnaryOperator { oper: String, child: Box<Expr> },
    /// New struct
    /// # Example
    /// let foo: Foo = new Foo(5, 6, 7);
    NewStruct { id: String, fields: Vec<Expr> },
    /// Struct dot identifier
    /// # Example
    /// let s: int = foo.bar;
    StructDot { id: Box<Expr>, id2: String, typ: String, field_num: usize },
    /// Function call with a result
    /// # Example
    /// let l: int = len("abc");
    FuncCall { id: String, typ: String, args: Vec<Box<Expr>> },
    Non,
}

/// The static type of a binary operation, as the table of the
/// language's operator rules gives it: the result type for every
/// well-typed combination, and the error sentinel for all others
pub open spec fn binary_rules_spec(oper: Seq<char>, l: Seq<char>, r: Seq<char>) -> Seq<char> {
    if oper == "+"@ {
        if l == "int"@ && (r == "int"@ || r == "char"@) {
            "int"@
        } else if l == "dec"@ && r == "dec"@ {
            "dec"@
        } else if (l == "string"@ || l == "char"@) && (r == "string"@ || r == "char"@) {
            "string"@
        } else {
            "error"@
        }
    } else if oper == "-"@ || oper == "*"@ {
        if l == "int"@ && (r == "int"@ || r == "char"@) {
            "int"@
        } else if l == "dec"@ && r == "dec"@ {
            "dec"@
        } else {
            "error"@
        }
    } else if oper == "/"@ {
        // Division always promotes to decimal
        if (l == "int"@ && r == "int"@) || (l == "dec"@ && r == "dec"@) {
            "dec"@
        } else {
            "error"@
        }
    } else if oper == "=="@ || oper == "!="@ {
        if l == r {
            "bool"@
        } else {
            "error"@
        }
    } else if oper == "<"@ || oper == ">"@ || oper == "<="@ || oper == ">="@ {
        if (l == "int"@ || l == "char"@) && (r == "int"@ || r == "char"@) {
            "bool"@
        } else if l == "dec"@ && r == "dec"@ {
            "bool"@
        } else {
            "error"@
        }
    } else if oper == "and"@ || oper == "or"@ {
        if l == "bool"@ && r == "bool"@ {
            "bool"@
        } else {
            "error"@
        }
    } else {
        "error"@
    }
}

/// The static type of a unary operation: negation keeps a numeric
/// type, `not` accepts anything and yields bool, all else is the error
/// sentinel
pub open spec fn unary_rules_spec(oper: Seq<char>, child: Seq<char>) -> Seq<char> {
    if oper == "-"@ {
        if child == "int"@ {
            "int"@
        } else if child == "dec"@ {
            "dec"@
        } else {
            "error"@
        }
    } else if oper == "not"@ {
        "bool"@
    } else {
        "error"@
    }
}

/// The static type of an expression, computed structurally from its
/// children; literals have their own type, identifiers and resolved
/// nodes carry theirs, and operators follow the rule tables
pub open spec fn validate_spec(e: Expr) -> Seq<char>
    decreases e,
{
    match e {
        Expr::Int(_) => "int"@,
        Expr::Chr(_) => "char"@,
        Expr::Dec(_) => "dec"@,
        Expr::Bool(_) => "bool"@,
        Expr::Str(_) => "string"@,
        Expr::Id(_, t, _) => t@,
        Expr::Array { typ, .. } => typ@,
        Expr::IndexedValue { new_typ, .. } => new_typ@,
        Expr::BinaryOperator { oper, left, right } => binary_rules_spec(
            oper@,
            validate_spec(*left),
            validate_spec(*right),
        ),
        Expr::UnaryOperator { oper, child } => unary_rules_spec(oper@, validate_spec(*child)),
        Expr::NewStruct { id, .. } => id@,
        Expr::StructDot { typ, .. } => typ@,
        Expr::FuncCall { typ, .. } => typ@,
        Expr::Non => Seq::empty(),
    }
}

/// Whether a type name is an array type, written with a `[]` suffix
pub open spec fn is_array_type(t: Seq<char>) -> bool {
    t.len() >= 2 && t[t.len() - 1] == ']' && t[t.len() - 2] == '['
}

/// The element type of an array type: the name without its `[]` suffix
pub open spec fn array_elem(t: Seq<char>) -> Seq<char> {
    t.take(t.len() - 2)
}

/// Whether every operator inside the expression passed the type rules:
/// this is the invariant the parser maintains, so the generator never
/// meets an ill-typed node. Indexing carries its extra obligations:
/// the index types as int, and the result type follows from the
/// source being a string or an array
pub open spec fn expr_checked(e: Expr) -> bool
    decreases e,
{
    match e {
        Expr::BinaryOperator { oper, left, right } => expr_checked(*left) && expr_checked(*right)
            && binary_rules_spec(oper@, validate_spec(*left), validate_spec(*right)) != "error"@,
        Expr::UnaryOperator { oper, child } => expr_checked(*child) && unary_rules_spec(
            oper@,
            validate_spec(*child),
        ) != "error"@,
        Expr::IndexedValue { src, index, new_typ } => expr_checked(*src) && expr_checked(*index)
            && validate_spec(*index) == "int"@ && ((validate_spec(*src) == "string"@ && new_typ@
            == "char"@) || (is_array_type(validate_spec(*src)) && new_typ@ == array_elem(
            validate_spec(*src),
        ))),
        Expr::Array { values, typ } => values@.len() > 0 && (forall|i: int|
            0 <= i < values@.len() ==> expr_checked(#[trigger] values@[i])) && (forall|i: int|
            0 <= i < values@.len() ==> validate_spec(#[trigger] values@[i]) == validate_spec(
                values@[0],
            )) && typ@ == validate_spec(values@[0]) + "[]"@,
        Expr::NewStruct { fields, .. } => forall|i: int|
            0 <= i < fields@.len() ==> expr_checked(#[trigger] fields@[i]),
        Expr::StructDot { id, .. } => expr_checked(*id),
        Expr::FuncCall { args, .. } => forall|i: int|
            0 <= i < args@.len() ==> expr_checked(*#[trigger] args@[i]),
        _ => true,
    }
}

/// Whether a statement came through the parser's eager checks, given
/// whether a function encloses it: every expression in it passed the
/// type rules, conditions type as bool, a return stands inside a
/// function and a function declaration outside of one.
/// The generator takes exactly this for granted
pub open spec fn node_checked(n: Node, in_func: bool) -> bool
    decreases n,
{
    match n {
        Node::Let { expr, .. } => expr_checked(expr) && validate_spec(expr) != "error"@,
        Node::FuncDecl { body, .. } => !in_func && node_checked(*body, true),
        Node::Ret { expr } => in_func && expr_checked(expr),
        Node::Pause { .. } => true,
        Node::If { cond, body, else_body, .. } => expr_checked(cond) && validate_spec(cond)
            == "bool"@ && node_checked(*body, in_func) && (match else_body {
            Some(b) => node_checked(*b, in_func),
            None => true,
        }),
        Node::Assign { id, expr } => expr_checked(id) && expr_checked(expr) && validate_spec(expr)
            == validate_spec(id),
        Node::FuncCall { args, .. } => forall|i: int|
            0 <= i < args@.len() ==> expr_checked(*#[trigger] args@[i]),
        Node::Struct { .. } => true,
        Node::Block { statements } => forall|i: int|
            0 <= i < statements@.len() ==> node_checked(*#[trigger] statements@[i], in_func),
        Node::While { cond, body, .. } => expr_checked(cond) && validate_spec(cond) == "bool"@
            && node_checked(*body, in_func),
        Node::Non => true,
    }
}

/// Whether no function declaration stands anywhere inside the
/// statement: such a statement never touches the saved register
/// counter when lowered
pub open spec fn func_free(n: Node) -> bool
    decreases n,
{
    match n {
        Node::FuncDecl { .. } => false,
        Node::If { body, else_body, .. } => func_free(*body) && (match else_body {
            Some(b) => func_free(*b),
            None => true,
        }),
        Node::Block { statements } => forall|i: int|
            0 <= i < statements@.len() ==> func_free(*#[trigger] statements@[i]),
        Node::While { body, .. } => func_free(*body),
        _ => true,
    }
}

/// A statement the parser accepted inside a function holds no nested
/// function declaration
pub proof fn lemma_checked_in_func_is_func_free(n: Node)
    requires
        node_checked(n, true),
    ensures
        func_free(n),
    decreases n,
{
    match n {
        Node::If { body, else_body, .. } => {
            lemma_checked_in_func_is_func_free(*body);
            match else_body {
                Some(b) => lemma_checked_in_func_is_func_free(*b),
                None => {},
            }
        },
        Node::Block { statements } => {
            assert forall|i: int| 0 <= i < statements@.len() implies func_free(
                *#[trigger] statements@[i],
            ) by {
                lemma_checked_in_func_is_func_free(*statements@[i]);
            }
        },
        Node::While { body, .. } => {
            lemma_checked_in_func_is_func_free(*body);
        },
        _ => {},
    }
}

/// What the generator relies on of each statement handed to it: the
/// parser's checks went through, whichever kind of region the
/// statement stood in
pub open spec fn gen_input_ok(n: Node) -> bool {
    node_checked(n, false) || node_checked(n, true)
}

/// Looks the types of the two sides of an operation up in the rule
/// table, once both are known
fn binary_result(oper: &str, l: &str, r: &str) -> (res: &'static str)
    ensures
        res@ == binary_rules_spec(oper@, l@, r@),
{
    if str_eq(oper, "+") {
        if str_eq(l, "int") && (str_eq(r, "int") || str_eq(r, "char")) {
            "int"
        } else if str_eq(l, "dec") && str_eq(r, "dec") {
            "dec"
        } else if (str_eq(l, "string") || str_eq(l, "char")) && (str_eq(r, "string") || str_eq(
            r,
            "char",
        )) {
            "string"
        } else {
            "error"
        }
    } else if str_eq(oper, "-") || str_eq(oper, "*") {
        if str_eq(l, "int") && (str_eq(r, "int") || str_eq(r, "char")) {
            "int"
        } else if str_eq(l, "dec") && str_eq(r, "dec") {
            "dec"
        } else {
            "error"
        }
    } else if str_eq(oper, "/") {
        if (str_eq(l, "int") && str_eq(r, "int")) || (str_eq(l, "dec") && str_eq(r, "dec")) {
            "dec"
        } else {
            "error"
        }
    } else if str_eq(oper, "==") || str_eq(oper, "!=") {
        if str_eq(l, r) {
            "bool"
        } else {
            "error"
        }
    } else if str_eq(oper, "<") || str_eq(oper, ">") || str_eq(oper, "<=") || str_eq(oper, ">=") {
        if (str_eq(l, "int") || str_eq(l, "char")) && (str_eq(r, "int") || str_eq(r, "char")) {
            "bool"
        } else if str_eq(l, "dec") && str_eq(r, "dec") {
            "bool"
        } else {
            "error"
        }
    } else if str_eq(oper, "and") || str_eq(oper, "or") {
        if str_eq(l, "bool") && str_eq(r, "bool") {
            "bool"
        } else {
            "error"
        }
    } else {
        "error"
    }
}

/// Looks the type of a unary operation's operand up in the rule table
fn unary_result(oper: &str, child: &str) -> (res: &'static str)
    ensures
        res@ == unary_rules_spec(oper@, child@),
{
    if str_eq(oper, "-") {
        if str_eq(child, "int") {
            "int"
        } else if str_eq(child, "dec") {
            "dec"
        } else {
            "error"
        }
    } else if str_eq(oper, "not") {
        "bool"
    } else {
        "error"
    }
}

/// Returns the type of an operation "left" "oper" "right" (i.e., 5 + 5 results in int)
pub fn binary_rules(oper: &String, left: &Box<Expr>, right: &Box<Expr>) -> (res: &'static str)
    ensures
        res@ == binary_rules_spec(oper@, validate_spec(**left), validate_spec(**right)),
{
    let l = (&**left).validate();
    let r = (&**right).validate();
    binary_result(oper.as_str(), l, r)
}

/// Returns the type of an operation "oper" "child" (i.e., -5 results in int)
pub fn unary_rules(oper: &String, child: &Box<Expr>) -> (res: &'static str)
    ensures
        res@ == unary_rules_spec(oper@, validate_spec(**child)),
{
    let c = (&**child).validate();
    unary_result(oper.as_str(), c)
}

impl Expr {
    /// Validates the type of an expression: the result is exactly what
    /// the structural typing rules assign to it
    pub fn validate(&self) -> (res: &str)
        ensures
            res@ == validate_spec(*self),
        decreases *self,
    {
        match self {
            Expr::Int(_i) => "int",
            Expr::Chr(_c) => "char",
            Expr::Dec(_d) => "dec",
            Expr::Bool(_b) => "bool",
            Expr::Str(_s) => "string",
            Expr::Id(_i, t, _gen_id) => t.as_str(),
            Expr::Array { typ, .. } => typ.as_str(),
            Expr::IndexedValue { new_typ, .. } => new_typ.as_str(),
            Expr::BinaryOperator { oper, left, right } => {
                let l = (&**left).validate();
                let r = (&**right).validate();
                binary_result(oper.as_str(), l, r)
            },
            Expr::UnaryOperator { oper, child } => {
                let c = (&**child).validate();
                unary_result(oper.as_str(), c)
            },
            Expr::NewStruct { id, .. } => id.as_str(),
            Expr::StructDot { typ, .. } => typ.as_str(),
            Expr::FuncCall { typ, .. } => typ.as_str(),
            Expr::Non => {
                proof {
                    reveal_strlit("");
                    assert(""@ =~= Seq::<char>::empty());
                }
                ""
            },
        }
    }
}

} // verus!
