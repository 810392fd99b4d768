use vstd::prelude::*;
use vstd::string::StrSliceExecFns;
use vstd::string::StringExecFns;

use crate::ast::Expr;
use crate::ast::Argument;
use crate::ast::Node;
use crate::ast::validate_spec;
use crate::ast::func_free;
use crate::ast::gen_input_ok;
use crate::ast::lemma_checked_in_func_is_func_free;
use crate::parser::bin_left;
use crate::parser::bin_oper;
use crate::parser::bin_right;
use crate::parser::is_bin;
use crate::text::bool_string;
use crate::text::dec_digits;
use crate::text::digits_val;
use crate::text::all_digits;
use crate::text::i64_to_string;
use crate::text::int_string;
use crate::text::parse_u64;
use crate::text::u64_to_string;
use crate::text::bool_to_string;
use crate::text::str_eq;
use crate::text::usize_to_string;

verus! {

/// The ir type a source type lowers to: primitives map to machine
/// types, every array type to the uniform array record, and any
/// other name to a named struct type
pub open spec fn type_of_spec(t: Seq<char>) -> Seq<char> {
    if t == "int"@ {
        "i32"@
    } else if t == "dec"@ {
        "double"@
    } else if t == "bool"@ {
        "i1"@
    } else if t == "char"@ {
        "i8"@
    } else if t == "string"@ {
        "i8*"@
    } else if t == "void"@ {
        "void"@
    } else if t.len() >= 1 && t.last() == ']' {
        "%.Arr"@
    } else {
        "%"@ + t
    }
}

/// Converts a Gizmo type to an ir type
pub fn type_of(typ: String) -> (r: String)
    ensures
        r@ == type_of_spec(typ@),
{
    if str_eq(typ.as_str(), "int") {
        String::from_str("i32")
    } else if str_eq(typ.as_str(), "dec") {
        String::from_str("double")
    } else if str_eq(typ.as_str(), "bool") {
        String::from_str("i1")
    } else if str_eq(typ.as_str(), "char") {
        String::from_str("i8")
    } else if str_eq(typ.as_str(), "string") {
        String::from_str("i8*")
    } else if str_eq(typ.as_str(), "void") {
        String::from_str("void")
    } else {
        let n = typ.as_str().unicode_len();
        if n >= 1 && typ.as_str().get_char(n - 1) == ']' {
            String::from_str("%.Arr")
        } else {
            let mut s = String::from_str("%");
            s.append(typ.as_str());
            s
        }
    }
}

/// The ir instruction a source operator lowers to
pub open spec fn type_of_oper_spec(o: Seq<char>) -> Seq<char> {
    if o == "+"@ {
        "add"@
    } else if o == "-"@ {
        "sub"@
    } else if o == "*"@ {
        "mul"@
    } else if o == "/"@ {
        "sdiv"@
    } else if o == "=="@ {
        "icmp eq"@
    } else if o == "!="@ {
        "icmp ne"@
    } else if o == "<"@ {
        "icmp slt"@
    } else if o == ">"@ {
        "icmp sgt"@
    } else if o == "<="@ {
        "icmp sle"@
    } else if o == ">="@ {
        "icmp sge"@
    } else if o == "and"@ {
        "and"@
    } else if o == "or"@ {
        "or"@
    } else {
        Seq::empty()
    }
}

/// Converts a Gizmo operator to an ir instruction
pub fn type_of_oper(oper: String) -> (r: String)
    ensures
        r@ == type_of_oper_spec(oper@),
{
    if str_eq(oper.as_str(), "+") {
        String::from_str("add")
    } else if str_eq(oper.as_str(), "-") {
        String::from_str("sub")
    } else if str_eq(oper.as_str(), "*") {
        String::from_str("mul")
    } else if str_eq(oper.as_str(), "/") {
        String::from_str("sdiv")
    } else if str_eq(oper.as_str(), "==") {
        String::from_str("icmp eq")
    } else if str_eq(oper.as_str(), "!=") {
        String::from_str("icmp ne")
    } else if str_eq(oper.as_str(), "<") {
        String::from_str("icmp slt")
    } else if str_eq(oper.as_str(), ">") {
        String::from_str("icmp sgt")
    } else if str_eq(oper.as_str(), "<=") {
        String::from_str("icmp sle")
    } else if str_eq(oper.as_str(), ">=") {
        String::from_str("icmp sge")
    } else if str_eq(oper.as_str(), "and") {
        String::from_str("and")
    } else if str_eq(oper.as_str(), "or") {
        String::from_str("or")
    } else {
        proof {
            reveal_strlit("");
            assert(""@ =~= Seq::<char>::empty());
        }
        String::from_str("")
    }
}

/// The name of a numbered virtual register
pub open spec fn ssa_name(n: nat) -> Seq<char> {
    "%"@ + dec_digits(n)
}

/// A counter one step further on, held at the top of its range: the
/// counters only ever grow, and cannot wrap
pub open spec fn sat_inc(n: usize) -> usize {
    if n < usize::MAX {
        (n + 1) as usize
    } else {
        n
    }
}

/// The text of a trailing index list of an addressing instruction
pub open spec fn gep_indices_text(s: Seq<String>) -> Seq<char>
    decreases s.len(),
{
    if s.len() == 0 {
        Seq::empty()
    } else {
        gep_indices_text(s.drop_last()) + ", i32 "@ + s.last()@
    }
}

/// The field lines of an emitted struct type: one indented ir type
/// per field in declaration order, all but the last with a comma
pub open spec fn struct_fields_text(s: Seq<(String, String)>, total: int) -> Seq<char>
    decreases s.len(),
{
    if s.len() == 0 {
        Seq::empty()
    } else {
        struct_fields_text(s.drop_last(), total) + "\t"@ + type_of_spec(s.last().1@) + (if s.len()
            < total {
            ","@
        } else {
            Seq::<char>::empty()
        }) + "\n"@
    }
}

/// Whether the expression is a plain constant, which lowers to its
/// own text without emitting anything
pub open spec fn is_const_lit(e: Expr) -> bool {
    e matches Expr::Int(_) || e matches Expr::Chr(_) || e matches Expr::Dec(_) || e matches
        Expr::Bool(_)
}

/// The operand text a plain constant lowers to
pub open spec fn lit_operand(e: Expr) -> Seq<char> {
    match e {
        Expr::Int(i) => int_string(i as int),
        Expr::Chr(c) => dec_digits((c as u32) as nat),
        Expr::Dec(d) => d@,
        Expr::Bool(b) => bool_string(b),
        _ => Seq::empty(),
    }
}

/// Whether the expression is a binary operation over two plain
/// constants
pub open spec fn is_bin_of_lits(e: Expr) -> bool {
    is_bin(e) && is_const_lit(bin_left(e)) && is_const_lit(bin_right(e))
}

/// Whether a statement is a block with nothing in it
pub open spec fn empty_block(n: Node) -> bool {
    n matches Node::Block { statements } && statements@.len() == 0
}

/// The printf format code for one static type
pub open spec fn fmt_code(t: Seq<char>) -> Seq<char> {
    if t == "int"@ || t == "bool"@ {
        "%d"@
    } else if t == "dec"@ {
        "%f"@
    } else if t == "string"@ {
        "%s"@
    } else if t == "char"@ {
        "%c"@
    } else {
        Seq::empty()
    }
}

/// The whole format text `write` builds from its arguments' static
/// types, in argument order
pub open spec fn write_fmt(s: Seq<Box<Expr>>) -> Seq<char>
    decreases s.len(),
{
    if s.len() == 0 {
        Seq::empty()
    } else {
        write_fmt(s.drop_last()) + fmt_code(validate_spec(*s.last()))
    }
}

/// The stored length of the format constant: one byte for the
/// terminator and two more per argument, held at the top of the
/// machine range
pub open spec fn write_fmt_len(k: nat) -> nat
    decreases k,
{
    if k == 0 {
        1
    } else {
        let p = write_fmt_len((k - 1) as nat);
        if p + 2 <= usize::MAX {
            p + 2
        } else {
            p
        }
    }
}

/// The parameter list of an emitted function header: each parameter
/// is a pointer of its lowered type under its pre-assigned name, the
/// entries separated by commas
pub open spec fn params_text(s: Seq<Argument>, total: int) -> Seq<char>
    decreases s.len(),
{
    if s.len() == 0 {
        Seq::empty()
    } else {
        params_text(s.drop_last(), total) + type_of_spec(s.last().typ@) + "* %."@ + dec_digits(
            s.last().id_c as nat,
        ) + (if s.len() < total {
            ", "@
        } else {
            Seq::<char>::empty()
        })
    }
}

/// The stored length of an interned string constant, or 0 when the
/// lexer's count prefix is missing altogether
pub open spec fn str_stored_len(s: Seq<char>) -> nat {
    if dot_index(s, 0) == s.len() {
        0
    } else {
        str_len_field(s)
    }
}

/// The escaped contents of an interned string, after the count prefix
pub open spec fn str_contents(s: Seq<char>) -> Seq<char> {
    if dot_index(s, 0) == s.len() {
        Seq::empty()
    } else {
        s.skip(dot_index(s, 0) + 1)
    }
}

/// The text of an arithmetic or comparison instruction
pub open spec fn op_line(reg: Seq<char>, op: Seq<char>, t: Seq<char>, l: Seq<char>, r: Seq<char>) -> Seq<
    char,
> {
    "\t"@ + reg + " = "@ + op + " "@ + t + " "@ + l + ", "@ + r + "\n"@
}

/// The text of a conditional branch on a loop's two labels,
/// followed by the label line the control flow falls into
pub open spec fn while_branch_line(c: Seq<char>, begin: nat, end: nat, lbl: nat) -> Seq<char> {
    "\tbr i1 "@ + c + ", label %l"@ + dec_digits(begin) + ", label %l"@ + dec_digits(end) + "\nl"@
        + dec_digits(lbl) + ":\n"@
}

/// The text of a bitcast instruction
pub open spec fn bitcast_line(reg: Seq<char>, t: Seq<char>, v: Seq<char>, t2: Seq<char>) -> Seq<
    char,
> {
    "\t"@ + reg + " = bitcast "@ + t + " "@ + v + " to "@ + t2 + "\n"@
}

/// The text of an addressing instruction with two constant-or-value
/// indices
pub open spec fn gep2_line(reg: Seq<char>, t: Seq<char>, base: Seq<char>, i0: Seq<char>, i1: Seq<
    char,
>) -> Seq<char> {
    "\t"@ + reg + " = getelementptr inbounds "@ + t + ", "@ + t + "* "@ + base + ", i32 "@ + i0
        + ", i32 "@ + i1 + "\n"@
}

/// String indexing addresses the bytes directly: the string value is
/// cast to an unsized byte array, the index addressed, and one byte
/// loaded — no array record is involved
pub open spec fn string_index_text(sv: Seq<char>, xv: Seq<char>, m: usize) -> Seq<char> {
    bitcast_line(ssa_name(m as nat), "i8*"@, sv, "[0 x i8]*"@) + gep2_line(
        ssa_name(sat_inc(m) as nat),
        "[0 x i8]"@,
        ssa_name(m as nat),
        "0"@,
        xv,
    ) + load_line(ssa_name(sat_inc(sat_inc(m)) as nat), ssa_name(sat_inc(m) as nat), "i8"@)
}

/// The text of an alloca instruction under a given name
pub open spec fn alloca_line(name: Seq<char>, t: Seq<char>) -> Seq<char> {
    "\t"@ + name + " = alloca "@ + t + "\n"@
}

/// The text of a store instruction
pub open spec fn store_line(v: Seq<char>, dst: Seq<char>, t: Seq<char>) -> Seq<char> {
    "\tstore "@ + t + " "@ + v + ", "@ + t + "* "@ + dst + "\n"@
}

/// The text of a load instruction into a given register
pub open spec fn load_line(reg: Seq<char>, src: Seq<char>, t: Seq<char>) -> Seq<char> {
    "\t"@ + reg + " = load "@ + t + ", "@ + t + "* "@ + src + "\n"@
}

/// Stores information for an ir builder
pub struct IRBuilder {
    /// Contains the ir code
    pub code: String,
    /// String that will be added to the end
    pub ends: String,
    /// The number of ir registers created
    pub ssa_num: usize,
    /// Saves off the number of ir registers created
    pub save_ssa_num: usize,
    /// The number of strings created
    pub str_num: usize,
}

impl IRBuilder {
    /// Constructs a new ir builder, holding the main function's
    /// header and its closing return
    pub fn construct() -> (r: IRBuilder)
        ensures
            r.code@ == "define i32 @main() {\nentry:\n"@,
            r.ends@ == "\tret i32 0\n}\n"@,
            r.ssa_num == 0,
            r.str_num == 0,
            r.save_ssa_num == 0,
    {
        IRBuilder {
            code: String::from_str("define i32 @main() {\nentry:\n"),
            ends: String::from_str("\tret i32 0\n}\n"),
            ssa_num: 0,
            str_num: 0,
            save_ssa_num: 0,
        }
    }

    /// Takes the next register number
    fn next_ssa(&mut self) -> (r: String)
        ensures
            final(self).ssa_num == sat_inc(old(self).ssa_num),
            final(self).code == old(self).code,
            final(self).ends == old(self).ends,
            final(self).str_num == old(self).str_num,
            final(self).save_ssa_num == old(self).save_ssa_num,
            r@ == ssa_name(old(self).ssa_num as nat),
    {
        let mut r = String::from_str("%");
        r.append(usize_to_string(self.ssa_num).as_str());
        if self.ssa_num < usize::MAX {
            self.ssa_num = self.ssa_num + 1;
        }
        r
    }

    /// Creates an alloca statement
    /// # Example
    /// %0 = alloca i32
    fn create_alloca(&mut self, typ: String, name: Option<String>) -> (r: String)
        ensures
            final(self).ends == old(self).ends,
            final(self).str_num == old(self).str_num,
            final(self).save_ssa_num == old(self).save_ssa_num,
            match name {
                Some(nm) => {
                    &&& final(self).code@ == old(self).code@ + "\t"@ + nm@ + " = alloca "@ + typ@
                        + "\n"@
                    &&& final(self).ssa_num == old(self).ssa_num
                    &&& r == nm
                },
                None => {
                    &&& final(self).code@ == old(self).code@ + "\t"@ + ssa_name(
                        old(self).ssa_num as nat,
                    ) + " = alloca "@ + typ@ + "\n"@
                    &&& final(self).ssa_num == sat_inc(old(self).ssa_num)
                    &&& r@ == ssa_name(old(self).ssa_num as nat)
                },
            },
    {
        let nm: String = match name {
            Some(s) => s,
            None => self.next_ssa(),
        };
        self.code.append("\t");
        self.code.append(nm.as_str());
        self.code.append(" = alloca ");
        self.code.append(typ.as_str());
        self.code.append("\n");
        nm
    }

    /// Creates a store statement
    /// # Example
    /// store i32 5, i32* %0
    fn create_store(&mut self, src: String, dst: String, typ: String)
        ensures
            final(self).ends == old(self).ends,
            final(self).ssa_num == old(self).ssa_num,
            final(self).str_num == old(self).str_num,
            final(self).save_ssa_num == old(self).save_ssa_num,
            final(self).code@ == old(self).code@ + "\tstore "@ + typ@ + " "@ + src@ + ", "@ + typ@
                + "* "@ + dst@ + "\n"@,
    {
        self.code.append("\tstore ");
        self.code.append(typ.as_str());
        self.code.append(" ");
        self.code.append(src.as_str());
        self.code.append(", ");
        self.code.append(typ.as_str());
        self.code.append("* ");
        self.code.append(dst.as_str());
        self.code.append("\n");
    }

    /// Creates a load statement
    /// # Example
    /// %1 = load i32, i32* %0
    fn create_load(&mut self, typ: String, src: String) -> (r: String)
        ensures
            final(self).ends == old(self).ends,
            final(self).str_num == old(self).str_num,
            final(self).save_ssa_num == old(self).save_ssa_num,
            final(self).ssa_num == sat_inc(old(self).ssa_num),
            final(self).code@ == old(self).code@ + "\t"@ + ssa_name(old(self).ssa_num as nat)
                + " = load "@ + typ@ + ", "@ + typ@ + "* "@ + src@ + "\n"@,
            r@ == ssa_name(old(self).ssa_num as nat),
    {
        let r = self.next_ssa();
        self.code.append("\t");
        self.code.append(r.as_str());
        self.code.append(" = load ");
        self.code.append(typ.as_str());
        self.code.append(", ");
        self.code.append(typ.as_str());
        self.code.append("* ");
        self.code.append(src.as_str());
        self.code.append("\n");
        r
    }

    /// Creates a bitcast statement
    /// # Example
    /// %1 = bitcast i32* %0 to i8*
    fn create_bitcast(&mut self, typ: String, name: String, typ2: String) -> (r: String)
        ensures
            final(self).ends == old(self).ends,
            final(self).str_num == old(self).str_num,
            final(self).save_ssa_num == old(self).save_ssa_num,
            final(self).ssa_num == sat_inc(old(self).ssa_num),
            final(self).code@ == old(self).code@ + "\t"@ + ssa_name(old(self).ssa_num as nat)
                + " = bitcast "@ + typ@ + " "@ + name@ + " to "@ + typ2@ + "\n"@,
            r@ == ssa_name(old(self).ssa_num as nat),
    {
        let r = self.next_ssa();
        self.code.append("\t");
        self.code.append(r.as_str());
        self.code.append(" = bitcast ");
        self.code.append(typ.as_str());
        self.code.append(" ");
        self.code.append(name.as_str());
        self.code.append(" to ");
        self.code.append(typ2.as_str());
        self.code.append("\n");
        r
    }

    /// Creates a getelementptr statement
    /// # Example
    /// %0 = getelementptr inbounds [3 x i8], [3 x i8]* @.str, i32 0, i32 0
    #[verifier::loop_isolation(false)]
    fn create_gep(&mut self, typ: String, name: String, indices: Vec<String>) -> (r: String)
        ensures
            final(self).ends == old(self).ends,
            final(self).str_num == old(self).str_num,
            final(self).save_ssa_num == old(self).save_ssa_num,
            final(self).ssa_num == sat_inc(old(self).ssa_num),
            final(self).code@ == old(self).code@ + "\t"@ + ssa_name(old(self).ssa_num as nat)
                + " = getelementptr inbounds "@ + typ@ + ", "@ + typ@ + "* "@ + name@
                + gep_indices_text(indices@) + "\n"@,
            r@ == ssa_name(old(self).ssa_num as nat),
    {
        let r = self.next_ssa();
        self.code.append("\t");
        self.code.append(r.as_str());
        self.code.append(" = getelementptr inbounds ");
        self.code.append(typ.as_str());
        self.code.append(", ");
        self.code.append(typ.as_str());
        self.code.append("* ");
        self.code.append(name.as_str());
        let ghost base = self.code@;

        // Add each of the indices
        let mut i: usize = 0;
        while i < indices.len()
            invariant
                i <= indices@.len(),
                self.code@ == base + gep_indices_text(indices@.take(i as int)),
                self.ends == old(self).ends,
                self.ssa_num == sat_inc(old(self).ssa_num),
                self.str_num == old(self).str_num,
                self.save_ssa_num == old(self).save_ssa_num,
            decreases indices@.len() - i,
        {
            proof {
                assert(indices@.take(i + 1).drop_last() =~= indices@.take(i as int));
                assert(indices@.take(i + 1).last() == indices@[i as int]);
            }
            self.code.append(", i32 ");
            self.code.append(indices[i].as_str());
            i += 1;
        }
        proof {
            assert(indices@.take(indices@.len() as int) =~= indices@);
        }
        self.code.append("\n");
        r
    }

    /// Creates a global constant, placed in front of the code built
    /// so far
    /// # Example
    /// @.str = constant [4 x i8] c"abc\00"
    fn create_global(&mut self, id: String, value: String) -> (r: String)
        ensures
            final(self).ends == old(self).ends,
            final(self).ssa_num == old(self).ssa_num,
            final(self).str_num == old(self).str_num,
            final(self).save_ssa_num == old(self).save_ssa_num,
            final(self).code@ == id@ + " = constant "@ + value@ + "\n\n"@ + old(self).code@,
            r == id,
    {
        let mut fresh = id.clone();
        fresh.append(" = constant ");
        fresh.append(value.as_str());
        fresh.append("\n\n");
        fresh.append(self.code.as_str());
        self.code = fresh;
        id
    }

    /// Adds a string to the end of the code
    fn create_ends(&mut self, s: String)
        ensures
            final(self).code == old(self).code,
            final(self).ssa_num == old(self).ssa_num,
            final(self).str_num == old(self).str_num,
            final(self).save_ssa_num == old(self).save_ssa_num,
            final(self).ends@ == old(self).ends@ + s@,
    {
        self.ends.append(s.as_str());
    }

    /// Saves the current register counter and resets it to 0: every
    /// function body is an independent numbering domain that starts
    /// at register 0
    pub fn enter_function(&mut self)
        ensures
            final(self).code == old(self).code,
            final(self).ends == old(self).ends,
            final(self).str_num == old(self).str_num,
            final(self).ssa_num == 0,
            final(self).save_ssa_num == old(self).ssa_num,
    {
        self.save_ssa_num = self.ssa_num;
        self.ssa_num = 0;
    }

    /// Restores the register counter that was saved on function
    /// entry, so the enclosing numbering domain continues unharmed
    pub fn exit_function(&mut self)
        ensures
            final(self).code == old(self).code,
            final(self).ends == old(self).ends,
            final(self).str_num == old(self).str_num,
            final(self).save_ssa_num == old(self).save_ssa_num,
            final(self).ssa_num == old(self).save_ssa_num,
    {
        self.ssa_num = self.save_ssa_num;
    }

    /// Creates a struct type declaration, placed in front of the code
    /// built so far
    /// # Example
    /// %.Arr = type {
    ///     i8*,
    ///     i32
    /// }
    #[verifier::loop_isolation(false)]
    fn create_new_struct(&mut self, id: String, fields: &Vec<(String, String)>) -> (r: String)
        ensures
            final(self).ends == old(self).ends,
            final(self).ssa_num == old(self).ssa_num,
            final(self).str_num == old(self).str_num,
            final(self).save_ssa_num == old(self).save_ssa_num,
            final(self).code@ == "%"@ + id@ + " = type {\n"@ + struct_fields_text(
                fields@,
                fields@.len() as int,
            ) + "}\n\n"@ + old(self).code@,
            r@ == "@"@ + id@,
    {
        // New string to store the fields
        let mut cat_fields = String::new();

        // Iterate over the fields and add them to 'cat_fields'
        let mut num_fields: usize = 0;
        while num_fields < fields.len()
            invariant
                num_fields <= fields@.len(),
                cat_fields@ == struct_fields_text(
                    fields@.take(num_fields as int),
                    fields@.len() as int,
                ),
                *self == *old(self),
            decreases fields@.len() - num_fields,
        {
            proof {
                assert(fields@.take(num_fields + 1).drop_last() =~= fields@.take(
                    num_fields as int,
                ));
                assert(fields@.take(num_fields + 1).last() == fields@[num_fields as int]);
            }
            cat_fields.append("\t");
            cat_fields.append(type_of(fields[num_fields].1.clone()).as_str());

            // If the last field is not reached, add a comma
            if num_fields + 1 < fields.len() {
                cat_fields.append(",");
            }
            cat_fields.append("\n");
            num_fields += 1;
        }
        proof {
            assert(fields@.take(fields@.len() as int) =~= fields@);
        }
        let mut fresh = String::from_str("%");
        fresh.append(id.as_str());
        fresh.append(" = type {\n");
        fresh.append(cat_fields.as_str());
        fresh.append("}\n\n");
        fresh.append(self.code.as_str());
        self.code = fresh;
        let mut r = String::from_str("@");
        r.append(id.as_str());
        r
    }

    /// Creates an operation
    /// # Example
    /// %0 = add i32 5, 6
    fn create_operation(&mut self, oper: String, typ: String, left: String, right: String) -> (r:
        String)
        ensures
            final(self).ends == old(self).ends,
            final(self).str_num == old(self).str_num,
            final(self).save_ssa_num == old(self).save_ssa_num,
            final(self).ssa_num == sat_inc(old(self).ssa_num),
            final(self).code@ == old(self).code@ + "\t"@ + ssa_name(old(self).ssa_num as nat)
                + " = "@ + type_of_oper_spec(oper@) + " "@ + type_of_spec(typ@) + " "@ + left@
                + ", "@ + right@ + "\n"@,
            r@ == ssa_name(old(self).ssa_num as nat),
    {
        let r = self.next_ssa();
        self.code.append("\t");
        self.code.append(r.as_str());
        self.code.append(" = ");
        self.code.append(type_of_oper(oper).as_str());
        self.code.append(" ");
        self.code.append(type_of(typ).as_str());
        self.code.append(" ");
        self.code.append(left.as_str());
        self.code.append(", ");
        self.code.append(right.as_str());
        self.code.append("\n");
        r
    }
}

/// Stores information for a code generator
pub struct Generator {
    /// Stores an ir builder
    pub ir_b: IRBuilder,
    /// Number of formatted strings
    pub format_num: usize,
    /// Whether %.Arr was declared
    pub has_array: bool,
    /// Whether @printf was declared
    pub dec_printf: bool,
    /// Whether @strlen was declared
    pub dec_strlen: bool,
    /// Whether @.int was declared
    pub dec_int: bool,
    /// Whether @.dec was declared
    pub dec_dec: bool,
    /// Whether @.char was declared
    pub dec_char: bool,
    /// Whether @.str was declared
    pub dec_str: bool,
}

/// What any lowering step keeps intact: the counters only grow and
/// a declaration once made is never undone
pub open spec fn gen_frame(a: Generator, b: Generator) -> bool {
    &&& a.ir_b.str_num <= b.ir_b.str_num
    &&& a.format_num <= b.format_num
    &&& (a.has_array ==> b.has_array)
    &&& (a.dec_printf ==> b.dec_printf)
    &&& (a.dec_strlen ==> b.dec_strlen)
}

/// A resolved break or continue lowers to exactly one unconditional
/// branch to its pre-assigned label; one register number is spent and
/// nothing else moves
pub open spec fn pause_lowering(a: Generator, b: Generator, label: usize) -> bool {
    &&& b.ir_b.code@ == a.ir_b.code@ + "\tbr label %l"@ + dec_digits(label as nat) + "\n"@
    &&& b.ir_b.ends == a.ir_b.ends
    &&& b.ir_b.ssa_num == sat_inc(a.ir_b.ssa_num)
    &&& b.ir_b.str_num == a.ir_b.str_num
    &&& b.ir_b.save_ssa_num == a.ir_b.save_ssa_num
    &&& b.format_num == a.format_num
    &&& b.has_array == a.has_array
    &&& b.dec_printf == a.dec_printf
    &&& b.dec_strlen == a.dec_strlen
    &&& b.dec_int == a.dec_int
    &&& b.dec_dec == a.dec_dec
    &&& b.dec_char == a.dec_char
    &&& b.dec_str == a.dec_str
}

/// What expression lowering keeps intact besides that: the saved
/// register counter is untouched (only function declarations save
/// and restore) and the register counter only grows
pub open spec fn gen_keeps(a: Generator, b: Generator) -> bool {
    &&& gen_frame(a, b)
    &&& b.ir_b.save_ssa_num == a.ir_b.save_ssa_num
    &&& a.ir_b.ssa_num <= b.ir_b.ssa_num
}

/// The default value a function of each primitive type falls back
/// to when its body ends without a return
pub open spec fn default_ret_base(t: Seq<char>) -> Seq<char> {
    if t == "int"@ {
        "0"@
    } else if t == "dec"@ {
        "0.0"@
    } else if t == "char"@ {
        "0"@
    } else if t == "bool"@ {
        "false"@
    } else {
        Seq::empty()
    }
}

/// Whether the type name is one of the primitive value types
pub open spec fn value_typ(t: Seq<char>) -> bool {
    t == "int"@ || t == "dec"@ || t == "char"@ || t == "bool"@
}

/// The text of a return instruction
pub open spec fn ret_line(t: Seq<char>, base: Seq<char>) -> Seq<char> {
    "\tret "@ + t + " "@ + base + "\n"@
}

/// The position of the first dot of the text, or its length when no
/// dot occurs
pub open spec fn dot_index(s: Seq<char>, i: int) -> int
    decreases s.len() - i,
{
    if i < 0 || i >= s.len() {
        s.len() as int
    } else if s[i] == '.' {
        i
    } else {
        dot_index(s, i + 1)
    }
}

/// A dot search never lands beyond the end of the text
proof fn lemma_dot_index_range(s: Seq<char>, i: int)
    requires
        0 <= i <= s.len(),
    ensures
        i <= dot_index(s, i) <= s.len(),
    decreases s.len() - i,
{
    if i < s.len() && s[i] != '.' {
        lemma_dot_index_range(s, i + 1);
    }
}

/// The stored-length field in front of an interned string constant,
/// one more than the count the lexer wrote before the dot; a count
/// that is missing or does not fit gives 1
pub open spec fn str_len_field(s: Seq<char>) -> nat {
    let d = dot_index(s, 0);
    if d >= 1 && all_digits(s.take(d)) && digits_val(s.take(d)) <= 0x7fffffff {
        digits_val(s.take(d)) + 1
    } else {
        1
    }
}

impl Generator {
    /// Constructs a new code generator
    pub fn construct() -> (r: Generator)
        ensures
            r.ir_b.code@ == "define i32 @main() {\nentry:\n"@,
            r.ir_b.ends@ == "\tret i32 0\n}\n"@,
            r.ir_b.ssa_num == 0,
            r.ir_b.str_num == 0,
            r.ir_b.save_ssa_num == 0,
            r.format_num == 0,
            !r.has_array && !r.dec_printf && !r.dec_strlen,
            !r.dec_int && !r.dec_dec && !r.dec_char && !r.dec_str,
    {
        Generator {
            ir_b: IRBuilder::construct(),
            has_array: false,
            dec_printf: false,
            dec_int: false,
            dec_dec: false,
            dec_char: false,
            dec_str: false,
            format_num: 0,
            dec_strlen: false,
        }
    }

    /// Destructs the code generator: the deferred declarations move
    /// to the end of the code
    pub fn destruct(&mut self)
        ensures
            final(self).ir_b.code@ == old(self).ir_b.code@ + old(self).ir_b.ends@,
            final(self).ir_b.ends == old(self).ir_b.ends,
            final(self).ir_b.ssa_num == old(self).ir_b.ssa_num,
            final(self).ir_b.save_ssa_num == old(self).ir_b.save_ssa_num,
            final(self).ir_b.str_num == old(self).ir_b.str_num,
            final(self).format_num == old(self).format_num,
            final(self).has_array == old(self).has_array,
            final(self).dec_printf == old(self).dec_printf,
            final(self).dec_strlen == old(self).dec_strlen,
            final(self).dec_int == old(self).dec_int,
            final(self).dec_dec == old(self).dec_dec,
            final(self).dec_char == old(self).dec_char,
            final(self).dec_str == old(self).dec_str,
    {
        let ends = self.ir_b.ends.clone();
        self.ir_b.code.append(ends.as_str());
    }

    /// Gets the stored length and the contents out of an interned
    /// string: the lexer writes the count of source characters, a
    /// dot, then the escaped text
    /// # Example
    /// 8.abc\0Adef -> (9, abc\0Adef)
    #[verifier::loop_isolation(false)]
    pub fn get_str_length(&self, s: String) -> (r: (usize, String))
        ensures
            dot_index(s@, 0) == s@.len() ==> r.0 == 0 && r.1@ == Seq::<char>::empty(),
            dot_index(s@, 0) < s@.len() ==> r.0 == str_len_field(s@) && r.1@ == s@.skip(
                dot_index(s@, 0) + 1,
            ),
    {
        let len = s.as_str().unicode_len();
        let mut i: usize = 0;
        while i < len && s.as_str().get_char(i) != '.'
            invariant
                i <= len,
                dot_index(s@, 0) == dot_index(s@, i as int),
            decreases len - i,
        {
            i += 1;
        }
        if i >= len {
            return (0, String::new());
        }
        let found = s.as_str().substring_char(0, i);
        let rest = String::from_str(s.as_str().substring_char(i + 1, len));
        let value: usize = match parse_u64(found) {
            Some(v) => {
                if i >= 1 && v <= 0x7fffffff {
                    (v as usize) + 1
                } else {
                    1
                }
            },
            None => 1,
        };
        return (value, rest);
    }

    /// Lowers one string literal: the escaped bytes become an
    /// interned global constant in front of the code, numbered by the
    /// string counter, and the value is the address of its first byte
    #[verifier::loop_isolation(false)]
    #[verifier::rlimit(100)]
    #[verifier::spinoff_prover]
    fn emit_string_literal(&mut self, s: &String) -> (r: String)
        ensures
            gen_keeps(*old(self), *final(self)),
            final(self).ir_b.code@ == "@.str."@ + dec_digits(
                old(self).ir_b.str_num as nat,
            ) + " = constant "@ + "["@ + dec_digits(str_stored_len(s@)) + " x i8] c\""@
                + str_contents(s@) + "\\00\""@ + "\n\n"@ + old(self).ir_b.code@ + "\t"@
                + ssa_name(old(self).ir_b.ssa_num as nat) + " = getelementptr inbounds "@ + "["@
                + dec_digits(str_stored_len(s@)) + " x i8]"@ + ", "@ + "["@ + dec_digits(
                str_stored_len(s@),
            ) + " x i8]"@ + "* "@ + "@.str."@ + dec_digits(old(self).ir_b.str_num as nat)
                + ", i32 "@ + "0"@ + ", i32 "@ + "0"@ + "\n"@,
            r@ == ssa_name(old(self).ir_b.ssa_num as nat),
            final(self).ir_b.ssa_num == sat_inc(old(self).ir_b.ssa_num),
            final(self).ir_b.str_num == sat_inc(old(self).ir_b.str_num),
            final(self).ir_b.ends == old(self).ir_b.ends,
            final(self).format_num == old(self).format_num,
            final(self).has_array == old(self).has_array,
            final(self).dec_printf == old(self).dec_printf,
            final(self).dec_strlen == old(self).dec_strlen,
    {
        // Get the length of the string
        let (length, rest) = self.get_str_length(s.clone());

        // Create a new global constant holding it
        let mut gname = String::from_str("@.str.");
        gname.append(usize_to_string(self.ir_b.str_num).as_str());
        let mut gval = String::from_str("[");
        gval.append(usize_to_string(length).as_str());
        gval.append(" x i8] c\"");
        gval.append(rest.as_str());
        gval.append("\\00\"");
        let global = self.ir_b.create_global(gname, gval);
        let ghost interned = self.ir_b.code@;
        proof {
            lemma_dot_index_range(s@, 0);
            assert(interned =~= "@.str."@ + dec_digits(old(self).ir_b.str_num as nat)
                + " = constant "@ + "["@ + dec_digits(str_stored_len(s@)) + " x i8] c\""@
                + str_contents(s@) + "\\00\""@ + "\n\n"@ + old(self).ir_b.code@);
        }

        // Count the string as created
        if self.ir_b.str_num < usize::MAX {
            self.ir_b.str_num = self.ir_b.str_num + 1;
        }
        let mut atyp = String::from_str("[");
        atyp.append(usize_to_string(length).as_str());
        atyp.append(" x i8]");
        let idxs = vec![String::from_str("0"), String::from_str("0")];
        let ghost iv = idxs@;
        let reg = self.ir_b.create_gep(atyp, global, idxs);
        proof {
            assert(iv.drop_last().drop_last() =~= Seq::<String>::empty());
            assert(gep_indices_text(iv.drop_last().drop_last()) == Seq::<char>::empty());
            assert(iv.len() == 2);
            assert(iv.drop_last().last() == iv[0]);
            assert(iv.last() == iv[1]);
            assert(gep_indices_text(iv.drop_last()) =~= ", i32 "@ + iv[0]@);
            assert(gep_indices_text(iv) =~= ", i32 "@ + iv[0]@ + ", i32 "@ + iv[1]@);
            assert(self.ir_b.code@ =~= interned + "\t"@ + ssa_name(
                old(self).ir_b.ssa_num as nat,
            ) + " = getelementptr inbounds "@ + "["@ + dec_digits(str_stored_len(s@))
                + " x i8]"@ + ", "@ + "["@ + dec_digits(str_stored_len(s@)) + " x i8]"@ + "* "@
                + "@.str."@ + dec_digits(old(self).ir_b.str_num as nat) + ", i32 "@ + "0"@
                + ", i32 "@ + "0"@ + "\n"@);
            assert(self.ir_b.code@ =~= "@.str."@ + dec_digits(
                old(self).ir_b.str_num as nat,
            ) + " = constant "@ + "["@ + dec_digits(str_stored_len(s@)) + " x i8] c\""@
                + str_contents(s@) + "\\00\""@ + "\n\n"@ + old(self).ir_b.code@ + "\t"@
                + ssa_name(old(self).ir_b.ssa_num as nat) + " = getelementptr inbounds "@ + "["@
                + dec_digits(str_stored_len(s@)) + " x i8]"@ + ", "@ + "["@ + dec_digits(
                str_stored_len(s@),
            ) + " x i8]"@ + "* "@ + "@.str."@ + dec_digits(old(self).ir_b.str_num as nat)
                + ", i32 "@ + "0"@ + ", i32 "@ + "0"@ + "\n"@);
        }
        reg
    }

    /// Lowers a struct instantiation: space is allocated, each field
    /// value is stored at its declared position, and the whole value
    /// is loaded back
    #[verifier::loop_isolation(false)]
    #[verifier::rlimit(100)]
    #[verifier::spinoff_prover]
    fn emit_new_struct(&mut self, expr: &Expr) -> (r: String)
        requires
            expr matches Expr::NewStruct { .. },
        ensures
            gen_keeps(*old(self), *final(self)),
        decreases *expr, 1int,
    {
        match expr {
            Expr::NewStruct { id, fields } => {
                // Allocate a new struct
                let begin = self.ir_b.create_alloca(type_of(id.clone()), None);

                // Store each field value at its declared position
                let mut field_num: usize = 0;
                while field_num < fields.len()
                    invariant
                        field_num <= fields@.len(),
                        gen_keeps(*old(self), *self),
                    decreases fields@.len() - field_num,
                {
                    let gen_field = self.generate_expression(&fields[field_num], true);
                    let gep = self.ir_b.create_gep(
                        type_of(id.clone()),
                        begin.clone(),
                        vec![String::from_str("0"), usize_to_string(field_num)],
                    );
                    self.ir_b.create_store(
                        gen_field,
                        gep,
                        type_of(String::from_str(fields[field_num].validate())),
                    );
                    field_num += 1;
                }
                self.ir_b.create_load(type_of(id.clone()), begin)
                        },
            _ => String::new(),
        }
    }

    /// Lowers a call expression through the call generator, at the
    /// resolved return type
    fn emit_call_expr(&mut self, expr: &Expr) -> (r: String)
        requires
            expr matches Expr::FuncCall { .. },
        ensures
            gen_keeps(*old(self), *final(self)),
        decreases *expr, 1int,
    {
        match expr {
            Expr::FuncCall { id, typ, args } => {
                if str_eq(typ.as_str(), "void") {
                    self.generate_func_call(id.clone(), String::from_str("void"), args)
                } else {
                    self.generate_func_call(id.clone(), type_of(typ.clone()), args)
                }
                        },
            _ => String::new(),
        }
    }

    /// Lowers an array literal: the elements fill a sized backing
    /// buffer, whose pointer and length are stored into the uniform
    /// array record
    #[verifier::loop_isolation(false)]
    #[verifier::rlimit(100)]
    #[verifier::spinoff_prover]
    fn emit_array(&mut self, expr: &Expr) -> (r: String)
        requires
            expr matches Expr::Array { .. },
        ensures
            gen_keeps(*old(self), *final(self)),
        decreases *expr, 1int,
    {
        match expr {
            Expr::Array { values, .. } => {
                // If %.Arr isn't already declared, declare it
                if !self.has_array {
                    self.ir_b.create_new_struct(
                        String::from_str(".Arr"),
                        &vec![
                            (String::new(), String::from_str("string")),
                            (String::new(), String::from_str("int")),
                        ],
                    );
                    self.has_array = true;
                }
                if values.len() == 0 {
                    // The parser never hands an empty literal over
                    return String::new();
                }
                // The element type of the array
                let v_typ = type_of(String::from_str(values[0].validate()));

                // Allocate the array record and a sized backing buffer
                let alloca = self.ir_b.create_alloca(String::from_str("%.Arr"), None);
                let mut sized = String::from_str("[");
                sized.append(usize_to_string(values.len()).as_str());
                sized.append(" x ");
                sized.append(v_typ.as_str());
                sized.append("]");
                let sized_alloca = self.ir_b.create_alloca(sized.clone(), None);

                // Store each element in its slot
                let mut value_num: usize = 0;
                while value_num < values.len()
                    invariant
                        value_num <= values@.len(),
                        gen_keeps(*old(self), *self),
                    decreases values@.len() - value_num,
                {
                    let gen_value = self.generate_expression(&values[value_num], true);
                    let gep = self.ir_b.create_gep(
                        sized.clone(),
                        sized_alloca.clone(),
                        vec![String::from_str("0"), usize_to_string(value_num)],
                    );
                    self.ir_b.create_store(
                        gen_value,
                        gep,
                        type_of(String::from_str(values[value_num].validate())),
                    );
                    value_num += 1;
                }
                // Bitcast the sized buffer to a plain pointer
                let mut sized_ptr = sized.clone();
                sized_ptr.append("*");
                let bitcast = self.ir_b.create_bitcast(
                    sized_ptr,
                    sized_alloca,
                    String::from_str("i8*"),
                );

                // Store the pointer in the record
                let gep2 = self.ir_b.create_gep(
                    String::from_str("%.Arr"),
                    alloca.clone(),
                    vec![String::from_str("0"), String::from_str("0")],
                );
                self.ir_b.create_store(bitcast, gep2, String::from_str("i8*"));

                // Store the length of the array in the record as well
                let gep3 = self.ir_b.create_gep(
                    String::from_str("%.Arr"),
                    alloca.clone(),
                    vec![String::from_str("0"), String::from_str("1")],
                );
                self.ir_b.create_store(
                    usize_to_string(values.len()),
                    gep3,
                    String::from_str("i32"),
                );

                // Load the record
                self.ir_b.create_load(String::from_str("%.Arr"), alloca)
                        },
            _ => String::new(),
        }
    }

    /// Addresses one byte of a string value directly: a cast to an
    /// unsized byte array, the index, and a single byte load
    #[verifier::loop_isolation(false)]
    #[verifier::rlimit(100)]
    #[verifier::spinoff_prover]
    fn emit_string_index(&mut self, gen_src: String, gen_index: String) -> (r: String)
        ensures
            gen_keeps(*old(self), *final(self)),
            final(self).ir_b.code@ == old(self).ir_b.code@ + string_index_text(
                gen_src@,
                gen_index@,
                old(self).ir_b.ssa_num,
            ),
            r@ == ssa_name(sat_inc(sat_inc(old(self).ir_b.ssa_num)) as nat),
    {
        let m = self.ir_b.ssa_num;
        let ghost mid = self.ir_b.code@;
        let ghost sv = gen_src@;
        let ghost xv = gen_index@;
        let bitcast = self.ir_b.create_bitcast(
            String::from_str("i8*"),
            gen_src,
            String::from_str("[0 x i8]*"),
        );
        proof {
            assert(self.ir_b.code@ =~= mid + bitcast_line(
                ssa_name(m as nat),
                "i8*"@,
                sv,
                "[0 x i8]*"@,
            ));
        }
        let ghost t1 = mid + bitcast_line(ssa_name(m as nat), "i8*"@, sv, "[0 x i8]*"@);
        let idxs = vec![String::from_str("0"), gen_index];
        let ghost iv = idxs@;
        let gep = self.ir_b.create_gep(String::from_str("[0 x i8]"), bitcast, idxs);
        proof {
            assert(iv.drop_last().drop_last() =~= Seq::<String>::empty());
            assert(gep_indices_text(iv.drop_last().drop_last()) == Seq::<char>::empty());
            assert(iv.drop_last().last() == iv[0]);
            assert(gep_indices_text(iv.drop_last()) =~= ", i32 "@ + iv[0]@);
            assert(gep_indices_text(iv) =~= ", i32 "@ + iv[0]@ + ", i32 "@ + iv[1]@);
            assert(self.ir_b.code@ =~= t1 + gep2_line(
                ssa_name(sat_inc(m) as nat),
                "[0 x i8]"@,
                ssa_name(m as nat),
                "0"@,
                xv,
            ));
        }
        let ghost t2 = t1 + gep2_line(
            ssa_name(sat_inc(m) as nat),
            "[0 x i8]"@,
            ssa_name(m as nat),
            "0"@,
            xv,
        );
        let reg = self.ir_b.create_load(String::from_str("i8"), gep);
        proof {
            assert(self.ir_b.code@ =~= t2 + load_line(
                ssa_name(sat_inc(sat_inc(m)) as nat),
                ssa_name(sat_inc(m) as nat),
                "i8"@,
            ));
            assert(self.ir_b.code@ =~= mid + string_index_text(sv, xv, m));
        }
        reg
    }

    /// Reads the pointer field out of an array record value: the
    /// record is stored to a temporary and field 0 is addressed and
    /// loaded
    #[verifier::loop_isolation(false)]
    #[verifier::rlimit(100)]
    fn emit_record_ptr(&mut self, gen_src: String) -> (r: String)
        ensures
            gen_keeps(*old(self), *final(self)),
            exists|r0: Seq<char>, r1: Seq<char>|
                final(self).ir_b.code@ == old(self).ir_b.code@ + alloca_line(r0, "%.Arr"@)
                    + store_line(gen_src@, r0, "%.Arr"@) + gep2_line(
                    r1,
                    "%.Arr"@,
                    r0,
                    "0"@,
                    "0"@,
                ) + load_line(r@, r1, "i8*"@),
    {
        let ghost mid = self.ir_b.code@;
        let ghost sv = gen_src@;
        let alloca = self.ir_b.create_alloca(String::from_str("%.Arr"), None);
        self.ir_b.create_store(gen_src, alloca.clone(), String::from_str("%.Arr"));
        proof {
            assert(self.ir_b.code@ =~= mid + alloca_line(alloca@, "%.Arr"@) + store_line(
                sv,
                alloca@,
                "%.Arr"@,
            ));
        }
        let ghost t1 = mid + alloca_line(alloca@, "%.Arr"@) + store_line(sv, alloca@, "%.Arr"@);
        let idxs0 = vec![String::from_str("0"), String::from_str("0")];
        let ghost iv0 = idxs0@;
        let gep = self.ir_b.create_gep(String::from_str("%.Arr"), alloca.clone(), idxs0);
        proof {
            assert(iv0.drop_last().drop_last() =~= Seq::<String>::empty());
            assert(gep_indices_text(iv0.drop_last().drop_last()) == Seq::<char>::empty());
            assert(iv0.drop_last().last() == iv0[0]);
            assert(gep_indices_text(iv0.drop_last()) =~= ", i32 "@ + iv0[0]@);
            assert(gep_indices_text(iv0) =~= ", i32 "@ + iv0[0]@ + ", i32 "@ + iv0[1]@);
            assert(self.ir_b.code@ =~= t1 + gep2_line(gep@, "%.Arr"@, alloca@, "0"@, "0"@));
        }
        let reg = self.ir_b.create_load(String::from_str("i8*"), gep.clone());
        proof {
            assert(self.ir_b.code@ =~= t1 + gep2_line(gep@, "%.Arr"@, alloca@, "0"@, "0"@)
                + load_line(reg@, gep@, "i8*"@));
        }
        reg
    }

    /// Addresses one element of an array value through the record:
    /// the record's pointer field is read back, cast to the element
    /// type, and the element addressed — loaded too when the caller
    /// wants the value
    #[verifier::loop_isolation(false)]
    #[verifier::rlimit(100)]
    fn emit_array_index(
        &mut self,
        gen_src: String,
        gen_index: String,
        new_typ: String,
        load_id: bool,
    ) -> (r: String)
        ensures
            gen_keeps(*old(self), *final(self)),
            exists|
                r0: Seq<char>,
                r1: Seq<char>,
                r2: Seq<char>,
                r3: Seq<char>,
                r4: Seq<char>,
                r5: Seq<char>,
            |
                final(self).ir_b.code@ == old(self).ir_b.code@ + alloca_line(r0, "%.Arr"@)
                    + store_line(gen_src@, r0, "%.Arr"@) + gep2_line(
                    r1,
                    "%.Arr"@,
                    r0,
                    "0"@,
                    "0"@,
                ) + load_line(r2, r1, "i8*"@) + bitcast_line(
                    r3,
                    "i8*"@,
                    r2,
                    "[0 x "@ + type_of_spec(new_typ@) + "]*"@,
                ) + gep2_line(
                    r4,
                    "[0 x "@ + type_of_spec(new_typ@) + "]"@,
                    r3,
                    "0"@,
                    gen_index@,
                ) + (if load_id {
                    load_line(r5, r4, type_of_spec(new_typ@))
                } else {
                    Seq::<char>::empty()
                }) && r@ == (if load_id {
                    r5
                } else {
                    r4
                }),
    {
        let ghost mid = self.ir_b.code@;
        let ghost xv = gen_index@;
        let ghost sv = gen_src@;
        let load = self.emit_record_ptr(gen_src);
        let ghost t3 = self.ir_b.code@;
        let mut el_ptr = String::from_str("[0 x ");
        el_ptr.append(type_of(new_typ.clone()).as_str());
        el_ptr.append("]*");
        let bitcast = self.ir_b.create_bitcast(String::from_str("i8*"), load.clone(), el_ptr);
        let ghost t4 = t3 + bitcast_line(
            bitcast@,
            "i8*"@,
            load@,
            "[0 x "@ + type_of_spec(new_typ@) + "]*"@,
        );
        proof {
            assert(self.ir_b.code@ =~= t4);
        }
        let mut el_arr = String::from_str("[0 x ");
        el_arr.append(type_of(new_typ.clone()).as_str());
        el_arr.append("]");
        let idxs1 = vec![String::from_str("0"), gen_index];
        let ghost iv1 = idxs1@;
        let gep2 = self.ir_b.create_gep(el_arr, bitcast.clone(), idxs1);
        proof {
            assert(iv1.drop_last().drop_last() =~= Seq::<String>::empty());
            assert(gep_indices_text(iv1.drop_last().drop_last()) == Seq::<char>::empty());
            assert(iv1.drop_last().last() == iv1[0]);
            assert(gep_indices_text(iv1.drop_last()) =~= ", i32 "@ + iv1[0]@);
            assert(gep_indices_text(iv1) =~= ", i32 "@ + iv1[0]@ + ", i32 "@ + iv1[1]@);
            assert(self.ir_b.code@ =~= t4 + gep2_line(
                gep2@,
                "[0 x "@ + type_of_spec(new_typ@) + "]"@,
                bitcast@,
                "0"@,
                xv,
            ));
        }
        if load_id {
            let reg = self.ir_b.create_load(type_of(new_typ.clone()), gep2.clone());
            proof {
                let (g0, g1) = choose|g0: Seq<char>, g1: Seq<char>|
                    t3 == mid + alloca_line(g0, "%.Arr"@) + store_line(sv, g0, "%.Arr"@)
                        + gep2_line(g1, "%.Arr"@, g0, "0"@, "0"@) + load_line(load@, g1, "i8*"@);
                assert(self.ir_b.code@ =~= mid + alloca_line(g0, "%.Arr"@) + store_line(
                    sv,
                    g0,
                    "%.Arr"@,
                ) + gep2_line(g1, "%.Arr"@, g0, "0"@, "0"@) + load_line(load@, g1, "i8*"@)
                    + bitcast_line(
                    bitcast@,
                    "i8*"@,
                    load@,
                    "[0 x "@ + type_of_spec(new_typ@) + "]*"@,
                ) + gep2_line(gep2@, "[0 x "@ + type_of_spec(new_typ@) + "]"@, bitcast@, "0"@, xv)
                    + load_line(reg@, gep2@, type_of_spec(new_typ@)));
            }
            reg
        } else {
            proof {
                let (g0, g1) = choose|g0: Seq<char>, g1: Seq<char>|
                    t3 == mid + alloca_line(g0, "%.Arr"@) + store_line(sv, g0, "%.Arr"@)
                        + gep2_line(g1, "%.Arr"@, g0, "0"@, "0"@) + load_line(load@, g1, "i8*"@);
                assert(self.ir_b.code@ =~= mid + alloca_line(g0, "%.Arr"@) + store_line(
                    sv,
                    g0,
                    "%.Arr"@,
                ) + gep2_line(g1, "%.Arr"@, g0, "0"@, "0"@) + load_line(load@, g1, "i8*"@)
                    + bitcast_line(
                    bitcast@,
                    "i8*"@,
                    load@,
                    "[0 x "@ + type_of_spec(new_typ@) + "]*"@,
                ) + gep2_line(gep2@, "[0 x "@ + type_of_spec(new_typ@) + "]"@, bitcast@, "0"@, xv));
            }
            gep2
        }
    }

    /// Lowers an index: a string is addressed directly as a byte
    /// array, while an array value goes through the record's pointer
    /// field, cast to its element type
    #[verifier::loop_isolation(false)]
    #[verifier::rlimit(100)]
    #[verifier::spinoff_prover]
    fn emit_index(&mut self, expr: &Expr, load_id: bool) -> (r: String)
        requires
            expr matches Expr::IndexedValue { .. },
        ensures
            gen_keeps(*old(self), *final(self)),
            expr matches Expr::IndexedValue { src, index, new_typ } ==> (validate_spec(**src)
                == "string"@ ==> exists|mid: Seq<char>, sv: Seq<char>, xv: Seq<char>, m: usize|
                final(self).ir_b.code@ == mid + string_index_text(sv, xv, m) && r@ == ssa_name(
                    sat_inc(sat_inc(m)) as nat,
                )),
            expr matches Expr::IndexedValue { src, index, new_typ } ==> (validate_spec(**src)
                != "string"@ ==> exists|
                mid: Seq<char>,
                sv: Seq<char>,
                xv: Seq<char>,
                r0: Seq<char>,
                r1: Seq<char>,
                r2: Seq<char>,
                r3: Seq<char>,
                r4: Seq<char>,
            |
                final(self).ir_b.code@ == mid + alloca_line(r0, "%.Arr"@) + store_line(
                    sv,
                    r0,
                    "%.Arr"@,
                ) + gep2_line(r1, "%.Arr"@, r0, "0"@, "0"@) + load_line(r2, r1, "i8*"@)
                    + bitcast_line(r3, "i8*"@, r2, "[0 x "@ + type_of_spec(new_typ@) + "]*"@)
                    + gep2_line(r4, "[0 x "@ + type_of_spec(new_typ@) + "]"@, r3, "0"@, xv) + (
                if load_id {
                    load_line(r@, r4, type_of_spec(new_typ@))
                } else {
                    Seq::<char>::empty()
                })),
        decreases *expr, 1int,
    {
        match expr {
            Expr::IndexedValue { src, index, new_typ } => {
                // Generate the value being indexed and the index
                let gen_src = self.generate_expression(&**src, true);
                let gen_index = self.generate_expression(&**index, true);

                if str_eq(src.validate(), "string") {
                    self.emit_string_index(gen_src, gen_index)
                } else {
                    self.emit_array_index(gen_src, gen_index, new_typ.clone(), load_id)
                }
                        },
            _ => String::new(),
        }
    }

    /// Generates an expression and returns the operand that names its
    /// value: a constant becomes its own text and emits nothing, all
    /// else lowers to instructions whose result register comes back
    /// # Example
    /// 5 -> 5
    /// a -> %0
    #[verifier::loop_isolation(false)]
    #[verifier::rlimit(100)]
    #[verifier::spinoff_prover]
    pub fn generate_expression(&mut self, expr: &Expr, load_id: bool) -> (r: String)
        ensures
            gen_keeps(*old(self), *final(self)),
            expr matches Expr::Int(i) ==> *final(self) == *old(self) && r@ == int_string(*i as int),
            expr matches Expr::Chr(c) ==> *final(self) == *old(self) && r@ == dec_digits(
                (*c as u32) as nat,
            ),
            expr matches Expr::Dec(d) ==> *final(self) == *old(self) && r@ == d@,
            expr matches Expr::Bool(b) ==> *final(self) == *old(self) && r@ == bool_string(*b),
            expr matches Expr::IndexedValue { src, index, new_typ } ==> (validate_spec(**src)
                == "string"@ ==> exists|mid: Seq<char>, sv: Seq<char>, xv: Seq<char>, m: usize|
                final(self).ir_b.code@ == mid + string_index_text(sv, xv, m) && r@ == ssa_name(
                    sat_inc(sat_inc(m)) as nat,
                )),
            expr matches Expr::IndexedValue { src, index, new_typ } ==> (validate_spec(**src)
                != "string"@ ==> exists|
                mid: Seq<char>,
                sv: Seq<char>,
                xv: Seq<char>,
                r0: Seq<char>,
                r1: Seq<char>,
                r2: Seq<char>,
                r3: Seq<char>,
                r4: Seq<char>,
            |
                final(self).ir_b.code@ == mid + alloca_line(r0, "%.Arr"@) + store_line(
                    sv,
                    r0,
                    "%.Arr"@,
                ) + gep2_line(r1, "%.Arr"@, r0, "0"@, "0"@) + load_line(r2, r1, "i8*"@)
                    + bitcast_line(r3, "i8*"@, r2, "[0 x "@ + type_of_spec(new_typ@) + "]*"@)
                    + gep2_line(r4, "[0 x "@ + type_of_spec(new_typ@) + "]"@, r3, "0"@, xv) + (
                if load_id {
                    load_line(r@, r4, type_of_spec(new_typ@))
                } else {
                    Seq::<char>::empty()
                })),
            expr matches Expr::Str(s) ==> ({
                &&& final(self).ir_b.code@ == "@.str."@ + dec_digits(
                    old(self).ir_b.str_num as nat,
                ) + " = constant "@ + "["@ + dec_digits(str_stored_len(s@)) + " x i8] c\""@
                    + str_contents(s@) + "\\00\""@ + "\n\n"@ + old(self).ir_b.code@ + "\t"@
                    + ssa_name(old(self).ir_b.ssa_num as nat) + " = getelementptr inbounds "@
                    + "["@ + dec_digits(str_stored_len(s@)) + " x i8]"@ + ", "@ + "["@
                    + dec_digits(str_stored_len(s@)) + " x i8]"@ + "* "@ + "@.str."@ + dec_digits(
                    old(self).ir_b.str_num as nat,
                ) + ", i32 "@ + "0"@ + ", i32 "@ + "0"@ + "\n"@
                &&& r@ == ssa_name(old(self).ir_b.ssa_num as nat)
                &&& final(self).ir_b.ssa_num == sat_inc(old(self).ir_b.ssa_num)
                &&& final(self).ir_b.str_num == sat_inc(old(self).ir_b.str_num)
                &&& final(self).ir_b.ends == old(self).ir_b.ends
                &&& final(self).format_num == old(self).format_num
            }),
            expr matches Expr::BinaryOperator { oper, left, right } ==> ((is_const_lit(**left)
                && is_const_lit(**right)) ==> final(self).ir_b.code@ == old(self).ir_b.code@
                + op_line(
                ssa_name(old(self).ir_b.ssa_num as nat),
                type_of_oper_spec(oper@),
                type_of_spec(validate_spec(**left)),
                lit_operand(**left),
                lit_operand(**right),
            ) && r@ == ssa_name(old(self).ir_b.ssa_num as nat) && final(self).ir_b.ssa_num
                == sat_inc(old(self).ir_b.ssa_num) && final(self).ir_b.ends == old(
                self,
            ).ir_b.ends && final(self).ir_b.str_num == old(self).ir_b.str_num
                && final(self).format_num == old(self).format_num),
            expr matches Expr::BinaryOperator { oper, left, right } ==> ((is_const_lit(**left)
                && is_bin_of_lits(**right)) ==> final(self).ir_b.code@ == old(self).ir_b.code@
                + op_line(
                ssa_name(old(self).ir_b.ssa_num as nat),
                type_of_oper_spec(bin_oper(**right)),
                type_of_spec(validate_spec(bin_left(**right))),
                lit_operand(bin_left(**right)),
                lit_operand(bin_right(**right)),
            ) + op_line(
                ssa_name(sat_inc(old(self).ir_b.ssa_num) as nat),
                type_of_oper_spec(oper@),
                type_of_spec(validate_spec(**left)),
                lit_operand(**left),
                ssa_name(old(self).ir_b.ssa_num as nat),
            ) && r@ == ssa_name(sat_inc(old(self).ir_b.ssa_num) as nat)
                && final(self).ir_b.ssa_num == sat_inc(sat_inc(old(self).ir_b.ssa_num))),
            expr matches Expr::BinaryOperator { oper, left, right } ==> exists|
                mid: Seq<char>,
                lv: Seq<char>,
                rv: Seq<char>,
                n: nat,
            |
                #![trigger mid + op_line(ssa_name(n), type_of_oper_spec(oper@), type_of_spec(validate_spec(**left)), lv, rv)]
                final(self).ir_b.code@ == mid + op_line(
                    ssa_name(n),
                    type_of_oper_spec(oper@),
                    type_of_spec(validate_spec(**left)),
                    lv,
                    rv,
                ) && r@ == ssa_name(n),
            expr matches Expr::UnaryOperator { oper, child } ==> (oper@ == "-"@ ==> exists|
                mid: Seq<char>,
                cv: Seq<char>,
                n: nat,
            |
                #![trigger mid + op_line(ssa_name(n), type_of_oper_spec("*"@), type_of_spec(validate_spec(**child)), cv, "-1"@)]
                final(self).ir_b.code@ == mid + op_line(
                    ssa_name(n),
                    type_of_oper_spec("*"@),
                    type_of_spec(validate_spec(**child)),
                    cv,
                    "-1"@,
                ) && r@ == ssa_name(n)),
            expr matches Expr::UnaryOperator { oper, child } ==> (oper@ != "-"@ ==> exists|
                mid: Seq<char>,
                cv: Seq<char>,
                n: nat,
            |
                #![trigger mid + op_line(ssa_name(n), type_of_oper_spec("-"@), type_of_spec(validate_spec(**child)), cv, "1"@)]
                final(self).ir_b.code@ == mid + op_line(
                    ssa_name(n),
                    type_of_oper_spec("-"@),
                    type_of_spec(validate_spec(**child)),
                    cv,
                    "1"@,
                ) && r@ == ssa_name(n)),
            expr matches Expr::Id(name, typ, gen_id) ==> ({
                &&& (!load_id ==> *final(self) == *old(self) && r == gen_id)
                &&& (load_id ==> final(self).ir_b.code@ == old(self).ir_b.code@ + load_line(
                    ssa_name(old(self).ir_b.ssa_num as nat),
                    gen_id@,
                    type_of_spec(typ@),
                ) && r@ == ssa_name(old(self).ir_b.ssa_num as nat) && final(self).ir_b.ssa_num
                    == sat_inc(old(self).ir_b.ssa_num) && final(self).ir_b.ends
                    == old(self).ir_b.ends && final(self).ir_b.str_num == old(self).ir_b.str_num
                    && final(self).format_num == old(self).format_num)
            }),
        decreases *expr, 2int,
    {
        match expr {
            Expr::Int(i) => i64_to_string(*i),
            Expr::Chr(c) => u64_to_string((*c as u32) as u64),
            Expr::Dec(d) => d.clone(),
            Expr::Bool(b) => bool_to_string(*b),
            Expr::Str(s) => self.emit_string_literal(s),
            Expr::Id(_id, typ, gen_id) => {
                // If the caller wants the value, load it out of its
                // storage location; otherwise hand the location over
                if load_id {
                    self.ir_b.create_load(type_of(typ.clone()), gen_id.clone())
                } else {
                    gen_id.clone()
                }
            },
            Expr::NewStruct { .. } => self.emit_new_struct(expr),
            Expr::StructDot { id, typ, field_num, .. } => {
                // Generate the left side of the '.' as a location
                let gen_begin = self.generate_expression(&**id, false);

                // Index the left side with the field number
                let gep = self.ir_b.create_gep(
                    type_of(String::from_str(id.validate())),
                    gen_begin,
                    vec![String::from_str("0"), usize_to_string(*field_num)],
                );
                if load_id {
                    self.ir_b.create_load(type_of(typ.clone()), gep)
                } else {
                    gep
                }
            },
            Expr::FuncCall { .. } => self.emit_call_expr(expr),
            Expr::Array { .. } => self.emit_array(expr),
            Expr::IndexedValue { .. } => self.emit_index(expr, load_id),
            Expr::BinaryOperator { oper, left, right } => {
                // Generate the left and right sides of the expression
                let gen_left = self.generate_expression(&**left, true);
                let gen_right = self.generate_expression(&**right, true);

                // Call the ir builder to create the operation
                let ghost mid = self.ir_b.code@;
                let ghost lv = gen_left@;
                let ghost rv = gen_right@;
                let ghost n = self.ir_b.ssa_num as nat;
                let reg = self.ir_b.create_operation(
                    oper.clone(),
                    String::from_str(left.validate()),
                    gen_left,
                    gen_right,
                );
                proof {
                    assert(self.ir_b.code@ =~= mid + op_line(
                        ssa_name(n),
                        type_of_oper_spec(oper@),
                        type_of_spec(validate_spec(**left)),
                        lv,
                        rv,
                    ));
                    if is_const_lit(**left) && is_bin_of_lits(**right) {
                        assert(self.ir_b.code@ =~= old(self).ir_b.code@ + op_line(
                            ssa_name(old(self).ir_b.ssa_num as nat),
                            type_of_oper_spec(bin_oper(**right)),
                            type_of_spec(validate_spec(bin_left(**right))),
                            lit_operand(bin_left(**right)),
                            lit_operand(bin_right(**right)),
                        ) + op_line(
                            ssa_name(sat_inc(old(self).ir_b.ssa_num) as nat),
                            type_of_oper_spec(oper@),
                            type_of_spec(validate_spec(**left)),
                            lit_operand(**left),
                            ssa_name(old(self).ir_b.ssa_num as nat),
                        ));
                    }
                }
                reg
            },
            Expr::UnaryOperator { oper, child } => {
                let gen_child = self.generate_expression(&**child, true);
                let ghost mid = self.ir_b.code@;
                let ghost cv = gen_child@;
                let ghost n = self.ir_b.ssa_num as nat;
                if str_eq(oper.as_str(), "-") {
                    // Negating a value is multiplying it by -1
                    let reg = self.ir_b.create_operation(
                        String::from_str("*"),
                        String::from_str(child.validate()),
                        gen_child,
                        String::from_str("-1"),
                    );
                    proof {
                        assert(self.ir_b.code@ =~= mid + op_line(
                            ssa_name(n),
                            type_of_oper_spec("*"@),
                            type_of_spec(validate_spec(**child)),
                            cv,
                            "-1"@,
                        ));
                    }
                    reg
                } else {
                    // 'not' of a truth value is subtracting it from 1
                    let reg = self.ir_b.create_operation(
                        String::from_str("-"),
                        String::from_str(child.validate()),
                        gen_child,
                        String::from_str("1"),
                    );
                    proof {
                        assert(self.ir_b.code@ =~= mid + op_line(
                            ssa_name(n),
                            type_of_oper_spec("-"@),
                            type_of_spec(validate_spec(**child)),
                            cv,
                            "1"@,
                        ));
                    }
                    reg
                }
            },
            _ => String::new(),
        }
    }

    /// Iterates through the nodes and generates ir for them
    #[verifier::loop_isolation(false)]
    pub fn generate(&mut self, nodes: &Vec<Box<Node>>)
        requires
            forall|i: int| 0 <= i < nodes@.len() ==> gen_input_ok(*#[trigger] nodes@[i]),
        ensures
            gen_frame(*old(self), *final(self)),
            nodes@.len() == 0 ==> *final(self) == *old(self),
            (forall|i: int| 0 <= i < nodes@.len() ==> func_free(*#[trigger] nodes@[i]))
                ==> final(self).ir_b.save_ssa_num == old(self).ir_b.save_ssa_num,
            nodes@.len() == 1 ==> (*nodes@[0] matches Node::Pause { label } ==> pause_lowering(
                *old(self),
                *final(self),
                label,
            )),
        decreases nodes@, 2int,
    {
        let mut i: usize = 0;
        while i < nodes.len()
            invariant
                i <= nodes@.len(),
                gen_frame(*old(self), *self),
                i == 0 ==> *self == *old(self),
                (forall|k: int| 0 <= k < nodes@.len() ==> func_free(*#[trigger] nodes@[k]))
                    ==> self.ir_b.save_ssa_num == old(self).ir_b.save_ssa_num,
                nodes@.len() == 1 && i == 1 ==> (*nodes@[0] matches Node::Pause { label }
                    ==> pause_lowering(*old(self), *self, label)),
            decreases nodes@.len() - i,
        {
            self.gen_node(&nodes[i]);
            i += 1;
        }
    }

    /// Lowers one statement
    fn gen_node(&mut self, node: &Node)
        requires
            gen_input_ok(*node),
        ensures
            gen_frame(*old(self), *final(self)),
            *node matches Node::Pause { label } ==> pause_lowering(
                *old(self),
                *final(self),
                label,
            ),
            empty_block(*node) ==> *final(self) == *old(self),
            func_free(*node) ==> final(self).ir_b.save_ssa_num == old(self).ir_b.save_ssa_num,
        decreases *node, 3int,
    {
        match node {
            Node::Let { id: _, expr, gen_id } => self.generate_let_stmt(expr, gen_id.clone()),
            Node::Ret { expr } => self.generate_ret_stmt(expr),
            Node::Pause { label } => {
                // A resolved break or continue is one unconditional
                // branch to its pre-assigned label
                let mut line = String::from_str("\tbr label %l");
                line.append(usize_to_string(*label).as_str());
                line.append("\n");
                self.ir_b.code.append(line.as_str());
                if self.ir_b.ssa_num < usize::MAX {
                    self.ir_b.ssa_num = self.ir_b.ssa_num + 1;
                }
                proof {
                    assert(self.ir_b.code@ =~= old(self).ir_b.code@ + "\tbr label %l"@
                        + dec_digits(*label as nat) + "\n"@);
                }
            },
            Node::FuncDecl { .. } => self.generate_func_decl(node),
            Node::While { .. } => self.generate_while_loop(node),
            Node::If { .. } => self.generate_if_stmt(node),
            Node::Assign { id, expr } => self.generate_assign_stmt(id, expr),
            Node::FuncCall { id, args } => {
                self.generate_func_call(id.clone(), String::from_str("void"), args);
            },
            Node::Struct { id, fields } => self.generate_struct_decl(id.clone(), fields),
            Node::Block { statements } => self.generate(statements),
            Node::Non => {},
        }
    }

    /// Generates code for a 'let' statement: the value is computed,
    /// storage is allocated under the variable's generated name, and
    /// the value is stored there.
    /// The code comes out of it ending in exactly that allocation and
    /// that store, both at the type the value validated to; what
    /// stands before them is the value's own lowering
    pub fn generate_let_stmt(&mut self, expr: &Expr, gen_id: String)
        ensures
            gen_keeps(*old(self), *final(self)),
            exists|mid: Seq<char>, v: Seq<char>|
                final(self).ir_b.code@ == mid + alloca_line(
                    gen_id@,
                    type_of_spec(validate_spec(*expr)),
                ) + store_line(v, gen_id@, type_of_spec(validate_spec(*expr))),
            is_const_lit(*expr) ==> final(self).ir_b.code@ == old(self).ir_b.code@ + alloca_line(
                gen_id@,
                type_of_spec(validate_spec(*expr)),
            ) + store_line(lit_operand(*expr), gen_id@, type_of_spec(validate_spec(*expr))),
        decreases *expr, 2int,
    {
        // Generate the value
        let gen_expr = self.generate_expression(expr, true);

        // Allocate a location of the value's type under the name
        let t = type_of(String::from_str(expr.validate()));
        let ghost mid = self.ir_b.code@;
        let ghost v = gen_expr@;
        let var = self.ir_b.create_alloca(t.clone(), Some(gen_id));

        // Store the value into the location
        self.ir_b.create_store(gen_expr, var, t);
        proof {
            assert(self.ir_b.code@ =~= mid + alloca_line(
                var@,
                type_of_spec(validate_spec(*expr)),
            ) + store_line(v, var@, type_of_spec(validate_spec(*expr))));
        }
    }

    /// Generates code for a return statement
    fn generate_ret_stmt(&mut self, expr: &Expr)
        ensures
            gen_keeps(*old(self), *final(self)),
            exists|mid: Seq<char>, v: Seq<char>|
                final(self).ir_b.code@ == mid + ret_line(
                    type_of_spec(validate_spec(*expr)),
                    v,
                ),
        decreases *expr, 2int,
    {
        let gen_expr = self.generate_expression(expr, true);
        let ghost mid = self.ir_b.code@;
        let mut line = String::from_str("\tret ");
        line.append(type_of(String::from_str(expr.validate())).as_str());
        line.append(" ");
        line.append(gen_expr.as_str());
        line.append("\n");
        self.ir_b.code.append(line.as_str());
        if self.ir_b.ssa_num < usize::MAX {
            self.ir_b.ssa_num = self.ir_b.ssa_num + 1;
        }
        proof {
            assert(self.ir_b.code@ =~= mid + ret_line(
                type_of_spec(validate_spec(*expr)),
                gen_expr@,
            ));
        }
    }

    /// Generates code for a function declaration: the body gets a
    /// register numbering domain of its own that starts at 0, and a
    /// body that falls through without a return still ends in a
    /// return of the declared type's default value, so the emitted
    /// function is always properly terminated
    #[verifier::loop_isolation(false)]
    #[verifier::rlimit(100)]
    pub fn generate_func_decl(&mut self, node: &Node)
        requires
            node matches Node::FuncDecl { .. },
            gen_input_ok(*node),
        ensures
            gen_frame(*old(self), *final(self)),
            final(self).ir_b.ssa_num == old(self).ir_b.ssa_num,
            node matches Node::FuncDecl { typ, .. } ==> (value_typ(typ@) ==> ({
                let tail = ret_line(type_of_spec(typ@), default_ret_base(typ@)) + "\n}\n"@ + old(
                    self,
                ).ir_b.code@;
                final(self).ir_b.code@.len() >= tail.len() && final(self).ir_b.code@.subrange(
                    final(self).ir_b.code@.len() - tail.len(),
                    final(self).ir_b.code@.len() as int,
                ) == tail
            })),
            node matches Node::FuncDecl { id, typ, args, body } ==> ((empty_block(**body) && typ@
                == "int"@) ==> final(self).ir_b.code@ == "define "@
                + type_of_spec(typ@) + " @"@ + id@ + "("@ + params_text(
                args@,
                args@.len() as int,
            ) + ") {\nentry:\n"@ + "\tret "@ + type_of_spec(typ@) + " "@ + "0"@ + "\n"@
                + "\n}\n"@ + old(self).ir_b.code@),
        decreases *node, 1int,
    {
        match node {
            Node::FuncDecl { id, typ, args, body } => {
                // Save the code built so far: the function is emitted
                // in front of it
                let save = self.ir_b.code.clone();

                // Emit the parameters: each is passed as a pointer
                // under its pre-assigned generated name
                let mut arg_code = String::new();
                let mut arg_num: usize = 0;
                while arg_num < args.len()
                    invariant
                        arg_num <= args@.len(),
                        arg_code@ == params_text(args@.take(arg_num as int), args@.len() as int),
                    decreases args@.len() - arg_num,
                {
                    proof {
                        assert(args@.take(arg_num + 1).drop_last() =~= args@.take(
                            arg_num as int,
                        ));
                        assert(args@.take(arg_num + 1).last() == args@[arg_num as int]);
                    }
                    arg_code.append(type_of(args[arg_num].typ.clone()).as_str());
                    arg_code.append("* %.");
                    arg_code.append(usize_to_string(args[arg_num].id_c).as_str());
                    if arg_num + 1 < args.len() {
                        arg_code.append(", ");
                    }
                    arg_num += 1;
                }
                proof {
                    assert(args@.take(args@.len() as int) =~= args@);
                    reveal_strlit("int");
                    reveal_strlit("dec");
                    reveal_strlit("char");
                    reveal_strlit("bool");
                    reveal_strlit("string");
                    reveal_strlit("void");
                    assert("int"@.len() == 3);
                    assert("dec"@.len() == 3);
                    assert("char"@.len() == 4);
                    assert("bool"@.len() == 4);
                    assert("string"@.len() == 6);
                    assert("void"@.len() == 4);
                }
                let mut header = String::from_str("define ");
                if str_eq(typ.as_str(), "void") {
                    header.append("void");
                } else {
                    header.append(type_of(typ.clone()).as_str());
                }
                header.append(" @");
                header.append(id.as_str());
                header.append("(");
                header.append(arg_code.as_str());
                header.append(") {\nentry:\n");
                self.ir_b.code = header;

                // Function bodies are independent numbering domains
                self.ir_b.enter_function();

                // The body came through the parser inside a function,
                // so no nested declaration can move the saved counter
                proof {
                    lemma_checked_in_func_is_func_free(**body);
                }

                // Generate the body of the function
                self.gen_node(&**body);

                // Synthesize a default return value of the declared
                // type, so a body without a 'ret' still terminates
                let base: String = if str_eq(typ.as_str(), "int") {
                    String::from_str("0")
                } else if str_eq(typ.as_str(), "dec") {
                    String::from_str("0.0")
                } else if str_eq(typ.as_str(), "char") {
                    String::from_str("0")
                } else if str_eq(typ.as_str(), "bool") {
                    String::from_str("false")
                } else if str_eq(typ.as_str(), "string") {
                    let alloca = self.ir_b.create_alloca(String::from_str("i8"), None);
                    self.ir_b.create_store(
                        String::from_str("0"),
                        alloca.clone(),
                        String::from_str("i8"),
                    );
                    alloca
                } else {
                    String::new()
                };
                let ghost mid = self.ir_b.code@;
                self.ir_b.code.append("\tret ");
                self.ir_b.code.append(type_of(typ.clone()).as_str());
                self.ir_b.code.append(" ");
                self.ir_b.code.append(base.as_str());
                self.ir_b.code.append("\n");

                // The enclosing numbering domain continues
                self.ir_b.exit_function();

                // Close the function and put the saved code after it
                self.ir_b.code.append("\n}\n");
                self.ir_b.code.append(save.as_str());
                proof {
                    if value_typ(typ@) {
                        let tail = ret_line(type_of_spec(typ@), default_ret_base(typ@))
                            + "\n}\n"@ + old(self).ir_b.code@;
                        assert(self.ir_b.code@ == mid + tail);
                        assert((mid + tail).subrange(
                            mid.len() as int,
                            (mid + tail).len() as int,
                        ) =~= tail);
                    }
                    assert((empty_block(**body) && typ@ == "int"@) ==> self.ir_b.code@
                        =~= "define "@ + type_of_spec(typ@)
                        + " @"@ + id@ + "("@ + params_text(args@, args@.len() as int)
                        + ") {\nentry:\n"@ + "\tret "@ + type_of_spec(typ@) + " "@ + "0"@
                        + "\n"@ + "\n}\n"@ + old(self).ir_b.code@);
                }
            },
            _ => {},
        }
    }

    /// Generates code for a while loop, using the loop's two
    /// pre-assigned labels: the condition is evaluated before entry
    /// and again after each pass of the body
    fn generate_while_loop(&mut self, node: &Node)
        requires
            node matches Node::While { .. },
            gen_input_ok(*node),
        ensures
            gen_frame(*old(self), *final(self)),
            func_free(*node) ==> final(self).ir_b.save_ssa_num == old(self).ir_b.save_ssa_num,
            node matches Node::While { cond, body, begin, end } ==> (cond matches Expr::Bool(b)
                ==> (empty_block(**body) ==> final(self).ir_b.code@ == old(self).ir_b.code@
                + while_branch_line(bool_string(*b), begin as nat, end as nat, begin as nat)
                + while_branch_line(bool_string(*b), begin as nat, end as nat, end as nat))),
        decreases *node, 1int,
    {
        match node {
            Node::While { cond, body, begin, end } => {
                // Generate the condition
                let gen_cond = self.generate_expression(cond, true);

                // Enter the loop when it holds, skip to the end label
                // when it does not
                let mut line = String::from_str("\tbr i1 ");
                line.append(gen_cond.as_str());
                line.append(", label %l");
                line.append(usize_to_string(*begin).as_str());
                line.append(", label %l");
                line.append(usize_to_string(*end).as_str());
                line.append("\nl");
                line.append(usize_to_string(*begin).as_str());
                line.append(":\n");
                self.ir_b.code.append(line.as_str());

                // Generate the body of the loop
                self.gen_node(&**body);

                // Evaluate the condition again: either start the loop
                // over or leave it
                let gen_cond2 = self.generate_expression(cond, true);
                let mut line2 = String::from_str("\tbr i1 ");
                line2.append(gen_cond2.as_str());
                line2.append(", label %l");
                line2.append(usize_to_string(*begin).as_str());
                line2.append(", label %l");
                line2.append(usize_to_string(*end).as_str());
                line2.append("\nl");
                line2.append(usize_to_string(*end).as_str());
                line2.append(":\n");
                self.ir_b.code.append(line2.as_str());
                proof {
                    match cond {
                        Expr::Bool(b) => {
                            if empty_block(**body) {
                                assert(self.ir_b.code@ =~= old(self).ir_b.code@
                                    + while_branch_line(
                                    bool_string(*b),
                                    *begin as nat,
                                    *end as nat,
                                    *begin as nat,
                                ) + while_branch_line(
                                    bool_string(*b),
                                    *begin as nat,
                                    *end as nat,
                                    *end as nat,
                                ));
                            }
                        },
                        _ => {},
                    }
                }
            },
            _ => {},
        }
    }

    /// Generates code for an if statement, using its pre-assigned
    /// labels; without an else, the false branch goes straight to
    /// the end label
    fn generate_if_stmt(&mut self, node: &Node)
        requires
            node matches Node::If { .. },
            gen_input_ok(*node),
        ensures
            gen_frame(*old(self), *final(self)),
            func_free(*node) ==> final(self).ir_b.save_ssa_num == old(self).ir_b.save_ssa_num,
            node matches Node::If { cond, body, else_body, begin, else_, end } ==> (
            cond matches Expr::Bool(b) ==> (empty_block(**body) && else_body is None
                ==> final(self).ir_b.code@ == old(self).ir_b.code@ + while_branch_line(
                bool_string(*b),
                begin as nat,
                end as nat,
                begin as nat,
            ) + "\tbr label %l"@ + dec_digits(end as nat) + "\n"@ + "l"@ + dec_digits(
                end as nat,
            ) + ":\n"@)),
        decreases *node, 1int,
    {
        match node {
            Node::If { cond, body, else_body, begin, else_, end } => {
                // Generate the condition
                let gen_cond = self.generate_expression(cond, true);

                // Branch to the body when it holds; otherwise to the
                // else branch when there is one, else past the whole
                // statement
                let false_target: usize = match else_body {
                    Some(_) => *else_,
                    None => *end,
                };
                let mut line = String::from_str("\tbr i1 ");
                line.append(gen_cond.as_str());
                line.append(", label %l");
                line.append(usize_to_string(*begin).as_str());
                line.append(", label %l");
                line.append(usize_to_string(false_target).as_str());
                line.append("\nl");
                line.append(usize_to_string(*begin).as_str());
                line.append(":\n");
                self.ir_b.code.append(line.as_str());

                // Generate the body, which then jumps past the else
                self.gen_node(&**body);
                let mut jump = String::from_str("\tbr label %l");
                jump.append(usize_to_string(*end).as_str());
                jump.append("\n");
                self.ir_b.code.append(jump.as_str());

                match else_body {
                    Some(e) => {
                        let mut lbl = String::from_str("l");
                        lbl.append(usize_to_string(*else_).as_str());
                        lbl.append(":\n");
                        self.ir_b.code.append(lbl.as_str());
                        self.gen_node(&**e);
                        let mut jump2 = String::from_str("\tbr label %l");
                        jump2.append(usize_to_string(*end).as_str());
                        jump2.append("\n");
                        self.ir_b.code.append(jump2.as_str());
                    },
                    None => {},
                }
                let mut endl = String::from_str("l");
                endl.append(usize_to_string(*end).as_str());
                endl.append(":\n");
                self.ir_b.code.append(endl.as_str());
                proof {
                    match cond {
                        Expr::Bool(b) => {
                            if empty_block(**body) && else_body is None {
                                assert(self.ir_b.code@ =~= old(self).ir_b.code@
                                    + while_branch_line(
                                    bool_string(*b),
                                    *begin as nat,
                                    *end as nat,
                                    *begin as nat,
                                ) + "\tbr label %l"@ + dec_digits(*end as nat) + "\n"@ + "l"@
                                    + dec_digits(*end as nat) + ":\n"@);
                            }
                        },
                        _ => {},
                    }
                }
            },
            _ => {},
        }
    }

    /// Generates code for an assignment: the value is computed, the
    /// target is generated as a location rather than loaded, and the
    /// value is stored into it
    fn generate_assign_stmt(&mut self, id: &Expr, expr: &Expr)
        ensures
            gen_keeps(*old(self), *final(self)),
            exists|mid: Seq<char>, v: Seq<char>, dst: Seq<char>|
                final(self).ir_b.code@ == mid + store_line(
                    v,
                    dst,
                    type_of_spec(validate_spec(*expr)),
                ),
        decreases *id, *expr, 2int,
    {
        // Generate the value
        let gen_expr = self.generate_expression(expr, true);

        // Generate the left side of the equals sign without loading
        let gen_id = self.generate_expression(id, false);

        // Store the value into the target
        let ghost mid = self.ir_b.code@;
        let ghost v = gen_expr@;
        let ghost dst = gen_id@;
        self.ir_b.create_store(gen_expr, gen_id, type_of(String::from_str(expr.validate())));
        proof {
            assert(self.ir_b.code@ =~= mid + store_line(
                v,
                dst,
                type_of_spec(validate_spec(*expr)),
            ));
        }
    }

    /// Lowers a `write` call: a format constant built from the
    /// arguments' static types goes in front of the code, the printf
    /// import is declared once, and the call line closes the text
    #[verifier::loop_isolation(false)]
    #[verifier::rlimit(100)]
    #[verifier::spinoff_prover]
    fn emit_write(&mut self, args: &Vec<Box<Expr>>, arg_values: &String)
        ensures
            gen_keeps(*old(self), *final(self)),
            final(self).dec_printf,
            final(self).format_num == sat_inc(old(self).format_num),
            !old(self).dec_printf ==> final(self).ir_b.ends@ == old(self).ir_b.ends@
                + "declare i32 @printf(i8*, ...)\n"@,
            old(self).dec_printf ==> final(self).ir_b.ends == old(self).ir_b.ends,
            exists|n: nat, mid: Seq<char>|
                final(self).ir_b.code@ == "@fmt"@ + dec_digits(n) + " = constant "@ + "["@
                    + dec_digits(write_fmt_len(args@.len())) + " x i8] c\""@ + write_fmt(args@)
                    + "\\00"@ + "\""@ + "\n\n"@ + mid
                    + "\tcall i32 (i8*, ...) @printf(i8* getelementptr inbounds (["@
                    + dec_digits(write_fmt_len(args@.len())) + " x i8], ["@ + dec_digits(
                    write_fmt_len(args@.len()),
                ) + " x i8]* @fmt"@ + dec_digits(n) + ", i32 0, i32 0), "@ + arg_values@
                    + ")\n"@,
    {
        // Build a format string from the static types
        let mut fmt = String::new();
        let mut fmt_len: usize = 1;
        let mut i: usize = 0;
        while i < args.len()
            invariant
                i <= args@.len(),
                fmt@ == write_fmt(args@.take(i as int)),
                fmt_len as nat == write_fmt_len(i as nat),
            decreases args@.len() - i,
        {
            proof {
                assert(args@.take(i + 1).drop_last() =~= args@.take(i as int));
                assert(args@.take(i + 1).last() == args@[i as int]);
            }
            let v = args[i].validate();
            if str_eq(v, "int") || str_eq(v, "bool") {
                fmt.append("%d");
            } else if str_eq(v, "dec") {
                fmt.append("%f");
            } else if str_eq(v, "string") {
                fmt.append("%s");
            } else if str_eq(v, "char") {
                fmt.append("%c");
            } else {
                proof {
                    assert(fmt@ =~= write_fmt(args@.take(i + 1)));
                }
            }
            // Each format code is two characters long
            if fmt_len <= usize::MAX - 2 {
                fmt_len = fmt_len + 2;
            }
            i += 1;
        }
        proof {
            assert(args@.take(args@.len() as int) =~= args@);
        }
        // Terminate the format string
        fmt.append("\\00");

        // Create a global constant for the format
        let ghost n = self.format_num as nat;
        let mut gname = String::from_str("@fmt");
        gname.append(usize_to_string(self.format_num).as_str());
        let mut gval = String::from_str("[");
        gval.append(usize_to_string(fmt_len).as_str());
        gval.append(" x i8] c\"");
        gval.append(fmt.as_str());
        gval.append("\"");
        let ghost mid = self.ir_b.code@;
        self.ir_b.create_global(gname, gval);

        // If @printf is not declared, declare it exactly once
        if !self.dec_printf {
            self.ir_b.create_ends(String::from_str("declare i32 @printf(i8*, ...)\n"));
            self.dec_printf = true;
        }
        // Generate the call
        let mut line = String::from_str(
            "\tcall i32 (i8*, ...) @printf(i8* getelementptr inbounds ([",
        );
        line.append(usize_to_string(fmt_len).as_str());
        line.append(" x i8], [");
        line.append(usize_to_string(fmt_len).as_str());
        line.append(" x i8]* @fmt");
        line.append(usize_to_string(self.format_num).as_str());
        line.append(", i32 0, i32 0), ");
        line.append(arg_values.as_str());
        line.append(")\n");
        self.ir_b.code.append(line.as_str());
        if self.format_num < usize::MAX {
            self.format_num = self.format_num + 1;
        }
        if self.ir_b.ssa_num < usize::MAX {
            self.ir_b.ssa_num = self.ir_b.ssa_num + 1;
        }
        proof {
            let flen = write_fmt_len(args@.len());
            assert(self.ir_b.code@ =~= "@fmt"@ + dec_digits(n) + " = constant "@ + "["@
                + dec_digits(flen) + " x i8] c\""@ + write_fmt(args@) + "\\00"@ + "\""@
                + "\n\n"@ + mid
                + "\tcall i32 (i8*, ...) @printf(i8* getelementptr inbounds (["@ + dec_digits(
                flen,
            ) + " x i8], ["@ + dec_digits(flen) + " x i8]* @fmt"@ + dec_digits(n)
                + ", i32 0, i32 0), "@ + arg_values@ + ")\n"@);
        }
    }

    /// Lowers a `len` call: on a string the length builtin is called
    /// and declared once; on an array the stored length field is read
    /// out of the record without any call
    #[verifier::loop_isolation(false)]
    #[verifier::rlimit(100)]
    #[verifier::spinoff_prover]
    fn emit_len(&mut self, args: &Vec<Box<Expr>>, arg_values: &String)
        ensures
            gen_keeps(*old(self), *final(self)),
            args@.len() >= 1 && validate_spec(*args@[0]) == "string"@ ==> (final(self).dec_strlen
                && exists|mid: Seq<char>, argv: Seq<char>, n: nat|
                final(self).ir_b.code@ == mid + "\t%"@ + dec_digits(n)
                    + " = call i32 @strlen("@ + argv + ")\n"@),
            args@.len() >= 1 && validate_spec(*args@[0]) != "string"@ ==> exists|
                mid: Seq<char>,
                srcv: Seq<char>,
                m: usize,
            |
                final(self).ir_b.code@ == mid + "\t"@ + ssa_name(m as nat)
                    + " = getelementptr inbounds "@ + "%.Arr"@ + ", "@ + "%.Arr"@ + "* "@ + srcv
                    + ", i32 "@ + "0"@ + ", i32 "@ + "1"@ + "\n"@ + load_line(
                    ssa_name(sat_inc(m) as nat),
                    ssa_name(m as nat),
                    "i32"@,
                ),
        decreases args@, 0int,
    {
        if args.len() > 0 {
            if str_eq(args[0].validate(), "string") {
                // Call the string length builtin
                let ghost mid = self.ir_b.code@;
                let ghost n = self.ir_b.ssa_num as nat;
                let mut line = String::from_str("\t%");
                line.append(usize_to_string(self.ir_b.ssa_num).as_str());
                line.append(" = call i32 @strlen(");
                line.append(arg_values.as_str());
                line.append(")\n");
                self.ir_b.code.append(line.as_str());
                if !self.dec_strlen {
                    self.ir_b.create_ends(String::from_str("declare i32 @strlen(i8*)\n"));
                    self.dec_strlen = true;
                }
                if self.ir_b.ssa_num < usize::MAX {
                    self.ir_b.ssa_num = self.ir_b.ssa_num + 1;
                }
                proof {
                    assert(self.ir_b.code@ =~= mid + "\t%"@ + dec_digits(n)
                        + " = call i32 @strlen("@ + arg_values@ + ")\n"@);
                }
            } else {
                // Read the stored length out of the array record
                let gen_expr = self.generate_expression(&args[0], false);
                let ghost mid = self.ir_b.code@;
                let ghost srcv = gen_expr@;
                let m = self.ir_b.ssa_num;
                let idxs = vec![String::from_str("0"), String::from_str("1")];
                let ghost iv = idxs@;
                let gep = self.ir_b.create_gep(
                    String::from_str("%.Arr"),
                    gen_expr,
                    idxs,
                );
                self.ir_b.create_load(String::from_str("i32"), gep);
                proof {
                    assert(iv.drop_last().drop_last() =~= Seq::<String>::empty());
                    assert(gep_indices_text(iv.drop_last().drop_last())
                        == Seq::<char>::empty());
                    assert(iv.len() == 2);
                    assert(iv.drop_last().last() == iv[0]);
                    assert(iv.last() == iv[1]);
                    assert(gep_indices_text(iv.drop_last()) =~= ", i32 "@ + iv[0]@);
                    assert(gep_indices_text(iv) =~= ", i32 "@ + iv[0]@ + ", i32 "@ + iv[1]@);
                    assert(self.ir_b.code@ =~= mid + "\t"@ + ssa_name(m as nat)
                        + " = getelementptr inbounds "@ + "%.Arr"@ + ", "@ + "%.Arr"@ + "* "@
                        + srcv + ", i32 "@ + "0"@ + ", i32 "@ + "1"@ + "\n"@ + load_line(
                        ssa_name(sat_inc(m) as nat),
                        ssa_name(m as nat),
                        "i32"@,
                    ));
                }
            }
        }
    }

    /// Generates code for a function call: built-in calls take their
    /// arguments by value and are special-cased, while declared
    /// functions take each argument through a pointer.
    /// `write` builds a printf-style format from the arguments'
    /// static types and declares the import once per compilation;
    /// `len` of a string calls the length builtin, `len` of an array
    /// reads the record's stored length without a call
    #[verifier::loop_isolation(false)]
    #[verifier::rlimit(100)]
    pub fn generate_func_call(&mut self, id: String, typ: String, args: &Vec<Box<Expr>>) -> (r:
        String)
        ensures
            gen_keeps(*old(self), *final(self)),
            id@ == "write"@ ==> final(self).dec_printf,
            id@ == "write"@ && old(self).format_num < usize::MAX ==> final(self).format_num
                > old(self).format_num,
            id@ == "len"@ && args@.len() >= 1 && validate_spec(*args@[0]) == "string"@ ==> (
            final(self).dec_strlen && exists|mid: Seq<char>, argv: Seq<char>, n: nat|
                final(self).ir_b.code@ == mid + "\t%"@ + dec_digits(n)
                    + " = call i32 @strlen("@ + argv + ")\n"@),
            id@ == "len"@ && args@.len() >= 1 && validate_spec(*args@[0]) != "string"@ ==> exists|
                mid: Seq<char>,
                srcv: Seq<char>,
                m: usize,
            |
                final(self).ir_b.code@ == mid + "\t"@ + ssa_name(m as nat)
                    + " = getelementptr inbounds "@ + "%.Arr"@ + ", "@ + "%.Arr"@ + "* "@ + srcv
                    + ", i32 "@ + "0"@ + ", i32 "@ + "1"@ + "\n"@ + load_line(
                    ssa_name(sat_inc(m) as nat),
                    ssa_name(m as nat),
                    "i32"@,
                ),
            id@ == "write"@ ==> exists|n: nat, mid: Seq<char>, argv: Seq<char>|
                final(self).ir_b.code@ == "@fmt"@ + dec_digits(n) + " = constant "@ + "["@
                    + dec_digits(write_fmt_len(args@.len())) + " x i8] c\""@ + write_fmt(args@)
                    + "\\00"@ + "\""@ + "\n\n"@ + mid
                    + "\tcall i32 (i8*, ...) @printf(i8* getelementptr inbounds (["@
                    + dec_digits(write_fmt_len(args@.len())) + " x i8], ["@ + dec_digits(
                    write_fmt_len(args@.len()),
                ) + " x i8]* @fmt"@ + dec_digits(n) + ", i32 0, i32 0), "@ + argv + ")\n"@,
        decreases args@, 1int,
    {
        // Build the argument list text
        let mut arg_values = String::new();
        let is_builtin = str_eq(id.as_str(), "write") || str_eq(id.as_str(), "len");
        let mut arg_num: usize = 0;
        while arg_num < args.len()
            invariant
                arg_num <= args@.len(),
                gen_keeps(*old(self), *self),
            decreases args@.len() - arg_num,
        {
            // Generate the argument expression
            let gen_arg = self.generate_expression(&args[arg_num], true);

            // Find the type of the current argument
            let t = type_of(String::from_str(args[arg_num].validate()));

            if !is_builtin {
                // Pass the argument through a pointer
                let alloca = self.ir_b.create_alloca(t.clone(), None);
                self.ir_b.create_store(gen_arg, alloca.clone(), t.clone());
                arg_values.append(t.as_str());
                arg_values.append("* ");
                arg_values.append(alloca.as_str());
            } else {
                // Pass the value itself
                arg_values.append(t.as_str());
                arg_values.append(" ");
                arg_values.append(gen_arg.as_str());
            }
            if arg_num + 1 < args.len() {
                arg_values.append(", ");
            }
            arg_num += 1;
        }
        proof {
            reveal_strlit("write");
            reveal_strlit("len");
        }
        if str_eq(id.as_str(), "write") {
            self.emit_write(args, &arg_values);
        } else if str_eq(id.as_str(), "len") {
            self.emit_len(args, &arg_values);
            proof {
                if args@.len() >= 1 && validate_spec(*args@[0]) == "string"@ {
                    assert(self.dec_strlen);
                    assert(exists|mid: Seq<char>, argv: Seq<char>, n: nat|
                        self.ir_b.code@ == mid + "\t%"@ + dec_digits(n)
                            + " = call i32 @strlen("@ + argv + ")\n"@);
                }
                if args@.len() >= 1 && validate_spec(*args@[0]) != "string"@ {
                    assert(exists|mid: Seq<char>, srcv: Seq<char>, m: usize|
                        self.ir_b.code@ == mid + "\t"@ + ssa_name(m as nat)
                            + " = getelementptr inbounds "@ + "%.Arr"@ + ", "@ + "%.Arr"@ + "* "@
                            + srcv + ", i32 "@ + "0"@ + ", i32 "@ + "1"@ + "\n"@ + load_line(
                            ssa_name(sat_inc(m) as nat),
                            ssa_name(m as nat),
                            "i32"@,
                        ));
                }
            }
        } else {
            // Generate a plain call
            let mut line: String;
            if str_eq(typ.as_str(), "void") {
                line = String::from_str("\tcall void @");
            } else {
                line = String::from_str("\t%");
                line.append(usize_to_string(self.ir_b.ssa_num).as_str());
                line.append(" = call ");
                line.append(typ.as_str());
                line.append(" @");
            }
            line.append(id.as_str());
            line.append("(");
            line.append(arg_values.as_str());
            line.append(")\n");
            self.ir_b.code.append(line.as_str());
            if self.ir_b.ssa_num < usize::MAX {
                self.ir_b.ssa_num = self.ir_b.ssa_num + 1;
            }
        }
        proof {
            reveal_strlit("write");
            reveal_strlit("len");
            assert("len"@.len() == 3);
            assert("write"@.len() == 5);
            assert("len"@ != "write"@);
            if id@ == "len"@ && args@.len() >= 1 && validate_spec(*args@[0]) == "string"@ {
                assert(self.dec_strlen);
                assert(exists|mid: Seq<char>, argv: Seq<char>, n: nat|
                    self.ir_b.code@ == mid + "\t%"@ + dec_digits(n) + " = call i32 @strlen("@
                        + argv + ")\n"@);
            }
            if id@ == "len"@ && args@.len() >= 1 && validate_spec(*args@[0]) != "string"@ {
                assert(exists|mid: Seq<char>, srcv: Seq<char>, m: usize|
                    self.ir_b.code@ == mid + "\t"@ + ssa_name(m as nat)
                        + " = getelementptr inbounds "@ + "%.Arr"@ + ", "@ + "%.Arr"@ + "* "@
                        + srcv + ", i32 "@ + "0"@ + ", i32 "@ + "1"@ + "\n"@ + load_line(
                        ssa_name(sat_inc(m) as nat),
                        ssa_name(m as nat),
                        "i32"@,
                    ));
            }
        }
        let m: usize = if self.ir_b.ssa_num > 0 {
            self.ir_b.ssa_num - 1
        } else {
            0
        };
        let mut r = String::from_str("%");
        r.append(usize_to_string(m).as_str());
        r
    }

    /// Generates code for a struct declaration
    pub fn generate_struct_decl(&mut self, id: String, fields: &Vec<(String, String)>)
        ensures
            gen_keeps(*old(self), *final(self)),
            final(self).ir_b.code@ == "%"@ + id@ + " = type {\n"@ + struct_fields_text(
                fields@,
                fields@.len() as int,
            ) + "}\n\n"@ + old(self).ir_b.code@,
    {
        // Tell the ir builder to create a new struct type
        self.ir_b.create_new_struct(id, fields);
    }
}

} // verus!
