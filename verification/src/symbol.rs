use vstd::prelude::*;
use vstd::string::StringExecFns;
use vstd::string::StrSliceExecFns;

use crate::error::Error;
use crate::error::ErrorType;
use crate::error::error;
use crate::token::Token;

verus! {

/// An enum to store each kind of symbol
#[derive(Debug, PartialEq, Eq, Clone, Copy, Structural)]
pub enum SymbolType {
    Var,
    Struct,
    Func,
}

/// Stores information for each variable symbol
#[derive(Debug, PartialEq, Eq)]
pub struct VarSymbol {
    /// Identifier of the symbol
    pub id: String,
    /// Type of the symbol (i.e., int or string)
    pub typ: String,
    /// Stores the id of the symbol in ir for code generation
    pub gen_id: String,
}

impl Clone for VarSymbol {
    /// A clone of a variable symbol carries exactly the same fields
    fn clone(&self) -> (r: VarSymbol)
        ensures
            r == *self,
    {
        VarSymbol { id: self.id.clone(), typ: self.typ.clone(), gen_id: self.gen_id.clone() }
    }
}

/// Stores information for each function symbol
#[derive(Debug, PartialEq, Eq)]
pub struct FuncSymbol {
    /// Identifier of the symbol
    pub id: String,
    /// Return type of the function
    pub typ: String,
    /// Stores the id of the symbol in ir for code generation
    pub gen_id: String,
    /// Stores the types of the arguments
    pub arg_types: Vec<String>,
}

/// Two function symbols agree on every field
pub open spec fn func_sym_eq(a: FuncSymbol, b: FuncSymbol) -> bool {
    &&& a.id == b.id
    &&& a.typ == b.typ
    &&& a.gen_id == b.gen_id
    &&& a.arg_types@ == b.arg_types@
}

impl Clone for FuncSymbol {
    /// A clone of a function symbol carries exactly the same fields
    fn clone(&self) -> (r: FuncSymbol)
        ensures
            func_sym_eq(*self, r),
    {
        let mut arg_types: Vec<String> = Vec::new();
        let mut i: usize = 0;
        while i < self.arg_types.len()
            invariant
                i <= self.arg_types.len(),
                arg_types@ =~= self.arg_types@.subrange(0, i as int),
            decreases self.arg_types.len() - i,
        {
            arg_types.push(self.arg_types[i].clone());
            i += 1;
        }
        proof {
            assert(arg_types@ =~= self.arg_types@);
        }
        FuncSymbol {
            id: self.id.clone(),
            typ: self.typ.clone(),
            gen_id: self.gen_id.clone(),
            arg_types,
        }
    }
}

/// Stores information for each struct symbol
#[derive(Debug, PartialEq, Eq)]
pub struct StructSymbol {
    /// Identifier of the symbol
    pub id: String,
    /// Stores the id of the symbol in ir for code generation
    pub gen_id: String,
    /// Stores the names of the fields, in declaration order
    pub field_names: Vec<String>,
    /// Stores the types of the fields, in declaration order
    pub arg_types: Vec<String>,
}

/// Two struct symbols agree on every field
pub open spec fn struct_sym_eq(a: StructSymbol, b: StructSymbol) -> bool {
    &&& a.id == b.id
    &&& a.gen_id == b.gen_id
    &&& a.field_names@ == b.field_names@
    &&& a.arg_types@ == b.arg_types@
}

impl Clone for StructSymbol {
    /// A clone of a struct symbol carries exactly the same fields
    fn clone(&self) -> (r: StructSymbol)
        ensures
            struct_sym_eq(*self, r),
    {
        let mut field_names: Vec<String> = Vec::new();
        let mut i: usize = 0;
        while i < self.field_names.len()
            invariant
                i <= self.field_names.len(),
                field_names@ =~= self.field_names@.subrange(0, i as int),
            decreases self.field_names.len() - i,
        {
            field_names.push(self.field_names[i].clone());
            i += 1;
        }
        let mut arg_types: Vec<String> = Vec::new();
        let mut j: usize = 0;
        while j < self.arg_types.len()
            invariant
                j <= self.arg_types.len(),
                arg_types@ =~= self.arg_types@.subrange(0, j as int),
            decreases self.arg_types.len() - j,
        {
            arg_types.push(self.arg_types[j].clone());
            j += 1;
        }
        proof {
            assert(field_names@ =~= self.field_names@);
            assert(arg_types@ =~= self.arg_types@);
        }
        StructSymbol { id: self.id.clone(), gen_id: self.gen_id.clone(), field_names, arg_types }
    }
}

/// One scope: the three symbol collections declared directly in it.
/// Scopes form a stack while parsing; the enclosing scope of a frame
/// is the frame below it.
#[derive(Debug, PartialEq, Eq)]
pub struct Scope {
    /// Symbols of the scope
    pub var_symbols: Vec<VarSymbol>,
    pub func_symbols: Vec<FuncSymbol>,
    pub struct_symbols: Vec<StructSymbol>,
}

/// Stores information about the symbol table: the stack of open
/// scopes, innermost last; the first frame is the global scope
pub struct SymbolController {
    /// The open scopes, from the global scope to the current one
    pub scopes: Vec<Scope>,
}

/// Whether the scope declares a symbol of the given kind and name
pub open spec fn frame_has(f: Scope, k: SymbolType, id: Seq<char>) -> bool {
    match k {
        SymbolType::Var => exists|i: int|
            0 <= i < f.var_symbols@.len() && f.var_symbols@[i].id@ == id,
        SymbolType::Func => exists|i: int|
            0 <= i < f.func_symbols@.len() && f.func_symbols@[i].id@ == id,
        SymbolType::Struct => exists|i: int|
            0 <= i < f.struct_symbols@.len() && f.struct_symbols@[i].id@ == id,
    }
}

/// The first variable symbol of the given name in one scope
pub open spec fn frame_find_var(syms: Seq<VarSymbol>, id: Seq<char>) -> Option<VarSymbol>
    decreases syms.len(),
{
    if syms.len() == 0 {
        None
    } else if syms[0].id@ == id {
        Some(syms[0])
    } else {
        frame_find_var(syms.drop_first(), id)
    }
}

/// The first function symbol of the given name in one scope
pub open spec fn frame_find_func(syms: Seq<FuncSymbol>, id: Seq<char>) -> Option<FuncSymbol>
    decreases syms.len(),
{
    if syms.len() == 0 {
        None
    } else if syms[0].id@ == id {
        Some(syms[0])
    } else {
        frame_find_func(syms.drop_first(), id)
    }
}

/// The first struct symbol of the given name in one scope
pub open spec fn frame_find_struct(syms: Seq<StructSymbol>, id: Seq<char>) -> Option<StructSymbol>
    decreases syms.len(),
{
    if syms.len() == 0 {
        None
    } else if syms[0].id@ == id {
        Some(syms[0])
    } else {
        frame_find_struct(syms.drop_first(), id)
    }
}

/// Upward variable lookup: the innermost scope that declares the name
/// wins (lexical shadowing)
pub open spec fn find_var_spec(scopes: Seq<Scope>, id: Seq<char>) -> Option<VarSymbol>
    decreases scopes.len(),
{
    if scopes.len() == 0 {
        None
    } else {
        match frame_find_var(scopes.last().var_symbols@, id) {
            Some(s) => Some(s),
            None => find_var_spec(scopes.drop_last(), id),
        }
    }
}

/// Upward function lookup: the innermost scope that declares the name
/// wins (lexical shadowing)
pub open spec fn find_func_spec(scopes: Seq<Scope>, id: Seq<char>) -> Option<FuncSymbol>
    decreases scopes.len(),
{
    if scopes.len() == 0 {
        None
    } else {
        match frame_find_func(scopes.last().func_symbols@, id) {
            Some(s) => Some(s),
            None => find_func_spec(scopes.drop_last(), id),
        }
    }
}

/// Upward struct lookup: the innermost scope that declares the name
/// wins (lexical shadowing)
pub open spec fn find_struct_spec(scopes: Seq<Scope>, id: Seq<char>) -> Option<StructSymbol>
    decreases scopes.len(),
{
    if scopes.len() == 0 {
        None
    } else {
        match frame_find_struct(scopes.last().struct_symbols@, id) {
            Some(s) => Some(s),
            None => find_struct_spec(scopes.drop_last(), id),
        }
    }
}

/// A scan that found no match in the first `i` symbols may as well
/// start at `i`
proof fn lemma_frame_find_var_skip(syms: Seq<VarSymbol>, id: Seq<char>, i: int)
    requires
        0 <= i <= syms.len(),
        forall|k: int| 0 <= k < i ==> syms[k].id@ != id,
    ensures
        frame_find_var(syms, id) == frame_find_var(syms.skip(i), id),
    decreases i,
{
    if i > 0 {
        assert(syms.skip(i - 1).drop_first() =~= syms.skip(i));
        assert(syms.skip(i - 1)[0] == syms[i - 1]);
        lemma_frame_find_var_skip(syms, id, i - 1);
    } else {
        assert(syms.skip(0) =~= syms);
    }
}

/// A scan that found no match in the first `i` symbols may as well
/// start at `i`
proof fn lemma_frame_find_func_skip(syms: Seq<FuncSymbol>, id: Seq<char>, i: int)
    requires
        0 <= i <= syms.len(),
        forall|k: int| 0 <= k < i ==> syms[k].id@ != id,
    ensures
        frame_find_func(syms, id) == frame_find_func(syms.skip(i), id),
    decreases i,
{
    if i > 0 {
        assert(syms.skip(i - 1).drop_first() =~= syms.skip(i));
        assert(syms.skip(i - 1)[0] == syms[i - 1]);
        lemma_frame_find_func_skip(syms, id, i - 1);
    } else {
        assert(syms.skip(0) =~= syms);
    }
}

/// A scan that found no match in the first `i` symbols may as well
/// start at `i`
proof fn lemma_frame_find_struct_skip(syms: Seq<StructSymbol>, id: Seq<char>, i: int)
    requires
        0 <= i <= syms.len(),
        forall|k: int| 0 <= k < i ==> syms[k].id@ != id,
    ensures
        frame_find_struct(syms, id) == frame_find_struct(syms.skip(i), id),
    decreases i,
{
    if i > 0 {
        assert(syms.skip(i - 1).drop_first() =~= syms.skip(i));
        assert(syms.skip(i - 1)[0] == syms[i - 1]);
        lemma_frame_find_struct_skip(syms, id, i - 1);
    } else {
        assert(syms.skip(0) =~= syms);
    }
}

/// Implement functions for the symbol table
impl SymbolController {
    /// The table always keeps at least the global scope open
    pub open spec fn wf(&self) -> bool {
        self.scopes@.len() >= 1
    }

    /// Finds a symbol of the given kind in the current scope only.
    /// Returns whether it exists: this is the redeclaration check, so
    /// it must not look at enclosing scopes
    #[verifier::loop_isolation(false)]
    pub fn find(&self, id: &String, symtyp: SymbolType) -> (r: bool)
        requires
            self.wf(),
        ensures
            r == frame_has(self.scopes@.last(), symtyp, id@),
    {
        let frame = &self.scopes[self.scopes.len() - 1];
        match symtyp {
            SymbolType::Var => {
                let mut i: usize = 0;
                while i < frame.var_symbols.len()
                    invariant
                        i <= frame.var_symbols@.len(),
                        forall|k: int| 0 <= k < i ==> frame.var_symbols@[k].id@ != id@,
                    decreases frame.var_symbols@.len() - i,
                {
                    if frame.var_symbols[i].id.eq(id) {
                        return true;
                    }
                    i += 1;
                }
                return false;
            },
            SymbolType::Func => {
                let mut i: usize = 0;
                while i < frame.func_symbols.len()
                    invariant
                        i <= frame.func_symbols@.len(),
                        forall|k: int| 0 <= k < i ==> frame.func_symbols@[k].id@ != id@,
                    decreases frame.func_symbols@.len() - i,
                {
                    if frame.func_symbols[i].id.eq(id) {
                        return true;
                    }
                    i += 1;
                }
                return false;
            },
            SymbolType::Struct => {
                let mut i: usize = 0;
                while i < frame.struct_symbols.len()
                    invariant
                        i <= frame.struct_symbols@.len(),
                        forall|k: int| 0 <= k < i ==> frame.struct_symbols@[k].id@ != id@,
                    decreases frame.struct_symbols@.len() - i,
                {
                    if frame.struct_symbols[i].id.eq(id) {
                        return true;
                    }
                    i += 1;
                }
                return false;
            },
        }
    }

    /// Adds a symbol to the current scope of the symbol table.
    /// Registration fails, and the table is unchanged, exactly when a
    /// symbol of the same kind and name already stands in the current
    /// scope; a declaration in an enclosing scope never blocks it
    pub fn add_symbol(
        &mut self,
        id: String,
        typ: String,
        symtyp: SymbolType,
        gen_id: String,
        arg_types: Option<Vec<String>>,
        field_names: Option<Vec<String>>,
    ) -> (added: bool)
        requires
            old(self).wf(),
        ensures
            final(self).wf(),
            added == !frame_has(old(self).scopes@.last(), symtyp, id@),
            !added ==> final(self).scopes@ == old(self).scopes@,
            final(self).scopes@.len() == old(self).scopes@.len(),
            forall|j: int|
                0 <= j < old(self).scopes@.len() - 1 ==> final(self).scopes@[j] == old(self).scopes@[j],
            added ==> match symtyp {
                SymbolType::Var => {
                    &&& final(self).scopes@.last().var_symbols@ == old(
                        self,
                    ).scopes@.last().var_symbols@.push(VarSymbol { id, typ, gen_id })
                    &&& final(self).scopes@.last().func_symbols@ == old(
                        self,
                    ).scopes@.last().func_symbols@
                    &&& final(self).scopes@.last().struct_symbols@ == old(
                        self,
                    ).scopes@.last().struct_symbols@
                },
                SymbolType::Func => {
                    &&& final(self).scopes@.last().func_symbols@.len() == old(
                        self,
                    ).scopes@.last().func_symbols@.len() + 1
                    &&& final(self).scopes@.last().func_symbols@.drop_last() == old(
                        self,
                    ).scopes@.last().func_symbols@
                    &&& final(self).scopes@.last().func_symbols@.last().id == id
                    &&& final(self).scopes@.last().func_symbols@.last().typ == typ
                    &&& final(self).scopes@.last().func_symbols@.last().gen_id == gen_id
                    &&& final(self).scopes@.last().func_symbols@.last().arg_types@ == (match arg_types {
                        Some(a) => a@,
                        None => Seq::<String>::empty(),
                    })
                    &&& final(self).scopes@.last().var_symbols@ == old(self).scopes@.last().var_symbols@
                    &&& final(self).scopes@.last().struct_symbols@ == old(
                        self,
                    ).scopes@.last().struct_symbols@
                },
                SymbolType::Struct => {
                    &&& final(self).scopes@.last().struct_symbols@.len() == old(
                        self,
                    ).scopes@.last().struct_symbols@.len() + 1
                    &&& final(self).scopes@.last().struct_symbols@.drop_last() == old(
                        self,
                    ).scopes@.last().struct_symbols@
                    &&& final(self).scopes@.last().struct_symbols@.last().id == id
                    &&& final(self).scopes@.last().struct_symbols@.last().gen_id == gen_id
                    &&& final(self).scopes@.last().struct_symbols@.last().field_names@ == (
                    match field_names {
                        Some(f) => f@,
                        None => Seq::<String>::empty(),
                    })
                    &&& final(self).scopes@.last().struct_symbols@.last().arg_types@ == (match arg_types {
                        Some(a) => a@,
                        None => Seq::<String>::empty(),
                    })
                    &&& final(self).scopes@.last().var_symbols@ == old(self).scopes@.last().var_symbols@
                    &&& final(self).scopes@.last().func_symbols@ == old(self).scopes@.last().func_symbols@
                },
            },
    {
        // If the symbol already exists in the current scope, refuse it
        if self.find(&id, symtyp) {
            return false;
        }
        // Add the new symbol to the current scope
        let n = self.scopes.len() - 1;
        let frame = &mut self.scopes[n];
        match symtyp {
            SymbolType::Var => frame.var_symbols.push(VarSymbol { id, typ, gen_id }),
            SymbolType::Func => frame.func_symbols.push(
                FuncSymbol {
                    id,
                    typ,
                    gen_id,
                    arg_types: match arg_types {
                        Some(a) => a,
                        None => Vec::new(),
                    },
                },
            ),
            SymbolType::Struct => frame.struct_symbols.push(
                StructSymbol {
                    id,
                    gen_id,
                    field_names: match field_names {
                        Some(f) => f,
                        None => Vec::new(),
                    },
                    arg_types: match arg_types {
                        Some(a) => a,
                        None => Vec::new(),
                    },
                },
            ),
        }
        true
    }

    /// Adds a scope to the symbol table: a fresh, empty frame becomes
    /// the current scope
    pub fn add_scope(&mut self)
        ensures
            final(self).wf(),
            final(self).scopes@.len() == old(self).scopes@.len() + 1,
            forall|j: int| 0 <= j < old(self).scopes@.len() ==> final(self).scopes@[j] == old(
                self,
            ).scopes@[j],
            final(self).scopes@.last().var_symbols@.len() == 0,
            final(self).scopes@.last().func_symbols@.len() == 0,
            final(self).scopes@.last().struct_symbols@.len() == 0,
    {
        self.scopes.push(
            Scope {
                var_symbols: Vec::new(),
                func_symbols: Vec::new(),
                struct_symbols: Vec::new(),
            },
        );
    }

    /// Pops a scope from the symbol table: the current scope's symbols
    /// are discarded permanently and the enclosing scope is current
    /// again. The global scope is never popped
    pub fn pop_scope(&mut self)
        requires
            old(self).scopes@.len() >= 2,
        ensures
            final(self).wf(),
            final(self).scopes@ == old(self).scopes@.drop_last(),
    {
        self.scopes.pop();
    }

    /// Finds a variable identifier, searching the current scope and
    /// then each enclosing scope in turn.
    /// Returns None if it doesn't exist
    #[verifier::loop_isolation(false)]
    pub fn find_global_var(&self, id: &String) -> (r: Option<VarSymbol>)
        ensures
            r == find_var_spec(self.scopes@, id@),
    {
        let ghost all = self.scopes@;
        proof {
            assert(all.take(all.len() as int) =~= all);
        }
        let mut j: usize = self.scopes.len();
        while j > 0
            invariant
                j <= self.scopes@.len(),
                self.scopes@ == all,
                find_var_spec(all, id@) == find_var_spec(all.take(j as int), id@),
            decreases j,
        {
            let frame = &self.scopes[j - 1];
            let ghost syms = frame.var_symbols@;
            let mut i: usize = 0;
            while i < frame.var_symbols.len()
                invariant
                    i <= syms.len(),
                    frame.var_symbols@ == syms,
                    forall|k: int| 0 <= k < i ==> syms[k].id@ != id@,
                decreases syms.len() - i,
            {
                if frame.var_symbols[i].id.eq(id) {
                    proof {
                        lemma_frame_find_var_skip(syms, id@, i as int);
                        assert(syms.skip(i as int)[0] == syms[i as int]);
                        assert(all.take(j as int).last() == all[j - 1]);
                    }
                    return Some(frame.var_symbols[i].clone());
                }
                i += 1;
            }
            proof {
                lemma_frame_find_var_skip(syms, id@, syms.len() as int);
                assert(syms.skip(syms.len() as int) =~= Seq::<VarSymbol>::empty());
                assert(all.take(j as int).last() == all[j - 1]);
                assert(all.take(j as int).drop_last() =~= all.take(j - 1));
            }
            j -= 1;
        }
        proof {
            assert(all.take(0) =~= Seq::<Scope>::empty());
        }
        None
    }

    /// Finds a function identifier, searching the current scope and
    /// then each enclosing scope in turn.
    /// Returns None if it doesn't exist
    #[verifier::loop_isolation(false)]
    pub fn find_global_func(&self, id: &String) -> (r: Option<FuncSymbol>)
        ensures
            match r {
                Some(sym) => find_func_spec(self.scopes@, id@) matches Some(f) && func_sym_eq(
                    f,
                    sym,
                ),
                None => find_func_spec(self.scopes@, id@) is None,
            },
    {
        let ghost all = self.scopes@;
        proof {
            assert(all.take(all.len() as int) =~= all);
        }
        let mut j: usize = self.scopes.len();
        while j > 0
            invariant
                j <= self.scopes@.len(),
                self.scopes@ == all,
                find_func_spec(all, id@) == find_func_spec(all.take(j as int), id@),
            decreases j,
        {
            let frame = &self.scopes[j - 1];
            let ghost syms = frame.func_symbols@;
            let mut i: usize = 0;
            while i < frame.func_symbols.len()
                invariant
                    i <= syms.len(),
                    frame.func_symbols@ == syms,
                    forall|k: int| 0 <= k < i ==> syms[k].id@ != id@,
                decreases syms.len() - i,
            {
                if frame.func_symbols[i].id.eq(id) {
                    proof {
                        lemma_frame_find_func_skip(syms, id@, i as int);
                        assert(syms.skip(i as int)[0] == syms[i as int]);
                        assert(all.take(j as int).last() == all[j - 1]);
                    }
                    return Some(frame.func_symbols[i].clone());
                }
                i += 1;
            }
            proof {
                lemma_frame_find_func_skip(syms, id@, syms.len() as int);
                assert(syms.skip(syms.len() as int) =~= Seq::<FuncSymbol>::empty());
                assert(all.take(j as int).last() == all[j - 1]);
                assert(all.take(j as int).drop_last() =~= all.take(j - 1));
            }
            j -= 1;
        }
        proof {
            assert(all.take(0) =~= Seq::<Scope>::empty());
        }
        None
    }

    /// Finds a struct identifier, searching the current scope and then
    /// each enclosing scope in turn.
    /// Returns None if it doesn't exist
    #[verifier::loop_isolation(false)]
    pub fn find_global_struct(&self, id: &String) -> (r: Option<StructSymbol>)
        ensures
            match r {
                Some(sym) => find_struct_spec(self.scopes@, id@) matches Some(s) && struct_sym_eq(
                    s,
                    sym,
                ),
                None => find_struct_spec(self.scopes@, id@) is None,
            },
    {
        let ghost all = self.scopes@;
        proof {
            assert(all.take(all.len() as int) =~= all);
        }
        let mut j: usize = self.scopes.len();
        while j > 0
            invariant
                j <= self.scopes@.len(),
                self.scopes@ == all,
                find_struct_spec(all, id@) == find_struct_spec(all.take(j as int), id@),
            decreases j,
        {
            let frame = &self.scopes[j - 1];
            let ghost syms = frame.struct_symbols@;
            let mut i: usize = 0;
            while i < frame.struct_symbols.len()
                invariant
                    i <= syms.len(),
                    frame.struct_symbols@ == syms,
                    forall|k: int| 0 <= k < i ==> syms[k].id@ != id@,
                decreases syms.len() - i,
            {
                if frame.struct_symbols[i].id.eq(id) {
                    proof {
                        lemma_frame_find_struct_skip(syms, id@, i as int);
                        assert(syms.skip(i as int)[0] == syms[i as int]);
                        assert(all.take(j as int).last() == all[j - 1]);
                    }
                    return Some(frame.struct_symbols[i].clone());
                }
                i += 1;
            }
            proof {
                lemma_frame_find_struct_skip(syms, id@, syms.len() as int);
                assert(syms.skip(syms.len() as int) =~= Seq::<StructSymbol>::empty());
                assert(all.take(j as int).last() == all[j - 1]);
                assert(all.take(j as int).drop_last() =~= all.take(j - 1));
            }
            j -= 1;
        }
        proof {
            assert(all.take(0) =~= Seq::<Scope>::empty());
        }
        None
    }
}

/// How many characters of `w` appear somewhere in `w2`, counted with
/// multiplicity over `w`
pub open spec fn shared_count(w: Seq<char>, w2: Seq<char>) -> nat
    decreases w.len(),
{
    if w.len() == 0 {
        0
    } else {
        shared_count(w.drop_last(), w2) + if w2.contains(w.last()) {
            1nat
        } else {
            0nat
        }
    }
}

/// The similarity of two words as an exact fraction: the count of
/// shared characters over the longer length. A numerator and a
/// denominator stand for the score, so no rounding happens
pub open spec fn sim_den(a: Seq<char>, b: Seq<char>) -> nat {
    if a.len() >= b.len() {
        a.len()
    } else {
        b.len()
    }
}

/// One score strictly beats another, compared as exact fractions by
/// cross-multiplication; a zero denominator (two empty words) never
/// beats anything
pub open spec fn sim_beats(n_new: nat, d_new: nat, n_best: nat, d_best: nat) -> bool {
    n_new * d_best > n_best * d_new
}

/// The best suggestion among the first `k` candidate names: the first
/// candidate with the strictly highest similarity score, or the word
/// itself when no candidate scores above zero.
/// The result carries the name and its score
pub open spec fn autoc_fold(word: Seq<char>, names: Seq<String>, k: int) -> (Seq<char>, nat, nat)
    decreases k,
{
    if k <= 0 {
        (word, 0nat, 1nat)
    } else {
        let prev = autoc_fold(word, names, k - 1);
        let cand = names[k - 1]@;
        let n = shared_count(cand, word);
        let d = sim_den(cand, word);
        if sim_beats(n, d, prev.1, prev.2) {
            (cand, n, d)
        } else {
            prev
        }
    }
}

/// The suggestion for a misspelled word: the candidate name most
/// similar to it, ties going to the first found, or the word itself
pub open spec fn autoc_spec(word: Seq<char>, names: Seq<String>) -> Seq<char> {
    autoc_fold(word, names, names.len() as int).0
}

/// Whether a string holds the character anywhere
#[verifier::loop_isolation(false)]
fn contains_char(s: &String, c: char) -> (r: bool)
    ensures
        r == s@.contains(c),
{
    let len = s.as_str().unicode_len();
    let mut j: usize = 0;
    while j < len
        invariant
            j <= s@.len(),
            len == s@.len(),
            forall|k: int| 0 <= k < j ==> s@[k] != c,
        decreases len - j,
    {
        if s.as_str().get_char(j) == c {
            assert(s@.contains(c));
            return true;
        }
        j += 1;
    }
    false
}

/// The similarity of two words: how many characters of the first
/// appear in the second, over the longer length, as an exact fraction
#[verifier::loop_isolation(false)]
fn similarity(word: &String, word2: &String) -> (r: (usize, usize))
    ensures
        r.0 == shared_count(word@, word2@),
        r.1 == sim_den(word@, word2@),
{
    let len = word.as_str().unicode_len();
    let len2 = word2.as_str().unicode_len();
    let mut similar: usize = 0;
    let mut i: usize = 0;
    while i < len
        invariant
            i <= word@.len(),
            len == word@.len(),
            similar == shared_count(word@.take(i as int), word2@),
            similar <= i,
        decreases len - i,
    {
        let c = word.as_str().get_char(i);
        proof {
            assert(word@.take(i + 1).drop_last() =~= word@.take(i as int));
            assert(word@.take(i + 1).last() == word@[i as int]);
        }
        if contains_char(word2, c) {
            similar += 1;
        }
        i += 1;
    }
    proof {
        assert(word@.take(len as int) =~= word@);
    }
    if len >= len2 {
        (similar, len)
    } else {
        (similar, len2)
    }
}

/// Picks from the candidate names the one most similar to the given
/// word; when no candidate shares a character with it, the word comes
/// back unchanged
#[verifier::loop_isolation(false)]
pub fn autoc(word: String, names: Vec<String>) -> (r: String)
    ensures
        r@ == autoc_spec(word@, names@),
{
    let mut best: String = word.clone();
    let mut bn: usize = 0;
    let mut bd: usize = 1;
    let mut k: usize = 0;
    while k < names.len()
        invariant
            k <= names@.len(),
            best@ == autoc_fold(word@, names@, k as int).0,
            bn as nat == autoc_fold(word@, names@, k as int).1,
            bd as nat == autoc_fold(word@, names@, k as int).2,
        decreases names@.len() - k,
    {
        let (n, d) = similarity(&names[k], &word);
        proof {
            assert((n as int) * (bd as int) <= u128::MAX as int && (bn as int) * (d as int)
                <= u128::MAX as int) by (nonlinear_arith)
                requires
                    n as int <= u64::MAX as int,
                    bd as int <= u64::MAX as int,
                    bn as int <= u64::MAX as int,
                    d as int <= u64::MAX as int,
            ;
        }
        if (n as u128) * (bd as u128) > (bn as u128) * (d as u128) {
            best = names[k].clone();
            bn = n;
            bd = d;
        }
        k += 1;
    }
    best
}

/// The names of the variable symbols of a scope, in order
pub open spec fn var_ids(syms: Seq<VarSymbol>) -> Seq<String> {
    syms.map_values(|s: VarSymbol| s.id)
}

/// The names of the function symbols of a scope, in order
pub open spec fn func_ids(syms: Seq<FuncSymbol>) -> Seq<String> {
    syms.map_values(|s: FuncSymbol| s.id)
}

/// The names of the struct symbols of a scope, in order
pub open spec fn struct_ids(syms: Seq<StructSymbol>) -> Seq<String> {
    syms.map_values(|s: StructSymbol| s.id)
}

/// The "did you mean" text offered for an undefined name, given the
/// same-kind names of the immediate scope
pub open spec fn suggestion_spec(id: Seq<char>, ids: Seq<String>) -> Seq<char> {
    if autoc_spec(id, ids) == id {
        "Perhaps you spelled this identifier wrong"@
    } else {
        "Perhaps you meant '"@ + autoc_spec(id, ids) + "'"@
    }
}

/// Builds the suggestion text for an undefined name
fn build_suggestion(id: &String, ids: Vec<String>) -> (r: String)
    ensures
        r@ == suggestion_spec(id@, ids@),
{
    let a = autoc(id.clone(), ids);
    if a.eq(id) {
        String::from_str("Perhaps you spelled this identifier wrong")
    } else {
        let mut s = String::from_str("Perhaps you meant '");
        s.append(a.as_str());
        s.append("'");
        s
    }
}

impl SymbolController {
    /// Finds a variable identifier through the open scopes.
    /// Fails, with an "undefined symbol" diagnostic carrying a
    /// suggestion, exactly when no scope declares it
    #[verifier::loop_isolation(false)]
    pub fn find_global_var_error(&self, id: String, token: &Token) -> (r: Result<
        VarSymbol,
        Error,
    >)
        requires
            self.wf(),
        ensures
            match r {
                Ok(sym) => find_var_spec(self.scopes@, id@) == Some(sym),
                Err(e) => {
                    &&& find_var_spec(self.scopes@, id@) is None
                    &&& e.typ == ErrorType::UndefinedSymbol
                    &&& e.location.0 == token.lineno
                    &&& e.location.1 == token.col
                    &&& e.helpers@ == "note: "@ + "Undefined symbol '"@ + id@ + "'"@ + "\n"@ + "help: "@
                        + suggestion_spec(id@, var_ids(self.scopes@.last().var_symbols@)) + "\n"@
                },
            },
    {
        let sym = self.find_global_var(&id);
        match sym {
            Some(s) => Ok(s),
            None => {
                // Gather the variable names of the immediate scope for
                // the suggestion
                let frame = &self.scopes[self.scopes.len() - 1];
                let mut cur_ids: Vec<String> = Vec::new();
                let mut i: usize = 0;
                while i < frame.var_symbols.len()
                    invariant
                        i <= frame.var_symbols@.len(),
                        cur_ids@ =~= var_ids(frame.var_symbols@.take(i as int)),
                    decreases frame.var_symbols@.len() - i,
                {
                    cur_ids.push(frame.var_symbols[i].id.clone());
                    i += 1;
                }
                proof {
                    assert(frame.var_symbols@.take(i as int) =~= frame.var_symbols@);
                    assert(cur_ids@ =~= var_ids(frame.var_symbols@));
                }
                let helper = build_suggestion(&id, cur_ids);
                let mut note_text = String::from_str("Undefined symbol '");
                note_text.append(id.as_str());
                note_text.append("'");
                let mut e = error(ErrorType::UndefinedSymbol, token);
                e.note(note_text.as_str());
                e.help(helper.as_str());
                proof {
                    assert(e.helpers@ =~= "note: "@ + "Undefined symbol '"@ + id@ + "'"@ + "\n"@ + "help: "@
                        + suggestion_spec(id@, var_ids(self.scopes@.last().var_symbols@))
                        + "\n"@);
                }
                Err(e)
            },
        }
    }

    /// Finds a function identifier through the open scopes.
    /// Fails, with an "undefined symbol" diagnostic carrying a
    /// suggestion, exactly when no scope declares it
    #[verifier::loop_isolation(false)]
    pub fn find_global_func_error(&self, id: String, token: &Token) -> (r: Result<
        FuncSymbol,
        Error,
    >)
        requires
            self.wf(),
        ensures
            match r {
                Ok(sym) => find_func_spec(self.scopes@, id@) matches Some(f) && func_sym_eq(
                    f,
                    sym,
                ),
                Err(e) => {
                    &&& find_func_spec(self.scopes@, id@) is None
                    &&& e.typ == ErrorType::UndefinedSymbol
                    &&& e.location.0 == token.lineno
                    &&& e.location.1 == token.col
                    &&& e.helpers@ == "note: "@ + "Undefined symbol '"@ + id@ + "'"@ + "\n"@ + "help: "@
                        + suggestion_spec(id@, func_ids(self.scopes@.last().func_symbols@)) + "\n"@
                },
            },
    {
        let sym = self.find_global_func(&id);
        match sym {
            Some(s) => Ok(s),
            None => {
                // Gather the function names of the immediate scope for
                // the suggestion
                let frame = &self.scopes[self.scopes.len() - 1];
                let mut cur_ids: Vec<String> = Vec::new();
                let mut i: usize = 0;
                while i < frame.func_symbols.len()
                    invariant
                        i <= frame.func_symbols@.len(),
                        cur_ids@ =~= func_ids(frame.func_symbols@.take(i as int)),
                    decreases frame.func_symbols@.len() - i,
                {
                    cur_ids.push(frame.func_symbols[i].id.clone());
                    i += 1;
                }
                proof {
                    assert(frame.func_symbols@.take(i as int) =~= frame.func_symbols@);
                    assert(cur_ids@ =~= func_ids(frame.func_symbols@));
                }
                let helper = build_suggestion(&id, cur_ids);
                let mut note_text = String::from_str("Undefined symbol '");
                note_text.append(id.as_str());
                note_text.append("'");
                let mut e = error(ErrorType::UndefinedSymbol, token);
                e.note(note_text.as_str());
                e.help(helper.as_str());
                proof {
                    assert(e.helpers@ =~= "note: "@ + "Undefined symbol '"@ + id@ + "'"@ + "\n"@ + "help: "@
                        + suggestion_spec(id@, func_ids(self.scopes@.last().func_symbols@))
                        + "\n"@);
                }
                Err(e)
            },
        }
    }

    /// Finds a struct identifier through the open scopes.
    /// Fails, with an "undefined symbol" diagnostic carrying a
    /// suggestion, exactly when no scope declares it
    #[verifier::loop_isolation(false)]
    pub fn find_global_struct_error(&self, id: String, token: &Token) -> (r: Result<
        StructSymbol,
        Error,
    >)
        requires
            self.wf(),
        ensures
            match r {
                Ok(sym) => find_struct_spec(self.scopes@, id@) matches Some(s) && struct_sym_eq(
                    s,
                    sym,
                ),
                Err(e) => {
                    &&& find_struct_spec(self.scopes@, id@) is None
                    &&& e.typ == ErrorType::UndefinedSymbol
                    &&& e.location.0 == token.lineno
                    &&& e.location.1 == token.col
                    &&& e.helpers@ == "note: "@ + "'"@ + id@ + "' is undefined"@ + "\n"@ + "help: "@
                        + suggestion_spec(id@, struct_ids(self.scopes@.last().struct_symbols@))
                        + "\n"@
                },
            },
    {
        let sym = self.find_global_struct(&id);
        match sym {
            Some(s) => Ok(s),
            None => {
                // Gather the struct names of the immediate scope for
                // the suggestion
                let frame = &self.scopes[self.scopes.len() - 1];
                let mut cur_ids: Vec<String> = Vec::new();
                let mut i: usize = 0;
                while i < frame.struct_symbols.len()
                    invariant
                        i <= frame.struct_symbols@.len(),
                        cur_ids@ =~= struct_ids(frame.struct_symbols@.take(i as int)),
                    decreases frame.struct_symbols@.len() - i,
                {
                    cur_ids.push(frame.struct_symbols[i].id.clone());
                    i += 1;
                }
                proof {
                    assert(frame.struct_symbols@.take(i as int) =~= frame.struct_symbols@);
                    assert(cur_ids@ =~= struct_ids(frame.struct_symbols@));
                }
                let helper = build_suggestion(&id, cur_ids);
                let mut note_text = String::from_str("'");
                note_text.append(id.as_str());
                note_text.append("' is undefined");
                let mut e = error(ErrorType::UndefinedSymbol, token);
                e.note(note_text.as_str());
                e.help(helper.as_str());
                proof {
                    assert(e.helpers@ =~= "note: "@ + "'"@ + id@ + "' is undefined"@ + "\n"@ + "help: "@
                        + suggestion_spec(id@, struct_ids(self.scopes@.last().struct_symbols@))
                        + "\n"@);
                }
                Err(e)
            },
        }
    }
}

/// Shadowing: while an inner scope that declares a name is open, the
/// inner declaration wins the lookup; once that scope is popped, the
/// lookup gives exactly what it gave before the scope opened
pub proof fn lemma_shadowing(scopes: Seq<Scope>, frame: Scope, v: VarSymbol)
    requires
        frame_find_var(frame.var_symbols@, v.id@) == Some(v),
    ensures
        find_var_spec(scopes.push(frame), v.id@) == Some(v),
        find_var_spec(scopes.push(frame).drop_last(), v.id@) == find_var_spec(scopes, v.id@),
{
    assert(scopes.push(frame).last() == frame);
    assert(scopes.push(frame).drop_last() =~= scopes);
}

/// A fresh scope declares nothing yet, so declaring any name there
/// succeeds, whatever the enclosing scopes declare
pub proof fn lemma_fresh_scope_accepts(f: Scope, k: SymbolType, id: Seq<char>)
    requires
        f.var_symbols@.len() == 0,
        f.func_symbols@.len() == 0,
        f.struct_symbols@.len() == 0,
    ensures
        !frame_has(f, k, id),
{
}

} // verus!
