use vstd::prelude::*;

use crate::diagnostic::{Diagnostic, DiagnosticKind};
use crate::tokens::Token;

verus! {

/// The type of a variable: a reference to a type symbol.
#[derive(Debug, Clone, Copy, PartialEq, Eq, Structural)]
pub enum Type {
    Named(SymbolID),
}

/// How a type symbol is defined.
#[derive(Debug, Clone, Copy, PartialEq, Eq, Structural)]
pub enum TypeDef {
    Primative,
}

#[derive(Debug, Clone, Copy, PartialEq, Eq, Structural)]
pub struct VarInfo {
    pub var_type: Type,
}

#[derive(Debug, Clone, Copy, PartialEq, Eq, Structural)]
pub enum SymbolKind {
    Var(VarInfo),
    Type(TypeDef),
}

/// What is known of a symbol: the line it was declared on, and what it names.
#[derive(Debug, Clone, Copy, PartialEq, Eq, Structural)]
pub struct SymbolInfo {
    pub line: i32,
    pub kind: SymbolKind,
}

/// The identity of a symbol: its index in the table's store, never reused.
#[derive(Debug, Clone, Copy, PartialEq, Eq, Structural)]
pub struct SymbolID(pub usize);

/// One lexical scope: names bound to symbols.
pub type ScopeModel = Seq<(Seq<char>, SymbolID)>;

/// The contents of a symbol table: its scope stack, innermost last, and its store.
pub struct SymbolsModel {
    pub scopes: Seq<ScopeModel>,
    pub variables: Seq<SymbolInfo>,
}

/// The symbol bound to `name` in one scope.
pub open spec fn scope_lookup(scope: ScopeModel, name: Seq<char>) -> Option<SymbolID>
    decreases scope.len(),
{
    if scope.len() == 0 {
        None
    } else if scope.last().0 == name {
        Some(scope.last().1)
    } else {
        scope_lookup(scope.drop_last(), name)
    }
}

/// The symbol that `name` denotes, searching from the innermost scope outwards.
pub open spec fn resolve(scopes: Seq<ScopeModel>, name: Seq<char>) -> Option<SymbolID>
    decreases scopes.len(),
{
    if scopes.len() == 0 {
        None
    } else {
        match scope_lookup(scopes.last(), name) {
            Some(id) => Some(id),
            None => resolve(scopes.drop_last(), name),
        }
    }
}

/// The symbol table after a new innermost scope is opened.
pub open spec fn pushed(m: SymbolsModel) -> SymbolsModel {
    SymbolsModel { scopes: m.scopes.push(Seq::empty()), variables: m.variables }
}

/// The symbol table after its innermost scope is closed.
pub open spec fn popped(m: SymbolsModel) -> SymbolsModel {
    SymbolsModel { scopes: m.scopes.drop_last(), variables: m.variables }
}

/// The symbol table after `name` is bound, in the innermost scope, to a new symbol.
pub open spec fn with_symbol(m: SymbolsModel, name: Seq<char>, info: SymbolInfo) -> SymbolsModel {
    SymbolsModel {
        scopes: m.scopes.update(
            m.scopes.len() - 1,
            m.scopes.last().push((name, SymbolID(m.variables.len() as usize))),
        ),
        variables: m.variables.push(info),
    }
}

/// The outcome of looking up a type name.
pub open spec fn type_id_spec(m: SymbolsModel, type_token: Token) -> Result<SymbolID, Diagnostic> {
    match resolve(m.scopes, type_token.lexeme@) {
        Some(id) if m.variables[id.0 as int].kind is Type => Ok(id),
        _ => Err(
            Diagnostic {
                line: type_token.line,
                kind: DiagnosticKind::TypeUnknown { name: type_token.lexeme },
            },
        ),
    }
}

/// The outcome of looking up a variable name.
pub open spec fn var_id_spec(m: SymbolsModel, var_token: Token) -> Result<SymbolID, Diagnostic> {
    match resolve(m.scopes, var_token.lexeme@) {
        Some(id) if m.variables[id.0 as int].kind is Var => Ok(id),
        _ => Err(
            Diagnostic {
                line: var_token.line,
                kind: DiagnosticKind::VarUnknown { var_name: var_token.lexeme },
            },
        ),
    }
}

/// The outcome of declaring a variable, and the table after it.
pub open spec fn add_var_spec(m: SymbolsModel, var_token: Token, type_token: Token) -> (
    Result<SymbolID, Diagnostic>,
    SymbolsModel,
) {
    match scope_lookup(m.scopes.last(), var_token.lexeme@) {
        Some(id) => (
            Err(
                Diagnostic {
                    line: var_token.line,
                    kind: DiagnosticKind::VarRedeclared {
                        original_line: m.variables[id.0 as int].line,
                        var_name: var_token.lexeme,
                    },
                },
            ),
            m,
        ),
        None => match type_id_spec(m, type_token) {
            Err(d) => (Err(d), m),
            Ok(type_id) => (
                Ok(SymbolID(m.variables.len() as usize)),
                with_symbol(
                    m,
                    var_token.lexeme@,
                    SymbolInfo {
                        line: var_token.line,
                        kind: SymbolKind::Var(VarInfo { var_type: Type::Named(type_id) }),
                    },
                ),
            ),
        },
    }
}

/// Well formed: a global scope exists, names are unique within each scope, and every bound
/// symbol is in the store.
pub open spec fn model_wf(m: SymbolsModel) -> bool {
    &&& m.scopes.len() >= 1
    &&& forall|s: int, i: int, j: int|
        0 <= s < m.scopes.len() && 0 <= i < j < m.scopes[s].len() ==> #[trigger] m.scopes[s][i].0
            != #[trigger] m.scopes[s][j].0
    &&& forall|s: int, i: int|
        0 <= s < m.scopes.len() && 0 <= i < m.scopes[s].len() ==> (#[trigger] m.scopes[s][i]).1.0
            < m.variables.len()
}

pub proof fn lemma_scope_lookup(scope: ScopeModel, name: Seq<char>)
    ensures
        scope_lookup(scope, name) is None <==> forall|i: int|
            0 <= i < scope.len() ==> #[trigger] scope[i].0 != name,
        scope_lookup(scope, name) matches Some(id) ==> exists|i: int|
            0 <= i < scope.len() && #[trigger] scope[i] == (name, id),
    decreases scope.len(),
{
    if scope.len() > 0 {
        lemma_scope_lookup(scope.drop_last(), name);
        if scope_lookup(scope, name) is None {
            assert forall|i: int| 0 <= i < scope.len() implies #[trigger] scope[i].0 != name by {
                if i < scope.len() - 1 {
                    assert(scope.drop_last()[i] == scope[i]);
                }
            }
        }
        if let Some(id) = scope_lookup(scope.drop_last(), name) {
            let i = choose|i: int| 0 <= i < scope.drop_last().len() && scope.drop_last()[i] == (name, id);
            assert(scope[i] == (name, id));
        }
    }
}

proof fn lemma_resolve_bound(m: SymbolsModel, name: Seq<char>, n: int)
    requires
        model_wf(m),
        0 <= n <= m.scopes.len(),
    ensures
        resolve(m.scopes.take(n), name) matches Some(id) ==> id.0 < m.variables.len(),
    decreases n,
{
    let sc = m.scopes.take(n);
    if n > 0 {
        assert(sc.drop_last() =~= m.scopes.take(n - 1));
        lemma_resolve_bound(m, name, n - 1);
        lemma_scope_lookup(sc.last(), name);
        if let Some(id) = scope_lookup(sc.last(), name) {
            let i = choose|i: int| 0 <= i < sc.last().len() && sc.last()[i] == (name, id);
            assert(m.scopes[n - 1][i] == (name, id));
        }
    }
}

/// Resolving a name in a well formed table yields a symbol of its store.
pub proof fn lemma_resolve_in_store(m: SymbolsModel, name: Seq<char>)
    requires
        model_wf(m),
    ensures
        resolve(m.scopes, name) matches Some(id) ==> id.0 < m.variables.len(),
{
    lemma_resolve_bound(m, name, m.scopes.len() as int);
    assert(m.scopes.take(m.scopes.len() as int) =~= m.scopes);
}

/// Looking a name up in the innermost scope yields a symbol of the store.
pub proof fn lemma_lookup_in_store(m: SymbolsModel, name: Seq<char>)
    requires
        model_wf(m),
    ensures
        scope_lookup(m.scopes.last(), name) matches Some(id) ==> id.0 < m.variables.len(),
{
    lemma_scope_lookup(m.scopes.last(), name);
    if let Some(id) = scope_lookup(m.scopes.last(), name) {
        let i = choose|i: int| 0 <= i < m.scopes.last().len() && m.scopes.last()[i] == (name, id);
        assert(m.scopes[m.scopes.len() - 1][i] == (name, id));
    }
}

/// Binding a name absent from the innermost scope keeps the table well formed.
pub proof fn lemma_with_symbol_wf(m: SymbolsModel, name: Seq<char>, info: SymbolInfo)
    requires
        model_wf(m),
        scope_lookup(m.scopes.last(), name) is None,
    ensures
        model_wf(with_symbol(m, name, info)),
{
    lemma_scope_lookup(m.scopes.last(), name);
    let r = with_symbol(m, name, info);
    let last = m.scopes.len() - 1;
    assert forall|s: int, i: int, j: int|
        0 <= s < r.scopes.len() && 0 <= i < j < r.scopes[s].len() implies #[trigger] r.scopes[s][i].0
        != #[trigger] r.scopes[s][j].0 by {
        if s == last && j == r.scopes[s].len() - 1 {
            assert(m.scopes.last()[i].0 != name);
        } else if s == last {
            assert(r.scopes[s][i] == m.scopes[s][i]);
            assert(r.scopes[s][j] == m.scopes[s][j]);
        }
    }
    assert forall|s: int, i: int|
        0 <= s < r.scopes.len() && 0 <= i < r.scopes[s].len() implies (
        #[trigger] r.scopes[s][i]).1.0 < r.variables.len() by {
        if s == last && i < r.scopes[s].len() - 1 {
            assert(r.scopes[s][i] == m.scopes[s][i]);
        }
    }
}

/// Declaring a name twice in the same scope fails the second time with `VarRedeclared`,
/// citing the line of the first declaration, and leaves the table as it was.
pub proof fn lemma_redeclared(m: SymbolsModel, first: Token, first_type: Token, second: Token, second_type: Token)
    requires
        model_wf(m),
        m.variables.len() < usize::MAX,
        add_var_spec(m, first, first_type).0 is Ok,
        second.lexeme@ == first.lexeme@,
    ensures
        ({
            let m1 = add_var_spec(m, first, first_type).1;
            add_var_spec(m1, second, second_type) == (
                Err::<SymbolID, Diagnostic>(
                    Diagnostic {
                        line: second.line,
                        kind: DiagnosticKind::VarRedeclared {
                            original_line: first.line,
                            var_name: second.lexeme,
                        },
                    },
                ),
                m1,
            )
        }),
{
    let m1 = add_var_spec(m, first, first_type).1;
    assert(m1.scopes.last() == m.scopes.last().push((first.lexeme@, SymbolID(m.variables.len() as usize))));
}

/// A name declared in an outer scope may be declared again in an inner one: that succeeds,
/// references inside the inner scope resolve to the inner symbol, and once the inner scope
/// is closed they resolve to the outer symbol again.
pub proof fn lemma_shadowing(
    m: SymbolsModel,
    outer: Token,
    outer_type: Token,
    inner: Token,
    inner_type: Token,
    reference: Token,
)
    requires
        model_wf(m),
        m.variables.len() + 1 < usize::MAX,
        add_var_spec(m, outer, outer_type).0 is Ok,
        inner.lexeme@ == outer.lexeme@,
        reference.lexeme@ == outer.lexeme@,
        type_id_spec(pushed(add_var_spec(m, outer, outer_type).1), inner_type) is Ok,
    ensures
        ({
            let (outer_id, m1) = add_var_spec(m, outer, outer_type);
            let (inner_id, m2) = add_var_spec(pushed(m1), inner, inner_type);
            &&& inner_id is Ok
            &&& inner_id != outer_id
            &&& var_id_spec(m2, reference) == inner_id
            &&& var_id_spec(popped(m2), reference) == outer_id
        }),
{
    let (outer_id, m1) = add_var_spec(m, outer, outer_type);
    let name = outer.lexeme@;
    let q1 = pushed(m1);
    assert(q1.scopes.last() =~= Seq::<(Seq<char>, SymbolID)>::empty());
    let (inner_id, m2) = add_var_spec(q1, inner, inner_type);
    assert(m2.scopes.last() == q1.scopes.last().push((name, SymbolID(m1.variables.len() as usize))));
    assert(scope_lookup(m2.scopes.last(), name) == Some(SymbolID(m1.variables.len() as usize)));
    assert(popped(m2).scopes =~= m1.scopes);
    assert(m1.scopes.last() == m.scopes.last().push((name, SymbolID(m.variables.len() as usize))));
    assert(scope_lookup(m1.scopes.last(), name) == Some(SymbolID(m.variables.len() as usize)));
    assert(popped(m2).variables[m.variables.len() as int] == m1.variables[m.variables.len() as int]);
}

/// A stack of scopes over a flat store of symbols.
pub struct Symbols {
    scopes: Vec<Vec<(String, SymbolID)>>,
    variables: Vec<SymbolInfo>,
}

pub open spec fn scope_view(scope: Seq<(String, SymbolID)>) -> ScopeModel {
    scope.map_values(|e: (String, SymbolID)| (e.0@, e.1))
}

impl View for Symbols {
    type V = SymbolsModel;

    closed spec fn view(&self) -> SymbolsModel {
        SymbolsModel {
            scopes: self.scopes@.map_values(|s: Vec<(String, SymbolID)>| scope_view(s@)),
            variables: self.variables@,
        }
    }
}

/// The single primitive type that every table knows from the start.
pub open spec fn primitive_name() -> Seq<char> {
    "int"@
}

/// What the store records of a built-in type: it has no line of its own.
pub open spec fn primitive_info() -> SymbolInfo {
    SymbolInfo { line: -1i32, kind: SymbolKind::Type(TypeDef::Primative) }
}

/// A new table: the global scope, holding the primitive type and nothing else.
pub open spec fn initial_symbols() -> SymbolsModel {
    SymbolsModel {
        scopes: seq![seq![(primitive_name(), SymbolID(0))]],
        variables: seq![primitive_info()],
    }
}

fn find_in_scope(scope: &Vec<(String, SymbolID)>, name: &String) -> (r: Option<SymbolID>)
    ensures
        r == scope_lookup(scope_view(scope@), name@),
{
    let ghost full = scope_view(scope@);
    let mut i: usize = scope.len();
    assert(full.take(i as int) =~= full);
    while i > 0
        invariant
            i <= scope.len(),
            full == scope_view(scope@),
            scope_lookup(full.take(i as int), name@) == scope_lookup(full, name@),
        decreases i,
    {
        i = i - 1;
        assert(full.take(i + 1).drop_last() =~= full.take(i as int));
        if scope[i].0 == *name {
            return Some(scope[i].1);
        }
    }
    None
}

impl Symbols {
    pub open spec fn wf(&self) -> bool {
        model_wf(self@)
    }

    pub fn new() -> (r: Symbols)
        ensures
            r.wf(),
            r@ == initial_symbols(),
    {
        let mut symbols = Symbols { scopes: Vec::new(), variables: Vec::new() };
        symbols.push_scope();
        symbols.register_primative("int");
        assert(symbols@.scopes =~= seq![seq![(primitive_name(), SymbolID(0))]]);
        assert(symbols@.variables =~= seq![primitive_info()]);
        symbols
    }

    /// How many scopes are open, the global one included.
    pub fn scope_depth(&self) -> (r: usize)
        ensures
            r == self@.scopes.len(),
    {
        self.scopes.len()
    }

    /// Opens a new innermost scope.
    pub fn push_scope(&mut self)
        ensures
            final(self)@ == pushed(old(self)@),
            old(self).wf() ==> final(self).wf(),
    {
        let empty: Vec<(String, SymbolID)> = Vec::new();
        assert(scope_view(empty@) =~= Seq::empty());
        self.scopes.push(empty);
        assert(self@.scopes =~= pushed(old(self)@).scopes);
    }

    /// Closes the innermost scope; the global scope stays.
    pub fn pop_scope(&mut self)
        requires
            old(self).wf(),
            old(self)@.scopes.len() > 1,
        ensures
            final(self)@ == popped(old(self)@),
            final(self).wf(),
    {
        self.scopes.pop();
        assert(self@.scopes =~= popped(old(self)@).scopes);
        assert(model_wf(self@)) by {
            assert forall|s: int| 0 <= s < self@.scopes.len() implies self@.scopes[s] == old(self)@.scopes[s] by {}
        }
    }

    /// Declares a variable in the innermost scope.
    pub fn add_local_var(&mut self, var_token: &Token, type_token: &Token) -> (r: Result<SymbolID, Diagnostic>)
        requires
            old(self).wf(),
        ensures
            final(self).wf(),
            (r, final(self)@) == add_var_spec(old(self)@, *var_token, *type_token),
    {
        let last = self.scopes.len() - 1;
        proof { lemma_lookup_in_store(self@, var_token.lexeme@); }
        if let Some(sym) = find_in_scope(&self.scopes[last], &var_token.lexeme) {
            return Err(
                Diagnostic {
                    line: var_token.line,
                    kind: DiagnosticKind::VarRedeclared {
                        original_line: self.variables[sym.0].line,
                        var_name: var_token.lexeme.clone(),
                    },
                },
            );
        }
        let type_id = match self.get_type_id(type_token) {
            Ok(id) => id,
            Err(d) => return Err(d),
        };
        proof {
            let info = SymbolInfo {
                line: var_token.line,
                kind: SymbolKind::Var(VarInfo { var_type: Type::Named(type_id) }),
            };
            lemma_with_symbol_wf(self@, var_token.lexeme@, info);
        }
        let symbol = self.add_symbol(
            &var_token.lexeme,
            SymbolInfo {
                line: var_token.line,
                kind: SymbolKind::Var(VarInfo { var_type: Type::Named(type_id) }),
            },
        );
        Ok(symbol)
    }

    /// The variable that a name denotes, searching from the innermost scope outwards.
    pub fn get_local_var_id(&self, var_token: &Token) -> (r: Result<SymbolID, Diagnostic>)
        requires
            self.wf(),
        ensures
            r == var_id_spec(self@, *var_token),
    {
        match self.get_symbol(&var_token.lexeme) {
            Some((id, info)) if matches!(info.kind, SymbolKind::Var(_)) => Ok(id),
            _ => Err(
                Diagnostic {
                    line: var_token.line,
                    kind: DiagnosticKind::VarUnknown { var_name: var_token.lexeme.clone() },
                },
            ),
        }
    }

    /// The type that a name denotes, searching from the innermost scope outwards.
    pub fn get_type_id(&self, type_token: &Token) -> (r: Result<SymbolID, Diagnostic>)
        requires
            self.wf(),
        ensures
            r == type_id_spec(self@, *type_token),
    {
        match self.get_symbol(&type_token.lexeme) {
            Some((id, info)) if matches!(info.kind, SymbolKind::Type(_)) => Ok(id),
            _ => Err(
                Diagnostic {
                    line: type_token.line,
                    kind: DiagnosticKind::TypeUnknown { name: type_token.lexeme.clone() },
                },
            ),
        }
    }

    fn get_symbol_id(&self, name: &String) -> (r: Option<SymbolID>)
        ensures
            r == resolve(self@.scopes, name@),
    {
        let ghost full = self@.scopes;
        let mut k: usize = self.scopes.len();
        assert(full.take(k as int) =~= full);
        while k > 0
            invariant
                k <= self.scopes.len(),
                full == self@.scopes,
                resolve(full.take(k as int), name@) == resolve(full, name@),
            decreases k,
        {
            k = k - 1;
            assert(full.take(k + 1).drop_last() =~= full.take(k as int));
            assert(full.take(k + 1).last() == scope_view(self.scopes[k as int]@));
            if let Some(id) = find_in_scope(&self.scopes[k], name) {
                return Some(id);
            }
        }
        None
    }

    fn get_symbol(&self, name: &String) -> (r: Option<(SymbolID, &SymbolInfo)>)
        requires
            self.wf(),
        ensures
            match resolve(self@.scopes, name@) {
                Some(id) => r matches Some((rid, info)) && rid == id && id.0 < self@.variables.len()
                    && *info == self@.variables[id.0 as int],
                None => r is None,
            },
    {
        proof { lemma_resolve_in_store(self@, name@); }
        let symbol = self.get_symbol_id(name)?;
        Some((symbol, &self.variables[symbol.0]))
    }

    fn make_symbol_id(&self) -> (r: SymbolID)
        ensures
            r == SymbolID(self@.variables.len() as usize),
    {
        SymbolID(self.variables.len())
    }

    /// Binds `name` in the innermost scope to a new symbol described by `info`.
    fn add_symbol(&mut self, name: &String, info: SymbolInfo) -> (r: SymbolID)
        requires
            old(self)@.scopes.len() >= 1,
        ensures
            r == SymbolID(old(self)@.variables.len() as usize),
            final(self)@ == with_symbol(old(self)@, name@, info),
    {
        let symbol = self.make_symbol_id();
        let last = self.scopes.len() - 1;
        let mut scope = Vec::new();
        std::mem::swap(&mut scope, &mut self.scopes[last]);
        let ghost old_scope = scope@;
        scope.push((name.clone(), symbol));
        assert(scope_view(scope@) =~= scope_view(old_scope).push((name@, symbol)));
        self.scopes.set(last, scope);
        self.variables.push(info);
        assert(self@.scopes =~= with_symbol(old(self)@, name@, info).scopes);
        assert(self@.variables =~= with_symbol(old(self)@, name@, info).variables);
        symbol
    }

    /// Registers a built-in type under `name`, which must be new to the innermost scope.
    fn register_primative(&mut self, name: &str)
        requires
            old(self).wf(),
            scope_lookup(old(self)@.scopes.last(), name@) is None,
        ensures
            final(self).wf(),
            final(self)@ == with_symbol(
                old(self)@,
                name@,
                primitive_info(),
            ),
    {
        let info = SymbolInfo { line: -1, kind: SymbolKind::Type(TypeDef::Primative) };
        proof { lemma_with_symbol_wf(self@, name@, info); }
        self.add_symbol(&name.to_owned(), info);
    }
}

} // verus!
