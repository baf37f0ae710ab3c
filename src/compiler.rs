use vstd::prelude::*;

use crate::ast::{are_trees, Root};
use crate::diagnostic::{Diagnostic, DiagnosticKind, Diagnostics};
use crate::lexer::{lex, token_model, Lexer};
use crate::parser::{file_spec, Parser};
use crate::symbols::{initial_symbols, Symbols};
use crate::tokens::Token;

verus! {

/// The state one compilation shares between its phases: the symbol table and the
/// diagnostics reported so far.
pub struct Context {
    pub symbols: Symbols,
    pub diagnostics: Diagnostics,
}

impl Context {
    pub open spec fn wf(&self) -> bool {
        self.symbols.wf()
    }

    pub fn new() -> (r: Context)
        ensures
            r.wf(),
            r.symbols@ == initial_symbols(),
            r.diagnostics@.len() == 0,
    {
        Context { symbols: Symbols::new(), diagnostics: Diagnostics::new() }
    }
}

/// Whether `d` is the diagnostic of a lexical error at `line` on `lexeme`.
pub open spec fn is_invalid_token(d: Diagnostic, line: i32, lexeme: Seq<char>) -> bool {
    &&& d.line == line
    &&& d.kind matches DiagnosticKind::InvalidToken { lexeme: l } && l@ == lexeme
}

/// What compiling `source` yields for the tokens `toks` that lexing it produced: the program,
/// or the diagnostic that halted parsing.
pub open spec fn compiled_from(toks: Seq<Token>, r: Result<Root, Vec<Diagnostic>>) -> bool {
    let (trees, err, _) = file_spec(toks, 0, initial_symbols());
    match err {
        None => r matches Ok(root) && are_trees(root.statements@, trees),
        Some(d) => r matches Err(ds) && ds@ == seq![d],
    }
}

/// Runs the phases of the front end over one source text.
pub struct Compiler {
    context: Context,
}

impl Compiler {
    pub fn new() -> (r: Compiler) {
        Compiler { context: Context::new() }
    }

    /// Lexes and parses `source` with a fresh context. Where lexing fails every lexical error
    /// is returned; otherwise the program, or the one diagnostic that halted parsing.
    pub fn compile(&mut self, source: &str) -> (r: Result<Root, Vec<Diagnostic>>)
        ensures
            ({
                let (ts, es) = lex(source@, 0);
                if es.len() > 0 {
                    r matches Err(ds) && ds@.len() == es.len() && forall|i: int|
                        0 <= i < es.len() ==> is_invalid_token(#[trigger] ds@[i], es[i].0, es[i].1)
                } else {
                    exists|toks: Seq<Token>|
                        toks.map_values(|t: Token| token_model(t)) == ts && compiled_from(toks, r)
                }
            }),
    {
        self.context = Context::new();
        let mut lexer = Lexer::new(source);
        match lexer.tokenize() {
            Err(errors) => {
                let mut i: usize = 0;
                while i < errors.len()
                    invariant
                        i <= errors.len(),
                        self.context.diagnostics@.len() == i,
                        forall|k: int|
                            0 <= k < i ==> is_invalid_token(
                                #[trigger] self.context.diagnostics@[k],
                                errors@[k]->InvalidToken_line,
                                errors@[k]->InvalidToken_lexeme@,
                            ),
                    decreases errors.len() - i,
                {
                    let d = errors[i].to_diagnostic();
                    self.context.diagnostics.report(d);
                    i = i + 1;
                }
                Err(self.context.diagnostics.take_diagnostics())
            },
            Ok(stream) => {
                let ghost toks = stream@.0;
                let mut parser = Parser::new(stream);
                let root = parser.parse(&mut self.context);
                let ghost out = file_spec(toks, 0, initial_symbols());
                if self.context.diagnostics.has_diagnostics() {
                    let ds = self.context.diagnostics.take_diagnostics();
                    assert(compiled_from(toks, Err(ds)));
                    Err(ds)
                } else {
                    assert(out.1 is None);
                    assert(compiled_from(toks, Ok(root)));
                    Ok(root)
                }
            },
        }
    }
}

} // verus!
