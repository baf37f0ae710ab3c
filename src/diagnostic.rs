use vstd::prelude::*;

use crate::text::{decimal, int_text};
use crate::tokens::{kind_text, TokenKind};

verus! {

/// What went wrong at one failure site.
#[derive(Debug)]
pub enum DiagnosticKind {
    InvalidToken { lexeme: String },
    UnexpectedToken { expected: TokenKind, found: TokenKind },
    VarRedeclared { original_line: i32, var_name: String },
    VarUnknown { var_name: String },
    TypeUnknown { name: String },
    NumLiteralTooLarge { lexeme: String },
}

/// The text that describes a kind of failure.
pub open spec fn message_spec(k: DiagnosticKind) -> Seq<char> {
    match k {
        DiagnosticKind::InvalidToken { lexeme } => "Unexpected token in source file: '"@ + lexeme@
            + "'"@,
        DiagnosticKind::UnexpectedToken { expected, found } => "Expected token '"@ + kind_text(
            expected,
        ) + "', found '"@ + kind_text(found) + "'"@,
        DiagnosticKind::VarRedeclared { original_line, var_name } => "Variable '"@ + var_name@
            + "' redeclared. (Originally declared on line "@ + decimal(original_line as int)
            + ")"@,
        DiagnosticKind::VarUnknown { var_name } => "Unknown variable '"@ + var_name@ + "'"@,
        DiagnosticKind::TypeUnknown { name } => "Unknown type '"@ + name@ + "'"@,
        DiagnosticKind::NumLiteralTooLarge { lexeme } => "Numeric literal '"@ + lexeme@
            + "' does not fit in 32 bits"@,
    }
}

/// The text of a diagnostic: its line, then its message.
pub open spec fn render_spec(line: i32, message: Seq<char>) -> Seq<char> {
    "ERROR (line "@ + decimal(line as int) + "): "@ + message
}

/// `ERROR (line {line}): {message}`.
pub fn render_line(line: i32, message: &str) -> (r: String)
    ensures
        r@ == render_spec(line, message@),
{
    let mut r = String::from_str("ERROR (line ");
    r.append(int_text(line).as_str());
    r.append("): ");
    r.append(message);
    r
}

impl DiagnosticKind {
    /// The text that describes this failure.
    pub fn message(&self) -> (r: String)
        ensures
            r@ == message_spec(*self),
    {
        match self {
            DiagnosticKind::InvalidToken { lexeme } => {
                let mut r = String::from_str("Unexpected token in source file: '");
                r.append(lexeme.as_str());
                r.append("'");
                r
            },
            DiagnosticKind::UnexpectedToken { expected, found } => {
                let mut r = String::from_str("Expected token '");
                r.append(expected.text());
                r.append("', found '");
                r.append(found.text());
                r.append("'");
                r
            },
            DiagnosticKind::VarRedeclared { original_line, var_name } => {
                let mut r = String::from_str("Variable '");
                r.append(var_name.as_str());
                r.append("' redeclared. (Originally declared on line ");
                r.append(int_text(*original_line).as_str());
                r.append(")");
                r
            },
            DiagnosticKind::VarUnknown { var_name } => {
                let mut r = String::from_str("Unknown variable '");
                r.append(var_name.as_str());
                r.append("'");
                r
            },
            DiagnosticKind::TypeUnknown { name } => {
                let mut r = String::from_str("Unknown type '");
                r.append(name.as_str());
                r.append("'");
                r
            },
            DiagnosticKind::NumLiteralTooLarge { lexeme } => {
                let mut r = String::from_str("Numeric literal '");
                r.append(lexeme.as_str());
                r.append("' does not fit in 32 bits");
                r
            },
        }
    }
}

/// One failure, with the line it was found on.
#[derive(Debug)]
pub struct Diagnostic {
    pub line: i32,
    pub kind: DiagnosticKind,
}

impl Diagnostic {
    /// `ERROR (line {line}): {message}`.
    pub fn render(&self) -> (r: String)
        ensures
            r@ == render_spec(self.line, message_spec(self.kind)),
    {
        render_line(self.line, self.kind.message().as_str())
    }
}

/// The diagnostics of one compilation, in the order they were reported.
#[derive(Debug)]
pub struct Diagnostics {
    diagnostics: Vec<Diagnostic>,
}

impl View for Diagnostics {
    type V = Seq<Diagnostic>;

    closed spec fn view(&self) -> Seq<Diagnostic> {
        self.diagnostics@
    }
}

impl Diagnostics {
    pub fn new() -> (r: Diagnostics)
        ensures
            r@ == Seq::<Diagnostic>::empty(),
    {
        Diagnostics { diagnostics: Vec::new() }
    }

    pub fn report(&mut self, diagnostic: Diagnostic)
        ensures
            final(self)@ == old(self)@.push(diagnostic),
    {
        self.diagnostics.push(diagnostic);
    }

    pub fn has_diagnostics(&self) -> (r: bool)
        ensures
            r == (self@.len() > 0),
    {
        self.diagnostics.len() > 0
    }

    /// Hands out every diagnostic reported so far and leaves the sink empty.
    pub fn take_diagnostics(&mut self) -> (r: Vec<Diagnostic>)
        ensures
            r@ == old(self)@,
            final(self)@ == Seq::<Diagnostic>::empty(),
    {
        let mut taken = Vec::new();
        std::mem::swap(&mut taken, &mut self.diagnostics);
        taken
    }
}

} // verus!
