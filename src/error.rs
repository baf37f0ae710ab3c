use vstd::prelude::*;

use crate::diagnostic::{message_spec, render_line, render_spec, Diagnostic, DiagnosticKind};
use crate::tokens::TokenKind;

verus! {

/// A failure of the lexical phase: a character that starts no token.
#[derive(Debug)]
pub enum LexerError {
    InvalidToken { line: i32, lexeme: String },
}

/// A failure of the syntactic phase: a token of the wrong kind.
#[derive(Debug)]
pub enum ParserError {
    UnexpectedToken { line: i32, expected: TokenKind, found: TokenKind },
}

impl LexerError {
    /// The same failure as a diagnostic.
    pub fn to_diagnostic(&self) -> (r: Diagnostic)
        ensures
            match *self {
                LexerError::InvalidToken { line, lexeme } => r == Diagnostic {
                    line,
                    kind: DiagnosticKind::InvalidToken { lexeme },
                },
            },
    {
        match self {
            LexerError::InvalidToken { line, lexeme } => Diagnostic {
                line: *line,
                kind: DiagnosticKind::InvalidToken { lexeme: lexeme.clone() },
            },
        }
    }

    /// `ERROR (line {line}): {message}`, as for the same diagnostic.
    pub fn render(&self) -> (r: String)
        ensures
            match *self {
                LexerError::InvalidToken { line, lexeme } => r@ == render_spec(
                    line,
                    message_spec(DiagnosticKind::InvalidToken { lexeme }),
                ),
            },
    {
        let d = self.to_diagnostic();
        render_line(d.line, d.kind.message().as_str())
    }
}

impl ParserError {
    /// The same failure as a diagnostic.
    pub fn to_diagnostic(&self) -> (r: Diagnostic)
        ensures
            match *self {
                ParserError::UnexpectedToken { line, expected, found } => r == Diagnostic {
                    line,
                    kind: DiagnosticKind::UnexpectedToken { expected, found },
                },
            },
    {
        match self {
            ParserError::UnexpectedToken { line, expected, found } => Diagnostic {
                line: *line,
                kind: DiagnosticKind::UnexpectedToken { expected: *expected, found: *found },
            },
        }
    }

    /// `ERROR (line {line}): {message}`, as for the same diagnostic.
    pub fn render(&self) -> (r: String)
        ensures
            match *self {
                ParserError::UnexpectedToken { line, expected, found } => r@ == render_spec(
                    line,
                    message_spec(DiagnosticKind::UnexpectedToken { expected, found }),
                ),
            },
    {
        let d = self.to_diagnostic();
        render_line(d.line, d.kind.message().as_str())
    }
}

} // verus!
