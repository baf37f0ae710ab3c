use vstd::prelude::*;

use crate::diagnostic::{Diagnostic, DiagnosticKind};

verus! {

/// Every kind of lexical unit of the language.
#[derive(Debug, Clone, Copy, PartialEq, Eq, Structural)]
pub enum TokenKind {
    // single character punctuation
    Semi,
    Colon,
    OpenCurly,
    CloseCurly,
    OpenParen,
    CloseParen,
    Comma,
    // operators
    Bang,
    BangEqual,
    Equal,
    EqualEqual,
    Plus,
    Minus,
    Star,
    Slash,
    Less,
    LessEqual,
    Greater,
    GreaterEqual,
    // dynamic classes
    Identifier,
    Literal,
    // keywords
    Return,
    Break,
    Continue,
    Func,
    If,
    Else,
    While,
    Let,
    // end of input
    EOF,
}

/// The surface syntax of a token kind, as it appears in diagnostics.
pub open spec fn kind_text(k: TokenKind) -> Seq<char> {
    match k {
        TokenKind::Semi => ";"@,
        TokenKind::Colon => ":"@,
        TokenKind::OpenCurly => "{"@,
        TokenKind::CloseCurly => "}"@,
        TokenKind::OpenParen => "("@,
        TokenKind::CloseParen => ")"@,
        TokenKind::Comma => ","@,
        TokenKind::Bang => "!"@,
        TokenKind::BangEqual => "!="@,
        TokenKind::Equal => "="@,
        TokenKind::EqualEqual => "=="@,
        TokenKind::Plus => "+"@,
        TokenKind::Minus => "-"@,
        TokenKind::Star => "*"@,
        TokenKind::Slash => "/"@,
        TokenKind::Less => "<"@,
        TokenKind::LessEqual => "<="@,
        TokenKind::Greater => ">"@,
        TokenKind::GreaterEqual => ">="@,
        TokenKind::Identifier => "identifier"@,
        TokenKind::Literal => "literal"@,
        TokenKind::Return => "return"@,
        TokenKind::Break => "break"@,
        TokenKind::Continue => "continue"@,
        TokenKind::Func => "func"@,
        TokenKind::If => "if"@,
        TokenKind::Else => "else"@,
        TokenKind::While => "while"@,
        TokenKind::Let => "let"@,
        TokenKind::EOF => "EOF"@,
    }
}

/// Punctuation, operators and keywords: the kinds whose every token is spelled
/// exactly as the kind is rendered.
pub open spec fn is_fixed_kind(k: TokenKind) -> bool {
    !(k is Identifier || k is Literal || k is EOF)
}

impl TokenKind {
    /// The surface syntax of this kind.
    pub fn text(&self) -> (r: &'static str)
        ensures
            r@ == kind_text(*self),
    {
        match self {
            TokenKind::Semi => ";",
            TokenKind::Colon => ":",
            TokenKind::OpenCurly => "{",
            TokenKind::CloseCurly => "}",
            TokenKind::OpenParen => "(",
            TokenKind::CloseParen => ")",
            TokenKind::Comma => ",",
            TokenKind::Bang => "!",
            TokenKind::BangEqual => "!=",
            TokenKind::Equal => "=",
            TokenKind::EqualEqual => "==",
            TokenKind::Plus => "+",
            TokenKind::Minus => "-",
            TokenKind::Star => "*",
            TokenKind::Slash => "/",
            TokenKind::Less => "<",
            TokenKind::LessEqual => "<=",
            TokenKind::Greater => ">",
            TokenKind::GreaterEqual => ">=",
            TokenKind::Identifier => "identifier",
            TokenKind::Literal => "literal",
            TokenKind::Return => "return",
            TokenKind::Break => "break",
            TokenKind::Continue => "continue",
            TokenKind::Func => "func",
            TokenKind::If => "if",
            TokenKind::Else => "else",
            TokenKind::While => "while",
            TokenKind::Let => "let",
            TokenKind::EOF => "EOF",
        }
    }
}

/// One lexical unit: its kind, its text in the source, and the line it stands on.
#[derive(Debug)]
pub struct Token {
    pub kind: TokenKind,
    pub lexeme: String,
    pub line: i32,
}

impl Clone for Token {
    fn clone(&self) -> (r: Self)
        ensures
            r == *self,
    {
        Token { kind: self.kind, lexeme: self.lexeme.clone(), line: self.line }
    }
}

/// The diagnostic for a token of kind `found` on `line` where `expected` was required.
pub open spec fn unexpected_spec(line: i32, expected: TokenKind, found: TokenKind) -> Diagnostic {
    Diagnostic { line, kind: DiagnosticKind::UnexpectedToken { expected, found } }
}

fn unexpected_token_error(actual: &Token, expected: TokenKind) -> (r: Diagnostic)
    ensures
        r == unexpected_spec(actual.line, expected, actual.kind),
{
    Diagnostic {
        line: actual.line,
        kind: DiagnosticKind::UnexpectedToken { expected, found: actual.kind },
    }
}

/// Whether a token sequence can be served by a stream: it ends with `EOF`.
pub open spec fn ends_with_eof(tokens: Seq<Token>) -> bool {
    tokens.len() > 0 && tokens.last().kind is EOF
}

/// A cursor over a token sequence that ends with `EOF`; the cursor never moves past it.
pub struct TokenStream {
    tokens: Vec<Token>,
    pos: usize,
}

impl View for TokenStream {
    type V = (Seq<Token>, int);

    closed spec fn view(&self) -> (Seq<Token>, int) {
        (self.tokens@, self.pos as int)
    }
}

/// The position after consuming the token at `pos`: the same position at `EOF`.
pub open spec fn next_pos(tokens: Seq<Token>, pos: int) -> int {
    if tokens[pos].kind is EOF {
        pos
    } else {
        pos + 1
    }
}

impl TokenStream {
    /// Well formed: the sequence ends with `EOF` and the cursor is within it.
    pub open spec fn wf(&self) -> bool {
        &&& ends_with_eof(self@.0)
        &&& 0 <= self@.1 < self@.0.len()
    }

    pub open spec fn current(&self) -> Token {
        self@.0[self@.1]
    }

    pub fn new(tokens: Vec<Token>) -> (r: TokenStream)
        requires
            ends_with_eof(tokens@),
        ensures
            r.wf(),
            r@ == (tokens@, 0int),
    {
        TokenStream { tokens, pos: 0 }
    }

    /// Returns the current token and moves past it, unless it is `EOF`.
    pub fn advance(&mut self) -> (r: Token)
        requires
            old(self).wf(),
        ensures
            final(self).wf(),
            r == old(self).current(),
            final(self)@.0 == old(self)@.0,
            final(self)@.1 == next_pos(old(self)@.0, old(self)@.1),
    {
        let token = self.tokens[self.pos].clone();
        if token.kind != TokenKind::EOF {
            assert(self.pos + 1 < self.tokens.len());
            self.pos = self.pos + 1;
        }
        token
    }

    /// Consumes the current token; it must be of kind `expected_kind`.
    pub fn expect(&mut self, expected_kind: TokenKind) -> (r: Result<Token, Diagnostic>)
        requires
            old(self).wf(),
        ensures
            final(self).wf(),
            final(self)@.0 == old(self)@.0,
            final(self)@.1 == next_pos(old(self)@.0, old(self)@.1),
            r == (if old(self).current().kind == expected_kind {
                Ok::<Token, Diagnostic>(old(self).current())
            } else {
                Err(
                    unexpected_spec(
                        old(self).current().line,
                        expected_kind,
                        old(self).current().kind,
                    ),
                )
            }),
    {
        let tok = self.advance();
        if tok.kind != expected_kind {
            return Err(unexpected_token_error(&tok, expected_kind));
        }
        Ok(tok)
    }

    /// Consumes the current token only where it is of kind `kind`.
    pub fn match_kind(&mut self, kind: TokenKind) -> (r: Option<Token>)
        requires
            old(self).wf(),
        ensures
            final(self).wf(),
            final(self)@.0 == old(self)@.0,
            old(self).current().kind == kind ==> r == Some(old(self).current()) && final(self)@.1
                == next_pos(old(self)@.0, old(self)@.1),
            old(self).current().kind != kind ==> r is None && final(self)@ == old(self)@,
    {
        if self.tokens[self.pos].kind == kind {
            Some(self.advance())
        } else {
            None
        }
    }

    /// The current token, left in place.
    pub fn peek(&self) -> (r: Token)
        requires
            self.wf(),
        ensures
            r == self.current(),
    {
        self.tokens[self.pos].clone()
    }

    /// The kind of the current token, left in place.
    pub fn peek_kind(&self) -> (r: TokenKind)
        requires
            self.wf(),
        ensures
            r == self.current().kind,
    {
        self.tokens[self.pos].kind
    }

    /// Whether any token is left before `EOF`.
    pub fn any(&self) -> (r: bool)
        requires
            self.wf(),
        ensures
            r == !(self.current().kind is EOF),
    {
        self.peek_kind() != TokenKind::EOF
    }
}

} // verus!
