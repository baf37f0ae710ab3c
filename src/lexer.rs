use vstd::prelude::*;

use crate::error::LexerError;
use crate::text::{
    chars_of, is_alphabetic, is_alphanumeric, is_digit, is_letter, is_letter_or_number, is_space,
    is_whitespace, string_of,
};
use crate::tokens::{is_fixed_kind, kind_text, Token, TokenKind, TokenStream};

verus! {

/// A token as values: its kind, its text and its line.
pub type TokenModel = (TokenKind, Seq<char>, i32);

/// A lexical error as values: its line and the offending text.
pub type ErrorModel = (i32, Seq<char>);

pub open spec fn token_model(t: Token) -> TokenModel {
    (t.kind, t.lexeme@, t.line)
}

pub open spec fn error_model(e: LexerError) -> ErrorModel {
    match e {
        LexerError::InvalidToken { line, lexeme } => (line, lexeme@),
    }
}

/// The number of line breaks among the first `i` characters.
pub open spec fn newlines(s: Seq<char>, i: int) -> int
    decreases i,
{
    if i <= 0 || i > s.len() {
        0
    } else {
        newlines(s, i - 1) + if s[i - 1] == '\n' {
            1int
        } else {
            0int
        }
    }
}

/// The line that position `i` stands on, counted from 1 and capped at `i32::MAX`.
pub open spec fn line_at(s: Seq<char>, i: int) -> i32 {
    if 1 + newlines(s, i) >= i32::MAX {
        i32::MAX
    } else {
        (1 + newlines(s, i)) as i32
    }
}

/// The first position at or after `i` that holds no white space.
pub open spec fn skip_space(s: Seq<char>, i: int) -> int
    decreases s.len() - i,
{
    if 0 <= i < s.len() && is_space(s[i]) {
        skip_space(s, i + 1)
    } else {
        i
    }
}

pub open spec fn is_identifier_char_spec(c: char) -> bool {
    is_letter_or_number(c) || c == '_'
}

/// The first position at or after `i` that holds no identifier character.
pub open spec fn identifier_end(s: Seq<char>, i: int) -> int
    decreases s.len() - i,
{
    if 0 <= i < s.len() && is_identifier_char_spec(s[i]) {
        identifier_end(s, i + 1)
    } else {
        i
    }
}

/// The first position at or after `i` that holds no decimal digit.
pub open spec fn digits_end(s: Seq<char>, i: int) -> int
    decreases s.len() - i,
{
    if 0 <= i < s.len() && is_digit(s[i]) {
        digits_end(s, i + 1)
    } else {
        i
    }
}

/// The keyword spelled by `t`, if any.
pub open spec fn keyword_of(t: Seq<char>) -> Option<TokenKind> {
    if t == "return"@ {
        Some(TokenKind::Return)
    } else if t == "break"@ {
        Some(TokenKind::Break)
    } else if t == "continue"@ {
        Some(TokenKind::Continue)
    } else if t == "func"@ {
        Some(TokenKind::Func)
    } else if t == "if"@ {
        Some(TokenKind::If)
    } else if t == "else"@ {
        Some(TokenKind::Else)
    } else if t == "while"@ {
        Some(TokenKind::While)
    } else if t == "let"@ {
        Some(TokenKind::Let)
    } else {
        None
    }
}

/// The kind of the token starting at `i` (none for a character that starts no token) and
/// the position after it. Operators of two characters are preferred to those of one.
pub open spec fn scan(s: Seq<char>, i: int) -> (Option<TokenKind>, int) {
    let c = s[i];
    let eq_follows = i + 1 < s.len() && s[i + 1] == '=';
    if c == ';' {
        (Some(TokenKind::Semi), i + 1)
    } else if c == ':' {
        (Some(TokenKind::Colon), i + 1)
    } else if c == '{' {
        (Some(TokenKind::OpenCurly), i + 1)
    } else if c == '}' {
        (Some(TokenKind::CloseCurly), i + 1)
    } else if c == '(' {
        (Some(TokenKind::OpenParen), i + 1)
    } else if c == ')' {
        (Some(TokenKind::CloseParen), i + 1)
    } else if c == ',' {
        (Some(TokenKind::Comma), i + 1)
    } else if c == '+' {
        (Some(TokenKind::Plus), i + 1)
    } else if c == '-' {
        (Some(TokenKind::Minus), i + 1)
    } else if c == '*' {
        (Some(TokenKind::Star), i + 1)
    } else if c == '/' {
        (Some(TokenKind::Slash), i + 1)
    } else if c == '!' {
        if eq_follows {
            (Some(TokenKind::BangEqual), i + 2)
        } else {
            (Some(TokenKind::Bang), i + 1)
        }
    } else if c == '=' {
        if eq_follows {
            (Some(TokenKind::EqualEqual), i + 2)
        } else {
            (Some(TokenKind::Equal), i + 1)
        }
    } else if c == '<' {
        if eq_follows {
            (Some(TokenKind::LessEqual), i + 2)
        } else {
            (Some(TokenKind::Less), i + 1)
        }
    } else if c == '>' {
        if eq_follows {
            (Some(TokenKind::GreaterEqual), i + 2)
        } else {
            (Some(TokenKind::Greater), i + 1)
        }
    } else if is_digit(c) {
        (Some(TokenKind::Literal), digits_end(s, i + 1))
    } else if is_letter(c) || c == '_' {
        let e = identifier_end(s, i + 1);
        (
            Some(
                match keyword_of(s.subrange(i, e)) {
                    Some(k) => k,
                    None => TokenKind::Identifier,
                },
            ),
            e,
        )
    } else {
        (None, i + 1)
    }
}

/// The tokens and the errors of the text from position `i` on. Every token and error carries
/// the line it ends on; the tokens end with `EOF`.
pub open spec fn lex(s: Seq<char>, i: int) -> (Seq<TokenModel>, Seq<ErrorModel>)
    decreases s.len() - i,
{
    let j = skip_space(s, i);
    if !(0 <= i <= j <= s.len()) {
        (Seq::empty(), Seq::empty())
    } else if j == s.len() {
        (seq![(TokenKind::EOF, Seq::<char>::empty(), line_at(s, j))], Seq::empty())
    } else {
        let (kind, e) = scan(s, j);
        if !(j < e <= s.len()) {
            (Seq::empty(), Seq::empty())
        } else {
            let rest = lex(s, e);
            match kind {
                Some(k) => (seq![(k, s.subrange(j, e), line_at(s, e))] + rest.0, rest.1),
                None => (rest.0, seq![(line_at(s, e), s.subrange(j, e))] + rest.1),
            }
        }
    }
}

proof fn lemma_newlines_nonneg(s: Seq<char>, i: int)
    ensures
        newlines(s, i) >= 0,
    decreases i,
{
    if i > 0 && i <= s.len() {
        lemma_newlines_nonneg(s, i - 1);
    }
}

proof fn lemma_skip_space(s: Seq<char>, i: int)
    requires
        0 <= i <= s.len(),
    ensures
        i <= skip_space(s, i) <= s.len(),
    decreases s.len() - i,
{
    if i < s.len() && is_space(s[i]) {
        lemma_skip_space(s, i + 1);
    }
}

proof fn lemma_identifier_end(s: Seq<char>, i: int)
    requires
        0 <= i <= s.len(),
    ensures
        i <= identifier_end(s, i) <= s.len(),
    decreases s.len() - i,
{
    if i < s.len() && is_identifier_char_spec(s[i]) {
        lemma_identifier_end(s, i + 1);
    }
}

proof fn lemma_digits_end(s: Seq<char>, i: int)
    requires
        0 <= i <= s.len(),
    ensures
        i <= digits_end(s, i) <= s.len(),
    decreases s.len() - i,
{
    if i < s.len() && is_digit(s[i]) {
        lemma_digits_end(s, i + 1);
    }
}

proof fn lemma_scan(s: Seq<char>, i: int)
    requires
        0 <= i < s.len(),
    ensures
        i < scan(s, i).1 <= s.len(),
{
    lemma_identifier_end(s, i + 1);
    lemma_digits_end(s, i + 1);
}

/// The tokens of any text end with exactly one `EOF`, after the others.
pub proof fn lemma_lex_ends_with_eof(s: Seq<char>, i: int)
    requires
        0 <= i <= s.len(),
    ensures
        lex(s, i).0.len() > 0,
        lex(s, i).0.last().0 is EOF,
        forall|k: int| 0 <= k < lex(s, i).0.len() - 1 ==> !(#[trigger] lex(s, i).0[k].0 is EOF),
    decreases s.len() - i,
{
    let j = skip_space(s, i);
    lemma_skip_space(s, i);
    if j < s.len() {
        lemma_scan(s, j);
        let (kind, e) = scan(s, j);
        lemma_lex_ends_with_eof(s, e);
        let rest = lex(s, e);
        if let Some(k) = kind {
            assert(!(k is EOF));
            let all = seq![(k, s.subrange(j, e), line_at(s, e))] + rest.0;
            assert forall|m: int| 0 <= m < all.len() - 1 implies !(#[trigger] all[m].0 is EOF) by {
                if m > 0 {
                    assert(all[m] == rest.0[m - 1]);
                }
            }
        }
    }
}

proof fn lemma_identifier_to_end(s: Seq<char>, i: int)
    requires
        0 <= i <= s.len(),
        forall|k: int| i <= k < s.len() ==> is_identifier_char_spec(#[trigger] s[k]),
    ensures
        identifier_end(s, i) == s.len(),
    decreases s.len() - i,
{
    if i < s.len() {
        lemma_identifier_to_end(s, i + 1);
    }
}

proof fn lemma_no_newlines(s: Seq<char>, i: int)
    requires
        0 <= i <= s.len(),
        forall|k: int| 0 <= k < s.len() ==> #[trigger] s[k] != '\n',
    ensures
        newlines(s, i) == 0,
    decreases i,
{
    if i > 0 {
        lemma_no_newlines(s, i - 1);
    }
}

/// A text on one line that is one token and nothing else lexes as that token and `EOF`.
proof fn lemma_single_token(s: Seq<char>, k: TokenKind)
    requires
        s.len() > 0,
        !is_space(s[0]),
        scan(s, 0) == (Some(k), s.len() as int),
        forall|i: int| 0 <= i < s.len() ==> #[trigger] s[i] != '\n',
    ensures
        lex(s, 0) == (
            seq![(k, s, 1i32), (TokenKind::EOF, Seq::<char>::empty(), 1i32)],
            Seq::<ErrorModel>::empty(),
        ),
{
    lemma_no_newlines(s, s.len() as int);
    assert(skip_space(s, s.len() as int) == s.len());
    assert(skip_space(s, 0) == 0);
    assert(s.subrange(0, s.len() as int) =~= s);
    let rest = lex(s, s.len() as int);
    assert(rest == (seq![(TokenKind::EOF, Seq::<char>::empty(), 1i32)], Seq::<ErrorModel>::empty()));
    assert(seq![(k, s, 1i32)] + rest.0 =~= seq![(k, s, 1i32), (TokenKind::EOF, Seq::<char>::empty(), 1i32)]);
}

/// A keyword lexes as its own kind.
proof fn lemma_keyword(s: Seq<char>, k: TokenKind)
    requires
        s.len() > 0,
        forall|i: int| 0 <= i < s.len() ==> 'a' <= #[trigger] s[i] <= 'z',
        keyword_of(s) == Some(k),
    ensures
        lex(s, 0) == (
            seq![(k, s, 1i32), (TokenKind::EOF, Seq::<char>::empty(), 1i32)],
            Seq::<ErrorModel>::empty(),
        ),
{
    assert forall|i: int| 1 <= i < s.len() implies is_identifier_char_spec(#[trigger] s[i]) by {
        assert('a' <= s[i] <= 'z');
    }
    lemma_identifier_to_end(s, 1);
    assert(s.subrange(0, s.len() as int) =~= s);
    assert('a' <= s[0] <= 'z');
    lemma_single_token(s, k);
}

/// Rendering a kind of punctuation, operator or keyword gives a text that lexes back as
/// exactly one token of that kind, spelled as rendered, followed by `EOF`.
pub proof fn lemma_round_trip(k: TokenKind)
    requires
        is_fixed_kind(k),
    ensures
        lex(kind_text(k), 0) == (
            seq![(k, kind_text(k), 1i32), (TokenKind::EOF, Seq::<char>::empty(), 1i32)],
            Seq::<ErrorModel>::empty(),
        ),
{
    reveal_strlit("return");
    reveal_strlit("break");
    reveal_strlit("continue");
    reveal_strlit("func");
    reveal_strlit("if");
    reveal_strlit("else");
    reveal_strlit("while");
    reveal_strlit("let");
    let s = kind_text(k);
    match k {
        TokenKind::Return | TokenKind::Break | TokenKind::Continue | TokenKind::Func
        | TokenKind::If | TokenKind::Else | TokenKind::While | TokenKind::Let => {
            lemma_keyword(s, k);
        },
        _ => {
            reveal_strlit(";");
            reveal_strlit(":");
            reveal_strlit("{");
            reveal_strlit("}");
            reveal_strlit("(");
            reveal_strlit(")");
            reveal_strlit(",");
            reveal_strlit("!");
            reveal_strlit("!=");
            reveal_strlit("=");
            reveal_strlit("==");
            reveal_strlit("+");
            reveal_strlit("-");
            reveal_strlit("*");
            reveal_strlit("/");
            reveal_strlit("<");
            reveal_strlit("<=");
            reveal_strlit(">");
            reveal_strlit(">=");
            lemma_single_token(s, k);
        },
    }
}

fn is_identifier_char(c: char) -> (r: bool)
    ensures
        r == is_identifier_char_spec(c),
{
    is_alphanumeric(c) || c == '_'
}

fn get_keyword(identifier: &String) -> (r: Option<TokenKind>)
    ensures
        r == keyword_of(identifier@),
{
    if *identifier == String::from_str("return") {
        Some(TokenKind::Return)
    } else if *identifier == String::from_str("break") {
        Some(TokenKind::Break)
    } else if *identifier == String::from_str("continue") {
        Some(TokenKind::Continue)
    } else if *identifier == String::from_str("func") {
        Some(TokenKind::Func)
    } else if *identifier == String::from_str("if") {
        Some(TokenKind::If)
    } else if *identifier == String::from_str("else") {
        Some(TokenKind::Else)
    } else if *identifier == String::from_str("while") {
        Some(TokenKind::While)
    } else if *identifier == String::from_str("let") {
        Some(TokenKind::Let)
    } else {
        None
    }
}

/// Turns source text into tokens, one character at a time.
pub struct Lexer {
    source: Vec<char>,
    start: usize,
    position: usize,
    line: i32,
}

impl Lexer {
    /// The characters of the source text.
    pub closed spec fn text(&self) -> Seq<char> {
        self.source@
    }

    /// The position of the next character to read.
    pub closed spec fn cursor(&self) -> int {
        self.position as int
    }

    pub closed spec fn wf(&self) -> bool {
        &&& self.start <= self.position <= self.source@.len()
        &&& self.line == line_at(self.source@, self.position as int)
    }

    pub fn new(source: &str) -> (r: Lexer)
        ensures
            r.wf(),
            r.text() == source@,
            r.cursor() == 0,
    {
        Lexer { source: chars_of(source), start: 0, position: 0, line: 1 }
    }

    fn peek_char(&self) -> (r: Option<char>)
        requires
            self.wf(),
        ensures
            r == if self.position < self.source@.len() {
                Some(self.source@[self.position as int])
            } else {
                None::<char>
            },
    {
        if self.position < self.source.len() {
            Some(self.source[self.position])
        } else {
            None
        }
    }

    fn advance_char(&mut self) -> (r: Option<char>)
        requires
            old(self).wf(),
        ensures
            final(self).wf(),
            final(self).source == old(self).source,
            final(self).start == old(self).start,
            old(self).position < old(self).source@.len() ==> r == Some(
                old(self).source@[old(self).position as int],
            ) && final(self).position == old(self).position + 1,
            old(self).position >= old(self).source@.len() ==> r is None && final(self).position
                == old(self).position,
    {
        if self.position >= self.source.len() {
            return None;
        }
        let c = self.source[self.position];
        proof { lemma_newlines_nonneg(self.source@, self.position as int); }
        assert(newlines(self.source@, self.position + 1) == newlines(self.source@, self.position as int)
            + if c == '\n' {
            1int
        } else {
            0int
        });
        if c == '\n' && self.line < i32::MAX {
            self.line = self.line + 1;
        }
        self.position = self.position + 1;
        Some(c)
    }

    fn skip_whitespace(&mut self)
        requires
            old(self).wf(),
        ensures
            final(self).wf(),
            final(self).source == old(self).source,
            final(self).start == old(self).start,
            final(self).position == skip_space(old(self).source@, old(self).position as int),
    {
        loop
            invariant
                self.wf(),
                self.source == old(self).source,
                self.start == old(self).start,
                skip_space(self.source@, self.position as int) == skip_space(
                    old(self).source@,
                    old(self).position as int,
                ),
            decreases self.source@.len() - self.position,
        {
            match self.peek_char() {
                Some(c) => {
                    if !is_whitespace(c) {
                        return;
                    }
                },
                None => {
                    return;
                },
            }
            self.advance_char();
        }
    }

    /// Consumes the next character where it is `expected`.
    fn match_char(&mut self, expected: char) -> (r: bool)
        requires
            old(self).wf(),
        ensures
            final(self).wf(),
            final(self).source == old(self).source,
            final(self).start == old(self).start,
            r == (old(self).position < old(self).source@.len() && old(self).source@[old(
                self,
            ).position as int] == expected),
            final(self).position == old(self).position + if r {
                1int
            } else {
                0int
            },
    {
        match self.peek_char() {
            Some(c) => {
                if c == expected {
                    self.advance_char();
                    true
                } else {
                    false
                }
            },
            None => false,
        }
    }

    fn current_lexeme(&self) -> (r: String)
        requires
            self.wf(),
        ensures
            r@ == self.source@.subrange(self.start as int, self.position as int),
    {
        let mut cs: Vec<char> = Vec::new();
        let mut i: usize = self.start;
        while i < self.position
            invariant
                self.wf(),
                self.start <= i <= self.position,
                cs@ == self.source@.subrange(self.start as int, i as int),
            decreases self.position - i,
        {
            cs.push(self.source[i]);
            i = i + 1;
            assert(cs@ =~= self.source@.subrange(self.start as int, i as int));
        }
        string_of(cs.as_slice())
    }

    fn make_token(&self, kind: TokenKind) -> (r: Token)
        requires
            self.wf(),
        ensures
            token_model(r) == (
                kind,
                self.source@.subrange(self.start as int, self.position as int),
                line_at(self.source@, self.position as int),
            ),
    {
        Token { kind, lexeme: self.current_lexeme(), line: self.line }
    }

    fn lex_identifier(&mut self) -> (r: Token)
        requires
            old(self).wf(),
        ensures
            final(self).wf(),
            final(self).source == old(self).source,
            final(self).start == old(self).start,
            final(self).position == identifier_end(old(self).source@, old(self).position as int),
            token_model(r) == (
                match keyword_of(
                    final(self).source@.subrange(final(self).start as int, final(self).position as int),
                ) {
                    Some(k) => k,
                    None => TokenKind::Identifier,
                },
                final(self).source@.subrange(final(self).start as int, final(self).position as int),
                line_at(final(self).source@, final(self).position as int),
            ),
    {
        while self.position < self.source.len() && is_identifier_char(self.source[self.position])
            invariant
                self.wf(),
                self.source == old(self).source,
                self.start == old(self).start,
                identifier_end(self.source@, self.position as int) == identifier_end(
                    old(self).source@,
                    old(self).position as int,
                ),
            decreases self.source@.len() - self.position,
        {
            self.advance_char();
        }
        let lexeme = self.current_lexeme();
        let kind = match get_keyword(&lexeme) {
            Some(k) => k,
            None => TokenKind::Identifier,
        };
        Token { kind, lexeme, line: self.line }
    }

    fn lex_number(&mut self) -> (r: Token)
        requires
            old(self).wf(),
        ensures
            final(self).wf(),
            final(self).source == old(self).source,
            final(self).start == old(self).start,
            final(self).position == digits_end(old(self).source@, old(self).position as int),
            token_model(r) == (
                TokenKind::Literal,
                final(self).source@.subrange(final(self).start as int, final(self).position as int),
                line_at(final(self).source@, final(self).position as int),
            ),
    {
        while self.position < self.source.len() && '0' <= self.source[self.position]
            && self.source[self.position] <= '9'
            invariant
                self.wf(),
                self.source == old(self).source,
                self.start == old(self).start,
                digits_end(self.source@, self.position as int) == digits_end(
                    old(self).source@,
                    old(self).position as int,
                ),
            decreases self.source@.len() - self.position,
        {
            self.advance_char();
        }
        self.make_token(TokenKind::Literal)
    }
    /// Reads the next token, after any white space.
    fn next_token(&mut self) -> (r: Result<Token, LexerError>)
        requires
            old(self).wf(),
        ensures
            final(self).wf(),
            final(self).source == old(self).source,
            ({
                let s = old(self).source@;
                let j = skip_space(s, old(self).position as int);
                if j == s.len() {
                    &&& final(self).position == j
                    &&& r matches Ok(t) && token_model(t) == (
                        TokenKind::EOF,
                        Seq::<char>::empty(),
                        line_at(s, j),
                    )
                } else {
                    let (kind, e) = scan(s, j);
                    &&& final(self).position == e
                    &&& match kind {
                        Some(k) => r matches Ok(t) && token_model(t) == (
                            k,
                            s.subrange(j, e),
                            line_at(s, e),
                        ),
                        None => r matches Err(err) && error_model(err) == (
                            line_at(s, e),
                            s.subrange(j, e),
                        ),
                    }
                }
            }),
    {
        self.skip_whitespace();
        self.start = self.position;
        let c = match self.advance_char() {
            None => {
                return Ok(Token { kind: TokenKind::EOF, lexeme: String::new(), line: self.line });
            },
            Some(c) => c,
        };
        let kind = if c == ';' {
            TokenKind::Semi
        } else if c == ':' {
            TokenKind::Colon
        } else if c == '{' {
            TokenKind::OpenCurly
        } else if c == '}' {
            TokenKind::CloseCurly
        } else if c == '(' {
            TokenKind::OpenParen
        } else if c == ')' {
            TokenKind::CloseParen
        } else if c == ',' {
            TokenKind::Comma
        } else if c == '+' {
            TokenKind::Plus
        } else if c == '-' {
            TokenKind::Minus
        } else if c == '*' {
            TokenKind::Star
        } else if c == '/' {
            TokenKind::Slash
        } else if c == '!' {
            if self.match_char('=') {
                TokenKind::BangEqual
            } else {
                TokenKind::Bang
            }
        } else if c == '=' {
            if self.match_char('=') {
                TokenKind::EqualEqual
            } else {
                TokenKind::Equal
            }
        } else if c == '<' {
            if self.match_char('=') {
                TokenKind::LessEqual
            } else {
                TokenKind::Less
            }
        } else if c == '>' {
            if self.match_char('=') {
                TokenKind::GreaterEqual
            } else {
                TokenKind::Greater
            }
        } else if '0' <= c && c <= '9' {
            return Ok(self.lex_number());
        } else if is_alphabetic(c) || c == '_' {
            return Ok(self.lex_identifier());
        } else {
            return Err(LexerError::InvalidToken { line: self.line, lexeme: self.current_lexeme() });
        };
        Ok(self.make_token(kind))
    }

    /// Reads the whole text. Every character that starts no token is reported, and reading
    /// goes on after it; the tokens are handed out only where there is no such character.
    pub fn tokenize(&mut self) -> (r: Result<TokenStream, Vec<LexerError>>)
        requires
            old(self).wf(),
        ensures
            final(self).wf(),
            ({
                let (ts, es) = lex(old(self).text(), old(self).cursor());
                if es.len() == 0 {
                    r matches Ok(stream) && stream.wf() && stream@.1 == 0
                        && stream@.0.map_values(|t: Token| token_model(t)) == ts
                } else {
                    r matches Err(errors) && errors@.map_values(|e: LexerError| error_model(e)) == es
                }
            }),
    {
        let ghost s = self.source@;
        let ghost q0 = self.position as int;
        let mut tokens: Vec<Token> = Vec::new();
        let mut errors: Vec<LexerError> = Vec::new();
        assert(tokens@.map_values(|t: Token| token_model(t)) + lex(s, q0).0 =~= lex(s, q0).0);
        assert(errors@.map_values(|e: LexerError| error_model(e)) + lex(s, q0).1 =~= lex(s, q0).1);
        loop
            invariant
                self.wf(),
                self.source@ == s,
                s == old(self).source@,
                q0 == old(self).position,
                lex(s, q0) == (
                    tokens@.map_values(|t: Token| token_model(t)) + lex(s, self.position as int).0,
                    errors@.map_values(|e: LexerError| error_model(e)) + lex(
                        s,
                        self.position as int,
                    ).1,
                ),
            decreases s.len() - self.position,
        {
            let ghost pos = self.position as int;
            let ghost tm = tokens@.map_values(|t: Token| token_model(t));
            let ghost em = errors@.map_values(|e: LexerError| error_model(e));
            proof {
                lemma_skip_space(s, pos);
                let j = skip_space(s, pos);
                if j < s.len() {
                    lemma_scan(s, j);
                }
            }
            match self.next_token() {
                Ok(token) => {
                    let is_eof = token.kind == TokenKind::EOF;
                    let ghost x = token_model(token);
                    tokens.push(token);
                    assert(tokens@.map_values(|t: Token| token_model(t)) =~= tm.push(x));
                    if is_eof {
                        let ghost rest = lex(s, pos);
                        assert(rest.0 == seq![x]);
                        assert(tm + rest.0 =~= tm.push(x));
                        assert(em + rest.1 =~= em);
                        if errors.len() == 0 {
                            return Ok(TokenStream::new(tokens));
                        } else {
                            return Err(errors);
                        }
                    }
                    let ghost rest = lex(s, self.position as int);
                    assert(tm + (seq![x] + rest.0) =~= tm.push(x) + rest.0);
                },
                Err(e) => {
                    let ghost x = error_model(e);
                    errors.push(e);
                    assert(errors@.map_values(|e: LexerError| error_model(e)) =~= em.push(x));
                    let ghost rest = lex(s, self.position as int);
                    assert(em + (seq![x] + rest.1) =~= em.push(x) + rest.1);
                },
            }
        }
    }
}

} // verus!
