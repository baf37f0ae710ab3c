use lang::error::{LexerError, ParserError};
use lang::lexer::Lexer;
use lang::source::{Source, SourceSpan};
use lang::text::int_text;
use lang::tokens::{Token, TokenKind, TokenStream};

fn fixed_kinds() -> Vec<TokenKind> {
    vec![
    TokenKind::Semi,
    TokenKind::Colon,
    TokenKind::OpenCurly,
    TokenKind::CloseCurly,
    TokenKind::OpenParen,
    TokenKind::CloseParen,
    TokenKind::Comma,
    TokenKind::Bang,
    TokenKind::BangEqual,
    TokenKind::Equal,
    TokenKind::EqualEqual,
    TokenKind::Plus,
    TokenKind::Minus,
    TokenKind::Star,
    TokenKind::Slash,
    TokenKind::Less,
    TokenKind::LessEqual,
    TokenKind::Greater,
    TokenKind::GreaterEqual,
    TokenKind::Return,
    TokenKind::Break,
    TokenKind::Continue,
    TokenKind::Func,
    TokenKind::If,
    TokenKind::Else,
    TokenKind::While,
    TokenKind::Let,
    ]
}

fn token(kind: TokenKind, lexeme: &str, line: i32) -> Token {
    Token { kind, lexeme: lexeme.to_string(), line }
}

fn kinds(src: &str) -> Vec<TokenKind> {
    let mut stream = Lexer::new(src).tokenize().unwrap();
    let mut out = vec![];
    loop {
        let t = stream.advance();
        out.push(t.kind);
        if t.kind == TokenKind::EOF {
            return out;
        }
    }
}

#[test]
fn fixed_kinds_round_trip() {
    for kind in fixed_kinds() {
        let text = kind.text();
        let mut stream = Lexer::new(text).tokenize().unwrap();
        let first = stream.advance();
        assert_eq!(first.kind, kind);
        assert_eq!(first.lexeme, text);
        assert_eq!(first.kind.text(), text);
        assert_eq!(stream.advance().kind, TokenKind::EOF);
    }
}

#[test]
fn kind_texts() {
    assert_eq!(TokenKind::Semi.text(), ";");
    assert_eq!(TokenKind::Identifier.text(), "identifier");
    assert_eq!(TokenKind::Literal.text(), "literal");
    assert_eq!(TokenKind::Return.text(), "return");
    assert_eq!(TokenKind::GreaterEqual.text(), ">=");
    assert_eq!(TokenKind::EOF.text(), "EOF");
}

#[test]
fn lexes_operators_greedily() {
    assert_eq!(
        kinds("a<=b==c!=d>=e<f>g=h!i"),
        vec![
            TokenKind::Identifier,
            TokenKind::LessEqual,
            TokenKind::Identifier,
            TokenKind::EqualEqual,
            TokenKind::Identifier,
            TokenKind::BangEqual,
            TokenKind::Identifier,
            TokenKind::GreaterEqual,
            TokenKind::Identifier,
            TokenKind::Less,
            TokenKind::Identifier,
            TokenKind::Greater,
            TokenKind::Identifier,
            TokenKind::Equal,
            TokenKind::Identifier,
            TokenKind::Bang,
            TokenKind::Identifier,
            TokenKind::EOF,
        ]
    );
}

#[test]
fn identifiers_numbers_keywords() {
    let mut stream = Lexer::new("returned _x1 42abc while\nletter").tokenize().unwrap();
    let t = stream.advance();
    assert_eq!((t.kind, t.lexeme.as_str(), t.line), (TokenKind::Identifier, "returned", 1));
    let t = stream.advance();
    assert_eq!((t.kind, t.lexeme.as_str()), (TokenKind::Identifier, "_x1"));
    let t = stream.advance();
    assert_eq!((t.kind, t.lexeme.as_str()), (TokenKind::Literal, "42"));
    let t = stream.advance();
    assert_eq!((t.kind, t.lexeme.as_str()), (TokenKind::Identifier, "abc"));
    let t = stream.advance();
    assert_eq!(t.kind, TokenKind::While);
    let t = stream.advance();
    assert_eq!((t.kind, t.lexeme.as_str(), t.line), (TokenKind::Identifier, "letter", 2));
    let t = stream.advance();
    assert_eq!((t.kind, t.line), (TokenKind::EOF, 2));
}

#[test]
fn unicode_letters_make_identifiers() {
    let mut stream = Lexer::new("café = 1;").tokenize().unwrap();
    let t = stream.advance();
    assert_eq!((t.kind, t.lexeme.as_str()), (TokenKind::Identifier, "café"));
}

#[test]
fn stream_stays_at_eof() {
    let tokens = vec![token(TokenKind::Semi, ";", 1), token(TokenKind::EOF, "", 1)];
    let mut stream = TokenStream::new(tokens);
    assert!(stream.any());
    assert_eq!(stream.peek().kind, TokenKind::Semi);
    assert_eq!(stream.advance().kind, TokenKind::Semi);
    assert!(!stream.any());
    assert_eq!(stream.advance().kind, TokenKind::EOF);
    assert_eq!(stream.advance().kind, TokenKind::EOF);
    assert_eq!(stream.peek().kind, TokenKind::EOF);
}

#[test]
fn expect_and_match_kind() {
    let tokens = vec![
        token(TokenKind::Identifier, "a", 4),
        token(TokenKind::Colon, ":", 5),
        token(TokenKind::EOF, "", 5),
    ];
    let mut stream = TokenStream::new(tokens);
    assert!(stream.match_kind(TokenKind::Semi).is_none());
    assert_eq!(stream.peek().kind, TokenKind::Identifier);
    let t = stream.expect(TokenKind::Identifier).unwrap();
    assert_eq!(t.lexeme, "a");
    let err = stream.expect(TokenKind::Semi).unwrap_err();
    assert_eq!(err.line, 5);
    assert_eq!(err.render(), "ERROR (line 5): Expected token ';', found ':'");
    assert_eq!(stream.peek().kind, TokenKind::EOF);
    assert_eq!(stream.match_kind(TokenKind::EOF).unwrap().kind, TokenKind::EOF);
}

#[test]
fn lexer_and_parser_errors_render() {
    let e = LexerError::InvalidToken { line: 7, lexeme: "#".to_string() };
    assert_eq!(e.render(), "ERROR (line 7): Unexpected token in source file: '#'");
    assert_eq!(e.to_diagnostic().line, 7);
    let p = ParserError::UnexpectedToken { line: 2, expected: TokenKind::Identifier, found: TokenKind::Return };
    assert_eq!(p.render(), "ERROR (line 2): Expected token 'identifier', found 'return'");
}

#[test]
fn decimal_text() {
    assert_eq!(int_text(0), "0");
    assert_eq!(int_text(-1), "-1");
    assert_eq!(int_text(1234), "1234");
    assert_eq!(int_text(i32::MIN), "-2147483648");
}

#[test]
fn source_spans() {
    let source = Source::new("let é = 1;".to_string());
    assert_eq!(source.get_spanned(&SourceSpan { low: 4, high: 5 }), "é");
    assert_eq!(source.get_spanned(&SourceSpan { low: 0, high: 3 }), "let");
    assert_eq!(source.as_str(), "let é = 1;");
}
