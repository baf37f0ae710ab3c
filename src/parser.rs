use vstd::prelude::*;

use crate::ast::{are_trees, is_tree, lemma_trees_from, BinOpKind, Expr, ExprKind, Root, Stmt, StmtKind, StmtTree, UnOpKind};
use crate::diagnostic::{Diagnostic, DiagnosticKind};
use crate::compiler::Context;
use crate::symbols::{add_var_spec, popped, pushed, resolve, var_id_spec, SymbolID, Symbols, SymbolsModel};
use crate::text::{all_digits, chars_of, digits_value};
use crate::tokens::{ends_with_eof, next_pos, unexpected_spec, Token, TokenKind, TokenStream};

verus! {

/// How operators of one precedence level group.
#[derive(Debug, Clone, Copy, PartialEq, Eq, Structural)]
pub enum Assoc {
    Left,
    Right,
    NonAssoc,
}

/// The loosest precedence level: the one an expression is parsed at.
pub const LOOSEST: u8 = 4;

/// The binary operator a token kind stands for, its precedence (lower binds tighter) and how
/// it groups.
pub open spec fn op_of(k: TokenKind) -> Option<(BinOpKind, u8, Assoc)> {
    match k {
        TokenKind::Star => Some((BinOpKind::Mult, 1u8, Assoc::Left)),
        TokenKind::Slash => Some((BinOpKind::Div, 1u8, Assoc::Left)),
        TokenKind::Plus => Some((BinOpKind::Add, 2u8, Assoc::Left)),
        TokenKind::Minus => Some((BinOpKind::Sub, 2u8, Assoc::Left)),
        TokenKind::EqualEqual => Some((BinOpKind::Equal, 3u8, Assoc::NonAssoc)),
        TokenKind::BangEqual => Some((BinOpKind::NotEqual, 3u8, Assoc::NonAssoc)),
        TokenKind::Less => Some((BinOpKind::Less, 3u8, Assoc::NonAssoc)),
        TokenKind::LessEqual => Some((BinOpKind::LessEqual, 3u8, Assoc::NonAssoc)),
        TokenKind::Greater => Some((BinOpKind::Greater, 3u8, Assoc::NonAssoc)),
        TokenKind::GreaterEqual => Some((BinOpKind::GreaterEqual, 3u8, Assoc::NonAssoc)),
        TokenKind::Equal => Some((BinOpKind::Assign, 4u8, Assoc::Right)),
        _ => None,
    }
}

pub fn binary_op(k: TokenKind) -> (r: Option<(BinOpKind, u8, Assoc)>)
    ensures
        r == op_of(k),
{
    match k {
        TokenKind::Star => Some((BinOpKind::Mult, 1, Assoc::Left)),
        TokenKind::Slash => Some((BinOpKind::Div, 1, Assoc::Left)),
        TokenKind::Plus => Some((BinOpKind::Add, 2, Assoc::Left)),
        TokenKind::Minus => Some((BinOpKind::Sub, 2, Assoc::Left)),
        TokenKind::EqualEqual => Some((BinOpKind::Equal, 3, Assoc::NonAssoc)),
        TokenKind::BangEqual => Some((BinOpKind::NotEqual, 3, Assoc::NonAssoc)),
        TokenKind::Less => Some((BinOpKind::Less, 3, Assoc::NonAssoc)),
        TokenKind::LessEqual => Some((BinOpKind::LessEqual, 3, Assoc::NonAssoc)),
        TokenKind::Greater => Some((BinOpKind::Greater, 3, Assoc::NonAssoc)),
        TokenKind::GreaterEqual => Some((BinOpKind::GreaterEqual, 3, Assoc::NonAssoc)),
        TokenKind::Equal => Some((BinOpKind::Assign, 4, Assoc::Right)),
        _ => None,
    }
}

/// The value of a literal token: its lexeme must be decimal digits denoting a value that
/// fits an `i32`.
pub open spec fn literal_spec(tok: Token) -> Result<i32, Diagnostic> {
    if tok.lexeme@.len() == 0 || !all_digits(tok.lexeme@) {
        Err(Diagnostic { line: tok.line, kind: DiagnosticKind::InvalidToken { lexeme: tok.lexeme } })
    } else if digits_value(tok.lexeme@) > i32::MAX {
        Err(
            Diagnostic {
                line: tok.line,
                kind: DiagnosticKind::NumLiteralTooLarge { lexeme: tok.lexeme },
            },
        )
    } else {
        Ok(digits_value(tok.lexeme@) as i32)
    }
}

proof fn lemma_digits_nonneg(s: Seq<char>)
    requires
        all_digits(s),
    ensures
        digits_value(s) >= 0,
    decreases s.len(),
{
    if s.len() > 0 {
        assert(all_digits(s.drop_last())) by {
            assert forall|k: int| 0 <= k < s.drop_last().len() implies crate::text::is_digit(
                #[trigger] s.drop_last()[k],
            ) by {
                assert(s.drop_last()[k] == s[k]);
            }
        }
        lemma_digits_nonneg(s.drop_last());
        assert(crate::text::is_digit(s[s.len() - 1]));
    }
}

proof fn lemma_digits_grow(s: Seq<char>, i: int, j: int)
    requires
        all_digits(s),
        0 <= i <= j <= s.len(),
    ensures
        digits_value(s.take(i)) <= digits_value(s.take(j)),
    decreases j - i,
{
    if i < j {
        lemma_digits_grow(s, i, j - 1);
        assert(s.take(j).drop_last() =~= s.take(j - 1));
        assert(s.take(j).last() == s[j - 1]);
        assert(crate::text::is_digit(s[j - 1]));
        assert(all_digits(s.take(j - 1))) by {
            assert forall|k: int| 0 <= k < s.take(j - 1).len() implies crate::text::is_digit(
                #[trigger] s.take(j - 1)[k],
            ) by {
                assert(s.take(j - 1)[k] == s[k]);
            }
        }
        lemma_digits_nonneg(s.take(j - 1));
    }
}

fn literal_value(tok: &Token) -> (r: Result<i32, Diagnostic>)
    ensures
        r == literal_spec(*tok),
{
    let cs = chars_of(tok.lexeme.as_str());
    let n = cs.len();
    let mut i: usize = 0;
    while i < n
        invariant
            cs@ == tok.lexeme@,
            n == cs.len(),
            i <= n,
            forall|k: int| 0 <= k < i ==> '0' <= #[trigger] cs@[k] <= '9',
        decreases n - i,
    {
        if cs[i] < '0' || cs[i] > '9' {
            return Err(
                Diagnostic {
                    line: tok.line,
                    kind: DiagnosticKind::InvalidToken { lexeme: tok.lexeme.clone() },
                },
            );
        }
        i = i + 1;
    }
    if n == 0 {
        return Err(
            Diagnostic {
                line: tok.line,
                kind: DiagnosticKind::InvalidToken { lexeme: tok.lexeme.clone() },
            },
        );
    }
    let ghost s = cs@;
    assert(s.take(n as int) =~= s);
    let mut acc: u64 = 0;
    let mut i: usize = 0;
    while i < n
        invariant
            s == cs@,
            s == tok.lexeme@,
            all_digits(s),
            n == s.len(),
            i <= n,
            acc == digits_value(s.take(i as int)),
            acc <= i32::MAX,
        decreases n - i,
    {
        assert(s.take(i + 1).drop_last() =~= s.take(i as int));
        assert(s.take(i + 1).last() == s[i as int]);
        assert(crate::text::is_digit(s[i as int]));
        let d = (cs[i] as u32 - '0' as u32) as u64;
        acc = acc * 10 + d;
        i = i + 1;
        if acc > i32::MAX as u64 {
            proof {
                lemma_digits_grow(s, i as int, n as int);
                assert(s.take(n as int) =~= s);
            }
            return Err(
                Diagnostic {
                    line: tok.line,
                    kind: DiagnosticKind::NumLiteralTooLarge { lexeme: tok.lexeme.clone() },
                },
            );
        }
    }
    Ok(acc as i32)
}

/// What parsing an expression yields, and the position after it.
///
/// The parsing functions below are defined for every position; where a position falls
/// outside the token sequence, or fails to advance, which a well-formed stream never
/// allows, they yield an arbitrary diagnostic.
pub type ExprOutcome = (Result<Expr, Diagnostic>, int);

/// Parses a term at `pos`: a variable, a literal, a parenthesised expression, or a unary
/// operator applied to an expression.
pub open spec fn term_spec(toks: Seq<Token>, pos: int, syms: SymbolsModel) -> ExprOutcome
    decreases toks.len() - pos, 0int, 0int,
{
    if !(0 <= pos < toks.len()) {
        (Err(unexpected_spec(0, TokenKind::Identifier, TokenKind::EOF)), pos)
    } else {
        let tok = toks[pos];
        let after = next_pos(toks, pos);
        match tok.kind {
            TokenKind::Identifier => (
                match var_id_spec(syms, tok) {
                    Ok(id) => Ok(Expr { kind: ExprKind::Var(id), token: tok }),
                    Err(d) => Err(d),
                },
                after,
            ),
            TokenKind::Literal => (
                match literal_spec(tok) {
                    Ok(v) => Ok(Expr { kind: ExprKind::Literal(v), token: tok }),
                    Err(d) => Err(d),
                },
                after,
            ),
            TokenKind::OpenParen => {
                let (inner, p) = expr_spec(toks, pos + 1, None, LOOSEST, syms);
                match inner {
                    Err(d) => (Err(d), p),
                    Ok(e) => if 0 <= p < toks.len() && toks[p].kind is CloseParen {
                        (Ok(e), next_pos(toks, p))
                    } else if 0 <= p < toks.len() {
                        (
                            Err(unexpected_spec(toks[p].line, TokenKind::CloseParen, toks[p].kind)),
                            next_pos(toks, p),
                        )
                    } else {
                        (Err(unexpected_spec(0, TokenKind::CloseParen, TokenKind::EOF)), p)
                    },
                }
            },
            TokenKind::Bang | TokenKind::Minus => {
                let op = if tok.kind is Bang {
                    UnOpKind::Not
                } else {
                    UnOpKind::Neg
                };
                let (inner, p) = expr_spec(toks, pos + 1, None, LOOSEST, syms);
                match inner {
                    Err(d) => (Err(d), p),
                    Ok(e) => (Ok(Expr { kind: ExprKind::UnOp(op, Box::new(e)), token: tok }), p),
                }
            },
            _ => (Err(unexpected_spec(tok.line, TokenKind::Identifier, tok.kind)), after),
        }
    }
}

/// Precedence climbing: parses at level `prec` (lower binds tighter), starting from `lhs`
/// where it is already parsed.
pub open spec fn expr_spec(
    toks: Seq<Token>,
    pos: int,
    lhs: Option<Expr>,
    prec: u8,
    syms: SymbolsModel,
) -> ExprOutcome
    decreases toks.len() - pos, prec, 1int,
{
    if !(0 <= pos < toks.len()) {
        (Err(unexpected_spec(0, TokenKind::Identifier, TokenKind::EOF)), pos)
    } else if prec == 0 {
        match lhs {
            Some(e) => (Ok(e), pos),
            None => term_spec(toks, pos, syms),
        }
    } else {
        let (left, q1) = expr_spec(toks, pos, lhs, (prec - 1) as u8, syms);
        match left {
            Err(d) => (Err(d), q1),
            Ok(l) => if !(pos <= q1 < toks.len()) {
                (Err(unexpected_spec(0, TokenKind::Identifier, TokenKind::EOF)), q1)
            } else {
                match op_of(toks[q1].kind) {
                    Some((op, level, assoc)) if level == prec => {
                        let rprec = if assoc is Right {
                            prec
                        } else {
                            (prec - 1) as u8
                        };
                        let (right, q2) = expr_spec(toks, q1 + 1, None, rprec, syms);
                        match right {
                            Err(d) => (Err(d), q2),
                            Ok(r) => {
                                let node = Expr {
                                    kind: ExprKind::BinOp(op, Box::new(l), Box::new(r)),
                                    token: toks[q1],
                                };
                                if !(assoc is Left) {
                                    (Ok(node), q2)
                                } else if q1 < q2 < toks.len() {
                                    expr_spec(toks, q2, Some(node), prec, syms)
                                } else {
                                    (Err(unexpected_spec(0, TokenKind::Identifier, TokenKind::EOF)), q2)
                                }
                            },
                        }
                    },
                    _ => (Ok(l), q1),
                }
            },
        }
    }
}

/// Parses a whole expression at `pos`.
pub open spec fn parse_expr_spec(toks: Seq<Token>, pos: int, syms: SymbolsModel) -> ExprOutcome {
    expr_spec(toks, pos, None, LOOSEST, syms)
}

/// Consumes the token at `pos`, which must be of kind `kind`.
pub open spec fn expect_spec(toks: Seq<Token>, pos: int, kind: TokenKind) -> (
    Result<Token, Diagnostic>,
    int,
) {
    if !(0 <= pos < toks.len()) {
        (Err(unexpected_spec(0, kind, TokenKind::EOF)), pos)
    } else if toks[pos].kind == kind {
        (Ok(toks[pos]), next_pos(toks, pos))
    } else {
        (Err(unexpected_spec(toks[pos].line, kind, toks[pos].kind)), next_pos(toks, pos))
    }
}

/// What parsing a statement yields, the position after it, and the symbol table after it.
pub type StmtOutcome = (Result<StmtTree, Diagnostic>, int, SymbolsModel);

/// What parsing the statements of a block yields, the position after them, and the symbol
/// table after them.
pub type ItemsOutcome = (Result<Seq<StmtTree>, Diagnostic>, int, SymbolsModel);

/// The outcome `rest` with the statement `t` put in front of what it yields.
pub open spec fn prepend(t: StmtTree, rest: ItemsOutcome) -> ItemsOutcome {
    (
        match rest.0 {
            Ok(ts) => Ok(seq![t] + ts),
            Err(d) => Err(d),
        },
        rest.1,
        rest.2,
    )
}

/// The outcome `rest` with the statements `done` put in front of what it yields.
pub open spec fn prepend_all(done: Seq<StmtTree>, rest: ItemsOutcome) -> ItemsOutcome {
    (
        match rest.0 {
            Ok(ts) => Ok(done + ts),
            Err(d) => Err(d),
        },
        rest.1,
        rest.2,
    )
}

proof fn lemma_prepend_all_empty(rest: ItemsOutcome)
    ensures
        prepend_all(Seq::empty(), rest) == rest,
{
    if let Ok(ts) = rest.0 {
        assert(Seq::<StmtTree>::empty() + ts =~= ts);
    }
}

proof fn lemma_prepend_all_step(done: Seq<StmtTree>, t: StmtTree, rest: ItemsOutcome)
    ensures
        prepend_all(done, prepend(t, rest)) == prepend_all(done.push(t), rest),
{
    if let Ok(ts) = rest.0 {
        assert(done + (seq![t] + ts) =~= done.push(t) + ts);
    }
}

/// Parses `let name: type;` or `let name: type = expr;` at `pos`. The name is declared
/// before its initialiser is parsed; an initialiser becomes an assignment to the new variable.
pub open spec fn let_spec(toks: Seq<Token>, pos: int, syms: SymbolsModel) -> StmtOutcome {
    let tok = toks[pos];
    let (name, q1) = expect_spec(toks, pos + 1, TokenKind::Identifier);
    match name {
        Err(d) => (Err(d), q1, syms),
        Ok(name_tok) => {
            let (colon, q2) = expect_spec(toks, q1, TokenKind::Colon);
            match colon {
                Err(d) => (Err(d), q2, syms),
                Ok(_) => {
                    let (ty, q3) = expect_spec(toks, q2, TokenKind::Identifier);
                    match ty {
                        Err(d) => (Err(d), q3, syms),
                        Ok(type_tok) => {
                            let (added, s1) = add_var_spec(syms, name_tok, type_tok);
                            match added {
                                Err(d) => (Err(d), q3, s1),
                                Ok(id) => if 0 <= q3 < toks.len() && toks[q3].kind is Equal {
                                    let (init, q4) = parse_expr_spec(toks, q3 + 1, s1);
                                    match init {
                                        Err(d) => (Err(d), q4, s1),
                                        Ok(e) => {
                                            let (semi, q5) = expect_spec(toks, q4, TokenKind::Semi);
                                            match semi {
                                                Err(d) => (Err(d), q5, s1),
                                                Ok(_) => (
                                                    Ok(
                                                        StmtTree::ExprStmt(
                                                            tok,
                                                            Expr {
                                                                kind: ExprKind::BinOp(
                                                                    BinOpKind::Assign,
                                                                    Box::new(
                                                                        Expr {
                                                                            kind: ExprKind::Var(id),
                                                                            token: name_tok,
                                                                        },
                                                                    ),
                                                                    Box::new(e),
                                                                ),
                                                                token: toks[q3],
                                                            },
                                                        ),
                                                    ),
                                                    q5,
                                                    s1,
                                                ),
                                            }
                                        },
                                    }
                                } else {
                                    let (semi, q4) = expect_spec(toks, q3, TokenKind::Semi);
                                    match semi {
                                        Err(d) => (Err(d), q4, s1),
                                        Ok(_) => (Ok(StmtTree::Empty(tok)), q4, s1),
                                    }
                                },
                            }
                        },
                    }
                },
            }
        },
    }
}

/// Parses an expression and the `;` after it, at `pos`: a `return` statement or an
/// expression statement, introduced by `tok`.
pub open spec fn expr_then_semi_spec(
    toks: Seq<Token>,
    pos: int,
    syms: SymbolsModel,
    tok: Token,
    is_return: bool,
) -> StmtOutcome {
    let (e, q1) = parse_expr_spec(toks, pos, syms);
    match e {
        Err(d) => (Err(d), q1, syms),
        Ok(ex) => {
            let (semi, q2) = expect_spec(toks, q1, TokenKind::Semi);
            match semi {
                Err(d) => (Err(d), q2, syms),
                Ok(_) => (
                    Ok(
                        if is_return {
                            StmtTree::Return(tok, ex)
                        } else {
                            StmtTree::ExprStmt(tok, ex)
                        },
                    ),
                    q2,
                    syms,
                ),
            }
        },
    }
}

/// Parses one statement at `pos`, dispatching on its first token.
pub open spec fn stmt_spec(toks: Seq<Token>, pos: int, syms: SymbolsModel) -> StmtOutcome
    decreases toks.len() - pos, 0int,
{
    if !(0 <= pos < toks.len()) {
        (Err(unexpected_spec(0, TokenKind::Semi, TokenKind::EOF)), pos, syms)
    } else {
        let tok = toks[pos];
        match tok.kind {
            TokenKind::OpenCurly => {
                let (items, p, s) = items_spec(toks, pos + 1, pushed(syms));
                match items {
                    Err(d) => (Err(d), p, popped(s)),
                    Ok(ts) => {
                        let (close, q2) = expect_spec(toks, p, TokenKind::CloseCurly);
                        match close {
                            Err(d) => (Err(d), q2, popped(s)),
                            Ok(_) => (Ok(StmtTree::Block(tok, ts)), q2, popped(s)),
                        }
                    },
                }
            },
            TokenKind::If | TokenKind::While => {
                let (c, q1) = parse_expr_spec(toks, pos + 1, syms);
                match c {
                    Err(d) => (Err(d), q1, syms),
                    Ok(cond) => if !(pos < q1 < toks.len()) {
                        (Err(unexpected_spec(0, TokenKind::Semi, TokenKind::EOF)), q1, syms)
                    } else {
                        let (body, q2, s2) = stmt_spec(toks, q1, syms);
                        match body {
                            Err(d) => (Err(d), q2, s2),
                            Ok(b) => if tok.kind is While {
                                (Ok(StmtTree::While(tok, cond, Box::new(b))), q2, s2)
                            } else if !(pos < q2 < toks.len()) {
                                (Err(unexpected_spec(0, TokenKind::Semi, TokenKind::EOF)), q2, s2)
                            } else if toks[q2].kind is Else {
                                let (el, q3, s3) = stmt_spec(toks, q2 + 1, s2);
                                match el {
                                    Err(d) => (Err(d), q3, s3),
                                    Ok(e) => (
                                        Ok(
                                            StmtTree::If(
                                                tok,
                                                cond,
                                                Box::new(b),
                                                Some(Box::new(e)),
                                            ),
                                        ),
                                        q3,
                                        s3,
                                    ),
                                }
                            } else {
                                (Ok(StmtTree::If(tok, cond, Box::new(b), None)), q2, s2)
                            },
                        }
                    },
                }
            },
            TokenKind::Let => let_spec(toks, pos, syms),
            TokenKind::Return => expr_then_semi_spec(toks, pos + 1, syms, tok, true),
            TokenKind::Break | TokenKind::Continue => {
                let (semi, q1) = expect_spec(toks, pos + 1, TokenKind::Semi);
                match semi {
                    Err(d) => (Err(d), q1, syms),
                    Ok(_) => (
                        Ok(
                            if tok.kind is Break {
                                StmtTree::Break(tok)
                            } else {
                                StmtTree::Continue(tok)
                            },
                        ),
                        q1,
                        syms,
                    ),
                }
            },
            TokenKind::Semi => (Ok(StmtTree::Empty(tok)), pos + 1, syms),
            _ => expr_then_semi_spec(toks, pos, syms, tok, false),
        }
    }
}

/// Parses the statements of a block at `pos`, up to its closing `}` (or the end of input),
/// which it leaves in place.
pub open spec fn items_spec(toks: Seq<Token>, pos: int, syms: SymbolsModel) -> ItemsOutcome
    decreases toks.len() - pos, 1int,
{
    if !(0 <= pos < toks.len()) {
        (Err(unexpected_spec(0, TokenKind::CloseCurly, TokenKind::EOF)), pos, syms)
    } else if toks[pos].kind is CloseCurly || toks[pos].kind is EOF {
        (Ok(Seq::empty()), pos, syms)
    } else {
        let (st, p, s) = stmt_spec(toks, pos, syms);
        match st {
            Err(d) => (Err(d), p, s),
            Ok(t) => if pos < p < toks.len() {
                prepend(t, items_spec(toks, p, s))
            } else {
                (Err(unexpected_spec(0, TokenKind::CloseCurly, TokenKind::EOF)), p, s)
            },
        }
    }
}

/// What parsing a whole program yields: the statements parsed, the diagnostic that halted
/// parsing if any, and the symbol table after it.
pub type FileOutcome = (Seq<StmtTree>, Option<Diagnostic>, SymbolsModel);

/// Parses statements at `pos` until the end of input, halting at the first diagnostic.
pub open spec fn file_spec(toks: Seq<Token>, pos: int, syms: SymbolsModel) -> FileOutcome
    decreases toks.len() - pos,
{
    if !(0 <= pos < toks.len()) || toks[pos].kind is EOF {
        (Seq::empty(), None, syms)
    } else {
        let (st, p, s) = stmt_spec(toks, pos, syms);
        match st {
            Err(d) => (Seq::empty(), Some(d), s),
            Ok(t) => if pos < p < toks.len() {
                let rest = file_spec(toks, p, s);
                (seq![t] + rest.0, rest.1, rest.2)
            } else {
                (seq![t], None, s)
            },
        }
    }
}

/// Whether a parsed statement, or its diagnostic, is the outcome `m` describes.
pub open spec fn stmt_result_is(r: Result<Stmt, Diagnostic>, m: Result<StmtTree, Diagnostic>) -> bool {
    match (r, m) {
        (Ok(s), Ok(t)) => is_tree(s, t),
        (Err(d), Err(e)) => d == e,
        _ => false,
    }
}

/// Whether parsed statements, or their diagnostic, are the outcome `m` describes.
pub open spec fn items_result_is(
    r: Result<Vec<Stmt>, Diagnostic>,
    m: Result<Seq<StmtTree>, Diagnostic>,
) -> bool {
    match (r, m) {
        (Ok(v), Ok(ts)) => are_trees(v@, ts),
        (Err(d), Err(e)) => d == e,
        _ => false,
    }
}

/// The diagnostics reported for an optional halting diagnostic.
pub open spec fn reported(err: Option<Diagnostic>) -> Seq<Diagnostic> {
    match err {
        Some(d) => seq![d],
        None => Seq::empty(),
    }
}


/// No operator of the token kind `k` has a precedence level above `lo` and up to `hi`.
pub open spec fn no_op_within(k: TokenKind, lo: u8, hi: u8) -> bool {
    match op_of(k) {
        Some((_, level, _)) => !(lo < level && level <= hi),
        None => true,
    }
}

pub open spec fn bin(op: BinOpKind, l: Expr, tok: Token, r: Expr) -> Expr {
    Expr { kind: ExprKind::BinOp(op, Box::new(l), Box::new(r)), token: tok }
}

pub open spec fn var_expr(id: SymbolID, tok: Token) -> Expr {
    Expr { kind: ExprKind::Var(id), token: tok }
}

pub open spec fn lit_expr(tok: Token) -> Expr {
    Expr { kind: ExprKind::Literal(literal_spec(tok)->Ok_0), token: tok }
}

/// A token that parses as a term on its own: a literal that fits, or a declared variable.
pub open spec fn simple_term(tok: Token, syms: SymbolsModel) -> bool {
    (tok.kind is Literal && literal_spec(tok) is Ok) || (tok.kind is Identifier && var_id_spec(
        syms,
        tok,
    ) is Ok)
}

/// The expression that a simple term parses to.
pub open spec fn simple_expr(tok: Token, syms: SymbolsModel) -> Expr {
    if tok.kind is Literal {
        lit_expr(tok)
    } else {
        var_expr(var_id_spec(syms, tok)->Ok_0, tok)
    }
}

/// Parsing at a looser level gives what a tighter level gave, where the token after it has
/// no operator of a level in between.
pub proof fn lemma_lift(
    toks: Seq<Token>,
    pos: int,
    lhs: Option<Expr>,
    k: u8,
    prec: u8,
    syms: SymbolsModel,
)
    requires
        0 <= pos < toks.len(),
        k <= prec,
        ({
            let (r, q) = expr_spec(toks, pos, lhs, k, syms);
            pos <= q < toks.len() && (r is Err || no_op_within(toks[q].kind, k, prec))
        }),
    ensures
        expr_spec(toks, pos, lhs, prec, syms) == expr_spec(toks, pos, lhs, k, syms),
    decreases prec - k,
{
    if prec > k {
        lemma_lift(toks, pos, lhs, k, (prec - 1) as u8, syms);
        let (r, q) = expr_spec(toks, pos, lhs, k, syms);
        if r is Ok {
            assert(no_op_within(toks[q].kind, k, (prec - 1) as u8));
        }
    }
}

/// A simple term followed by a token with no operator up to level `prec` parses, at that
/// level, as itself.
pub proof fn lemma_simple_term(toks: Seq<Token>, pos: int, prec: u8, syms: SymbolsModel)
    requires
        ends_with_eof(toks),
        0 <= pos < toks.len() - 1,
        simple_term(toks[pos], syms),
        no_op_within(toks[pos + 1].kind, 0, prec),
    ensures
        expr_spec(toks, pos, None, prec, syms) == (Ok::<Expr, Diagnostic>(simple_expr(toks[pos], syms)), pos + 1),
{
    assert(expr_spec(toks, pos, None, 0, syms) == term_spec(toks, pos, syms));
    lemma_lift(toks, pos, None, 0, prec, syms);
}

/// An expression already parsed, followed by a token with no operator up to level `prec`,
/// is what parsing at that level yields.
pub proof fn lemma_done(toks: Seq<Token>, pos: int, e: Expr, prec: u8, syms: SymbolsModel)
    requires
        0 <= pos < toks.len(),
        no_op_within(toks[pos].kind, 0, prec),
    ensures
        expr_spec(toks, pos, Some(e), prec, syms) == (Ok::<Expr, Diagnostic>(e), pos),
{
    lemma_lift(toks, pos, Some(e), 0, prec, syms);
}

/// Multiplication binds tighter than addition: `a + b * c` parses as `a + (b * c)`, for
/// any simple terms `a`, `b` and `c` and anything after them that is no operator.
pub proof fn lemma_mult_before_add(toks: Seq<Token>, pos: int, syms: SymbolsModel)
    requires
        ends_with_eof(toks),
        0 <= pos,
        pos + 5 < toks.len(),
        simple_term(toks[pos], syms),
        toks[pos + 1].kind is Plus,
        simple_term(toks[pos + 2], syms),
        toks[pos + 3].kind is Star,
        simple_term(toks[pos + 4], syms),
        op_of(toks[pos + 5].kind) is None,
    ensures
        parse_expr_spec(toks, pos, syms) == (
            Ok::<Expr, Diagnostic>(
                bin(
                    BinOpKind::Add,
                    simple_expr(toks[pos], syms),
                    toks[pos + 1],
                    bin(
                        BinOpKind::Mult,
                        simple_expr(toks[pos + 2], syms),
                        toks[pos + 3],
                        simple_expr(toks[pos + 4], syms),
                    ),
                ),
            ),
            pos + 5,
        ),
{
    let a = simple_expr(toks[pos], syms);
    let b = simple_expr(toks[pos + 2], syms);
    let c = simple_expr(toks[pos + 4], syms);
    let m = bin(BinOpKind::Mult, b, toks[pos + 3], c);
    let sum = bin(BinOpKind::Add, a, toks[pos + 1], m);
    lemma_simple_term(toks, pos, 1, syms);
    lemma_simple_term(toks, pos + 2, 0, syms);
    lemma_simple_term(toks, pos + 4, 0, syms);
    lemma_done(toks, pos + 5, m, 1, syms);
    assert(expr_spec(toks, pos + 2, None, 1, syms) == (Ok::<Expr, Diagnostic>(m), pos + 5));
    lemma_done(toks, pos + 5, sum, 2, syms);
    assert(expr_spec(toks, pos, None, 2, syms) == (Ok::<Expr, Diagnostic>(sum), pos + 5));
    lemma_lift(toks, pos, None, 2, LOOSEST, syms);
}

/// Assignment groups to the right: `a = b = c;` parses as the statement `a = (b = c);`, for
/// any simple terms `a`, `b` and `c`, where `a` is a variable.
pub proof fn lemma_assign_right(toks: Seq<Token>, pos: int, syms: SymbolsModel)
    requires
        ends_with_eof(toks),
        0 <= pos,
        pos + 5 < toks.len(),
        toks[pos].kind is Identifier,
        simple_term(toks[pos], syms),
        toks[pos + 1].kind is Equal,
        simple_term(toks[pos + 2], syms),
        toks[pos + 3].kind is Equal,
        simple_term(toks[pos + 4], syms),
        toks[pos + 5].kind is Semi,
    ensures
        ({
            let inner = bin(
                BinOpKind::Assign,
                simple_expr(toks[pos + 2], syms),
                toks[pos + 3],
                simple_expr(toks[pos + 4], syms),
            );
            let outer = bin(BinOpKind::Assign, simple_expr(toks[pos], syms), toks[pos + 1], inner);
            &&& parse_expr_spec(toks, pos, syms) == (Ok::<Expr, Diagnostic>(outer), pos + 5)
            &&& stmt_spec(toks, pos, syms) == (
                Ok::<StmtTree, Diagnostic>(StmtTree::ExprStmt(toks[pos], outer)),
                pos + 6,
                syms,
            )
        }),
{
    let a = simple_expr(toks[pos], syms);
    let b = simple_expr(toks[pos + 2], syms);
    let c = simple_expr(toks[pos + 4], syms);
    let inner = bin(BinOpKind::Assign, b, toks[pos + 3], c);
    let outer = bin(BinOpKind::Assign, a, toks[pos + 1], inner);
    lemma_simple_term(toks, pos, 3, syms);
    lemma_simple_term(toks, pos + 2, 3, syms);
    lemma_simple_term(toks, pos + 4, LOOSEST, syms);
    assert(expr_spec(toks, pos + 2, None, LOOSEST, syms) == (Ok::<Expr, Diagnostic>(inner), pos + 5));
    assert(expr_spec(toks, pos, None, LOOSEST, syms) == (Ok::<Expr, Diagnostic>(outer), pos + 5));
    assert(toks[pos + 5].kind != TokenKind::EOF);
}

/// Comparisons do not chain: in `a < b < c` the expression ends before the second `<`, so as
/// a statement it fails there, where a `;` was expected.
pub proof fn lemma_comparison_no_chain(toks: Seq<Token>, pos: int, syms: SymbolsModel)
    requires
        ends_with_eof(toks),
        0 <= pos,
        pos + 4 < toks.len(),
        toks[pos].kind is Identifier,
        simple_term(toks[pos], syms),
        toks[pos + 1].kind is Less,
        simple_term(toks[pos + 2], syms),
        toks[pos + 3].kind is Less,
    ensures
        parse_expr_spec(toks, pos, syms) == (
            Ok::<Expr, Diagnostic>(
                bin(
                    BinOpKind::Less,
                    simple_expr(toks[pos], syms),
                    toks[pos + 1],
                    simple_expr(toks[pos + 2], syms),
                ),
            ),
            pos + 3,
        ),
        stmt_spec(toks, pos, syms).0 == Err::<StmtTree, Diagnostic>(
            unexpected_spec(toks[pos + 3].line, TokenKind::Semi, TokenKind::Less),
        ),
{
    let lt = bin(
        BinOpKind::Less,
        simple_expr(toks[pos], syms),
        toks[pos + 1],
        simple_expr(toks[pos + 2], syms),
    );
    lemma_simple_term(toks, pos, 2, syms);
    lemma_simple_term(toks, pos + 2, 2, syms);
    assert(expr_spec(toks, pos, None, 3, syms) == (Ok::<Expr, Diagnostic>(lt), pos + 3));
    lemma_lift(toks, pos, None, 3, LOOSEST, syms);
}

/// A declaration with an initialiser, `let x: t = a + b * c;`, declares `x` and becomes the
/// assignment `x = a + (b * c)`, for any literals `a`, `b` and `c` that fit.
pub proof fn lemma_let_precedence(toks: Seq<Token>, pos: int, syms: SymbolsModel)
    requires
        ends_with_eof(toks),
        0 <= pos,
        pos + 11 < toks.len(),
        toks[pos].kind is Let,
        toks[pos + 1].kind is Identifier,
        toks[pos + 2].kind is Colon,
        toks[pos + 3].kind is Identifier,
        toks[pos + 4].kind is Equal,
        toks[pos + 5].kind is Literal,
        toks[pos + 6].kind is Plus,
        toks[pos + 7].kind is Literal,
        toks[pos + 8].kind is Star,
        toks[pos + 9].kind is Literal,
        toks[pos + 10].kind is Semi,
        literal_spec(toks[pos + 5]) is Ok,
        literal_spec(toks[pos + 7]) is Ok,
        literal_spec(toks[pos + 9]) is Ok,
        add_var_spec(syms, toks[pos + 1], toks[pos + 3]).0 is Ok,
    ensures
        ({
            let (added, s1) = add_var_spec(syms, toks[pos + 1], toks[pos + 3]);
            let value = bin(
                BinOpKind::Add,
                lit_expr(toks[pos + 5]),
                toks[pos + 6],
                bin(BinOpKind::Mult, lit_expr(toks[pos + 7]), toks[pos + 8], lit_expr(toks[pos + 9])),
            );
            let assign = bin(
                BinOpKind::Assign,
                var_expr(added->Ok_0, toks[pos + 1]),
                toks[pos + 4],
                value,
            );
            stmt_spec(toks, pos, syms) == (
                Ok::<StmtTree, Diagnostic>(StmtTree::ExprStmt(toks[pos], assign)),
                pos + 11,
                s1,
            )
        }),
{
    let s1 = add_var_spec(syms, toks[pos + 1], toks[pos + 3]).1;
    lemma_mult_before_add(toks, pos + 5, s1);
    assert(toks[pos + 10].kind != TokenKind::EOF);
}

/// Parsing halts at the first statement that fails: its diagnostic is the only one, and no
/// statement is returned from there on.
pub proof fn lemma_fail_fast(toks: Seq<Token>, pos: int, syms: SymbolsModel)
    requires
        0 <= pos < toks.len(),
        !(toks[pos].kind is EOF),
        stmt_spec(toks, pos, syms).0 is Err,
    ensures
        file_spec(toks, pos, syms) == (
            Seq::<StmtTree>::empty(),
            Some(stmt_spec(toks, pos, syms).0->Err_0),
            stmt_spec(toks, pos, syms).2,
        ),
{
}

/// A statement that starts with a name no scope declares fails with `VarUnknown` for that
/// name, and parsing halts there.
pub proof fn lemma_unknown_halts(toks: Seq<Token>, pos: int, syms: SymbolsModel)
    requires
        ends_with_eof(toks),
        0 <= pos < toks.len() - 1,
        toks[pos].kind is Identifier,
        resolve(syms.scopes, toks[pos].lexeme@) is None,
    ensures
        file_spec(toks, pos, syms) == (
            Seq::<StmtTree>::empty(),
            Some(
                Diagnostic {
                    line: toks[pos].line,
                    kind: DiagnosticKind::VarUnknown { var_name: toks[pos].lexeme },
                },
            ),
            syms,
        ),
{
    assert(expr_spec(toks, pos, None, 0, syms) == term_spec(toks, pos, syms));
    lemma_lift(toks, pos, None, 0, LOOSEST, syms);
}

/// Every statement leaves as many scopes open as it found, whether it succeeds or fails: a
/// block opens one scope and closes it again, also when a diagnostic ends it early.
pub proof fn lemma_stmt_balanced(toks: Seq<Token>, pos: int, syms: SymbolsModel)
    requires
        syms.scopes.len() >= 1,
    ensures
        stmt_spec(toks, pos, syms).2.scopes.len() == syms.scopes.len(),
    decreases toks.len() - pos, 0int,
{
    if 0 <= pos < toks.len() {
        let tok = toks[pos];
        match tok.kind {
            TokenKind::OpenCurly => {
                lemma_items_balanced(toks, pos + 1, pushed(syms));
            },
            TokenKind::If | TokenKind::While => {
                let (c, q1) = parse_expr_spec(toks, pos + 1, syms);
                if c is Ok && pos < q1 < toks.len() {
                    lemma_stmt_balanced(toks, q1, syms);
                    let (body, q2, s2) = stmt_spec(toks, q1, syms);
                    if body is Ok && tok.kind is If && pos < q2 < toks.len() && toks[q2].kind is Else {
                        lemma_stmt_balanced(toks, q2 + 1, s2);
                    }
                }
            },
            _ => {},
        }
    }
}

/// The statements of a block leave as many scopes open as they found.
pub proof fn lemma_items_balanced(toks: Seq<Token>, pos: int, syms: SymbolsModel)
    requires
        syms.scopes.len() >= 1,
    ensures
        items_spec(toks, pos, syms).2.scopes.len() == syms.scopes.len(),
    decreases toks.len() - pos, 1int,
{
    if 0 <= pos < toks.len() && !(toks[pos].kind is CloseCurly || toks[pos].kind is EOF) {
        lemma_stmt_balanced(toks, pos, syms);
        let (st, q, s1) = stmt_spec(toks, pos, syms);
        if st is Ok && pos < q < toks.len() {
            lemma_items_balanced(toks, q, s1);
        }
    }
}

/// A parser over one token stream.
pub struct Parser {
    token_stream: TokenStream,
}

impl Parser {
    pub closed spec fn stream(&self) -> TokenStream {
        self.token_stream
    }

    pub open spec fn wf(&self) -> bool {
        self.stream().wf()
    }

    pub open spec fn toks(&self) -> Seq<Token> {
        self.stream()@.0
    }

    pub open spec fn pos(&self) -> int {
        self.stream()@.1
    }

    pub fn new(token_stream: TokenStream) -> (r: Parser)
        requires
            token_stream.wf(),
        ensures
            r.wf(),
            r.stream() == token_stream,
    {
        Parser { token_stream }
    }

    fn parse_term(&mut self, symbols: &Symbols) -> (r: Result<Expr, Diagnostic>)
        requires
            old(self).wf(),
            symbols.wf(),
        ensures
            final(self).wf(),
            final(self).toks() == old(self).toks(),
            (r, final(self).pos()) == term_spec(old(self).toks(), old(self).pos(), symbols@),
            final(self).pos() >= old(self).pos(),
            r is Ok ==> final(self).pos() > old(self).pos(),
        decreases old(self).toks().len() - old(self).pos(), 0int, 0int,
    {
        let tok = self.token_stream.advance();
        match tok.kind {
            TokenKind::Identifier => {
                match symbols.get_local_var_id(&tok) {
                    Ok(id) => Ok(Expr { kind: ExprKind::Var(id), token: tok }),
                    Err(d) => Err(d),
                }
            },
            TokenKind::Literal => {
                match literal_value(&tok) {
                    Ok(v) => Ok(Expr { kind: ExprKind::Literal(v), token: tok }),
                    Err(d) => Err(d),
                }
            },
            TokenKind::OpenParen => {
                let e = match self.parse_expr_recursive(symbols, None, LOOSEST) {
                    Ok(e) => e,
                    Err(d) => return Err(d),
                };
                match self.token_stream.expect(TokenKind::CloseParen) {
                    Ok(_) => Ok(e),
                    Err(d) => Err(d),
                }
            },
            TokenKind::Bang | TokenKind::Minus => {
                let op = if tok.kind == TokenKind::Bang {
                    UnOpKind::Not
                } else {
                    UnOpKind::Neg
                };
                let e = match self.parse_expr_recursive(symbols, None, LOOSEST) {
                    Ok(e) => e,
                    Err(d) => return Err(d),
                };
                Ok(Expr { kind: ExprKind::UnOp(op, Box::new(e)), token: tok })
            },
            _ => Err(
                Diagnostic {
                    line: tok.line,
                    kind: DiagnosticKind::UnexpectedToken {
                        expected: TokenKind::Identifier,
                        found: tok.kind,
                    },
                },
            ),
        }
    }

    fn parse_expr_recursive(&mut self, symbols: &Symbols, lhs: Option<Expr>, prec: u8) -> (r: Result<
        Expr,
        Diagnostic,
    >)
        requires
            old(self).wf(),
            symbols.wf(),
        ensures
            final(self).wf(),
            final(self).toks() == old(self).toks(),
            (r, final(self).pos()) == expr_spec(
                old(self).toks(),
                old(self).pos(),
                lhs,
                prec,
                symbols@,
            ),
            final(self).pos() >= old(self).pos(),
            r is Ok && lhs is None ==> final(self).pos() > old(self).pos(),
        decreases old(self).toks().len() - old(self).pos(), prec, 1int,
    {
        if prec == 0 {
            match lhs {
                Some(e) => {
                    return Ok(e);
                },
                None => {
                    return self.parse_term(symbols);
                },
            }
        }
        let left = match self.parse_expr_recursive(symbols, lhs, prec - 1) {
            Ok(e) => e,
            Err(d) => return Err(d),
        };
        let next = self.token_stream.peek();
        let (op, assoc) = match binary_op(next.kind) {
            Some((op, level, assoc)) => {
                if level != prec {
                    return Ok(left);
                }
                (op, assoc)
            },
            None => {
                return Ok(left);
            },
        };
        self.token_stream.advance();
        let rprec = if assoc == Assoc::Right {
            prec
        } else {
            prec - 1
        };
        let right = match self.parse_expr_recursive(symbols, None, rprec) {
            Ok(e) => e,
            Err(d) => return Err(d),
        };
        let node = Expr { kind: ExprKind::BinOp(op, Box::new(left), Box::new(right)), token: next };
        if assoc == Assoc::Left {
            self.parse_expr_recursive(symbols, Some(node), prec)
        } else {
            Ok(node)
        }
    }

    /// Parses statements until the end of input. The first diagnostic is reported to the
    /// context and halts parsing; the statements parsed before it are returned.
    pub fn parse(&mut self, context: &mut Context) -> (r: Root)
        requires
            old(self).wf(),
            old(context).wf(),
        ensures
            final(self).wf(),
            final(context).wf(),
            final(context).symbols@.scopes.len() == old(context).symbols@.scopes.len(),
            ({
                let (trees, err, syms) = file_spec(
                    old(self).toks(),
                    old(self).pos(),
                    old(context).symbols@,
                );
                &&& are_trees(r.statements@, trees)
                &&& final(context).symbols@ == syms
                &&& final(context).diagnostics@ == old(context).diagnostics@ + reported(err)
            }),
    {
        let ghost toks = self.toks();
        let ghost q0 = self.pos();
        let ghost s0 = context.symbols@;
        let ghost d0 = context.diagnostics@;
        let mut statements: Vec<Stmt> = Vec::new();
        let ghost mut done: Seq<StmtTree> = Seq::empty();
        assert(done + file_spec(toks, q0, s0).0 =~= file_spec(toks, q0, s0).0);
        while self.token_stream.any()
            invariant
                self.wf(),
                self.toks() == toks,
                toks == old(self).toks(),
                q0 == old(self).pos(),
                s0 == old(context).symbols@,
                d0 == old(context).diagnostics@,
                context.wf(),
                context.symbols@.scopes.len() == s0.scopes.len(),
                context.diagnostics@ == d0,
                self.pos() >= q0,
                are_trees(statements@, done),
                ({
                    let here = file_spec(toks, self.pos(), context.symbols@);
                    file_spec(toks, q0, s0) == (done + here.0, here.1, here.2)
                }),
            decreases toks.len() - self.pos(),
        {
            let ghost outcome = stmt_spec(toks, self.pos(), context.symbols@);
            match self.parse_statement(&mut context.symbols) {
                Ok(s) => {
                    let ghost t = outcome.0->Ok_0;
                    let ghost rest = file_spec(toks, self.pos(), context.symbols@);
                    proof {
                        assert(done + (seq![t] + rest.0) =~= done.push(t) + rest.0);
                        done = done.push(t);
                    }
                    let ghost prev = statements@;
                    statements.push(s);
                    assert(are_trees(statements@, done)) by {
                        assert forall|i: int| 0 <= i < done.len() implies #[trigger] is_tree(
                            statements@[i],
                            done[i],
                        ) by {
                            if i < done.len() - 1 {
                                assert(statements@[i] == prev[i]);
                            }
                        }
                    }
                },
                Err(d) => {
                    context.diagnostics.report(d);
                    assert(context.diagnostics@ =~= d0 + reported(Some(d)));
                    assert(done + Seq::<StmtTree>::empty() =~= done);
                    return Root { statements };
                },
            }
        }
        assert(done + Seq::<StmtTree>::empty() =~= done);
        assert(context.diagnostics@ + reported(None) =~= context.diagnostics@);
        Root { statements }
    }

    fn parse_expr_then_semi(&mut self, symbols: &Symbols, tok: Token, is_return: bool) -> (r: Result<
        Stmt,
        Diagnostic,
    >)
        requires
            old(self).wf(),
            symbols.wf(),
        ensures
            final(self).wf(),
            final(self).toks() == old(self).toks(),
            final(self).pos() >= old(self).pos(),
            r is Ok ==> final(self).pos() > old(self).pos(),
            ({
                let (sr, sp, ss) = expr_then_semi_spec(
                    old(self).toks(),
                    old(self).pos(),
                    symbols@,
                    tok,
                    is_return,
                );
                stmt_result_is(r, sr) && final(self).pos() == sp && ss == symbols@
            }),
    {
        let e = match self.parse_expr_recursive(symbols, None, LOOSEST) {
            Ok(e) => e,
            Err(d) => return Err(d),
        };
        match self.token_stream.expect(TokenKind::Semi) {
            Ok(_) => {},
            Err(d) => return Err(d),
        }
        if is_return {
            Ok(Stmt { kind: StmtKind::Return(Box::new(e)), token: tok })
        } else {
            Ok(Stmt { kind: StmtKind::ExprStmt(Box::new(e)), token: tok })
        }
    }

    fn parse_let(&mut self, symbols: &mut Symbols) -> (r: Result<Stmt, Diagnostic>)
        requires
            old(self).wf(),
            old(symbols).wf(),
            old(self).stream().current().kind is Let,
        ensures
            final(self).wf(),
            final(self).toks() == old(self).toks(),
            final(symbols).wf(),
            final(symbols)@.scopes.len() == old(symbols)@.scopes.len(),
            final(self).pos() >= old(self).pos(),
            r is Ok ==> final(self).pos() > old(self).pos(),
            ({
                let (sr, sp, ss) = let_spec(old(self).toks(), old(self).pos(), old(symbols)@);
                stmt_result_is(r, sr) && final(self).pos() == sp && final(symbols)@ == ss
            }),
    {
        let tok = self.token_stream.advance();
        let name = match self.token_stream.expect(TokenKind::Identifier) {
            Ok(t) => t,
            Err(d) => return Err(d),
        };
        match self.token_stream.expect(TokenKind::Colon) {
            Ok(_) => {},
            Err(d) => return Err(d),
        }
        let ty = match self.token_stream.expect(TokenKind::Identifier) {
            Ok(t) => t,
            Err(d) => return Err(d),
        };
        let id = match symbols.add_local_var(&name, &ty) {
            Ok(id) => id,
            Err(d) => return Err(d),
        };
        match self.token_stream.match_kind(TokenKind::Equal) {
            Some(eq) => {
                let init = match self.parse_expr_recursive(symbols, None, LOOSEST) {
                    Ok(e) => e,
                    Err(d) => return Err(d),
                };
                match self.token_stream.expect(TokenKind::Semi) {
                    Ok(_) => {},
                    Err(d) => return Err(d),
                }
                let target = Expr { kind: ExprKind::Var(id), token: name };
                let assign = Expr {
                    kind: ExprKind::BinOp(BinOpKind::Assign, Box::new(target), Box::new(init)),
                    token: eq,
                };
                Ok(Stmt { kind: StmtKind::ExprStmt(Box::new(assign)), token: tok })
            },
            None => {
                match self.token_stream.expect(TokenKind::Semi) {
                    Ok(_) => {},
                    Err(d) => return Err(d),
                }
                Ok(Stmt { kind: StmtKind::Empty, token: tok })
            },
        }
    }

    fn parse_conditional(&mut self, symbols: &mut Symbols) -> (r: Result<Stmt, Diagnostic>)
        requires
            old(self).wf(),
            old(symbols).wf(),
            old(self).stream().current().kind is If || old(self).stream().current().kind is While,
        ensures
            final(self).wf(),
            final(self).toks() == old(self).toks(),
            final(symbols).wf(),
            final(symbols)@.scopes.len() == old(symbols)@.scopes.len(),
            final(self).pos() >= old(self).pos(),
            r is Ok ==> final(self).pos() > old(self).pos(),
            ({
                let (sr, sp, ss) = stmt_spec(old(self).toks(), old(self).pos(), old(symbols)@);
                stmt_result_is(r, sr) && final(self).pos() == sp && final(symbols)@ == ss
            }),
        decreases old(self).toks().len() - old(self).pos(), 2int,
    {
        let tok = self.token_stream.advance();
        let cond = match self.parse_expr_recursive(symbols, None, LOOSEST) {
            Ok(e) => e,
            Err(d) => return Err(d),
        };
        let body = match self.parse_statement(symbols) {
            Ok(s) => s,
            Err(d) => return Err(d),
        };
        if tok.kind == TokenKind::While {
            return Ok(Stmt { kind: StmtKind::While(Box::new(cond), Box::new(body)), token: tok });
        }
        match self.token_stream.match_kind(TokenKind::Else) {
            Some(_) => {
                let other = match self.parse_statement(symbols) {
                    Ok(s) => s,
                    Err(d) => return Err(d),
                };
                Ok(
                    Stmt {
                        kind: StmtKind::If(Box::new(cond), Box::new(body), Some(Box::new(other))),
                        token: tok,
                    },
                )
            },
            None => Ok(Stmt { kind: StmtKind::If(Box::new(cond), Box::new(body), None), token: tok }),
        }
    }

    fn parse_block(&mut self, symbols: &mut Symbols) -> (r: Result<Stmt, Diagnostic>)
        requires
            old(self).wf(),
            old(symbols).wf(),
            old(self).stream().current().kind is OpenCurly,
        ensures
            final(self).wf(),
            final(self).toks() == old(self).toks(),
            final(symbols).wf(),
            final(symbols)@.scopes.len() == old(symbols)@.scopes.len(),
            final(self).pos() >= old(self).pos(),
            r is Ok ==> final(self).pos() > old(self).pos(),
            ({
                let (sr, sp, ss) = stmt_spec(old(self).toks(), old(self).pos(), old(symbols)@);
                stmt_result_is(r, sr) && final(self).pos() == sp && final(symbols)@ == ss
            }),
        decreases old(self).toks().len() - old(self).pos(), 2int,
    {
        let tok = self.token_stream.advance();
        symbols.push_scope();
        let ghost inside = items_spec(self.toks(), self.pos(), symbols@);
        let items = self.parse_block_items(symbols);
        match items {
            Err(d) => {
                symbols.pop_scope();
                Err(d)
            },
            Ok(v) => {
                match self.token_stream.expect(TokenKind::CloseCurly) {
                    Ok(_) => {},
                    Err(d) => {
                        symbols.pop_scope();
                        return Err(d);
                    },
                }
                symbols.pop_scope();
                proof {
                    lemma_trees_from(v@, inside.0->Ok_0, 0);
                }
                Ok(Stmt { kind: StmtKind::Block(v), token: tok })
            },
        }
    }

    fn parse_block_items(&mut self, symbols: &mut Symbols) -> (r: Result<Vec<Stmt>, Diagnostic>)
        requires
            old(self).wf(),
            old(symbols).wf(),
        ensures
            final(self).wf(),
            final(self).toks() == old(self).toks(),
            final(symbols).wf(),
            final(symbols)@.scopes.len() == old(symbols)@.scopes.len(),
            final(self).pos() >= old(self).pos(),
            ({
                let (ir, ip, is) = items_spec(old(self).toks(), old(self).pos(), old(symbols)@);
                items_result_is(r, ir) && final(self).pos() == ip && final(symbols)@ == is
            }),
        decreases old(self).toks().len() - old(self).pos(), 4int,
    {
        let ghost toks = self.toks();
        let ghost q0 = self.pos();
        let ghost s0 = symbols@;
        let ghost n = symbols@.scopes.len();
        let mut stmts: Vec<Stmt> = Vec::new();
        let ghost mut done: Seq<StmtTree> = Seq::empty();
        proof {
            lemma_prepend_all_empty(items_spec(toks, q0, s0));
        }
        loop
            invariant
                self.wf(),
                self.toks() == toks,
                toks == old(self).toks(),
                q0 == old(self).pos(),
                s0 == old(symbols)@,
                n == old(symbols)@.scopes.len(),
                symbols.wf(),
                symbols@.scopes.len() == n,
                self.pos() >= q0,
                are_trees(stmts@, done),
                prepend_all(done, items_spec(toks, self.pos(), symbols@)) == items_spec(toks, q0, s0),
            decreases toks.len() - self.pos(),
        {
            let kind = self.token_stream.peek_kind();
            if kind == TokenKind::CloseCurly || kind == TokenKind::EOF {
                assert(done + Seq::<StmtTree>::empty() =~= done);
                return Ok(stmts);
            }
            let ghost before = items_spec(toks, self.pos(), symbols@);
            let ghost outcome = stmt_spec(toks, self.pos(), symbols@);
            match self.parse_statement(symbols) {
                Ok(s) => {
                    proof {
                        let t = outcome.0->Ok_0;
                        lemma_prepend_all_step(done, t, items_spec(toks, self.pos(), symbols@));
                        done = done.push(t);
                    }
                    let ghost prev = stmts@;
                    stmts.push(s);
                    assert(are_trees(stmts@, done)) by {
                        assert forall|i: int| 0 <= i < done.len() implies #[trigger] is_tree(
                            stmts@[i],
                            done[i],
                        ) by {
                            if i < done.len() - 1 {
                                assert(stmts@[i] == prev[i]);
                            }
                        }
                    }
                },
                Err(d) => {
                    return Err(d);
                },
            }
        }
    }

    fn parse_statement(&mut self, symbols: &mut Symbols) -> (r: Result<Stmt, Diagnostic>)
        requires
            old(self).wf(),
            old(symbols).wf(),
        ensures
            final(self).wf(),
            final(self).toks() == old(self).toks(),
            final(symbols).wf(),
            final(symbols)@.scopes.len() == old(symbols)@.scopes.len(),
            final(self).pos() >= old(self).pos(),
            r is Ok ==> final(self).pos() > old(self).pos(),
            ({
                let (sr, sp, ss) = stmt_spec(old(self).toks(), old(self).pos(), old(symbols)@);
                stmt_result_is(r, sr) && final(self).pos() == sp && final(symbols)@ == ss
            }),
        decreases old(self).toks().len() - old(self).pos(), 3int,
    {
        let kind = self.token_stream.peek_kind();
        match kind {
            TokenKind::OpenCurly => self.parse_block(symbols),
            TokenKind::If | TokenKind::While => self.parse_conditional(symbols),
            TokenKind::Let => self.parse_let(symbols),
            TokenKind::Return => {
                let tok = self.token_stream.advance();
                self.parse_expr_then_semi(symbols, tok, true)
            },
            TokenKind::Break | TokenKind::Continue => {
                let tok = self.token_stream.advance();
                match self.token_stream.expect(TokenKind::Semi) {
                    Ok(_) => {},
                    Err(d) => return Err(d),
                }
                if kind == TokenKind::Break {
                    Ok(Stmt { kind: StmtKind::Break, token: tok })
                } else {
                    Ok(Stmt { kind: StmtKind::Continue, token: tok })
                }
            },
            TokenKind::Semi => {
                let tok = self.token_stream.advance();
                Ok(Stmt { kind: StmtKind::Empty, token: tok })
            },
            _ => {
                let tok = self.token_stream.peek();
                self.parse_expr_then_semi(symbols, tok, false)
            },
        }
    }
}

} // verus!
