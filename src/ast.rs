use vstd::prelude::*;

use crate::symbols::SymbolID;
use crate::tokens::Token;

verus! {

#[derive(Debug, Clone, Copy, PartialEq, Eq, Structural)]
pub enum BinOpKind {
    Add,
    Sub,
    Mult,
    Div,
    Assign,
    Equal,
    NotEqual,
    Less,
    LessEqual,
    Greater,
    GreaterEqual,
}

#[derive(Debug, Clone, Copy, PartialEq, Eq, Structural)]
pub enum UnOpKind {
    Not,
    Neg,
}

/// The kinds of expressions of the language.
#[derive(Debug)]
pub enum ExprKind {
    BinOp(BinOpKind, Box<Expr>, Box<Expr>),
    UnOp(UnOpKind, Box<Expr>),
    Var(SymbolID),
    Literal(i32),
}

/// An expression, with the token that introduced it.
#[derive(Debug)]
pub struct Expr {
    pub kind: ExprKind,
    pub token: Token,
}

/// The kinds of statements of the language.
#[derive(Debug)]
pub enum StmtKind {
    If(Box<Expr>, Box<Stmt>, Option<Box<Stmt>>),
    While(Box<Expr>, Box<Stmt>),
    ExprStmt(Box<Expr>),
    Block(Vec<Stmt>),
    Return(Box<Expr>),
    Break,
    Continue,
    Empty,
}

/// A statement, with the token that introduced it.
#[derive(Debug)]
pub struct Stmt {
    pub kind: StmtKind,
    pub token: Token,
}

/// The parsed program: its top-level statements in order.
#[derive(Debug)]
pub struct Root {
    pub statements: Vec<Stmt>,
}

/// A statement as a mathematical tree: the token that introduced each node first, and the
/// statements of a block as a sequence.
pub enum StmtTree {
    If(Token, Expr, Box<StmtTree>, Option<Box<StmtTree>>),
    While(Token, Expr, Box<StmtTree>),
    ExprStmt(Token, Expr),
    Block(Token, Seq<StmtTree>),
    Return(Token, Expr),
    Break(Token),
    Continue(Token),
    Empty(Token),
}

/// Whether the statement `s` is the tree `t`.
pub open spec fn is_tree(s: Stmt, t: StmtTree) -> bool
    decreases t, 0int,
{
    match t {
        StmtTree::If(tok, c, th, el) => s.token == tok && match s.kind {
            StmtKind::If(c2, th2, el2) => *c2 == c && is_tree(*th2, *th) && match (el2, el) {
                (None, None) => true,
                (Some(a), Some(b)) => is_tree(*a, *b),
                _ => false,
            },
            _ => false,
        },
        StmtTree::While(tok, c, body) => s.token == tok && match s.kind {
            StmtKind::While(c2, body2) => *c2 == c && is_tree(*body2, *body),
            _ => false,
        },
        StmtTree::ExprStmt(tok, e) => s.token == tok && match s.kind {
            StmtKind::ExprStmt(e2) => *e2 == e,
            _ => false,
        },
        StmtTree::Block(tok, items) => s.token == tok && match s.kind {
            StmtKind::Block(v) => v@.len() == items.len() && trees_from(v@, items, 0),
            _ => false,
        },
        StmtTree::Return(tok, e) => s.token == tok && match s.kind {
            StmtKind::Return(e2) => *e2 == e,
            _ => false,
        },
        StmtTree::Break(tok) => s.token == tok && s.kind is Break,
        StmtTree::Continue(tok) => s.token == tok && s.kind is Continue,
        StmtTree::Empty(tok) => s.token == tok && s.kind is Empty,
    }
}

/// Whether each statement of `v` from index `k` on is the tree of `items` at its index.
pub open spec fn trees_from(v: Seq<Stmt>, items: Seq<StmtTree>, k: int) -> bool
    decreases items, items.len() - k,
{
    if 0 <= k < items.len() && k < v.len() {
        is_tree(v[k], items[k]) && trees_from(v, items, k + 1)
    } else {
        true
    }
}

/// Pairing statements with trees one for one, from index `k` on.
pub proof fn lemma_trees_from(v: Seq<Stmt>, items: Seq<StmtTree>, k: int)
    requires
        v.len() == items.len(),
        0 <= k <= items.len(),
    ensures
        trees_from(v, items, k) <==> forall|i: int| k <= i < items.len() ==> #[trigger] is_tree(v[i], items[i]),
    decreases items.len() - k,
{
    if k < items.len() {
        lemma_trees_from(v, items, k + 1);
        if trees_from(v, items, k) {
            assert forall|i: int| k <= i < items.len() implies #[trigger] is_tree(v[i], items[i]) by {
                if i > k {
                    assert(trees_from(v, items, k + 1));
                }
            }
        }
        if forall|i: int| k <= i < items.len() ==> #[trigger] is_tree(v[i], items[i]) {
            assert(is_tree(v[k], items[k]));
            assert forall|i: int| k + 1 <= i < items.len() implies #[trigger] is_tree(v[i], items[i]) by {
                assert(k <= i);
            }
        }
    }
}

/// Whether the statements `v` are the trees `ts`, one for one.
pub open spec fn are_trees(v: Seq<Stmt>, ts: Seq<StmtTree>) -> bool {
    v.len() == ts.len() && forall|i: int| 0 <= i < ts.len() ==> #[trigger] is_tree(v[i], ts[i])
}

} // verus!
