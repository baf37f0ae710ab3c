use lang::ast::{BinOpKind, Expr, ExprKind, Root, Stmt, StmtKind, UnOpKind};
use lang::compiler::{Compiler, Context};
use lang::diagnostic::{Diagnostic, DiagnosticKind};
use lang::lexer::Lexer;
use lang::parser::Parser;
use lang::symbols::SymbolID;
use lang::tokens::{Token, TokenKind, TokenStream};

fn compile(src: &str) -> Result<Root, Vec<Diagnostic>> {
    let mut compiler = Compiler::new();
    compiler.compile(src)
}

fn literal(e: &Expr) -> i32 {
    match &e.kind {
        ExprKind::Literal(v) => *v,
        other => panic!("expected a literal, found {:?}", other),
    }
}

fn var(e: &Expr) -> SymbolID {
    match &e.kind {
        ExprKind::Var(id) => *id,
        other => panic!("expected a variable, found {:?}", other),
    }
}

fn binary(e: &Expr) -> (BinOpKind, &Expr, &Expr) {
    match &e.kind {
        ExprKind::BinOp(op, l, r) => (*op, l, r),
        other => panic!("expected a binary operation, found {:?}", other),
    }
}

fn expr_of(s: &Stmt) -> &Expr {
    match &s.kind {
        StmtKind::ExprStmt(e) => e,
        other => panic!("expected an expression statement, found {:?}", other),
    }
}

#[test]
fn let_with_precedence() {
    let root = compile("let x: int = 1 + 2 * 3;").unwrap();
    assert_eq!(root.statements.len(), 1);
    let (op, target, value) = binary(expr_of(&root.statements[0]));
    assert_eq!(op, BinOpKind::Assign);
    assert_eq!(var(target), SymbolID(1));
    let (add, one, product) = binary(value);
    assert_eq!(add, BinOpKind::Add);
    assert_eq!(literal(one), 1);
    let (mult, two, three) = binary(product);
    assert_eq!(mult, BinOpKind::Mult);
    assert_eq!(literal(two), 2);
    assert_eq!(literal(three), 3);
}

#[test]
fn left_associative_subtraction() {
    let root = compile("let x: int; x = 8 - 4 - 2;").unwrap();
    let (_, _, value) = binary(expr_of(&root.statements[1]));
    let (sub, left, right) = binary(value);
    assert_eq!(sub, BinOpKind::Sub);
    assert_eq!(literal(right), 2);
    let (inner, eight, four) = binary(left);
    assert_eq!(inner, BinOpKind::Sub);
    assert_eq!(literal(eight), 8);
    assert_eq!(literal(four), 4);
}

#[test]
fn assignment_groups_right() {
    let root = compile("let a: int; let b: int; a = b = 1;").unwrap();
    assert_eq!(root.statements.len(), 3);
    assert!(matches!(root.statements[0].kind, StmtKind::Empty));
    let (op, a, rest) = binary(expr_of(&root.statements[2]));
    assert_eq!(op, BinOpKind::Assign);
    assert_eq!(var(a), SymbolID(1));
    let (op2, b, one) = binary(rest);
    assert_eq!(op2, BinOpKind::Assign);
    assert_eq!(var(b), SymbolID(2));
    assert_eq!(literal(one), 1);
}

#[test]
fn redeclaration_in_same_block() {
    let errors = compile("{\n let x: int;\n let x: int;\n}").unwrap_err();
    assert_eq!(errors.len(), 1);
    assert_eq!(errors[0].line, 3);
    match &errors[0].kind {
        DiagnosticKind::VarRedeclared { original_line, var_name } => {
            assert_eq!(*original_line, 2);
            assert_eq!(var_name, "x");
        }
        other => panic!("unexpected diagnostic {:?}", other),
    }
    assert_eq!(
        errors[0].render(),
        "ERROR (line 3): Variable 'x' redeclared. (Originally declared on line 2)"
    );
}

#[test]
fn shadowing_in_inner_block() {
    let root = compile("let x: int; { let x: int; x = 1; } x = 2;").unwrap();
    assert_eq!(root.statements.len(), 3);
    match &root.statements[1].kind {
        StmtKind::Block(items) => {
            assert_eq!(items.len(), 2);
            let (_, target, _) = binary(expr_of(&items[1]));
            assert_eq!(var(target), SymbolID(2));
        }
        other => panic!("expected a block, found {:?}", other),
    }
    let (_, outer, _) = binary(expr_of(&root.statements[2]));
    assert_eq!(var(outer), SymbolID(1));
}

#[test]
fn unknown_variable_halts() {
    let errors = compile("y = 1;\nlet z: int;\nq = 2;").unwrap_err();
    assert_eq!(errors.len(), 1);
    assert_eq!(errors[0].line, 1);
    match &errors[0].kind {
        DiagnosticKind::VarUnknown { var_name } => assert_eq!(var_name, "y"),
        other => panic!("unexpected diagnostic {:?}", other),
    }
    assert_eq!(errors[0].render(), "ERROR (line 1): Unknown variable 'y'");
}

#[test]
fn statements_before_failure_are_kept() {
    let mut lexer = Lexer::new("let a: int; a = 1; b = 2; a = 3;");
    let stream = lexer.tokenize().unwrap();
    let mut parser = Parser::new(stream);
    let mut context = Context::new();
    let root = parser.parse(&mut context);
    assert_eq!(root.statements.len(), 2);
    assert!(context.diagnostics.has_diagnostics());
    let errors = context.diagnostics.take_diagnostics();
    assert_eq!(errors.len(), 1);
    assert!(!context.diagnostics.has_diagnostics());
}

#[test]
fn if_else_and_while_keep_scopes_balanced() {
    let mut lexer = Lexer::new("let c: int; if (c) { let t: int; } else { let e: int; } while (c) { let w: int; }");
    let stream = lexer.tokenize().unwrap();
    let mut parser = Parser::new(stream);
    let mut context = Context::new();
    assert_eq!(context.symbols.scope_depth(), 1);
    let root = parser.parse(&mut context);
    assert_eq!(context.symbols.scope_depth(), 1);
    assert!(!context.diagnostics.has_diagnostics());
    assert_eq!(root.statements.len(), 3);
    match &root.statements[1].kind {
        StmtKind::If(_, then, other) => {
            assert!(matches!(then.kind, StmtKind::Block(_)));
            assert!(matches!(other.as_ref().unwrap().kind, StmtKind::Block(_)));
        }
        other => panic!("expected if, found {:?}", other),
    }
    assert!(matches!(root.statements[2].kind, StmtKind::While(_, _)));
}

#[test]
fn scopes_balanced_after_error_in_block() {
    let mut lexer = Lexer::new("{ { let a: int; b = 1; } }");
    let stream = lexer.tokenize().unwrap();
    let mut parser = Parser::new(stream);
    let mut context = Context::new();
    let root = parser.parse(&mut context);
    assert_eq!(root.statements.len(), 0);
    assert_eq!(context.symbols.scope_depth(), 1);
    assert_eq!(context.diagnostics.take_diagnostics().len(), 1);
}

#[test]
fn comparison_chain_fails() {
    let errors = compile("let a: int; let b: int; let c: int; a < b < c;").unwrap_err();
    assert_eq!(errors.len(), 1);
    match &errors[0].kind {
        DiagnosticKind::UnexpectedToken { expected, found } => {
            assert_eq!(*expected, TokenKind::Semi);
            assert_eq!(*found, TokenKind::Less);
        }
        other => panic!("unexpected diagnostic {:?}", other),
    }
    assert_eq!(errors[0].render(), "ERROR (line 1): Expected token ';', found '<'");
}

#[test]
fn single_comparison_parses() {
    let root = compile("let a: int; let b: int; a <= b;").unwrap();
    let (op, _, _) = binary(expr_of(&root.statements[2]));
    assert_eq!(op, BinOpKind::LessEqual);
}

#[test]
fn unary_takes_whole_expression() {
    let root = compile("let a: int; let b: int; !a == b;").unwrap();
    match &expr_of(&root.statements[2]).kind {
        ExprKind::UnOp(op, operand) => {
            assert_eq!(*op, UnOpKind::Not);
            let (eq, _, _) = binary(operand);
            assert_eq!(eq, BinOpKind::Equal);
        }
        other => panic!("expected a unary operation, found {:?}", other),
    }
}

#[test]
fn parenthesised_expression() {
    let root = compile("let a: int; a = (1 + 2) * 3;").unwrap();
    let (_, _, value) = binary(expr_of(&root.statements[1]));
    let (mult, sum, three) = binary(value);
    assert_eq!(mult, BinOpKind::Mult);
    assert_eq!(literal(three), 3);
    assert_eq!(binary(sum).0, BinOpKind::Add);
}

#[test]
fn missing_close_paren() {
    let errors = compile("let a: int; a = (1 + 2;").unwrap_err();
    match &errors[0].kind {
        DiagnosticKind::UnexpectedToken { expected, found } => {
            assert_eq!(*expected, TokenKind::CloseParen);
            assert_eq!(*found, TokenKind::Semi);
        }
        other => panic!("unexpected diagnostic {:?}", other),
    }
}

#[test]
fn unclosed_block() {
    let errors = compile("{ let a: int;").unwrap_err();
    assert_eq!(errors.len(), 1);
    match &errors[0].kind {
        DiagnosticKind::UnexpectedToken { expected, found } => {
            assert_eq!(*expected, TokenKind::CloseCurly);
            assert_eq!(*found, TokenKind::EOF);
        }
        other => panic!("unexpected diagnostic {:?}", other),
    }
}

#[test]
fn return_break_continue_empty() {
    let root = compile("return 1; break; continue; ;").unwrap();
    assert_eq!(root.statements.len(), 4);
    match &root.statements[0].kind {
        StmtKind::Return(e) => assert_eq!(literal(e), 1),
        other => panic!("expected return, found {:?}", other),
    }
    assert!(matches!(root.statements[1].kind, StmtKind::Break));
    assert!(matches!(root.statements[2].kind, StmtKind::Continue));
    assert!(matches!(root.statements[3].kind, StmtKind::Empty));
    assert_eq!(root.statements[1].token.kind, TokenKind::Break);
}

#[test]
fn break_needs_semicolon() {
    let errors = compile("break }").unwrap_err();
    match &errors[0].kind {
        DiagnosticKind::UnexpectedToken { expected, found } => {
            assert_eq!(*expected, TokenKind::Semi);
            assert_eq!(*found, TokenKind::CloseCurly);
        }
        other => panic!("unexpected diagnostic {:?}", other),
    }
}

#[test]
fn literal_limits() {
    let root = compile("return 2147483647;").unwrap();
    match &root.statements[0].kind {
        StmtKind::Return(e) => assert_eq!(literal(e), i32::MAX),
        other => panic!("expected return, found {:?}", other),
    }
    let errors = compile("return 2147483648;").unwrap_err();
    match &errors[0].kind {
        DiagnosticKind::NumLiteralTooLarge { lexeme } => assert_eq!(lexeme, "2147483648"),
        other => panic!("unexpected diagnostic {:?}", other),
    }
    assert_eq!(
        errors[0].render(),
        "ERROR (line 1): Numeric literal '2147483648' does not fit in 32 bits"
    );
}

#[test]
fn unknown_type() {
    let errors = compile("let a: float;").unwrap_err();
    match &errors[0].kind {
        DiagnosticKind::TypeUnknown { name } => assert_eq!(name, "float"),
        other => panic!("unexpected diagnostic {:?}", other),
    }
    assert_eq!(errors[0].render(), "ERROR (line 1): Unknown type 'float'");
}

#[test]
fn variable_is_not_a_type() {
    let errors = compile("let a: int; let b: a;").unwrap_err();
    assert!(matches!(errors[0].kind, DiagnosticKind::TypeUnknown { .. }));
}

#[test]
fn type_is_not_a_variable() {
    let errors = compile("int = 1;").unwrap_err();
    assert!(matches!(errors[0].kind, DiagnosticKind::VarUnknown { .. }));
}

#[test]
fn expression_expected() {
    let errors = compile("let a: int; a = ;").unwrap_err();
    match &errors[0].kind {
        DiagnosticKind::UnexpectedToken { expected, found } => {
            assert_eq!(*expected, TokenKind::Identifier);
            assert_eq!(*found, TokenKind::Semi);
        }
        other => panic!("unexpected diagnostic {:?}", other),
    }
}

#[test]
fn lexical_errors_are_all_reported() {
    let errors = compile("let a: int;\n a = 1 @ 2;\n # $").unwrap_err();
    assert_eq!(errors.len(), 3);
    assert_eq!(errors[0].line, 2);
    assert_eq!(errors[1].line, 3);
    assert_eq!(errors[2].line, 3);
    match &errors[0].kind {
        DiagnosticKind::InvalidToken { lexeme } => assert_eq!(lexeme, "@"),
        other => panic!("unexpected diagnostic {:?}", other),
    }
    assert_eq!(errors[2].render(), "ERROR (line 3): Unexpected token in source file: '$'");
}

#[test]
fn empty_source() {
    let root = compile("").unwrap();
    assert_eq!(root.statements.len(), 0);
    let root = compile("  \n\t ").unwrap();
    assert_eq!(root.statements.len(), 0);
}

#[test]
fn each_compile_starts_afresh() {
    let mut compiler = Compiler::new();
    assert!(compiler.compile("let a: int;").is_ok());
    assert!(compiler.compile("let a: int;").is_ok());
}

#[test]
fn malformed_literal_token() {
    let tokens = vec![
        Token { kind: TokenKind::Return, lexeme: "return".to_string(), line: 1 },
        Token { kind: TokenKind::Literal, lexeme: "12a".to_string(), line: 1 },
        Token { kind: TokenKind::Semi, lexeme: ";".to_string(), line: 1 },
        Token { kind: TokenKind::EOF, lexeme: String::new(), line: 1 },
    ];
    let mut parser = Parser::new(TokenStream::new(tokens));
    let mut context = Context::new();
    let root = parser.parse(&mut context);
    assert_eq!(root.statements.len(), 0);
    let errors = context.diagnostics.take_diagnostics();
    assert!(matches!(errors[0].kind, DiagnosticKind::InvalidToken { ref lexeme } if lexeme == "12a"));
}

#[test]
fn keyword_without_statement() {
    let errors = compile("func;").unwrap_err();
    match &errors[0].kind {
        DiagnosticKind::UnexpectedToken { expected, found } => {
            assert_eq!(*expected, TokenKind::Identifier);
            assert_eq!(*found, TokenKind::Func);
        }
        other => panic!("unexpected diagnostic {:?}", other),
    }
}
