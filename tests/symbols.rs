use lang::diagnostic::{Diagnostic, DiagnosticKind, Diagnostics};
use lang::symbols::{SymbolID, Symbols};
use lang::tokens::{Token, TokenKind};

fn ident(name: &str, line: i32) -> Token {
    Token { kind: TokenKind::Identifier, lexeme: name.to_string(), line }
}

#[test]
fn primitive_type_is_known() {
    let symbols = Symbols::new();
    assert_eq!(symbols.get_type_id(&ident("int", 1)).unwrap(), SymbolID(0));
    assert!(symbols.get_local_var_id(&ident("int", 1)).is_err());
    assert_eq!(symbols.scope_depth(), 1);
}

#[test]
fn declare_and_resolve() {
    let mut symbols = Symbols::new();
    let id = symbols.add_local_var(&ident("x", 3), &ident("int", 3)).unwrap();
    assert_eq!(id, SymbolID(1));
    assert_eq!(symbols.get_local_var_id(&ident("x", 9)).unwrap(), id);
}

#[test]
fn redeclare_cites_first_line() {
    let mut symbols = Symbols::new();
    symbols.add_local_var(&ident("x", 3), &ident("int", 3)).unwrap();
    let err = symbols.add_local_var(&ident("x", 8), &ident("int", 8)).unwrap_err();
    assert_eq!(err.line, 8);
    match err.kind {
        DiagnosticKind::VarRedeclared { original_line, var_name } => {
            assert_eq!(original_line, 3);
            assert_eq!(var_name, "x");
        }
        other => panic!("unexpected diagnostic {:?}", other),
    }
}

#[test]
fn shadow_then_unwind() {
    let mut symbols = Symbols::new();
    let outer = symbols.add_local_var(&ident("x", 1), &ident("int", 1)).unwrap();
    symbols.push_scope();
    assert_eq!(symbols.scope_depth(), 2);
    let inner = symbols.add_local_var(&ident("x", 2), &ident("int", 2)).unwrap();
    assert_ne!(inner, outer);
    assert_eq!(symbols.get_local_var_id(&ident("x", 3)).unwrap(), inner);
    symbols.pop_scope();
    assert_eq!(symbols.scope_depth(), 1);
    assert_eq!(symbols.get_local_var_id(&ident("x", 4)).unwrap(), outer);
}

#[test]
fn unknown_names() {
    let mut symbols = Symbols::new();
    let err = symbols.get_local_var_id(&ident("nope", 6)).unwrap_err();
    assert_eq!(err.line, 6);
    assert!(matches!(err.kind, DiagnosticKind::VarUnknown { ref var_name } if var_name == "nope"));
    let err = symbols.add_local_var(&ident("y", 2), &ident("bool", 2)).unwrap_err();
    assert!(matches!(err.kind, DiagnosticKind::TypeUnknown { ref name } if name == "bool"));
    assert!(symbols.get_local_var_id(&ident("y", 2)).is_err());
}

#[test]
fn diagnostics_sink_drains() {
    let mut sink = Diagnostics::new();
    assert!(!sink.has_diagnostics());
    sink.report(Diagnostic { line: 1, kind: DiagnosticKind::VarUnknown { var_name: "a".to_string() } });
    sink.report(Diagnostic { line: 2, kind: DiagnosticKind::VarUnknown { var_name: "b".to_string() } });
    assert!(sink.has_diagnostics());
    let taken = sink.take_diagnostics();
    assert_eq!(taken.len(), 2);
    assert_eq!(taken[1].line, 2);
    assert!(!sink.has_diagnostics());
    assert_eq!(sink.take_diagnostics().len(), 0);
}
