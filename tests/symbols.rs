use veryl_analyzer::analyzer_error::AnalyzerError;
use veryl_analyzer::check_system_function::{
    is_defined_system_function_name, CheckSystemFunction, HandlerPoint,
};
use veryl_analyzer::evaluator::{Evaluated, Evaluator};
use veryl_analyzer::expression::Expression;
use veryl_analyzer::namespace::Namespace;
use veryl_analyzer::symbol::{
    EnumMemberProperty, InstanceProperty, ModuleProperty, ParameterProperty, ParameterScope,
    ParameterValue, Port, PortProperty, Symbol, SymbolKind, VariableProperty,
};
use veryl_analyzer::symbol_table::SymbolTable;
use veryl_analyzer::syntax::ExpressionIdentifier;
use veryl_analyzer::token::Token;
use veryl_analyzer::types::{Direction, Type, TypeKind};

fn ns(paths: &[&str]) -> Namespace {
    let mut n = Namespace::new();
    for p in paths {
        n.push(p);
    }
    n
}

fn logic(width: Vec<Expression>) -> Type {
    Type { modifier: vec![], kind: TypeKind::Logic, width, array: vec![] }
}

fn variable(name: &str, space: &Namespace, ty: Type) -> Symbol {
    Symbol::new(
        &Token::new(name, 1, 1),
        SymbolKind::Variable(VariableProperty { ty }),
        space,
        vec![],
    )
}

fn parameter(ty: Type, value: ParameterValue) -> ParameterProperty {
    ParameterProperty { token: Token::new("P", 1, 1), ty, scope: ParameterScope::Global, value }
}

#[test]
fn variable_with_width_eight() {
    let mut s = variable("a", &ns(&["top"]), logic(vec![Expression::Number(8)]));
    assert_eq!(s.evaluate(), Evaluated::Variable { width: 8 });
}

#[test]
fn variable_intrinsic_and_unknown_widths() {
    let mut b = variable("b", &ns(&[]), Type { modifier: vec![], kind: TypeKind::Bit, width: vec![], array: vec![] });
    assert_eq!(b.evaluate(), Evaluated::Variable { width: 1 });
    let mut c = variable("c", &ns(&[]), logic(vec![Expression::Identifier("N".to_string())]));
    assert_eq!(c.evaluate(), Evaluated::Unknown);
    let mut d = Symbol::new(&Token::new("blk", 1, 1), SymbolKind::Block, &ns(&[]), vec![]);
    assert_eq!(d.evaluate(), Evaluated::Unknown);
}

#[test]
fn evaluation_is_cached() {
    let mut s = variable("a", &ns(&["top"]), logic(vec![Expression::Number(8)]));
    let first = s.evaluate();
    s.kind = SymbolKind::Variable(VariableProperty { ty: logic(vec![Expression::Number(16)]) });
    let second = s.evaluate();
    assert_eq!(first, second);
    assert_eq!(second, Evaluated::Variable { width: 8 });
    assert_eq!(s.evaluated, Some(Evaluated::Variable { width: 8 }));
}

#[test]
fn parameter_uses_declared_width() {
    let p = parameter(logic(vec![Expression::Number(4)]), ParameterValue::Expression(Expression::Number(3)));
    let mut ev = Evaluator::new();
    ev.context_width.push(7);
    assert_eq!(ev.parameter(&p), Evaluated::Fixed { width: 4, value: 3 });
    assert_eq!(ev.context_width, vec![7]);
    assert_eq!(ev.expression(&Expression::Number(1)), Evaluated::Fixed { width: 7, value: 1 });
    let mut s = Symbol::new(&Token::new("P", 1, 1), SymbolKind::Parameter(p), &ns(&["top"]), vec![]);
    assert_eq!(s.evaluate(), Evaluated::Fixed { width: 4, value: 3 });
}

#[test]
fn type_parameter_is_unknown() {
    let ty = Type { modifier: vec![], kind: TypeKind::Type, width: vec![], array: vec![] };
    let value = ParameterValue::TypeExpression(logic(vec![]));
    let mut s = Symbol::new(&Token::new("T", 1, 1), SymbolKind::Parameter(parameter(ty, value)), &ns(&[]), vec![]);
    assert_eq!(s.evaluate(), Evaluated::Unknown);
}

#[test]
fn kind_names_and_descriptions() {
    let module = SymbolKind::Module(ModuleProperty { parameters: vec![], ports: vec![Port {
        name: "clk".to_string(),
        property: PortProperty { token: Token::new("clk", 1, 1), ty: None, direction: Direction::Input },
    }] });
    assert_eq!(module.to_kind_name(), "module");
    assert_eq!(module.to_text(), "module (0 params, 1 ports)");
    let port = SymbolKind::Port(PortProperty {
        token: Token::new("d", 1, 1),
        ty: Some(logic(vec![Expression::Number(8)])),
        direction: Direction::Output,
    });
    assert_eq!(port.to_text(), "port (output logic<8>)");
    let local = SymbolKind::Parameter(ParameterProperty {
        token: Token::new("N", 1, 1),
        ty: Type { modifier: vec![], kind: TypeKind::U32, width: vec![], array: vec![] },
        scope: ParameterScope::Local,
        value: ParameterValue::Expression(Expression::Number(10)),
    });
    assert_eq!(local.to_kind_name(), "parameter");
    assert_eq!(local.to_text(), "localparam (u32) = 10");
    let inst = SymbolKind::Instance(InstanceProperty { type_path: vec!["pkg".to_string(), "sub".to_string()] });
    assert_eq!(inst.to_text(), "instance (pkg::sub)");
    let member = SymbolKind::EnumMember(EnumMemberProperty { value: Some(Expression::Number(2)) });
    assert_eq!(member.to_kind_name(), "enum member");
    assert_eq!(member.to_text(), "enum member = 2");
    assert_eq!(SymbolKind::Genvar.to_text(), "genvar");
}

#[test]
fn duplicate_declaration_is_reported() {
    let mut table = SymbolTable::new();
    let top = ns(&["top"]);
    assert_eq!(table.insert(variable("a", &top, logic(vec![]))).unwrap(), 0);
    match table.insert(variable("a", &top, logic(vec![]))) {
        Err(AnalyzerError::DuplicatedIdentifier { identifier, .. }) => assert_eq!(identifier, "a"),
        other => panic!("unexpected {:?}", other),
    }
    assert_eq!(table.len(), 1);
    assert_eq!(table.insert(variable("a", &ns(&["other"]), logic(vec![]))).unwrap(), 1);
    assert_eq!(table.len(), 2);
}

#[test]
fn inner_declaration_shadows_outer() {
    let mut table = SymbolTable::new();
    let outer = table.insert(variable("x", &ns(&["top"]), logic(vec![]))).unwrap();
    let inner = table.insert(variable("x", &ns(&["top", "blk"]), logic(vec![]))).unwrap();
    assert_eq!(table.lookup("x", &ns(&["top", "blk"])), Some(inner));
    assert_eq!(table.lookup("x", &ns(&["top", "blk", "deep"])), Some(inner));
    assert_eq!(table.lookup("x", &ns(&["top"])), Some(outer));
    assert_eq!(table.lookup("x", &ns(&["top", "other"])), Some(outer));
    assert_eq!(table.lookup("x", &ns(&[])), None);
    assert_eq!(table.lookup("y", &ns(&["top", "blk"])), None);

    let mut fresh = SymbolTable::new();
    let only = fresh.insert(variable("x", &ns(&["top"]), logic(vec![]))).unwrap();
    assert_eq!(fresh.lookup("x", &ns(&["top", "blk"])), Some(only));
}

#[test]
fn references_and_table_evaluation() {
    let mut table = SymbolTable::new();
    let id = table.insert(variable("a", &ns(&["top"]), logic(vec![Expression::Number(3)]))).unwrap();
    table.add_reference(id, Token::new("a", 9, 4));
    assert_eq!(table.get(id).references.len(), 1);
    assert_eq!(table.get(id).references[0].line, 9);
    assert_eq!(table.evaluate(id), Evaluated::Variable { width: 3 });
    assert_eq!(table.get(id).evaluated, Some(Evaluated::Variable { width: 3 }));
}

#[test]
fn namespace_inclusion() {
    assert!(ns(&["top"]).included(&ns(&["top", "blk"])));
    assert!(ns(&[]).included(&ns(&["top"])));
    assert!(!ns(&["top", "blk"]).included(&ns(&["top"])));
    assert!(!ns(&["other"]).included(&ns(&["top", "blk"])));
    let mut n = ns(&["top", "blk"]);
    n.pop();
    assert_eq!(n.paths, vec!["top".to_string()]);
}

fn call(name: &str) -> ExpressionIdentifier {
    ExpressionIdentifier {
        identifier: Token::new(name, 4, 8),
        dollar: name.starts_with('$'),
        has_suffix: false,
    }
}

#[test]
fn recognized_system_functions_pass() {
    let mut check = CheckSystemFunction::new("source");
    for name in ["$display", "$clog2", "$bits", "$async$and$array", "$writeo", "$acos", "$value$plusargs"] {
        check.expression_identifier(&call(name));
    }
    assert!(check.errors.is_empty());
    assert!(is_defined_system_function_name("$finish"));
    assert!(!is_defined_system_function_name("finish"));
}

#[test]
fn unknown_system_function_is_reported() {
    let mut check = CheckSystemFunction::new("source text");
    check.expression_identifier(&call("$nonexistent_call"));
    assert_eq!(check.errors.len(), 1);
    match &check.errors[0] {
        AnalyzerError::InvalidSystemFunction { name, input, token } => {
            assert_eq!(name, "$nonexistent_call");
            assert_eq!(input, "source text");
            assert_eq!(token.text, "$nonexistent_call");
            assert_eq!(token.line, 4);
            assert_eq!(token.column, 8);
        }
        other => panic!("unexpected {:?}", other),
    }
}

#[test]
fn plain_identifiers_and_after_point_are_ignored() {
    let mut check = CheckSystemFunction::new("");
    check.expression_identifier(&call("nonexistent_call"));
    let mut member = call("$nonexistent_call");
    member.has_suffix = true;
    check.expression_identifier(&member);
    check.set_point(HandlerPoint::After);
    check.expression_identifier(&call("$nonexistent_call"));
    assert!(check.errors.is_empty());
}
