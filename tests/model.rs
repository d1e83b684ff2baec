use veryl_analyzer::evaluator::{Evaluated, Evaluator};
use veryl_analyzer::expression::{BinaryOperator, Expression};
use veryl_analyzer::syntax::{
    ArrayType, Direction as SyntaxDirection, FixedType, PortDeclarationItem,
    PortDeclarationItemGroup, ScalarType, ScalarTypeGroup, VariableType, VariableTypeGroup,
    WithParameterItem, WithParameterItemGroup, WithParameterItemValue,
};
use veryl_analyzer::symbol::{Parameter, ParameterScope, ParameterValue, Port};
use veryl_analyzer::token::Token;
use veryl_analyzer::types::{Direction, Type, TypeKind, TypeModifier};

fn num(v: u64) -> Expression {
    Expression::Number(v)
}

fn ident(s: &str) -> Expression {
    Expression::Identifier(s.to_string())
}

fn bin(op: BinaryOperator, l: Expression, r: Expression) -> Expression {
    Expression::Binary(op, Box::new(l), Box::new(r))
}

fn logic(width: Vec<Expression>, array: Vec<Expression>) -> Type {
    Type { modifier: vec![], kind: TypeKind::Logic, width, array }
}

#[test]
fn type_renders_signed_vector_array() {
    let t = Type {
        modifier: vec![TypeModifier::Signed],
        kind: TypeKind::Logic,
        width: vec![num(8)],
        array: vec![num(4)],
    };
    assert_eq!(t.to_text(), "signed logic<8> [4]");
}

#[test]
fn type_renders_modifiers_lists_and_paths() {
    let t = Type {
        modifier: vec![TypeModifier::Tri, TypeModifier::Signed],
        kind: TypeKind::Bit,
        width: vec![num(2), ident("W")],
        array: vec![num(3), num(10)],
    };
    assert_eq!(t.to_text(), "tri signed bit<2, W> [3, 10]");
    let u = Type {
        modifier: vec![],
        kind: TypeKind::UserDefined(vec!["pkg".to_string(), "word_t".to_string()]),
        width: vec![],
        array: vec![],
    };
    assert_eq!(u.to_text(), "pkg::word_t");
    let s = Type { modifier: vec![], kind: TypeKind::String, width: vec![], array: vec![] };
    assert_eq!(s.to_text(), "string");
}

#[test]
fn expression_renders_canonically() {
    let e = bin(BinaryOperator::Add, ident("a"), bin(BinaryOperator::Mul, num(12), num(0)));
    assert_eq!(e.to_text(), "a+12*0");
    assert_eq!(bin(BinaryOperator::Sub, num(1234567890), num(7)).to_text(), "1234567890-7");
}

#[test]
fn expression_parentheses_keep_grouping() {
    let sum = || bin(BinaryOperator::Add, num(1), num(2));
    assert_eq!(bin(BinaryOperator::Mul, sum(), num(3)).to_text(), "(1+2)*3");
    assert_eq!(bin(BinaryOperator::Add, num(1), bin(BinaryOperator::Mul, num(2), num(3))).to_text(), "1+2*3");
    assert_eq!(bin(BinaryOperator::Sub, num(5), sum()).to_text(), "5-(1+2)");
    assert_eq!(bin(BinaryOperator::Sub, sum(), num(5)).to_text(), "1+2-5");
    assert_eq!(bin(BinaryOperator::Mul, num(4), bin(BinaryOperator::Mul, num(2), num(3))).to_text(), "4*(2*3)");
}

#[test]
fn literal_takes_context_width() {
    let mut ev = Evaluator::new();
    assert_eq!(ev.expression(&num(5)), Evaluated::Fixed { width: 32, value: 5 });
    ev.context_width.push(4);
    assert_eq!(ev.expression(&num(5)), Evaluated::Fixed { width: 4, value: 5 });
    assert_eq!(ev.context_width, vec![4]);
}

#[test]
fn binary_folding() {
    let mut ev = Evaluator::new();
    let e = bin(BinaryOperator::Add, num(3), bin(BinaryOperator::Mul, num(4), num(5)));
    assert_eq!(ev.expression(&e), Evaluated::Fixed { width: 32, value: 23 });
    let under = bin(BinaryOperator::Sub, num(1), num(2));
    assert_eq!(ev.expression(&under), Evaluated::Unknown);
    let over = bin(BinaryOperator::Add, num(u64::MAX), num(1));
    assert_eq!(ev.expression(&over), Evaluated::Unknown);
    let named = bin(BinaryOperator::Add, ident("N"), num(1));
    assert_eq!(ev.expression(&named), Evaluated::Unknown);
}

#[test]
fn type_widths() {
    let mut ev = Evaluator::new();
    assert_eq!(ev.type_width(&logic(vec![], vec![])), Some(1));
    assert_eq!(ev.type_width(&logic(vec![num(8)], vec![num(4)])), Some(8));
    assert_eq!(ev.type_width(&logic(vec![num(2), num(3)], vec![])), Some(6));
    assert_eq!(ev.type_width(&logic(vec![ident("N")], vec![])), None);
    assert_eq!(ev.type_width(&logic(vec![num(0)], vec![])), None);
    let u64_type = Type { modifier: vec![], kind: TypeKind::U64, width: vec![], array: vec![] };
    assert_eq!(ev.type_width(&u64_type), Some(64));
    let i32_type = Type { modifier: vec![], kind: TypeKind::I32, width: vec![], array: vec![] };
    assert_eq!(ev.type_width(&i32_type), Some(32));
    let s = Type { modifier: vec![], kind: TypeKind::String, width: vec![], array: vec![] };
    assert_eq!(ev.type_width(&s), None);
    assert!(ev.context_width.is_empty());
}

#[test]
fn width_product_overflow_is_unknown() {
    let mut ev = Evaluator::new();
    let t = logic(vec![num(u64::MAX), num(2)], vec![]);
    assert_eq!(ev.type_width(&t), None);
}

#[test]
fn direction_keywords() {
    assert_eq!(Direction::Input.to_text(), "input");
    assert_eq!(Direction::Output.to_text(), "output");
    assert_eq!(Direction::Inout.to_text(), "inout");
    assert_eq!(Direction::Ref.to_text(), "ref");
    assert_eq!(Direction::Interface.to_text(), "interface");
    assert_eq!(Direction::Modport.to_text(), "modport");
    assert_eq!(Direction::from_syntax(&SyntaxDirection::Ref), Direction::Ref);
    assert_eq!(Direction::from_syntax(&SyntaxDirection::Modport), Direction::Modport);
}

#[test]
fn scalar_type_conversion() {
    let s = ScalarType {
        modifiers: vec![TypeModifier::Signed],
        group: ScalarTypeGroup::VariableType(VariableType {
            group: VariableTypeGroup::Logic,
            width: Some(vec![num(8)]),
        }),
    };
    let t = Type::from_scalar_type(&s);
    assert_eq!(t.to_text(), "signed logic<8>");
    let a = ArrayType { scalar_type: s, array: Some(vec![num(4)]) };
    assert_eq!(Type::from_array_type(&a).to_text(), "signed logic<8> [4]");
    let f = ScalarType { modifiers: vec![], group: ScalarTypeGroup::FixedType(FixedType::String) };
    assert!(matches!(Type::from_scalar_type(&f).kind, TypeKind::String));
    let path = ScalarType {
        modifiers: vec![],
        group: ScalarTypeGroup::VariableType(VariableType {
            group: VariableTypeGroup::ScopedIdentifier(
                Token::new("pkg", 1, 1),
                vec![Token::new("t", 1, 6)],
            ),
            width: Some(vec![num(8)]),
        }),
    };
    let user = Type::from_scalar_type(&path);
    assert_eq!(user.to_text(), "pkg::t");
    assert!(user.width.is_empty());
}

#[test]
fn port_conversion_and_text() {
    let item = PortDeclarationItem {
        identifier: Token::new("clk", 2, 5),
        group: PortDeclarationItemGroup::DirectionArrayType(
            SyntaxDirection::Input,
            ArrayType {
                scalar_type: ScalarType {
                    modifiers: vec![],
                    group: ScalarTypeGroup::VariableType(VariableType {
                        group: VariableTypeGroup::Logic,
                        width: None,
                    }),
                },
                array: None,
            },
        ),
    };
    let p = Port::from_port_declaration_item(&item);
    assert_eq!(p.name, "clk");
    assert_eq!(p.property.direction, Direction::Input);
    assert_eq!(p.to_text(), "clk [input]");
    let intf = PortDeclarationItem {
        identifier: Token::new("bus", 3, 5),
        group: PortDeclarationItemGroup::Interface,
    };
    let q = Port::from_port_declaration_item(&intf);
    assert_eq!(q.property.direction, Direction::Interface);
    assert!(q.property.ty.is_none());
}

#[test]
fn parameter_conversion_and_text() {
    let item = WithParameterItem {
        identifier: Token::new("WIDTH", 1, 12),
        group: WithParameterItemGroup::Localparam,
        value: WithParameterItemValue::ArrayTypeEquExpression(
            ArrayType {
                scalar_type: ScalarType {
                    modifiers: vec![],
                    group: ScalarTypeGroup::FixedType(FixedType::U32),
                },
                array: None,
            },
            num(16),
        ),
    };
    let p = Parameter::from_with_parameter_item(&item);
    assert_eq!(p.name, "WIDTH");
    assert_eq!(p.property.scope, ParameterScope::Local);
    assert_eq!(p.to_text(), "WIDTH [u32]");
    let ty = WithParameterItem {
        identifier: Token::new("T", 1, 12),
        group: WithParameterItemGroup::Parameter,
        value: WithParameterItemValue::TypeEquTypeExpression(ScalarType {
            modifiers: vec![],
            group: ScalarTypeGroup::FixedType(FixedType::I64),
        }),
    };
    let q = Parameter::from_with_parameter_item(&ty);
    assert_eq!(q.property.scope, ParameterScope::Global);
    assert_eq!(q.property.ty.to_text(), "type");
    match &q.property.value {
        ParameterValue::TypeExpression(t) => assert_eq!(t.to_text(), "i64"),
        _ => panic!("expected a type value"),
    }
}
