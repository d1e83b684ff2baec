//! Declarations and expressions as the parser delivers them, and their
//! conversion into the analysis model.
use vstd::prelude::*;
use crate::expression::{Expression, duplicate_expressions};
use crate::symbol::{Parameter, ParameterProperty, ParameterScope, ParameterValue, Port, PortProperty};
use crate::token::Token;
use crate::types::{Type, TypeKind, TypeModifier};

verus! {

/// An identifier used in an expression. `identifier` is its first
/// identifier as written; `dollar` tells that it is a dollar identifier (its
/// text begins with the system-call sigil `$`); `has_suffix` tells that a
/// scope, select or member access follows it.
#[derive(Clone, Debug)]
pub struct ExpressionIdentifier {
    pub identifier: Token,
    pub dollar: bool,
    pub has_suffix: bool,
}

/// A port direction keyword.
#[derive(Clone, Copy, Debug, PartialEq, Eq, Structural)]
pub enum Direction {
    Input,
    Output,
    Inout,
    Ref,
    Modport,
}

/// The kind of a variable type: a keyword, or a scoped identifier given by
/// its first identifier and the identifiers after each `::`.
#[derive(Clone, Debug)]
pub enum VariableTypeGroup {
    Logic,
    Bit,
    ScopedIdentifier(Token, Vec<Token>),
}

/// A variable type with its optional width list `<w0, w1, ...>`.
#[derive(Debug)]
pub struct VariableType {
    pub group: VariableTypeGroup,
    pub width: Option<Vec<Expression>>,
}

/// A fixed-size type keyword.
#[derive(Clone, Copy, Debug, PartialEq, Eq, Structural)]
pub enum FixedType {
    U32,
    U64,
    I32,
    I64,
    F32,
    F64,
    String,
}

#[derive(Debug)]
pub enum ScalarTypeGroup {
    VariableType(VariableType),
    FixedType(FixedType),
}

/// Modifiers followed by a variable or fixed type.
#[derive(Debug)]
pub struct ScalarType {
    pub modifiers: Vec<TypeModifier>,
    pub group: ScalarTypeGroup,
}

/// A scalar type with its optional array dimensions `[d0, d1, ...]`.
#[derive(Debug)]
pub struct ArrayType {
    pub scalar_type: ScalarType,
    pub array: Option<Vec<Expression>>,
}

#[derive(Debug)]
pub enum PortDeclarationItemGroup {
    DirectionArrayType(Direction, ArrayType),
    Interface,
}

/// One port of a port list: its name and either a direction and type, or
/// an interface.
#[derive(Debug)]
pub struct PortDeclarationItem {
    pub identifier: Token,
    pub group: PortDeclarationItemGroup,
}

/// The keyword that declares a parameter.
#[derive(Clone, Copy, Debug, PartialEq, Eq, Structural)]
pub enum WithParameterItemGroup {
    Parameter,
    Localparam,
}

/// The type and value of a parameter: `: T = expr`, or `: type = T`.
#[derive(Debug)]
pub enum WithParameterItemValue {
    ArrayTypeEquExpression(ArrayType, Expression),
    TypeEquTypeExpression(ScalarType),
}

/// One parameter of a parameter list.
#[derive(Debug)]
pub struct WithParameterItem {
    pub identifier: Token,
    pub group: WithParameterItemGroup,
    pub value: WithParameterItemValue,
}

pub open spec fn fixed_kind_matches(f: FixedType, k: TypeKind) -> bool {
    match f {
        FixedType::U32 => k is U32,
        FixedType::U64 => k is U64,
        FixedType::I32 => k is I32,
        FixedType::I64 => k is I64,
        FixedType::F32 => k is F32,
        FixedType::F64 => k is F64,
        FixedType::String => k is String,
    }
}

/// The texts of a list of tokens.
pub open spec fn token_texts(ts: Seq<Token>) -> Seq<Seq<char>> {
    ts.map_values(|t: Token| t.text@)
}

pub open spec fn variable_kind_matches(g: VariableTypeGroup, k: TypeKind) -> bool {
    match g {
        VariableTypeGroup::Logic => k is Logic,
        VariableTypeGroup::Bit => k is Bit,
        VariableTypeGroup::ScopedIdentifier(first, rest) => k is UserDefined
            && k->UserDefined_0@.len() > 0 && k->UserDefined_0@.map_values(|p: String| p@) == token_texts(seq![first] + rest@),
    }
}

pub open spec fn optional_list(l: Option<Vec<Expression>>) -> Seq<Expression> {
    match l {
        Some(v) => v@,
        None => Seq::empty(),
    }
}

/// `t` has the modifiers in order, the kind and the widths of the scalar
/// type node `s`; a user-defined type carries no width.
pub open spec fn scalar_type_model(s: ScalarType, t: Type) -> bool {
    &&& t.modifier@ == s.modifiers@
    &&& match s.group {
        ScalarTypeGroup::VariableType(x) => variable_kind_matches(x.group, t.kind) && t.width@
            == match x.group {
            VariableTypeGroup::ScopedIdentifier(_, _) => Seq::empty(),
            _ => optional_list(x.width),
        },
        ScalarTypeGroup::FixedType(f) => fixed_kind_matches(f, t.kind) && t.width@.len() == 0,
    }
}

/// `t` is the type that the array type node `a` denotes.
pub open spec fn array_type_model(a: ArrayType, t: Type) -> bool {
    &&& scalar_type_model(a.scalar_type, t)
    &&& t.array@ == optional_list(a.array)
}

pub open spec fn direction_model(d: Direction) -> crate::types::Direction {
    match d {
        Direction::Input => crate::types::Direction::Input,
        Direction::Output => crate::types::Direction::Output,
        Direction::Inout => crate::types::Direction::Inout,
        Direction::Ref => crate::types::Direction::Ref,
        Direction::Modport => crate::types::Direction::Modport,
    }
}

fn token_path(first: &Token, rest: &Vec<Token>) -> (r: Vec<String>)
    ensures
        r@.map_values(|p: String| p@) == token_texts(seq![*first] + rest@),
        r@.len() == rest@.len() + 1,
{
    let ghost ids = seq![*first] + rest@;
    let mut r: Vec<String> = Vec::new();
    r.push(first.text.clone());
    let mut i: usize = 0;
    while i < rest.len()
        invariant
            0 <= i <= rest.len(),
            ids == seq![*first] + rest@,
            r@.len() == i + 1,
            forall|j: int| 0 <= j <= i ==> #[trigger] r@[j]@ == ids[j].text@,
        decreases rest.len() - i,
    {
        r.push(rest[i].text.clone());
        i = i + 1;
    }
    proof {
        assert(r@.map_values(|p: String| p@) =~= token_texts(ids));
    }
    r
}

fn optional_expressions(l: &Option<Vec<Expression>>) -> (r: Vec<Expression>)
    ensures
        r@ == optional_list(*l),
{
    match l {
        Some(v) => duplicate_expressions(v),
        None => Vec::new(),
    }
}

impl crate::types::Direction {
    /// The direction that a direction keyword denotes.
    pub fn from_syntax(value: &Direction) -> (r: crate::types::Direction)
        ensures
            r == direction_model(*value),
    {
        match value {
            Direction::Input => crate::types::Direction::Input,
            Direction::Output => crate::types::Direction::Output,
            Direction::Inout => crate::types::Direction::Inout,
            Direction::Ref => crate::types::Direction::Ref,
            Direction::Modport => crate::types::Direction::Modport,
        }
    }
}

impl Type {
    /// The type that a scalar type node denotes; it has no array dimensions.
    pub fn from_scalar_type(value: &ScalarType) -> (r: Type)
        ensures
            scalar_type_model(*value, r),
            r.array@.len() == 0,
            r.wf(),
    {
        let mut modifier: Vec<TypeModifier> = Vec::new();
        let mut i: usize = 0;
        while i < value.modifiers.len()
            invariant
                0 <= i <= value.modifiers.len(),
                modifier@ == value.modifiers@.take(i as int),
            decreases value.modifiers.len() - i,
        {
            match value.modifiers[i] {
                TypeModifier::Tri => modifier.push(TypeModifier::Tri),
                TypeModifier::Signed => modifier.push(TypeModifier::Signed),
            }
            i = i + 1;
            proof {
                assert(modifier@ =~= value.modifiers@.take(i as int));
            }
        }
        proof {
            assert(value.modifiers@.take(i as int) =~= value.modifiers@);
        }
        match &value.group {
            ScalarTypeGroup::VariableType(x) => {
                match &x.group {
                    VariableTypeGroup::Logic => {
                        let width = optional_expressions(&x.width);
                        Type { modifier, kind: TypeKind::Logic, width, array: Vec::new() }
                    },
                    VariableTypeGroup::Bit => {
                        let width = optional_expressions(&x.width);
                        Type { modifier, kind: TypeKind::Bit, width, array: Vec::new() }
                    },
                    VariableTypeGroup::ScopedIdentifier(first, rest) => Type {
                        modifier,
                        kind: TypeKind::UserDefined(token_path(first, rest)),
                        width: Vec::new(),
                        array: Vec::new(),
                    },
                }
            },
            ScalarTypeGroup::FixedType(x) => {
                let kind = match x {
                    FixedType::U32 => TypeKind::U32,
                    FixedType::U64 => TypeKind::U64,
                    FixedType::I32 => TypeKind::I32,
                    FixedType::I64 => TypeKind::I64,
                    FixedType::F32 => TypeKind::F32,
                    FixedType::F64 => TypeKind::F64,
                    FixedType::String => TypeKind::String,
                };
                Type { modifier, kind, width: Vec::new(), array: Vec::new() }
            },
        }
    }

    /// The type that an array type node denotes.
    pub fn from_array_type(value: &ArrayType) -> (r: Type)
        ensures
            array_type_model(*value, r),
            r.wf(),
    {
        let scalar = Type::from_scalar_type(&value.scalar_type);
        let array = optional_expressions(&value.array);
        Type { modifier: scalar.modifier, kind: scalar.kind, width: scalar.width, array }
    }
}

/// `t` is the type `type` itself, with no modifier, width or dimension.
pub open spec fn is_type_type(t: Type) -> bool {
    &&& t.kind is Type
    &&& t.modifier@.len() == 0
    &&& t.width@.len() == 0
    &&& t.array@.len() == 0
}

/// `p` is the port that the port declaration `item` declares.
pub open spec fn port_model(item: PortDeclarationItem, p: Port) -> bool {
    &&& p.name@ == item.identifier.text@
    &&& p.property.token == item.identifier
    &&& match item.group {
        PortDeclarationItemGroup::DirectionArrayType(d, a) => {
            &&& p.property.direction == direction_model(d)
            &&& p.property.ty is Some
            &&& array_type_model(a, p.property.ty->Some_0)
            &&& p.property.ty->Some_0.wf()
        },
        PortDeclarationItemGroup::Interface => {
            &&& p.property.direction == crate::types::Direction::Interface
            &&& p.property.ty is None
        },
    }
}

/// `p` is the parameter that the parameter declaration `item` declares.
pub open spec fn parameter_model(item: WithParameterItem, p: Parameter) -> bool {
    &&& p.name@ == item.identifier.text@
    &&& p.property.token == item.identifier
    &&& p.property.scope == match item.group {
        WithParameterItemGroup::Parameter => ParameterScope::Global,
        WithParameterItemGroup::Localparam => ParameterScope::Local,
    }
    &&& match item.value {
        WithParameterItemValue::ArrayTypeEquExpression(a, e) => {
            &&& array_type_model(a, p.property.ty)
            &&& p.property.ty.wf()
            &&& p.property.value == ParameterValue::Expression(e)
        },
        WithParameterItemValue::TypeEquTypeExpression(s) => {
            &&& is_type_type(p.property.ty)
            &&& p.property.value is TypeExpression
            &&& scalar_type_model(s, p.property.value->TypeExpression_0)
            &&& p.property.value->TypeExpression_0.wf()
            &&& p.property.value->TypeExpression_0.array@.len() == 0
        },
    }
}

impl Port {
    /// The port that a port declaration declares.
    pub fn from_port_declaration_item(value: &PortDeclarationItem) -> (r: Port)
        ensures
            port_model(*value, r),
    {
        let token = value.identifier.duplicate();
        let property = match &value.group {
            PortDeclarationItemGroup::DirectionArrayType(d, a) => PortProperty {
                token,
                ty: Some(Type::from_array_type(a)),
                direction: crate::types::Direction::from_syntax(d),
            },
            PortDeclarationItemGroup::Interface => PortProperty {
                token,
                ty: None,
                direction: crate::types::Direction::Interface,
            },
        };
        Port { name: value.identifier.text.clone(), property }
    }
}

impl Parameter {
    /// The parameter that a parameter declaration declares.
    pub fn from_with_parameter_item(value: &WithParameterItem) -> (r: Parameter)
        ensures
            parameter_model(*value, r),
    {
        let token = value.identifier.duplicate();
        let scope = match value.group {
            WithParameterItemGroup::Parameter => ParameterScope::Global,
            WithParameterItemGroup::Localparam => ParameterScope::Local,
        };
        let property = match &value.value {
            WithParameterItemValue::ArrayTypeEquExpression(a, e) => ParameterProperty {
                token,
                ty: Type::from_array_type(a),
                scope,
                value: ParameterValue::Expression(e.duplicate()),
            },
            WithParameterItemValue::TypeEquTypeExpression(s) => ParameterProperty {
                token,
                ty: Type {
                    modifier: Vec::new(),
                    kind: TypeKind::Type,
                    width: Vec::new(),
                    array: Vec::new(),
                },
                scope,
                value: ParameterValue::TypeExpression(Type::from_scalar_type(s)),
            },
        };
        Parameter { name: value.identifier.text.clone(), property }
    }
}

} // verus!
