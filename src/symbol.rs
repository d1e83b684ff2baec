//! Declared entities: their kinds, structural data, descriptions and
//! memoized evaluation.
use vstd::prelude::*;
use crate::evaluator::{Evaluated, Evaluator, evaluate_expression, type_width_of, width_product};
use crate::expression::{Expression, decimal, expression_text, push_decimal};
use crate::namespace::Namespace;
use crate::token::Token;
use crate::types::{direction_text, join, push_path, type_text};
pub use crate::types::{Direction, Type, TypeKind, TypeModifier};

verus! {

/// Whether a parameter is visible to users of its module.
#[derive(Clone, Copy, Debug, PartialEq, Eq, Structural)]
pub enum ParameterScope {
    Global,
    Local,
}

#[derive(Debug)]
pub struct VariableProperty {
    pub ty: Type,
}

#[derive(Debug)]
pub struct PortProperty {
    pub token: Token,
    pub ty: Option<Type>,
    pub direction: Direction,
}

#[derive(Debug)]
pub struct Port {
    pub name: String,
    pub property: PortProperty,
}

/// The value of a parameter: a constant expression, or a type.
#[derive(Debug)]
pub enum ParameterValue {
    Expression(Expression),
    TypeExpression(Type),
}

#[derive(Debug)]
pub struct ParameterProperty {
    pub token: Token,
    pub ty: Type,
    pub scope: ParameterScope,
    pub value: ParameterValue,
}

#[derive(Debug)]
pub struct Parameter {
    pub name: String,
    pub property: ParameterProperty,
}

#[derive(Debug)]
pub struct ModuleProperty {
    pub parameters: Vec<Parameter>,
    pub ports: Vec<Port>,
}

#[derive(Debug)]
pub struct InterfaceProperty {
    pub parameters: Vec<Parameter>,
}

#[derive(Debug)]
pub struct FunctionProperty {
    pub parameters: Vec<Parameter>,
    pub ports: Vec<Port>,
}

#[derive(Debug)]
pub struct InstanceProperty {
    pub type_path: Vec<String>,
}

#[derive(Debug)]
pub struct StructMemberProperty {
    pub ty: Type,
}

#[derive(Debug)]
pub struct EnumProperty {
    pub ty: Type,
}

#[derive(Debug)]
pub struct EnumMemberProperty {
    pub value: Option<Expression>,
}

/// A member of a modport: its name and direction.
#[derive(Clone, Debug)]
pub struct ModportMember {
    pub name: String,
    pub direction: Direction,
}

#[derive(Debug)]
pub struct ModportProperty {
    pub members: Vec<ModportMember>,
}

/// What a symbol declares, with the data of that kind of declaration.
#[derive(Debug)]
pub enum SymbolKind {
    Port(PortProperty),
    Variable(VariableProperty),
    Module(ModuleProperty),
    Interface(InterfaceProperty),
    Function(FunctionProperty),
    Parameter(ParameterProperty),
    Instance(InstanceProperty),
    Block,
    Package,
    Struct,
    StructMember(StructMemberProperty),
    Enum(EnumProperty),
    EnumMember(EnumMemberProperty),
    Modport(ModportProperty),
    Genvar,
}


/// A declared entity.
#[derive(Debug)]
pub struct Symbol {
    pub token: Token,
    pub kind: SymbolKind,
    pub namespace: Namespace,
    pub references: Vec<Token>,
    /// The evaluation result, once it has been computed.
    pub evaluated: Option<Evaluated>,
    pub allow_unused: bool,
    pub doc_comment: Vec<String>,
}

/// The short name of a kind of declaration.
pub open spec fn kind_name(k: SymbolKind) -> Seq<char> {
    match k {
        SymbolKind::Port(_) => "port"@,
        SymbolKind::Variable(_) => "variable"@,
        SymbolKind::Module(_) => "module"@,
        SymbolKind::Interface(_) => "interface"@,
        SymbolKind::Function(_) => "function"@,
        SymbolKind::Parameter(_) => "parameter"@,
        SymbolKind::Instance(_) => "instance"@,
        SymbolKind::Block => "block"@,
        SymbolKind::Package => "package"@,
        SymbolKind::Struct => "struct"@,
        SymbolKind::StructMember(_) => "struct member"@,
        SymbolKind::Enum(_) => "enum"@,
        SymbolKind::EnumMember(_) => "enum member"@,
        SymbolKind::Modport(_) => "modport"@,
        SymbolKind::Genvar => "genvar"@,
    }
}

/// The text of a parameter's value.
pub open spec fn parameter_value_text(v: ParameterValue) -> Seq<char> {
    match v {
        ParameterValue::Expression(e) => expression_text(e),
        ParameterValue::TypeExpression(t) => type_text(t),
    }
}

/// The one-line description of a declaration.
pub open spec fn kind_text(k: SymbolKind) -> Seq<char> {
    match k {
        SymbolKind::Port(x) => match x.ty {
            Some(t) => "port ("@ + direction_text(x.direction) + " "@ + type_text(t) + ")"@,
            None => "port ("@ + direction_text(x.direction) + ")"@,
        },
        SymbolKind::Variable(x) => "variable ("@ + type_text(x.ty) + ")"@,
        SymbolKind::Module(x) => "module ("@ + decimal(x.parameters@.len()) + " params, "@
            + decimal(x.ports@.len()) + " ports)"@,
        SymbolKind::Interface(x) => "interface ("@ + decimal(x.parameters@.len()) + " params)"@,
        SymbolKind::Function(x) => "function ("@ + decimal(x.parameters@.len()) + " params, "@
            + decimal(x.ports@.len()) + " args)"@,
        SymbolKind::Parameter(x) => match x.scope {
            ParameterScope::Global => "parameter ("@ + type_text(x.ty) + ") = "@
                + parameter_value_text(x.value),
            ParameterScope::Local => "localparam ("@ + type_text(x.ty) + ") = "@
                + parameter_value_text(x.value),
        },
        SymbolKind::Instance(x) => "instance ("@ + join(
            x.type_path@.map_values(|p: String| p@),
            "::"@,
        ) + ")"@,
        SymbolKind::Block => "block"@,
        SymbolKind::Package => "package"@,
        SymbolKind::Struct => "struct"@,
        SymbolKind::StructMember(x) => "struct member ("@ + type_text(x.ty) + ")"@,
        SymbolKind::Enum(x) => "enum ("@ + type_text(x.ty) + ")"@,
        SymbolKind::EnumMember(x) => match x.value {
            Some(e) => "enum member = "@ + expression_text(e),
            None => "enum member"@,
        },
        SymbolKind::Modport(x) => "modport ("@ + decimal(x.members@.len()) + " ports)"@,
        SymbolKind::Genvar => "genvar"@,
    }
}

impl SymbolKind {
    /// The short name of this kind of declaration.
    pub fn to_kind_name(&self) -> (r: String)
        ensures
            r@ == kind_name(*self),
    {
        match self {
            SymbolKind::Port(_) => String::from_str("port"),
            SymbolKind::Variable(_) => String::from_str("variable"),
            SymbolKind::Module(_) => String::from_str("module"),
            SymbolKind::Interface(_) => String::from_str("interface"),
            SymbolKind::Function(_) => String::from_str("function"),
            SymbolKind::Parameter(_) => String::from_str("parameter"),
            SymbolKind::Instance(_) => String::from_str("instance"),
            SymbolKind::Block => String::from_str("block"),
            SymbolKind::Package => String::from_str("package"),
            SymbolKind::Struct => String::from_str("struct"),
            SymbolKind::StructMember(_) => String::from_str("struct member"),
            SymbolKind::Enum(_) => String::from_str("enum"),
            SymbolKind::EnumMember(_) => String::from_str("enum member"),
            SymbolKind::Modport(_) => String::from_str("modport"),
            SymbolKind::Genvar => String::from_str("genvar"),
        }
    }
}

fn push_type(s: &mut String, t: &Type)
    ensures
        final(s)@ == old(s)@ + type_text(*t),
{
    let text = t.to_text();
    s.append(text.as_str());
}

fn push_count(s: &mut String, n: usize)
    ensures
        final(s)@ == old(s)@ + decimal(n as nat),
{
    push_decimal(s, n as u64);
}

impl ParameterValue {
    /// The source text of this value.
    pub fn to_text(&self) -> (r: String)
        ensures
            r@ == parameter_value_text(*self),
    {
        match self {
            ParameterValue::Expression(e) => e.to_text(),
            ParameterValue::TypeExpression(t) => t.to_text(),
        }
    }
}

impl SymbolKind {
    /// The one-line description of this declaration, as shown to users.
    pub fn to_text(&self) -> (r: String)
        ensures
            r@ == kind_text(*self),
    {
        let mut s = String::new();
        match self {
            SymbolKind::Port(x) => {
                s.append("port (");
                s.append(x.direction.to_text().as_str());
                match &x.ty {
                    Some(t) => {
                        s.append(" ");
                        push_type(&mut s, t);
                    },
                    None => {},
                }
                s.append(")");
            },
            SymbolKind::Variable(x) => {
                s.append("variable (");
                push_type(&mut s, &x.ty);
                s.append(")");
            },
            SymbolKind::Module(x) => {
                s.append("module (");
                push_count(&mut s, x.parameters.len());
                s.append(" params, ");
                push_count(&mut s, x.ports.len());
                s.append(" ports)");
            },
            SymbolKind::Interface(x) => {
                s.append("interface (");
                push_count(&mut s, x.parameters.len());
                s.append(" params)");
            },
            SymbolKind::Function(x) => {
                s.append("function (");
                push_count(&mut s, x.parameters.len());
                s.append(" params, ");
                push_count(&mut s, x.ports.len());
                s.append(" args)");
            },
            SymbolKind::Parameter(x) => {
                match x.scope {
                    ParameterScope::Global => s.append("parameter ("),
                    ParameterScope::Local => s.append("localparam ("),
                }
                push_type(&mut s, &x.ty);
                s.append(") = ");
                s.append(x.value.to_text().as_str());
            },
            SymbolKind::Instance(x) => {
                s.append("instance (");
                push_path(&mut s, &x.type_path);
                s.append(")");
            },
            SymbolKind::Block => s.append("block"),
            SymbolKind::Package => s.append("package"),
            SymbolKind::Struct => s.append("struct"),
            SymbolKind::StructMember(x) => {
                s.append("struct member (");
                push_type(&mut s, &x.ty);
                s.append(")");
            },
            SymbolKind::Enum(x) => {
                s.append("enum (");
                push_type(&mut s, &x.ty);
                s.append(")");
            },
            SymbolKind::EnumMember(x) => {
                s.append("enum member");
                match &x.value {
                    Some(e) => {
                        s.append(" = ");
                        e.push_text(&mut s);
                    },
                    None => {},
                }
            },
            SymbolKind::Modport(x) => {
                s.append("modport (");
                push_count(&mut s, x.members.len());
                s.append(" ports)");
            },
            SymbolKind::Genvar => s.append("genvar"),
        }
        proof {
            reveal_strlit("port (");
            reveal_strlit(" ");
            reveal_strlit(")");
            reveal_strlit("enum member");
            reveal_strlit(" = ");
            reveal_strlit("enum member = ");
            assert(s@ =~= kind_text(*self));
        }
        s
    }
}

impl Port {
    /// The port's name followed by its direction in square brackets.
    pub fn to_text(&self) -> (r: String)
        ensures
            r@ == self.name@ + " ["@ + direction_text(self.property.direction) + "]"@,
    {
        let mut s = self.name.clone();
        s.append(" [");
        s.append(self.property.direction.to_text().as_str());
        s.append("]");
        s
    }
}

impl Parameter {
    /// The parameter's name followed by its type in square brackets.
    pub fn to_text(&self) -> (r: String)
        ensures
            r@ == self.name@ + " ["@ + type_text(self.property.ty) + "]"@,
    {
        let mut s = self.name.clone();
        s.append(" [");
        push_type(&mut s, &self.property.ty);
        s.append("]");
        s
    }
}

/// The width hints under which a parameter's value is folded: its declared
/// type's width, when known, on top of `context`.
pub open spec fn parameter_context(p: ParameterProperty, context: Seq<usize>) -> Seq<usize> {
    match type_width_of(p.ty, context) {
        Some(w) => context.push(w),
        None => context,
    }
}

/// The value of a parameter under the width hints `context`.
pub open spec fn parameter_value(p: ParameterProperty, context: Seq<usize>) -> Evaluated {
    match p.value {
        ParameterValue::Expression(e) => evaluate_expression(e, parameter_context(p, context)),
        ParameterValue::TypeExpression(_) => Evaluated::Unknown,
    }
}

/// What evaluating a declaration computes: a variable's width, a
/// parameter's value, and unknown for every other kind.
pub open spec fn kind_value(k: SymbolKind) -> Evaluated {
    match k {
        SymbolKind::Variable(x) => match type_width_of(x.ty, Seq::empty()) {
            Some(w) => Evaluated::Variable { width: w },
            None => Evaluated::Unknown,
        },
        SymbolKind::Parameter(x) => parameter_value(x, Seq::empty()),
        _ => Evaluated::Unknown,
    }
}

/// One call of `Symbol::evaluate` took `before` to `after` and returned `r`:
/// a cached result is returned as it is; otherwise the result is computed
/// from the kind and cached, and nothing else changes.
pub open spec fn evaluate_step(before: Symbol, after: Symbol, r: Evaluated) -> bool {
    match before.evaluated {
        Some(e) => r == e && after == before,
        None => r == kind_value(before.kind) && after == (Symbol {
            evaluated: Some(r),
            ..before
        }),
    }
}

impl Evaluator {
    /// Folds the value of a parameter with its declared width pushed as a
    /// hint; the hints are as before when it returns.
    pub fn parameter(&mut self, p: &ParameterProperty) -> (r: Evaluated)
        ensures
            r == parameter_value(*p, old(self).context_width@),
            final(self).context_width@ == old(self).context_width@,
    {
        let width = self.type_width(&p.ty);
        match width {
            Some(w) => self.context_width.push(w),
            None => {},
        }
        let r = match &p.value {
            ParameterValue::Expression(e) => self.expression(e),
            ParameterValue::TypeExpression(_) => Evaluated::Unknown,
        };
        match width {
            Some(_) => {
                self.context_width.pop();
                proof {
                    assert(self.context_width@ =~= old(self).context_width@);
                }
            },
            None => {},
        }
        r
    }
}

impl Symbol {
    pub fn new(token: &Token, kind: SymbolKind, namespace: &Namespace, doc_comment: Vec<String>) -> (r: Symbol)
        ensures
            r.token == *token,
            r.kind == kind,
            r.namespace@ == namespace@,
            r.references@.len() == 0,
            r.evaluated is None,
            !r.allow_unused,
            r.doc_comment == doc_comment,
    {
        Symbol {
            token: token.duplicate(),
            kind,
            namespace: namespace.duplicate(),
            references: Vec::new(),
            evaluated: None,
            allow_unused: false,
            doc_comment,
        }
    }

    /// The evaluation of this symbol, computed on the first call and
    /// returned from the cache on every later one.
    pub fn evaluate(&mut self) -> (r: Evaluated)
        ensures
            evaluate_step(*old(self), *final(self), r),
    {
        match self.evaluated {
            Some(e) => e,
            None => {
                let r = match &self.kind {
                    SymbolKind::Variable(x) => {
                        let mut evaluator = Evaluator::new();
                        proof {
                            assert(evaluator.context_width@ =~= Seq::<usize>::empty());
                        }
                        match evaluator.type_width(&x.ty) {
                            Some(width) => Evaluated::Variable { width },
                            None => Evaluated::Unknown,
                        }
                    },
                    SymbolKind::Parameter(x) => {
                        let mut evaluator = Evaluator::new();
                        proof {
                            assert(evaluator.context_width@ =~= Seq::<usize>::empty());
                        }
                        evaluator.parameter(x)
                    },
                    _ => Evaluated::Unknown,
                };
                self.evaluated = Some(r);
                r
            },
        }
    }
}

/// Evaluating a symbol twice gives the same result, and the second call
/// changes nothing.
pub proof fn lemma_evaluate_memoized(s0: Symbol, s1: Symbol, s2: Symbol, r1: Evaluated, r2: Evaluated)
    requires
        evaluate_step(s0, s1, r1),
        evaluate_step(s1, s2, r2),
    ensures
        r1 == r2,
        s2 == s1,
        s1.evaluated == Some(r1),
{
}

proof fn lemma_product_unknown(ws: Seq<Expression>, context: Seq<usize>, i: int)
    requires
        0 <= i < ws.len(),
        !(evaluate_expression(ws[i], context) is Fixed),
    ensures
        width_product(ws, context) is None,
    decreases ws.len(),
{
    if i < ws.len() - 1 {
        lemma_product_unknown(ws.drop_last(), context, i);
    }
}

/// Width inference for variables: a single-bit kind without widths is 1
/// bit wide, a 32- or 64-bit numeric kind has that width, a bit-vector with
/// one width that folds to a positive constant `v` is `v` bits wide, and in
/// a well-formed type a width expression that cannot be folded leaves the
/// width unknown.
pub proof fn lemma_variable_width(x: VariableProperty)
    ensures
        (x.ty.kind is Bit || x.ty.kind is Logic) && x.ty.width@.len() == 0 ==> kind_value(
            SymbolKind::Variable(x),
        ) == (Evaluated::Variable { width: 1 }),
        (x.ty.kind is U32 || x.ty.kind is I32) ==> kind_value(SymbolKind::Variable(x)) == (
        Evaluated::Variable { width: 32 }),
        (x.ty.kind is U64 || x.ty.kind is I64) ==> kind_value(SymbolKind::Variable(x)) == (
        Evaluated::Variable { width: 64 }),
        (x.ty.kind is Bit || x.ty.kind is Logic) && x.ty.width@.len() == 1 && evaluate_expression(
            x.ty.width@[0],
            Seq::empty(),
        ) is Fixed && 0 < evaluate_expression(x.ty.width@[0], Seq::empty())->Fixed_value
            <= usize::MAX ==> kind_value(SymbolKind::Variable(x)) == (Evaluated::Variable {
            width: evaluate_expression(x.ty.width@[0], Seq::empty())->Fixed_value as usize,
        }),
        forall|i: int|
            x.ty.wf() && 0 <= i < x.ty.width@.len() && !(evaluate_expression(
                #[trigger] x.ty.width@[i],
                Seq::empty(),
            ) is Fixed) ==> kind_value(SymbolKind::Variable(x)) == Evaluated::Unknown,
{
    let ws = x.ty.width@;
    let ctx = Seq::<usize>::empty();
    if ws.len() == 1 {
        assert(ws.drop_last() =~= Seq::<Expression>::empty());
        assert(width_product(ws.drop_last(), ctx) == Some(1nat));
        assert(ws.last() == ws[0]);
    }
    assert forall|i: int|
        x.ty.wf() && 0 <= i < ws.len()
            && !(evaluate_expression(#[trigger] ws[i], ctx) is Fixed) implies kind_value(
        SymbolKind::Variable(x),
    ) == Evaluated::Unknown by {
        lemma_product_unknown(ws, ctx, i);
    }
}

/// A parameter whose value is a literal takes its declared width: the
/// literal is folded with that width pushed on the hints.
pub proof fn lemma_parameter_literal_width(p: ParameterProperty, context: Seq<usize>, v: u64, w: usize)
    requires
        p.value == ParameterValue::Expression(Expression::Number(v)),
        type_width_of(p.ty, context) == Some(w),
    ensures
        parameter_value(p, context) == (Evaluated::Fixed { width: w, value: v }),
{
}

} // verus!
