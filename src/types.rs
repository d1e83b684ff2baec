//! Structural types of declared entities and their canonical rendering.
use vstd::prelude::*;
use crate::expression::{Expression, expression_text};

verus! {

/// A modifier written before a type.
#[derive(Clone, Copy, Debug, PartialEq, Eq, Structural)]
pub enum TypeModifier {
    Tri,
    Signed,
}

/// The kind of a type: a built-in kind or a user-defined path.
#[derive(Clone, Debug)]
pub enum TypeKind {
    Bit,
    Logic,
    U32,
    U64,
    I32,
    I64,
    F32,
    F64,
    Type,
    String,
    UserDefined(Vec<String>),
}

/// A type: modifiers, kind, width expressions and array dimensions.
/// Widths and dimensions stay unevaluated until the evaluator asks for them.
#[derive(Debug)]
pub struct Type {
    pub modifier: Vec<TypeModifier>,
    pub kind: TypeKind,
    pub width: Vec<Expression>,
    pub array: Vec<Expression>,
}

/// The direction of a port.
#[derive(Clone, Copy, Debug, PartialEq, Eq, Structural)]
pub enum Direction {
    Input,
    Output,
    Inout,
    Ref,
    Interface,
    Modport,
}

pub open spec fn modifier_text(m: TypeModifier) -> Seq<char> {
    match m {
        TypeModifier::Tri => "tri "@,
        TypeModifier::Signed => "signed "@,
    }
}

/// Each modifier followed by a space, in order.
pub open spec fn modifiers_text(ms: Seq<TypeModifier>) -> Seq<char>
    decreases ms.len(),
{
    if ms.len() == 0 {
        Seq::empty()
    } else {
        modifiers_text(ms.drop_last()) + modifier_text(ms.last())
    }
}

/// The parts joined with `sep` between consecutive ones.
pub open spec fn join(parts: Seq<Seq<char>>, sep: Seq<char>) -> Seq<char>
    decreases parts.len(),
{
    if parts.len() == 0 {
        Seq::empty()
    } else if parts.len() == 1 {
        parts[0]
    } else {
        join(parts.drop_last(), sep) + sep + parts.last()
    }
}

pub open spec fn kind_text(k: TypeKind) -> Seq<char> {
    match k {
        TypeKind::Bit => "bit"@,
        TypeKind::Logic => "logic"@,
        TypeKind::U32 => "u32"@,
        TypeKind::U64 => "u64"@,
        TypeKind::I32 => "i32"@,
        TypeKind::I64 => "i64"@,
        TypeKind::F32 => "f32"@,
        TypeKind::F64 => "f64"@,
        TypeKind::Type => "type"@,
        TypeKind::String => "string"@,
        TypeKind::UserDefined(path) => join(path@.map_values(|p: String| p@), "::"@),
    }
}

/// The texts of a list of expressions, separated by a comma and a space.
pub open spec fn expressions_text(es: Seq<Expression>) -> Seq<char> {
    join(es.map_values(|e: Expression| expression_text(e)), ", "@)
}

/// The width part of a rendering: empty, or the widths within angle brackets.
pub open spec fn width_text(ws: Seq<Expression>) -> Seq<char> {
    if ws.len() == 0 {
        Seq::empty()
    } else {
        "<"@ + expressions_text(ws) + ">"@
    }
}

/// The array part of a rendering: empty, or a space and the dimensions
/// within square brackets.
pub open spec fn array_text(ds: Seq<Expression>) -> Seq<char> {
    if ds.len() == 0 {
        Seq::empty()
    } else {
        " ["@ + expressions_text(ds) + "]"@
    }
}

/// The canonical rendering of a type.
pub open spec fn type_text(t: Type) -> Seq<char> {
    modifiers_text(t.modifier@) + kind_text(t.kind) + width_text(t.width@) + array_text(t.array@)
}

pub open spec fn direction_text(d: Direction) -> Seq<char> {
    match d {
        Direction::Input => "input"@,
        Direction::Output => "output"@,
        Direction::Inout => "inout"@,
        Direction::Ref => "ref"@,
        Direction::Interface => "interface"@,
        Direction::Modport => "modport"@,
    }
}

impl Direction {
    /// The keyword of this direction.
    pub fn to_text(&self) -> (r: String)
        ensures
            r@ == direction_text(*self),
    {
        match self {
            Direction::Input => String::from_str("input"),
            Direction::Output => String::from_str("output"),
            Direction::Inout => String::from_str("inout"),
            Direction::Ref => String::from_str("ref"),
            Direction::Interface => String::from_str("interface"),
            Direction::Modport => String::from_str("modport"),
        }
    }
}

/// Appends the texts of `es`, separated by `", "`, to `s`.
fn push_expressions(s: &mut String, es: &Vec<Expression>)
    ensures
        final(s)@ == old(s)@ + expressions_text(es@),
{
    let ghost start = s@;
    let ghost texts = es@.map_values(|e: Expression| expression_text(e));
    let mut i: usize = 0;
    while i < es.len()
        invariant
            0 <= i <= es.len(),
            texts.len() == es@.len(),
            forall|j: int| 0 <= j < es@.len() ==> #[trigger] texts[j] == expression_text(es@[j]),
            s@ == start + join(texts.take(i as int), ", "@),
        decreases es.len() - i,
    {
        proof {
            assert(texts.take(i + 1).drop_last() =~= texts.take(i as int));
        }
        if i != 0 {
            s.append(", ");
        }
        es[i].push_text(s);
        i = i + 1;
        proof {
            if i == 1 {
                assert(texts.take(1) =~= seq![texts[0]]);
            }
        }
    }
    proof {
        assert(texts.take(es.len() as int) =~= texts);
    }
}

pub(crate) fn push_path(s: &mut String, path: &Vec<String>)
    ensures
        final(s)@ == old(s)@ + join(path@.map_values(|p: String| p@), "::"@),
{
    let ghost start = s@;
    let ghost texts = path@.map_values(|p: String| p@);
    let mut i: usize = 0;
    while i < path.len()
        invariant
            0 <= i <= path.len(),
            texts.len() == path@.len(),
            forall|j: int| 0 <= j < path@.len() ==> #[trigger] texts[j] == path@[j]@,
            s@ == start + join(texts.take(i as int), "::"@),
        decreases path.len() - i,
    {
        proof {
            assert(texts.take(i + 1).drop_last() =~= texts.take(i as int));
        }
        if i != 0 {
            s.append("::");
        }
        s.append(path[i].as_str());
        i = i + 1;
        proof {
            if i == 1 {
                assert(texts.take(1) =~= seq![texts[0]]);
            }
        }
    }
    proof {
        assert(texts.take(path.len() as int) =~= texts);
    }
}

impl TypeKind {
    /// Appends the name of this kind to `s`.
    pub fn push_text(&self, s: &mut String)
        ensures
            final(s)@ == old(s)@ + kind_text(*self),
    {
        match self {
            TypeKind::Bit => s.append("bit"),
            TypeKind::Logic => s.append("logic"),
            TypeKind::U32 => s.append("u32"),
            TypeKind::U64 => s.append("u64"),
            TypeKind::I32 => s.append("i32"),
            TypeKind::I64 => s.append("i64"),
            TypeKind::F32 => s.append("f32"),
            TypeKind::F64 => s.append("f64"),
            TypeKind::Type => s.append("type"),
            TypeKind::String => s.append("string"),
            TypeKind::UserDefined(path) => push_path(s, path),
        }
    }
}

impl Type {
    /// Only a bit-vector kind has widths, and a user-defined kind names a
    /// non-empty path.
    pub open spec fn wf(&self) -> bool {
        &&& self.width@.len() > 0 ==> (self.kind is Bit || self.kind is Logic)
        &&& self.kind is UserDefined ==> self.kind->UserDefined_0@.len() > 0
    }

    /// The canonical rendering: the modifiers each followed by a space, the
    /// kind, the widths as `<w0, w1>` and the dimensions as ` [d0, d1]`.
    pub fn to_text(&self) -> (r: String)
        ensures
            r@ == type_text(*self),
    {
        let mut s = String::new();
        let mut i: usize = 0;
        while i < self.modifier.len()
            invariant
                0 <= i <= self.modifier.len(),
                s@ == modifiers_text(self.modifier@.take(i as int)),
            decreases self.modifier.len() - i,
        {
            proof {
                assert(self.modifier@.take(i + 1).drop_last() =~= self.modifier@.take(i as int));
            }
            match self.modifier[i] {
                TypeModifier::Tri => s.append("tri "),
                TypeModifier::Signed => s.append("signed "),
            }
            i = i + 1;
        }
        proof {
            assert(self.modifier@.take(i as int) =~= self.modifier@);
        }
        self.kind.push_text(&mut s);
        if self.width.len() != 0 {
            s.append("<");
            push_expressions(&mut s, &self.width);
            s.append(">");
        }
        if self.array.len() != 0 {
            s.append(" [");
            push_expressions(&mut s, &self.array);
            s.append("]");
        }
        proof {
            assert(s@ =~= type_text(*self));
        }
        s
    }
}

} // verus!
