//! Constant folding of expressions and bit widths of types.
use vstd::prelude::*;
use crate::expression::{BinaryOperator, Expression};
use crate::types::{Type, TypeKind};

verus! {

/// The result of evaluating a symbol or an expression.
#[derive(Clone, Copy, Debug, PartialEq, Eq, Structural)]
pub enum Evaluated {
    /// A constant `value`, interpreted at `width` bits.
    Fixed { width: usize, value: u64 },
    /// A variable occupying `width` bits.
    Variable { width: usize },
    /// Not statically determined.
    Unknown,
}

/// The width at which a literal is interpreted: the innermost width hint,
/// or 32 bits when there is none.
pub open spec fn literal_width(context: Seq<usize>) -> usize {
    if context.len() > 0 {
        context.last()
    } else {
        32
    }
}

pub open spec fn apply(op: BinaryOperator, a: int, b: int) -> int {
    match op {
        BinaryOperator::Add => a + b,
        BinaryOperator::Sub => a - b,
        BinaryOperator::Mul => a * b,
    }
}

/// Two constants combine into a constant of the larger width when the
/// result fits in 64 unsigned bits; anything else is unknown.
pub open spec fn combine(op: BinaryOperator, a: Evaluated, b: Evaluated) -> Evaluated {
    match (a, b) {
        (Evaluated::Fixed { width: wa, value: va }, Evaluated::Fixed { width: wb, value: vb }) => {
            let v = apply(op, va as int, vb as int);
            if 0 <= v <= u64::MAX {
                Evaluated::Fixed { width: if wa >= wb { wa } else { wb }, value: v as u64 }
            } else {
                Evaluated::Unknown
            }
        },
        _ => Evaluated::Unknown,
    }
}

/// The value of an expression under the width hints `context`. A named
/// entity is not resolved here, so an expression that mentions one is
/// unknown.
pub open spec fn evaluate_expression(e: Expression, context: Seq<usize>) -> Evaluated
    decreases e,
{
    match e {
        Expression::Number(v) => Evaluated::Fixed { width: literal_width(context), value: v },
        Expression::Identifier(_) => Evaluated::Unknown,
        Expression::Binary(op, l, r) => combine(
            op,
            evaluate_expression(*l, context),
            evaluate_expression(*r, context),
        ),
    }
}

/// The product of the width expressions, when each folds to a positive
/// constant and every partial product fits in 64 unsigned bits.
pub open spec fn width_product(ws: Seq<Expression>, context: Seq<usize>) -> Option<nat>
    decreases ws.len(),
{
    if ws.len() == 0 {
        Some(1)
    } else {
        match (width_product(ws.drop_last(), context), evaluate_expression(ws.last(), context)) {
            (Some(p), Evaluated::Fixed { value, .. }) => {
                if value > 0 && p * value <= u64::MAX {
                    Some((p * value) as nat)
                } else {
                    None
                }
            },
            _ => None,
        }
    }
}

/// The bit width of a type: the fixed size of a numeric kind, 1 for a
/// single-bit kind without widths, the product of the widths of a
/// bit-vector kind; no width for the other kinds.
pub open spec fn type_width_of(t: Type, context: Seq<usize>) -> Option<usize> {
    match t.kind {
        TypeKind::U32 | TypeKind::I32 | TypeKind::F32 => Some(32),
        TypeKind::U64 | TypeKind::I64 | TypeKind::F64 => Some(64),
        TypeKind::Bit | TypeKind::Logic => match width_product(t.width@, context) {
            Some(p) => if p <= usize::MAX {
                Some(p as usize)
            } else {
                None
            },
            None => None,
        },
        _ => None,
    }
}

/// Folds expressions, biased by a stack of width hints.
pub struct Evaluator {
    pub context_width: Vec<usize>,
}

impl Evaluator {
    pub fn new() -> (r: Evaluator)
        ensures
            r.context_width@.len() == 0,
    {
        Evaluator { context_width: Vec::new() }
    }

    fn literal_width(&self) -> (r: usize)
        ensures
            r == literal_width(self.context_width@),
    {
        let n = self.context_width.len();
        if n > 0 {
            self.context_width[n - 1]
        } else {
            32
        }
    }

    /// Folds `e` under the current width hints, which it leaves as they were.
    pub fn expression(&mut self, e: &Expression) -> (r: Evaluated)
        ensures
            r == evaluate_expression(*e, old(self).context_width@),
            final(self).context_width@ == old(self).context_width@,
        decreases e,
    {
        match e {
            Expression::Number(v) => Evaluated::Fixed { width: self.literal_width(), value: *v },
            Expression::Identifier(_) => Evaluated::Unknown,
            Expression::Binary(op, l, r) => {
                let a = self.expression(l);
                let b = self.expression(r);
                match (a, b) {
                    (
                        Evaluated::Fixed { width: wa, value: va },
                        Evaluated::Fixed { width: wb, value: vb },
                    ) => {
                        let w = if wa >= wb {
                            wa
                        } else {
                            wb
                        };
                        let v = match op {
                            BinaryOperator::Add => va.checked_add(vb),
                            BinaryOperator::Sub => va.checked_sub(vb),
                            BinaryOperator::Mul => va.checked_mul(vb),
                        };
                        match v {
                            Some(v) => Evaluated::Fixed { width: w, value: v },
                            None => Evaluated::Unknown,
                        }
                    },
                    _ => Evaluated::Unknown,
                }
            },
        }
    }

    /// The bit width of `t`, or `None` where it cannot be determined.
    pub fn type_width(&mut self, t: &Type) -> (r: Option<usize>)
        ensures
            r == type_width_of(*t, old(self).context_width@),
            final(self).context_width@ == old(self).context_width@,
    {
        match t.kind {
            TypeKind::U32 | TypeKind::I32 | TypeKind::F32 => Some(32),
            TypeKind::U64 | TypeKind::I64 | TypeKind::F64 => Some(64),
            TypeKind::Bit | TypeKind::Logic => {
                let ghost context = self.context_width@;
                let mut product: u64 = 1;
                let mut i: usize = 0;
                while i < t.width.len()
                    invariant
                        0 <= i <= t.width.len(),
                        self.context_width@ == context,
                        context == old(self).context_width@,
                        t.kind is Bit || t.kind is Logic,
                        width_product(t.width@.take(i as int), context) == Some(product as nat),
                    decreases t.width.len() - i,
                {
                    proof {
                        assert(t.width@.take(i + 1).drop_last() =~= t.width@.take(i as int));
                        assert(t.width@.take(i + 1).last() == t.width@[i as int]);
                    }
                    match self.expression(&t.width[i]) {
                        Evaluated::Fixed { value, .. } => {
                            if value == 0 {
                                proof {
                                    self.lemma_product_stays_none(t.width@, context, i + 1);
                                }
                                return None;
                            }
                            match product.checked_mul(value) {
                                Some(p) => product = p,
                                None => {
                                    proof { self.lemma_product_stays_none(t.width@, context, i + 1); }
                                    return None;
                                },
                            }
                        },
                        _ => {
                            proof { self.lemma_product_stays_none(t.width@, context, i + 1); }
                            return None;
                        },
                    }
                    i = i + 1;
                }
                proof {
                    assert(t.width@.take(i as int) =~= t.width@);
                }
                if product <= usize::MAX as u64 {
                    Some(product as usize)
                } else {
                    None
                }
            },
            _ => None,
        }
    }

    proof fn lemma_product_stays_none(&self, ws: Seq<Expression>, context: Seq<usize>, k: int)
        requires
            0 <= k <= ws.len(),
            width_product(ws.take(k), context) is None,
        ensures
            width_product(ws, context) is None,
        decreases ws.len() - k,
    {
        if k < ws.len() {
            assert(ws.take(k + 1).drop_last() =~= ws.take(k));
            self.lemma_product_stays_none(ws, context, k + 1);
        } else {
            assert(ws.take(k) =~= ws);
        }
    }
}

} // verus!
