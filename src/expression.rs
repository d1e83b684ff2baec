//! Constant expressions as they appear in widths, array dimensions and
//! parameter values, with their canonical source rendering.
use vstd::prelude::*;

verus! {

/// A binary operator of a constant expression.
#[derive(Clone, Copy, Debug, PartialEq, Eq, Structural)]
pub enum BinaryOperator {
    Add,
    Sub,
    Mul,
}

/// A constant expression: a decimal literal, a reference to a named
/// entity, or a binary operation.
#[derive(Debug)]
pub enum Expression {
    Number(u64),
    Identifier(String),
    Binary(BinaryOperator, Box<Expression>, Box<Expression>),
}

/// The character of a decimal digit.
pub open spec fn digit_char(d: nat) -> char {
    if d == 0 { '0' }
    else if d == 1 { '1' }
    else if d == 2 { '2' }
    else if d == 3 { '3' }
    else if d == 4 { '4' }
    else if d == 5 { '5' }
    else if d == 6 { '6' }
    else if d == 7 { '7' }
    else if d == 8 { '8' }
    else { '9' }
}

/// The decimal representation of a natural number, without leading zeros.
pub open spec fn decimal(n: nat) -> Seq<char>
    decreases n,
{
    if n < 10 {
        seq![digit_char(n)]
    } else {
        decimal(n / 10) + seq![digit_char(n % 10)]
    }
}

/// The text of an operator.
pub open spec fn operator_text(op: BinaryOperator) -> Seq<char> {
    match op {
        BinaryOperator::Add => seq!['+'],
        BinaryOperator::Sub => seq!['-'],
        BinaryOperator::Mul => seq!['*'],
    }
}

/// How tightly an operator binds: multiplication before addition and
/// subtraction.
pub open spec fn precedence(op: BinaryOperator) -> nat {
    match op {
        BinaryOperator::Add | BinaryOperator::Sub => 1,
        BinaryOperator::Mul => 2,
    }
}

/// An operand of `parent` is written in parentheses when it is an
/// operation that binds less tightly, or, as the right operand, one that
/// binds as tightly (operators group from the left).
pub open spec fn needs_parentheses(e: Expression, parent: BinaryOperator, right: bool) -> bool {
    match e {
        Expression::Binary(op, _, _) => precedence(op) < precedence(parent) || (right
            && precedence(op) == precedence(parent)),
        _ => false,
    }
}

pub open spec fn parenthesized(text: Seq<char>, wrap: bool) -> Seq<char> {
    if wrap {
        seq!['('] + text + seq![')']
    } else {
        text
    }
}

/// The canonical source text of an expression: no spaces, and parentheses
/// exactly where the grouping differs from the one that precedence and
/// left grouping give.
pub open spec fn expression_text(e: Expression) -> Seq<char>
    decreases e,
{
    match e {
        Expression::Number(v) => decimal(v as nat),
        Expression::Identifier(name) => name@,
        Expression::Binary(op, l, r) => parenthesized(
            expression_text(*l),
            needs_parentheses(*l, op, false),
        ) + operator_text(op) + parenthesized(expression_text(*r), needs_parentheses(*r, op, true)),
    }
}

fn digit_str(d: u64) -> (r: &'static str)
    requires
        d < 10,
    ensures
        r@ == seq![digit_char(d as nat)],
{
    if d == 0 {
        proof { reveal_strlit("0"); }
        "0"
    } else if d == 1 {
        proof { reveal_strlit("1"); }
        "1"
    } else if d == 2 {
        proof { reveal_strlit("2"); }
        "2"
    } else if d == 3 {
        proof { reveal_strlit("3"); }
        "3"
    } else if d == 4 {
        proof { reveal_strlit("4"); }
        "4"
    } else if d == 5 {
        proof { reveal_strlit("5"); }
        "5"
    } else if d == 6 {
        proof { reveal_strlit("6"); }
        "6"
    } else if d == 7 {
        proof { reveal_strlit("7"); }
        "7"
    } else if d == 8 {
        proof { reveal_strlit("8"); }
        "8"
    } else {
        proof { reveal_strlit("9"); }
        "9"
    }
}

/// Appends the decimal representation of `n` to `s`.
pub fn push_decimal(s: &mut String, n: u64)
    ensures
        final(s)@ == old(s)@ + decimal(n as nat),
    decreases n,
{
    if n >= 10 {
        push_decimal(s, n / 10);
    }
    s.append(digit_str(n % 10));
    proof {
        assert(n as nat / 10 == (n / 10) as nat);
    }
}

fn operator_str(op: BinaryOperator) -> (r: &'static str)
    ensures
        r@ == operator_text(op),
{
    match op {
        BinaryOperator::Add => {
            proof { reveal_strlit("+"); }
            "+"
        },
        BinaryOperator::Sub => {
            proof { reveal_strlit("-"); }
            "-"
        },
        BinaryOperator::Mul => {
            proof { reveal_strlit("*"); }
            "*"
        },
    }
}

fn precedence_of(op: BinaryOperator) -> (r: u8)
    ensures
        r as nat == precedence(op),
{
    match op {
        BinaryOperator::Add | BinaryOperator::Sub => 1,
        BinaryOperator::Mul => 2,
    }
}

impl Expression {
    fn needs_parentheses(&self, parent: BinaryOperator, right: bool) -> (r: bool)
        ensures
            r == needs_parentheses(*self, parent, right),
    {
        match self {
            Expression::Binary(op, _, _) => {
                let p = precedence_of(*op);
                let q = precedence_of(parent);
                p < q || (right && p == q)
            },
            _ => false,
        }
    }

    fn push_operand(&self, s: &mut String, parent: BinaryOperator, right: bool)
        ensures
            final(s)@ == old(s)@ + parenthesized(
                expression_text(*self),
                needs_parentheses(*self, parent, right),
            ),
        decreases self, 1nat,
    {
        if self.needs_parentheses(parent, right) {
            s.append("(");
            self.push_text(s);
            s.append(")");
            proof {
                reveal_strlit("(");
                reveal_strlit(")");
                assert(final(s)@ =~= old(s)@ + parenthesized(expression_text(*self), true));
            }
        } else {
            self.push_text(s);
        }
    }

    /// Appends the canonical text of this expression to `s`.
    pub fn push_text(&self, s: &mut String)
        ensures
            final(s)@ == old(s)@ + expression_text(*self),
        decreases self, 0nat,
    {
        match self {
            Expression::Number(v) => push_decimal(s, *v),
            Expression::Identifier(name) => s.append(name.as_str()),
            Expression::Binary(op, l, r) => {
                l.push_operand(s, *op, false);
                s.append(operator_str(*op));
                r.push_operand(s, *op, true);
                proof {
                    assert(final(s)@ =~= old(s)@ + expression_text(*self));
                }
            },
        }
    }

    /// A deep copy of this expression.
    pub fn duplicate(&self) -> (r: Expression)
        ensures
            r == *self,
        decreases self,
    {
        match self {
            Expression::Number(v) => Expression::Number(*v),
            Expression::Identifier(name) => Expression::Identifier(name.clone()),
            Expression::Binary(op, l, r) => Expression::Binary(
                *op,
                Box::new(l.duplicate()),
                Box::new(r.duplicate()),
            ),
        }
    }

    /// The canonical text of this expression.
    pub fn to_text(&self) -> (r: String)
        ensures
            r@ == expression_text(*self),
    {
        let mut s = String::new();
        self.push_text(&mut s);
        proof { assert(s@ =~= expression_text(*self)); }
        s
    }
}

/// A deep copy of a list of expressions.
pub fn duplicate_expressions(es: &Vec<Expression>) -> (r: Vec<Expression>)
    ensures
        r@ == es@,
{
    let mut r: Vec<Expression> = Vec::new();
    let mut i: usize = 0;
    while i < es.len()
        invariant
            0 <= i <= es.len(),
            r@ == es@.take(i as int),
        decreases es.len() - i,
    {
        r.push(es[i].duplicate());
        i = i + 1;
        proof {
            assert(r@ =~= es@.take(i as int));
        }
    }
    proof {
        assert(es@.take(i as int) =~= es@);
    }
    r
}

} // verus!
