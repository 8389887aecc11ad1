//! `bad_bit_mask`: comparisons of a masked value against a constant that
//! cannot come out any other way, such as `x & 1 == 2`. For
//! `_ <bit_op> m <comparison> c`:
//!
//! | Comparison   | Bit-op | Example      | is always | Formula      |
//! |--------------|--------|--------------|-----------|--------------|
//! | `==` or `!=` | `&`    | `x & 2 == 3` | `false`   | `c & m != c` |
//! | `<`  or `>=` | `&`    | `x & 2 < 3`  | `true`    | `m < c`      |
//! | `>`  or `<=` | `&`    | `x & 1 > 1`  | `false`   | `m <= c`     |
//! | `==` or `!=` | `\|`   | `x \| 1 == 0`| `false`   | `c \| m != c`|
//! | `<`  or `>=` | `\|`   | `x \| 1 < 1` | `false`   | `m >= c`     |
//! | `<=` or `>`  | `\|`   | `x \| 1 > 0` | `true`    | `m > c`      |
//!
//! ("is always" is the value of the first comparison of the row; the second
//! one always has the opposite value.)
use vstd::prelude::*;
use vstd::string::StringExecFns;
use crate::ast::{BinOp, Expr, ExprKind, Lit, Span};
use crate::lint::{decimal, lint_is, push_decimal, Diagnostic, Level, Lint};

verus! {

// ---------------------------------------------------------------------------
// Specification
// ---------------------------------------------------------------------------

/// `==`, `<`, `<=`, `!=`, `>=`, `>`.
pub open spec fn comparison_binop(op: BinOp) -> bool {
    match op {
        BinOp::Eq | BinOp::Lt | BinOp::Le | BinOp::Ne | BinOp::Ge | BinOp::Gt => true,
        _ => false,
    }
}

/// The value of `e` when `e` is an integer literal.
pub open spec fn int_literal(e: Expr) -> Option<u64> {
    match e.node {
        ExprKind::Lit(Lit::Int(value, _)) => Some(value),
        _ => None,
    }
}

/// The bit operator and the mask when `e` is, inside any parentheses,
/// `_ & m`, `_ | m`, `m & _` or `m | _` with an integer literal `m` (the
/// right operand is tried first).
pub open spec fn mask_operand(e: Expr) -> Option<(BinOp, u64)>
    decreases e,
{
    match e.node {
        ExprKind::Paren(sub) => mask_operand(*sub),
        ExprKind::Binary(op, l, r) => {
            if op == BinOp::BitAnd || op == BinOp::BitOr {
                match int_literal(*r) {
                    Some(m) => Some((op, m)),
                    None => match int_literal(*l) {
                        Some(m) => Some((op, m)),
                        None => None,
                    },
                }
            } else {
                None
            }
        },
        _ => None,
    }
}

/// The table above: `_ <bit_op> mask <comparison> constant` cannot come out
/// both ways.
pub open spec fn incompatible(bit_op: BinOp, comparison: BinOp, mask: u64, constant: u64) -> bool {
    match comparison {
        BinOp::Eq | BinOp::Ne => match bit_op {
            BinOp::BitAnd => constant & mask != constant,
            BinOp::BitOr => mask | constant != constant,
            _ => false,
        },
        BinOp::Lt | BinOp::Ge => match bit_op {
            BinOp::BitAnd => mask < constant,
            BinOp::BitOr => mask >= constant,
            _ => false,
        },
        BinOp::Le | BinOp::Gt => match bit_op {
            BinOp::BitAnd => mask <= constant,
            BinOp::BitOr => mask > constant,
            _ => false,
        },
        _ => false,
    }
}

/// `(bit_op, comparison, mask, constant)` when `e` is a comparison of a masked
/// value with an integer literal on the right that cannot come out both
/// ways; nothing otherwise.
pub open spec fn bit_mask_finding(e: Expr) -> Option<(BinOp, BinOp, u64, u64)> {
    match e.node {
        ExprKind::Binary(comparison, l, r) => {
            if comparison_binop(comparison) {
                match (int_literal(*r), mask_operand(*l)) {
                    (Some(c), Some((b, m))) => if incompatible(b, comparison, m, c) {
                        Some((b, comparison, m, c))
                    } else {
                        None
                    },
                    _ => None,
                }
            } else {
                None
            }
        },
        _ => None,
    }
}

/// The text of the diagnostic.
pub open spec fn bit_mask_message(bit_op: BinOp, comparison: BinOp, mask: u64, constant: u64) -> Seq<
    char,
> {
    let m = decimal(mask);
    let c = decimal(constant);
    let and = bit_op == BinOp::BitAnd;
    match comparison {
        BinOp::Eq | BinOp::Ne => if and {
            "incompatible bit mask: _ & "@ + m + " can never be equal to "@ + c
        } else {
            "incompatible bit mask: _ | "@ + m + " can never be equal to "@ + c
        },
        BinOp::Lt | BinOp::Ge => if and {
            "incompatible bit mask: _ & "@ + m + " will always be lower than "@ + c
        } else {
            "incompatible bit mask: _ | "@ + m + " will never be lower than "@ + c
        },
        _ => if and {
            "incompatible bit mask: _ & "@ + m + " will never be higher than "@ + c
        } else {
            "incompatible bit mask: _ | "@ + m + " will always be higher than "@ + c
        },
    }
}

/// `BAD_BIT_MASK` denies by default.
pub open spec fn is_bad_bit_mask_lint(l: Lint) -> bool {
    lint_is(
        l,
        "BAD_BIT_MASK"@,
        Level::Deny,
        "Deny the use of incompatible bit masks in comparisons, e.g. '(a & 1) == 2'"@,
    )
}

// ---------------------------------------------------------------------------
// Computation
// ---------------------------------------------------------------------------

/// The `BAD_BIT_MASK` lint.
pub fn bad_bit_mask_lint() -> (l: Lint)
    ensures
        is_bad_bit_mask_lint(l),
{
    Lint {
        name: "BAD_BIT_MASK",
        default_level: Level::Deny,
        desc: "Deny the use of incompatible bit masks in comparisons, e.g. '(a & 1) == 2'",
    }
}

/// The lint pass that looks for incompatible bit masks.
#[derive(Clone, Copy, Debug)]
pub struct BitMask;

impl BitMask {
    /// The lints this pass raises: `BAD_BIT_MASK` alone.
    pub fn get_lints(&self) -> (v: Vec<Lint>)
        ensures
            v.len() == 1,
            is_bad_bit_mask_lint(v[0]),
    {
        let mut v: Vec<Lint> = Vec::new();
        v.push(bad_bit_mask_lint());
        v
    }

    /// The `BAD_BIT_MASK` diagnostic for `e`, if `e` compares a masked value
    /// with an integer literal in a way that cannot come out both ways; it
    /// covers the whole of `e`.
    pub fn check_expr(&self, e: &Expr) -> (d: Option<Diagnostic>)
        ensures
            d is Some <==> bit_mask_finding(*e) is Some,
            d matches Some(d) ==> {
                let (b, c, m, v) = bit_mask_finding(*e)->0;
                &&& is_bad_bit_mask_lint(d.lint)
                &&& d.span == e.span
                &&& d.message@ == bit_mask_message(b, c, m, v)
            },
    {
        if let ExprKind::Binary(op, left, right) = &e.node {
            if !is_comparison_binop(*op) {
                return None;
            }
            if let Some(constant) = fetch_int_literal(right) {
                return check_compare(left, *op, constant, e.span);
            }
        }
        None
    }
}

/// Whether `op` is a comparison.
pub fn is_comparison_binop(op: BinOp) -> (r: bool)
    ensures
        r == comparison_binop(op),
{
    match op {
        BinOp::Eq | BinOp::Lt | BinOp::Le | BinOp::Ne | BinOp::Ge | BinOp::Gt => true,
        _ => false,
    }
}

/// Checks the left side `bit_op` of a comparison with `constant`.
pub fn check_compare(bit_op: &Expr, comparison: BinOp, constant: u64, span: Span) -> (d: Option<
    Diagnostic,
>)
    ensures
        d is Some <==> (mask_operand(*bit_op) matches Some((b, m)) && incompatible(
            b,
            comparison,
            m,
            constant,
        )),
        d matches Some(d) ==> {
            let (b, m) = mask_operand(*bit_op)->0;
            &&& is_bad_bit_mask_lint(d.lint)
            &&& d.span == span
            &&& d.message@ == bit_mask_message(b, comparison, m, constant)
        },
    decreases *bit_op,
{
    match &bit_op.node {
        ExprKind::Paren(subexp) => check_compare(subexp, comparison, constant, span),
        ExprKind::Binary(op, left, right) => {
            if *op != BinOp::BitAnd && *op != BinOp::BitOr {
                return None;
            }
            if let Some(mask_value) = fetch_int_literal(right) {
                check_bit_mask(*op, comparison, mask_value, constant, span)
            } else if let Some(mask_value) = fetch_int_literal(left) {
                check_bit_mask(*op, comparison, mask_value, constant, span)
            } else {
                None
            }
        },
        _ => None,
    }
}

/// The diagnostic for `_ <bit_op> mask_value <comparison> constant`, if that
/// comparison cannot come out both ways.
pub fn check_bit_mask(bit_op: BinOp, comparison: BinOp, mask_value: u64, constant: u64, span: Span) -> (d:
    Option<Diagnostic>)
    ensures
        d is Some <==> incompatible(bit_op, comparison, mask_value, constant),
        d matches Some(d) ==> {
            &&& is_bad_bit_mask_lint(d.lint)
            &&& d.span == span
            &&& d.message@ == bit_mask_message(bit_op, comparison, mask_value, constant)
        },
{
    let and = match bit_op {
        BinOp::BitAnd => true,
        BinOp::BitOr => false,
        _ => {
            return None;
        },
    };
    let (found, middle): (bool, &'static str) = match comparison {
        BinOp::Eq | BinOp::Ne => if and {
            (constant & mask_value != constant, " can never be equal to ")
        } else {
            (mask_value | constant != constant, " can never be equal to ")
        },
        BinOp::Lt | BinOp::Ge => if and {
            (mask_value < constant, " will always be lower than ")
        } else {
            (mask_value >= constant, " will never be lower than ")
        },
        BinOp::Le | BinOp::Gt => if and {
            (mask_value <= constant, " will never be higher than ")
        } else {
            (mask_value > constant, " will always be higher than ")
        },
        _ => {
            return None;
        },
    };
    if !found {
        return None;
    }
    let mut message = if and {
        String::from_str("incompatible bit mask: _ & ")
    } else {
        String::from_str("incompatible bit mask: _ | ")
    };
    push_decimal(&mut message, mask_value);
    message.append(middle);
    push_decimal(&mut message, constant);
    proof {
        assert(message@ =~= bit_mask_message(bit_op, comparison, mask_value, constant));
    }
    Some(Diagnostic { lint: bad_bit_mask_lint(), span, message })
}

/// The value of an integer literal.
pub fn fetch_int_literal(lit: &Expr) -> (r: Option<u64>)
    ensures
        r == int_literal(*lit),
{
    if let ExprKind::Lit(Lit::Int(value, _)) = &lit.node {
        return Some(*value);
    }
    None
}

} // verus!
