//! More lints for Rust, to help find harmful or questionable idioms.
//!
//! - `eq_op` (warn): equal expressions on both sides of a comparison, of
//!   `&&` / `||`, or of a bitwise operator, as in `1 == 1`.
//! - `bad_bit_mask` (deny): comparisons of a masked value that cannot come
//!   out both ways, as in `x & 1 == 2`.
//!
//! The lints read a model of the compiler's syntax tree ([`ast`]) and answer
//! with the diagnostic to raise, if any.
use vstd::prelude::*;

pub mod ast;
pub mod bit_mask;
pub mod derived;
pub mod eq_op;
pub mod heads;
pub mod laws;
pub mod lint;

use crate::ast::Expr;
use crate::bit_mask::{bit_mask_finding, bit_mask_message, is_bad_bit_mask_lint, BitMask};
use crate::eq_op::{eq_op_finding, eq_op_message, is_eq_op_lint, EqOp};
use crate::lint::{Diagnostic, Lint};

verus! {

/// A lint pass that a plugin hands to the compiler.
#[derive(Clone, Copy, Debug)]
pub enum LintPassObject {
    EqOp(EqOp),
    BitMask(BitMask),
}

/// Whether a pass raises a diagnostic for an expression.
pub open spec fn pass_fires(pass: LintPassObject, e: Expr) -> bool {
    match pass {
        LintPassObject::EqOp(_) => eq_op_finding(e) is Some,
        LintPassObject::BitMask(_) => bit_mask_finding(e) is Some,
    }
}

impl LintPassObject {
    /// The lints the pass raises.
    pub fn get_lints(&self) -> (v: Vec<Lint>)
        ensures
            v.len() == 1,
            match *self {
                LintPassObject::EqOp(_) => is_eq_op_lint(v[0]),
                LintPassObject::BitMask(_) => is_bad_bit_mask_lint(v[0]),
            },
    {
        match self {
            LintPassObject::EqOp(p) => p.get_lints(),
            LintPassObject::BitMask(p) => p.get_lints(),
        }
    }

    /// The diagnostic the pass raises for `e`, if any.
    pub fn check_expr(&self, e: &Expr) -> (d: Option<Diagnostic>)
        ensures
            d is Some <==> pass_fires(*self, *e),
            d matches Some(d) ==> d.span == e.span && match *self {
                LintPassObject::EqOp(_) => {
                    &&& is_eq_op_lint(d.lint)
                    &&& d.message@ == eq_op_message(eq_op_finding(*e)->0)
                },
                LintPassObject::BitMask(_) => {
                    let (b, c, m, v) = bit_mask_finding(*e)->0;
                    &&& is_bad_bit_mask_lint(d.lint)
                    &&& d.message@ == bit_mask_message(b, c, m, v)
                },
            },
    {
        match self {
            LintPassObject::EqOp(p) => p.check_expr(e),
            LintPassObject::BitMask(p) => p.check_expr(e),
        }
    }
}

/// The plugin registry: the lint passes registered so far, in order.
pub struct Registry {
    pub lint_passes: Vec<LintPassObject>,
}

impl Registry {
    /// A registry with no passes.
    pub fn new() -> (r: Registry)
        ensures
            r.lint_passes@ == Seq::<LintPassObject>::empty(),
    {
        Registry { lint_passes: Vec::new() }
    }

    /// Adds a lint pass after those registered before.
    pub fn register_lint_pass(&mut self, pass: LintPassObject)
        ensures
            final(self).lint_passes@ == old(self).lint_passes@.push(pass),
    {
        self.lint_passes.push(pass);
    }
}

/// Registers this crate's passes: `eq_op`, then `bad_bit_mask`.
pub fn plugin_registrar(reg: &mut Registry)
    ensures
        final(reg).lint_passes@ == old(reg).lint_passes@ + seq![
            LintPassObject::EqOp(EqOp),
            LintPassObject::BitMask(BitMask),
        ],
{
    reg.register_lint_pass(LintPassObject::EqOp(EqOp));
    reg.register_lint_pass(LintPassObject::BitMask(BitMask));
}

} // verus!
