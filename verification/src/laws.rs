//! What holds of the lints as a whole.
use vstd::prelude::*;
use crate::ast::{
    BareFnTy, BinOp, Expr, ExprKind, FunctionRetTy, LifetimeDef, Pat, PatKind, Path, QSelf, Ty,
    TyKind, TyParamBound,
};
use crate::bit_mask::{bit_mask_finding, incompatible};
use crate::derived::{
    lemma_same_segments_refl, lemma_same_segments_sym, lemma_same_segments_trans,
    lemma_same_ty_kind_refl, lemma_same_ty_kind_sym, lemma_same_ty_kind_trans,
};
use crate::eq_op::{
    arg_equal, arg_vec_equal, bare_fn_ty_equal, cmp_or_bit, comparable_args, comparable_bare_fn,
    comparable_expr, comparable_exprs, comparable_field_pats, comparable_opt_expr,
    comparable_opt_pat, comparable_pat, comparable_pats, comparable_ty, comparable_tys,
    eq_op_finding, exp_equal, exp_vec_equal, fieldpat_equal, fieldpat_vec_equal, fndecl_equal,
    fnret_ty_equal, lifetime_equal, lifetime_vec_equal, lifetimedef_equal, lifetimedef_vec_equal,
    mut_ty_equal, opt_exp_equal, opt_lifetime_equal, opt_pat_equal, opt_qself_equal,
    param_bound_equal, param_bounds_equal, path_equal, pat_equal, pat_vec_equal, ty_equal,
    ty_vec_equal,
};

verus! {

// ---------------------------------------------------------------------------
// bad_bit_mask: the table is exact
// ---------------------------------------------------------------------------

/// `x <bit_op> mask` for `&` and `|`.
pub open spec fn apply_bit_op(bit_op: BinOp, x: u64, mask: u64) -> u64 {
    if bit_op == BinOp::BitAnd {
        x & mask
    } else {
        x | mask
    }
}

/// `lhs <comparison> rhs`.
pub open spec fn apply_comparison(comparison: BinOp, lhs: u64, rhs: u64) -> bool {
    match comparison {
        BinOp::Eq => lhs == rhs,
        BinOp::Ne => lhs != rhs,
        BinOp::Lt => lhs < rhs,
        BinOp::Ge => lhs >= rhs,
        BinOp::Le => lhs <= rhs,
        _ => lhs > rhs,
    }
}

/// The "is always" column of the table: the value that the lint claims the
/// comparison always has.
pub open spec fn claimed_value(bit_op: BinOp, comparison: BinOp) -> bool {
    let and = bit_op == BinOp::BitAnd;
    match comparison {
        BinOp::Eq => false,
        BinOp::Ne => true,
        BinOp::Lt => and,
        BinOp::Ge => !and,
        BinOp::Le => and,
        _ => !and,
    }
}

/// The comparison has the claimed value for every `x`.
pub open spec fn always_claimed(bit_op: BinOp, comparison: BinOp, mask: u64, constant: u64) -> bool {
    forall|x: u64|
        #[trigger] apply_comparison(comparison, apply_bit_op(bit_op, x, mask), constant)
            == claimed_value(bit_op, comparison)
}

/// `bad_bit_mask` flags `_ <bit_op> mask <comparison> constant` exactly when
/// that comparison has the value of the table's "is always" column for every
/// value of `_`: each flagged comparison is constant, and each constant one
/// of the table's kind is flagged.
pub proof fn lemma_bit_mask_exact(bit_op: BinOp, comparison: BinOp, mask: u64, constant: u64)
    requires
        bit_op == BinOp::BitAnd || bit_op == BinOp::BitOr,
        crate::bit_mask::comparison_binop(comparison),
    ensures
        incompatible(bit_op, comparison, mask, constant) <==> always_claimed(
            bit_op,
            comparison,
            mask,
            constant,
        ),
{
    let m = mask;
    let c = constant;
    let claimed = claimed_value(bit_op, comparison);
    if incompatible(bit_op, comparison, m, c) {
        assert forall|x: u64|
            #[trigger] apply_comparison(comparison, apply_bit_op(bit_op, x, m), c) == claimed by {
            if bit_op == BinOp::BitAnd {
                assert(x & m <= m && ((x & m == c) ==> (c & m == c))) by (bit_vector);
            } else {
                assert(x | m >= m && ((x | m == c) ==> (m | c == c))) by (bit_vector);
            }
        }
    } else {
        // a value of `_` for which the comparison does not have the claimed value
        let x: u64 = if bit_op == BinOp::BitAnd {
            match comparison {
                BinOp::Eq | BinOp::Ne => c,
                _ => m,
            }
        } else {
            match comparison {
                BinOp::Eq | BinOp::Ne => c,
                _ => 0,
            }
        };
        assert(m & m == m && 0u64 | m == m && c | m == m | c) by (bit_vector);
        assert(apply_comparison(comparison, apply_bit_op(bit_op, x, m), c) != claimed);
    }
}


/// Whenever `bad_bit_mask` flags an expression, the comparison in it has
/// the value of the table's "is always" column whatever the masked value is.
pub proof fn lemma_bit_mask_finding_is_constant(e: Expr)
    requires
        bit_mask_finding(e) is Some,
    ensures
        ({
            let (bit_op, comparison, mask, constant) = bit_mask_finding(e)->0;
            always_claimed(bit_op, comparison, mask, constant)
        }),
{
    let (bit_op, comparison, mask, constant) = bit_mask_finding(e)->0;
    lemma_bit_mask_exact(bit_op, comparison, mask, constant);
}

// ---------------------------------------------------------------------------
// eq_op: the order of the operands does not matter
// ---------------------------------------------------------------------------

/// Whether two expressions count as equal does not depend on which comes
/// first.
pub proof fn lemma_exp_equal_symmetric(l: Expr, r: Expr)
    ensures
        exp_equal(l, r) == exp_equal(r, l),
    decreases l, r,
{
    match (l.node, r.node) {
        (ExprKind::Binary(_, ll, lr), ExprKind::Binary(_, rl, rr)) => {
            lemma_exp_equal_symmetric(*ll, *rl);
            lemma_exp_equal_symmetric(*lr, *rr);
        },
        (ExprKind::Box(lp, lb), ExprKind::Box(rp, rb)) => {
            if let (Some(x), Some(y)) = (lp, rp) {
                lemma_exp_equal_symmetric(*x, *y);
            }
            assert(opt_exp_equal(lp, rp) == opt_exp_equal(rp, lp));
            lemma_exp_equal_symmetric(*lb, *rb);
        },
        (ExprKind::Call(lc, la), ExprKind::Call(rc, ra)) => {
            lemma_exp_equal_symmetric(*lc, *rc);
            lemma_exp_vec_equal_symmetric(la@, ra@);
        },
        (ExprKind::Cast(le, lt), ExprKind::Cast(re, rt)) => {
            lemma_ty_equal_symmetric(*lt, *rt);
            lemma_exp_equal_symmetric(*le, *re);
        },
        (ExprKind::Field(le, _), ExprKind::Field(re, _)) => lemma_exp_equal_symmetric(*le, *re),
        (ExprKind::AddrOf(_, le), ExprKind::AddrOf(_, re)) => lemma_exp_equal_symmetric(*le, *re),
        (ExprKind::Index(le, li), ExprKind::Index(re, ri)) => {
            lemma_exp_equal_symmetric(*le, *re);
            lemma_exp_equal_symmetric(*li, *ri);
        },
        (ExprKind::MethodCall(_, lt, la), ExprKind::MethodCall(_, rt, ra)) => {
            lemma_ty_vec_equal_symmetric(lt@, rt@);
            lemma_exp_vec_equal_symmetric(la@, ra@);
        },
        (ExprKind::Paren(a), ExprKind::Paren(b)) => lemma_exp_equal_symmetric(*a, *b),
        (ExprKind::Paren(a), _) => lemma_exp_equal_symmetric(*a, r),
        (_, ExprKind::Paren(b)) => lemma_exp_equal_symmetric(l, *b),
        (ExprKind::Path(lq, lp), ExprKind::Path(rq, rp)) => {
            lemma_opt_qself_equal_symmetric(lq, rq);
            lemma_same_segments_sym(lp.segments@, rp.segments@);
            assert(path_equal(lp, rp) == path_equal(rp, lp));
        },
        (ExprKind::Tup(a), ExprKind::Tup(b)) => lemma_exp_vec_equal_symmetric(a@, b@),
        (ExprKind::Unary(_, a), ExprKind::Unary(_, b)) => lemma_exp_equal_symmetric(*a, *b),
        (ExprKind::Vec(a), ExprKind::Vec(b)) => lemma_exp_vec_equal_symmetric(a@, b@),
        _ => {},
    }
}

pub proof fn lemma_exp_vec_equal_symmetric(l: Seq<Expr>, r: Seq<Expr>)
    ensures
        exp_vec_equal(l, r) == exp_vec_equal(r, l),
    decreases l, r,
{
    if l.len() == r.len() {
        assert forall|i: int| 0 <= i < l.len() implies exp_equal(#[trigger] l[i], r[i])
            == exp_equal(r[i], l[i]) by {
            lemma_exp_equal_symmetric(l[i], r[i]);
        }
    }
}

pub proof fn lemma_opt_qself_equal_symmetric(l: Option<QSelf>, r: Option<QSelf>)
    ensures
        opt_qself_equal(l, r) == opt_qself_equal(r, l),
{
    if let (Some(a), Some(b)) = (l, r) {
        lemma_same_ty_kind_sym(a.ty.node, b.ty.node);
    }
}

/// Whether two types count as equal does not depend on which comes first.
pub proof fn lemma_ty_equal_symmetric(l: Ty, r: Ty)
    ensures
        ty_equal(l, r) == ty_equal(r, l),
    decreases l, r,
{
    match (l.node, r.node) {
        (TyKind::Vec(a), TyKind::Vec(b)) => lemma_ty_equal_symmetric(*a, *b),
        (TyKind::FixedLengthVec(lt, le), TyKind::FixedLengthVec(rt, re)) => {
            lemma_ty_equal_symmetric(*lt, *rt);
            lemma_exp_equal_symmetric(*le, *re);
        },
        (TyKind::Ptr(a), TyKind::Ptr(b)) => {
            lemma_ty_equal_symmetric(*a.ty, *b.ty);
            assert(mut_ty_equal(a, b) == mut_ty_equal(b, a));
        },
        (TyKind::Rptr(x, a), TyKind::Rptr(y, b)) => {
            lemma_ty_equal_symmetric(*a.ty, *b.ty);
            assert(mut_ty_equal(a, b) == mut_ty_equal(b, a));
            assert(opt_lifetime_equal(x, y) == opt_lifetime_equal(y, x));
        },
        (TyKind::BareFn(a), TyKind::BareFn(b)) => lemma_bare_fn_ty_equal_symmetric(*a, *b),
        (TyKind::Tup(a), TyKind::Tup(b)) => lemma_ty_vec_equal_symmetric(a@, b@),
        (TyKind::Path(lq, lp), TyKind::Path(rq, rp)) => {
            lemma_opt_qself_equal_symmetric(lq, rq);
            lemma_same_segments_sym(lp.segments@, rp.segments@);
            assert(path_equal(lp, rp) == path_equal(rp, lp));
        },
        (TyKind::ObjectSum(lt, lb), TyKind::ObjectSum(rt, rb)) => {
            lemma_ty_equal_symmetric(*lt, *rt);
            lemma_param_bounds_equal_symmetric(lb@, rb@);
        },
        (TyKind::PolyTraitRef(a), TyKind::PolyTraitRef(b)) => {
            lemma_param_bounds_equal_symmetric(a@, b@)
        },
        (TyKind::Paren(a), TyKind::Paren(b)) => lemma_ty_equal_symmetric(*a, *b),
        (TyKind::Typeof(a), TyKind::Typeof(b)) => lemma_exp_equal_symmetric(*a, *b),
        _ => {},
    }
}

pub proof fn lemma_ty_vec_equal_symmetric(l: Seq<Ty>, r: Seq<Ty>)
    ensures
        ty_vec_equal(l, r) == ty_vec_equal(r, l),
    decreases l, r,
{
    if l.len() == r.len() {
        assert forall|i: int| 0 <= i < l.len() implies ty_equal(#[trigger] l[i], r[i]) == ty_equal(
            r[i],
            l[i],
        ) by {
            lemma_ty_equal_symmetric(l[i], r[i]);
        }
    }
}

pub proof fn lemma_bare_fn_ty_equal_symmetric(l: BareFnTy, r: BareFnTy)
    ensures
        bare_fn_ty_equal(l, r) == bare_fn_ty_equal(r, l),
    decreases l, r,
{
    lemma_lifetimedef_vec_equal_symmetric(l.lifetimes@, r.lifetimes@);
    let (a, b) = (*l.decl, *r.decl);
    let (x, y) = (a.inputs@, b.inputs@);
    if x.len() == y.len() {
        assert forall|i: int| 0 <= i < x.len() implies arg_equal(#[trigger] x[i], y[i])
            == arg_equal(y[i], x[i]) by {
            lemma_ty_equal_symmetric(*x[i].ty, *y[i].ty);
            lemma_pat_equal_symmetric(*x[i].pat, *y[i].pat);
        }
    }
    assert(arg_vec_equal(x, y) == arg_vec_equal(y, x));
    if let (FunctionRetTy::Return(s), FunctionRetTy::Return(t)) = (a.output, b.output) {
        lemma_ty_equal_symmetric(*s, *t);
    }
    assert(fnret_ty_equal(a.output, b.output) == fnret_ty_equal(b.output, a.output));
    assert(fndecl_equal(a, b) == fndecl_equal(b, a));
}

pub proof fn lemma_lifetimedef_vec_equal_symmetric(l: Seq<LifetimeDef>, r: Seq<LifetimeDef>)
    ensures
        lifetimedef_vec_equal(l, r) == lifetimedef_vec_equal(r, l),
{
    if l.len() == r.len() {
        assert forall|i: int| 0 <= i < l.len() implies lifetimedef_equal(#[trigger] l[i], r[i])
            == lifetimedef_equal(r[i], l[i]) by {
            let (a, b) = (l[i].bounds@, r[i].bounds@);
            assert(lifetime_vec_equal(a, b) == lifetime_vec_equal(b, a));
        }
    }
}

pub proof fn lemma_param_bounds_equal_symmetric(l: Seq<TyParamBound>, r: Seq<TyParamBound>)
    ensures
        param_bounds_equal(l, r) == param_bounds_equal(r, l),
{
    if l.len() == r.len() {
        assert forall|i: int| 0 <= i < l.len() implies param_bound_equal(#[trigger] l[i], r[i])
            == param_bound_equal(r[i], l[i]) by {
            if let (
                TyParamBound::TraitTyParamBound(p, _),
                TyParamBound::TraitTyParamBound(q, _),
            ) = (l[i], r[i]) {
                lemma_lifetimedef_vec_equal_symmetric(p.bound_lifetimes@, q.bound_lifetimes@);
                lemma_same_segments_sym(p.trait_ref.path.segments@, q.trait_ref.path.segments@);
            }
        }
    }
}

/// Whether two patterns count as equal does not depend on which comes first.
pub proof fn lemma_pat_equal_symmetric(l: Pat, r: Pat)
    ensures
        pat_equal(l, r) == pat_equal(r, l),
    decreases l, r,
{
    match (l.node, r.node) {
        (PatKind::Ident(_, _, lp), PatKind::Ident(_, _, rp)) => {
            if let (Some(a), Some(b)) = (lp, rp) {
                lemma_pat_equal_symmetric(*a, *b);
            }
            assert(opt_pat_equal(lp, rp) == opt_pat_equal(rp, lp));
        },
        (PatKind::Enum(lp, le), PatKind::Enum(rp, re)) => {
            lemma_same_segments_sym(lp.segments@, rp.segments@);
            if let (Some(a), Some(b)) = (le, re) {
                lemma_pat_vec_equal_symmetric(a@, b@);
            }
        },
        (PatKind::Struct(lp, lf, _), PatKind::Struct(rp, rf, _)) => {
            lemma_same_segments_sym(lp.segments@, rp.segments@);
            let (x, y) = (lf@, rf@);
            if x.len() == y.len() {
                assert forall|i: int| 0 <= i < x.len() implies fieldpat_equal(#[trigger] x[i], y[i])
                    == fieldpat_equal(y[i], x[i]) by {
                    lemma_pat_equal_symmetric(*x[i].pat, *y[i].pat);
                }
            }
            assert(fieldpat_vec_equal(x, y) == fieldpat_vec_equal(y, x));
        },
        (PatKind::Tup(a), PatKind::Tup(b)) => {
            lemma_pat_vec_equal_symmetric(a@, b@);
        },
        (PatKind::Box(a), PatKind::Box(b)) => {
            lemma_pat_equal_symmetric(*a, *b);
        },
        (PatKind::Region(a, _), PatKind::Region(b, _)) => {
            lemma_pat_equal_symmetric(*a, *b);
        },
        (PatKind::Lit(a), PatKind::Lit(b)) => {
            lemma_exp_equal_symmetric(*a, *b);
        },
        (PatKind::Range(lf, lt), PatKind::Range(rf, rt)) => {
            lemma_exp_equal_symmetric(*lf, *rf);
            lemma_exp_equal_symmetric(*lt, *rt);
        },
        (PatKind::Vec(lf, lp, ll), PatKind::Vec(rf, rp, rl)) => {
            lemma_pat_vec_equal_symmetric(lf@, rf@);
            if let (Some(a), Some(b)) = (lp, rp) {
                lemma_pat_equal_symmetric(*a, *b);
            }
            assert(opt_pat_equal(lp, rp) == opt_pat_equal(rp, lp));
            lemma_pat_vec_equal_symmetric(ll@, rl@);
        },
        _ => {},
    }
}

pub proof fn lemma_pat_vec_equal_symmetric(l: Seq<Pat>, r: Seq<Pat>)
    ensures
        pat_vec_equal(l, r) == pat_vec_equal(r, l),
    decreases l, r,
{
    if l.len() == r.len() {
        assert forall|i: int| 0 <= i < l.len() implies pat_equal(#[trigger] l[i], r[i])
            == pat_equal(r[i], l[i]) by {
            lemma_pat_equal_symmetric(l[i], r[i]);
        }
    }
}

/// `eq_op` raises a diagnostic on `l <op> r` exactly when it raises one on
/// `r <op> l`.
pub proof fn lemma_eq_op_operand_order(e: Expr, f: Expr)
    requires
        e.node matches ExprKind::Binary(op, l, r) && f.node matches ExprKind::Binary(
            op2,
            l2,
            r2,
        ) && op == op2 && l == r2 && r == l2,
    ensures
        eq_op_finding(e) == eq_op_finding(f),
{
    if let (ExprKind::Binary(_, l, r), ExprKind::Binary(_, _, _)) = (e.node, f.node) {
        lemma_exp_equal_symmetric(*l, *r);
    }
}


// ---------------------------------------------------------------------------
// eq_op: an expression counts as equal to itself exactly when the comparison
// looks into all of it
// ---------------------------------------------------------------------------

/// An expression counts as equal to itself exactly when the comparison
/// looks into every part of it: `1 == 1`, `f(x) && f(x)`, `[1] != [1]` are
/// flagged, while `m!() == m!()` is not, since macro invocations are never
/// compared.
pub proof fn lemma_exp_equal_reflexive(e: Expr)
    ensures
        exp_equal(e, e) <==> comparable_expr(e),
    decreases e,
{
    match e.node {
        ExprKind::Binary(_, l, r) => {
            lemma_exp_equal_reflexive(*l);
            lemma_exp_equal_reflexive(*r);
        },
        ExprKind::Box(p, b) => {
            if let Some(x) = p {
                lemma_exp_equal_reflexive(*x);
            }
            assert(opt_exp_equal(p, p) == comparable_opt_expr(p));
            lemma_exp_equal_reflexive(*b);
        },
        ExprKind::Call(c, a) => {
            lemma_exp_equal_reflexive(*c);
            lemma_exp_vec_equal_reflexive(a@);
        },
        ExprKind::Cast(x, t) => {
            lemma_exp_equal_reflexive(*x);
            lemma_ty_equal_reflexive(*t);
        },
        ExprKind::Field(x, _) => lemma_exp_equal_reflexive(*x),
        ExprKind::AddrOf(_, x) => lemma_exp_equal_reflexive(*x),
        ExprKind::Index(x, i) => {
            lemma_exp_equal_reflexive(*x);
            lemma_exp_equal_reflexive(*i);
        },
        ExprKind::MethodCall(_, t, a) => {
            lemma_ty_vec_equal_reflexive(t@);
            lemma_exp_vec_equal_reflexive(a@);
        },
        ExprKind::Paren(x) => lemma_exp_equal_reflexive(*x),
        ExprKind::Path(q, p) => {
            lemma_opt_qself_equal_reflexive(q);
            lemma_same_segments_refl(p.segments@);
            assert(path_equal(p, p));
        },
        ExprKind::Tup(a) => lemma_exp_vec_equal_reflexive(a@),
        ExprKind::Unary(_, x) => lemma_exp_equal_reflexive(*x),
        ExprKind::Vec(a) => lemma_exp_vec_equal_reflexive(a@),
        _ => {},
    }
}

pub proof fn lemma_exp_vec_equal_reflexive(s: Seq<Expr>)
    ensures
        exp_vec_equal(s, s) <==> comparable_exprs(s),
    decreases s,
{
    assert forall|i: int| 0 <= i < s.len() implies exp_equal(#[trigger] s[i], s[i])
        == comparable_expr(s[i]) by {
        lemma_exp_equal_reflexive(s[i]);
    }
}

pub proof fn lemma_opt_qself_equal_reflexive(q: Option<QSelf>)
    ensures
        opt_qself_equal(q, q),
{
    if let Some(x) = q {
        lemma_same_ty_kind_refl(x.ty.node);
    }
}

/// A type counts as equal to itself exactly when the comparison looks into
/// every part of it.
pub proof fn lemma_ty_equal_reflexive(t: Ty)
    ensures
        ty_equal(t, t) <==> comparable_ty(t),
    decreases t,
{
    match t.node {
        TyKind::Vec(a) => lemma_ty_equal_reflexive(*a),
        TyKind::FixedLengthVec(a, e) => {
            lemma_ty_equal_reflexive(*a);
            lemma_exp_equal_reflexive(*e);
        },
        TyKind::Ptr(m) => {
            lemma_ty_equal_reflexive(*m.ty);
            assert(mut_ty_equal(m, m) == comparable_ty(*m.ty));
        },
        TyKind::Rptr(l, m) => {
            lemma_ty_equal_reflexive(*m.ty);
            assert(mut_ty_equal(m, m) == comparable_ty(*m.ty));
            assert(opt_lifetime_equal(l, l));
        },
        TyKind::BareFn(f) => lemma_bare_fn_ty_equal_reflexive(*f),
        TyKind::Tup(a) => lemma_ty_vec_equal_reflexive(a@),
        TyKind::Path(q, p) => {
            lemma_opt_qself_equal_reflexive(q);
            lemma_same_segments_refl(p.segments@);
            assert(path_equal(p, p));
        },
        TyKind::ObjectSum(a, b) => {
            lemma_ty_equal_reflexive(*a);
            lemma_param_bounds_equal_reflexive(b@);
        },
        TyKind::PolyTraitRef(b) => lemma_param_bounds_equal_reflexive(b@),
        TyKind::Paren(a) => lemma_ty_equal_reflexive(*a),
        TyKind::Typeof(e) => lemma_exp_equal_reflexive(*e),
        _ => {},
    }
}

pub proof fn lemma_ty_vec_equal_reflexive(s: Seq<Ty>)
    ensures
        ty_vec_equal(s, s) <==> comparable_tys(s),
    decreases s,
{
    assert forall|i: int| 0 <= i < s.len() implies ty_equal(#[trigger] s[i], s[i])
        == comparable_ty(s[i]) by {
        lemma_ty_equal_reflexive(s[i]);
    }
}

pub proof fn lemma_lifetimedef_vec_equal_reflexive(s: Seq<LifetimeDef>)
    ensures
        lifetimedef_vec_equal(s, s),
{
    assert forall|i: int| 0 <= i < s.len() implies lifetimedef_equal(#[trigger] s[i], s[i]) by {
        assert(lifetime_vec_equal(s[i].bounds@, s[i].bounds@));
    }
}

pub proof fn lemma_param_bounds_equal_reflexive(s: Seq<TyParamBound>)
    ensures
        param_bounds_equal(s, s),
{
    assert forall|i: int| 0 <= i < s.len() implies param_bound_equal(#[trigger] s[i], s[i]) by {
        if let TyParamBound::TraitTyParamBound(p, _) = s[i] {
            lemma_lifetimedef_vec_equal_reflexive(p.bound_lifetimes@);
            lemma_same_segments_refl(p.trait_ref.path.segments@);
            assert(path_equal(p.trait_ref.path, p.trait_ref.path));
        }
    }
}

pub proof fn lemma_bare_fn_ty_equal_reflexive(f: BareFnTy)
    ensures
        bare_fn_ty_equal(f, f) <==> comparable_bare_fn(f),
    decreases f,
{
    lemma_lifetimedef_vec_equal_reflexive(f.lifetimes@);
    let d = *f.decl;
    let s = d.inputs@;
    assert forall|i: int| 0 <= i < s.len() implies arg_equal(#[trigger] s[i], s[i]) == (
    comparable_ty(*s[i].ty) && comparable_pat(*s[i].pat)) by {
        lemma_ty_equal_reflexive(*s[i].ty);
        lemma_pat_equal_reflexive(*s[i].pat);
    }
    assert(arg_vec_equal(s, s) == comparable_args(s));
    if let FunctionRetTy::Return(t) = d.output {
        lemma_ty_equal_reflexive(*t);
    }
    assert(fndecl_equal(d, d) == comparable_bare_fn(f));
}

/// A pattern counts as equal to itself exactly when the comparison looks
/// into every part of it.
pub proof fn lemma_pat_equal_reflexive(p: Pat)
    ensures
        pat_equal(p, p) <==> comparable_pat(p),
    decreases p,
{
    match p.node {
        PatKind::Ident(_, _, s) => {
            if let Some(x) = s {
                lemma_pat_equal_reflexive(*x);
            }
            assert(opt_pat_equal(s, s) == comparable_opt_pat(s));
        },
        PatKind::Enum(path, o) => {
            lemma_same_segments_refl(path.segments@);
            assert(path_equal(path, path));
            if let Some(v) = o {
                lemma_pat_vec_equal_reflexive(v@);
            }
        },
        PatKind::Struct(path, f, _) => {
            lemma_same_segments_refl(path.segments@);
            assert(path_equal(path, path));
            let s = f@;
            assert forall|i: int| 0 <= i < s.len() implies fieldpat_equal(#[trigger] s[i], s[i])
                == comparable_pat(*s[i].pat) by {
                lemma_pat_equal_reflexive(*s[i].pat);
            }
            assert(fieldpat_vec_equal(s, s) == comparable_field_pats(s));
        },
        PatKind::Tup(a) => lemma_pat_vec_equal_reflexive(a@),
        PatKind::Box(a) => lemma_pat_equal_reflexive(*a),
        PatKind::Region(a, _) => lemma_pat_equal_reflexive(*a),
        PatKind::Lit(e) => lemma_exp_equal_reflexive(*e),
        PatKind::Range(a, b) => {
            lemma_exp_equal_reflexive(*a);
            lemma_exp_equal_reflexive(*b);
        },
        PatKind::Vec(a, m, z) => {
            lemma_pat_vec_equal_reflexive(a@);
            if let Some(x) = m {
                lemma_pat_equal_reflexive(*x);
            }
            assert(opt_pat_equal(m, m) == comparable_opt_pat(m));
            lemma_pat_vec_equal_reflexive(z@);
        },
        _ => {},
    }
}

pub proof fn lemma_pat_vec_equal_reflexive(s: Seq<Pat>)
    ensures
        pat_vec_equal(s, s) <==> comparable_pats(s),
    decreases s,
{
    assert forall|i: int| 0 <= i < s.len() implies pat_equal(#[trigger] s[i], s[i])
        == comparable_pat(s[i]) by {
        lemma_pat_equal_reflexive(s[i]);
    }
}


/// `eq_op` flags an operator whose two operands are one and the same
/// expression, as in `1 == 1` or `f(x) & f(x)`, whenever the comparison
/// looks into every part of that expression.
pub proof fn lemma_eq_op_flags_repeated_operand(e: Expr)
    requires
        e.node matches ExprKind::Binary(op, l, r) && cmp_or_bit(op) && l == r && comparable_expr(
            *l,
        ),
    ensures
        eq_op_finding(e) == Some(e.node->Binary_0),
{
    if let ExprKind::Binary(_, l, _) = e.node {
        lemma_exp_equal_reflexive(*l);
    }
}


/// Parentheses around an operand do not change whether it counts as equal
/// to another expression: `(e)` is compared as `e`, on either side.
pub proof fn lemma_parens_are_seen_through(p: Expr, b: Expr)
    requires
        p.node is Paren,
    ensures
        exp_equal(p, b) == exp_equal(*p.node->Paren_0, b),
        exp_equal(b, p) == exp_equal(b, *p.node->Paren_0),
    decreases b,
{
    let a = *p.node->Paren_0;
    lemma_exp_equal_symmetric(p, b);
    lemma_exp_equal_symmetric(a, b);
    if let ExprKind::Paren(c) = b.node {
        if let ExprKind::Paren(_) = a.node {
            lemma_parens_are_seen_through(a, *c);
        }
    }
}


// ---------------------------------------------------------------------------
// eq_op: equality of operands is transitive
// ---------------------------------------------------------------------------

/// Two expressions that count as equal to a third count as equal to each
/// other.
pub proof fn lemma_exp_equal_transitive(a: Expr, b: Expr, c: Expr)
    requires
        exp_equal(a, b),
        exp_equal(b, c),
    ensures
        exp_equal(a, c),
    decreases a, b, c,
{
    if let ExprKind::Paren(x) = a.node {
        lemma_parens_are_seen_through(a, b);
        lemma_parens_are_seen_through(a, c);
        lemma_exp_equal_transitive(*x, b, c);
    } else if let ExprKind::Paren(y) = b.node {
        lemma_parens_are_seen_through(b, a);
        lemma_parens_are_seen_through(b, c);
        lemma_exp_equal_transitive(a, *y, c);
    } else if let ExprKind::Paren(z) = c.node {
        lemma_parens_are_seen_through(c, a);
        lemma_parens_are_seen_through(c, b);
        lemma_exp_equal_transitive(a, b, *z);
    } else {
        match (a.node, b.node, c.node) {
            (ExprKind::Binary(_, al, ar), ExprKind::Binary(_, bl, br), ExprKind::Binary(_, cl, cr)) => {
                lemma_exp_equal_transitive(*al, *bl, *cl);
                lemma_exp_equal_transitive(*ar, *br, *cr);
            },
            (ExprKind::Box(ap, ab), ExprKind::Box(bp, bb), ExprKind::Box(cp, cb)) => {
                assert(opt_exp_equal(ap, bp) && opt_exp_equal(bp, cp));
                if let (Some(x), Some(y), Some(z)) = (ap, bp, cp) {
                    lemma_exp_equal_transitive(*x, *y, *z);
                }
                assert(opt_exp_equal(ap, cp));
                lemma_exp_equal_transitive(*ab, *bb, *cb);
            },
            (ExprKind::Call(ac, aa), ExprKind::Call(bc, ba), ExprKind::Call(cc, ca)) => {
                lemma_exp_equal_transitive(*ac, *bc, *cc);
                lemma_exp_vec_equal_transitive(aa@, ba@, ca@);
            },
            (ExprKind::Cast(ae, at), ExprKind::Cast(be, bt), ExprKind::Cast(ce, ct)) => {
                lemma_ty_equal_transitive(*at, *bt, *ct);
                lemma_exp_equal_transitive(*ae, *be, *ce);
            },
            (ExprKind::Field(ae, _), ExprKind::Field(be, _), ExprKind::Field(ce, _)) => {
                lemma_exp_equal_transitive(*ae, *be, *ce);
            },
            (ExprKind::AddrOf(_, ae), ExprKind::AddrOf(_, be), ExprKind::AddrOf(_, ce)) => {
                lemma_exp_equal_transitive(*ae, *be, *ce);
            },
            (ExprKind::Index(ae, ai), ExprKind::Index(be, bi), ExprKind::Index(ce, ci)) => {
                lemma_exp_equal_transitive(*ae, *be, *ce);
                lemma_exp_equal_transitive(*ai, *bi, *ci);
            },
            (
                ExprKind::MethodCall(_, at, aa),
                ExprKind::MethodCall(_, bt, ba),
                ExprKind::MethodCall(_, ct, ca),
            ) => {
                lemma_ty_vec_equal_transitive(at@, bt@, ct@);
                lemma_exp_vec_equal_transitive(aa@, ba@, ca@);
            },
            (ExprKind::Path(aq, ap), ExprKind::Path(bq, bp), ExprKind::Path(cq, cp)) => {
                lemma_opt_qself_equal_transitive(aq, bq, cq);
                lemma_path_equal_transitive(ap, bp, cp);
            },
            (ExprKind::Tup(x), ExprKind::Tup(y), ExprKind::Tup(z)) => {
                lemma_exp_vec_equal_transitive(x@, y@, z@);
            },
            (ExprKind::Unary(_, x), ExprKind::Unary(_, y), ExprKind::Unary(_, z)) => {
                lemma_exp_equal_transitive(*x, *y, *z);
            },
            (ExprKind::Vec(x), ExprKind::Vec(y), ExprKind::Vec(z)) => {
                lemma_exp_vec_equal_transitive(x@, y@, z@);
            },
            _ => {},
        }
    }
}

pub proof fn lemma_exp_vec_equal_transitive(a: Seq<Expr>, b: Seq<Expr>, c: Seq<Expr>)
    requires
        exp_vec_equal(a, b),
        exp_vec_equal(b, c),
    ensures
        exp_vec_equal(a, c),
    decreases a, b, c,
{
    assert forall|i: int| 0 <= i < a.len() implies exp_equal(#[trigger] a[i], c[i]) by {
        lemma_exp_equal_transitive(a[i], b[i], c[i]);
    }
}

pub proof fn lemma_path_equal_transitive(a: Path, b: Path, c: Path)
    requires
        path_equal(a, b),
        path_equal(b, c),
    ensures
        path_equal(a, c),
{
    lemma_same_segments_trans(a.segments@, b.segments@, c.segments@);
}

pub proof fn lemma_opt_qself_equal_transitive(a: Option<QSelf>, b: Option<QSelf>, c: Option<QSelf>)
    requires
        opt_qself_equal(a, b),
        opt_qself_equal(b, c),
    ensures
        opt_qself_equal(a, c),
{
    if let (Some(x), Some(y), Some(z)) = (a, b, c) {
        lemma_same_ty_kind_trans(x.ty.node, y.ty.node, z.ty.node);
    }
}

/// Two types that count as equal to a third count as equal to each other.
pub proof fn lemma_ty_equal_transitive(a: Ty, b: Ty, c: Ty)
    requires
        ty_equal(a, b),
        ty_equal(b, c),
    ensures
        ty_equal(a, c),
    decreases a, b, c,
{
    match (a.node, b.node, c.node) {
        (TyKind::Vec(x), TyKind::Vec(y), TyKind::Vec(z)) => lemma_ty_equal_transitive(*x, *y, *z),
        (
            TyKind::FixedLengthVec(x, e),
            TyKind::FixedLengthVec(y, f),
            TyKind::FixedLengthVec(z, g),
        ) => {
            lemma_ty_equal_transitive(*x, *y, *z);
            lemma_exp_equal_transitive(*e, *f, *g);
        },
        (TyKind::Ptr(x), TyKind::Ptr(y), TyKind::Ptr(z)) => {
            assert(mut_ty_equal(x, y) && mut_ty_equal(y, z));
            lemma_ty_equal_transitive(*x.ty, *y.ty, *z.ty);
            assert(mut_ty_equal(x, z));
        },
        (TyKind::Rptr(l, x), TyKind::Rptr(m, y), TyKind::Rptr(n, z)) => {
            assert(mut_ty_equal(x, y) && mut_ty_equal(y, z));
            lemma_ty_equal_transitive(*x.ty, *y.ty, *z.ty);
            assert(mut_ty_equal(x, z));
            assert(opt_lifetime_equal(l, n));
        },
        (TyKind::BareFn(x), TyKind::BareFn(y), TyKind::BareFn(z)) => {
            lemma_bare_fn_ty_equal_transitive(*x, *y, *z);
        },
        (TyKind::Tup(x), TyKind::Tup(y), TyKind::Tup(z)) => {
            lemma_ty_vec_equal_transitive(x@, y@, z@);
        },
        (TyKind::Path(aq, ap), TyKind::Path(bq, bp), TyKind::Path(cq, cp)) => {
            lemma_opt_qself_equal_transitive(aq, bq, cq);
            lemma_path_equal_transitive(ap, bp, cp);
        },
        (TyKind::ObjectSum(x, u), TyKind::ObjectSum(y, v), TyKind::ObjectSum(z, w)) => {
            lemma_ty_equal_transitive(*x, *y, *z);
            lemma_param_bounds_equal_transitive(u@, v@, w@);
        },
        (TyKind::PolyTraitRef(u), TyKind::PolyTraitRef(v), TyKind::PolyTraitRef(w)) => {
            lemma_param_bounds_equal_transitive(u@, v@, w@);
        },
        (TyKind::Paren(x), TyKind::Paren(y), TyKind::Paren(z)) => {
            lemma_ty_equal_transitive(*x, *y, *z);
        },
        (TyKind::Typeof(x), TyKind::Typeof(y), TyKind::Typeof(z)) => {
            lemma_exp_equal_transitive(*x, *y, *z);
        },
        _ => {},
    }
}

pub proof fn lemma_ty_vec_equal_transitive(a: Seq<Ty>, b: Seq<Ty>, c: Seq<Ty>)
    requires
        ty_vec_equal(a, b),
        ty_vec_equal(b, c),
    ensures
        ty_vec_equal(a, c),
    decreases a, b, c,
{
    assert forall|i: int| 0 <= i < a.len() implies ty_equal(#[trigger] a[i], c[i]) by {
        lemma_ty_equal_transitive(a[i], b[i], c[i]);
    }
}

pub proof fn lemma_lifetimedef_vec_equal_transitive(
    a: Seq<LifetimeDef>,
    b: Seq<LifetimeDef>,
    c: Seq<LifetimeDef>,
)
    requires
        lifetimedef_vec_equal(a, b),
        lifetimedef_vec_equal(b, c),
    ensures
        lifetimedef_vec_equal(a, c),
{
    assert forall|i: int| 0 <= i < a.len() implies lifetimedef_equal(#[trigger] a[i], c[i]) by {
        assert(lifetimedef_equal(a[i], b[i]) && lifetimedef_equal(b[i], c[i]));
        let (x, y, z) = (a[i].bounds@, b[i].bounds@, c[i].bounds@);
        assert(lifetime_vec_equal(x, y) && lifetime_vec_equal(y, z));
        assert forall|j: int| 0 <= j < x.len() implies lifetime_equal(#[trigger] x[j], z[j]) by {
            assert(lifetime_equal(x[j], y[j]) && lifetime_equal(y[j], z[j]));
        }
    }
}

pub proof fn lemma_param_bounds_equal_transitive(
    a: Seq<TyParamBound>,
    b: Seq<TyParamBound>,
    c: Seq<TyParamBound>,
)
    requires
        param_bounds_equal(a, b),
        param_bounds_equal(b, c),
    ensures
        param_bounds_equal(a, c),
{
    assert forall|i: int| 0 <= i < a.len() implies param_bound_equal(#[trigger] a[i], c[i]) by {
        assert(param_bound_equal(a[i], b[i]) && param_bound_equal(b[i], c[i]));
        if let (
            TyParamBound::TraitTyParamBound(p, _),
            TyParamBound::TraitTyParamBound(q, _),
            TyParamBound::TraitTyParamBound(r, _),
        ) = (a[i], b[i], c[i]) {
            lemma_lifetimedef_vec_equal_transitive(
                p.bound_lifetimes@,
                q.bound_lifetimes@,
                r.bound_lifetimes@,
            );
            lemma_path_equal_transitive(p.trait_ref.path, q.trait_ref.path, r.trait_ref.path);
        }
    }
}

pub proof fn lemma_bare_fn_ty_equal_transitive(a: BareFnTy, b: BareFnTy, c: BareFnTy)
    requires
        bare_fn_ty_equal(a, b),
        bare_fn_ty_equal(b, c),
    ensures
        bare_fn_ty_equal(a, c),
    decreases a, b, c,
{
    lemma_lifetimedef_vec_equal_transitive(a.lifetimes@, b.lifetimes@, c.lifetimes@);
    let (d, e, f) = (*a.decl, *b.decl, *c.decl);
    assert(fndecl_equal(d, e) && fndecl_equal(e, f));
    let (x, y, z) = (d.inputs@, e.inputs@, f.inputs@);
    assert(arg_vec_equal(x, y) && arg_vec_equal(y, z));
    assert forall|i: int| 0 <= i < x.len() implies arg_equal(#[trigger] x[i], z[i]) by {
        assert(arg_equal(x[i], y[i]) && arg_equal(y[i], z[i]));
        lemma_ty_equal_transitive(*x[i].ty, *y[i].ty, *z[i].ty);
        lemma_pat_equal_transitive(*x[i].pat, *y[i].pat, *z[i].pat);
    }
    assert(fnret_ty_equal(d.output, e.output) && fnret_ty_equal(e.output, f.output));
    if let (FunctionRetTy::Return(s), FunctionRetTy::Return(t), FunctionRetTy::Return(u)) = (
        d.output,
        e.output,
        f.output,
    ) {
        lemma_ty_equal_transitive(*s, *t, *u);
    }
    assert(fnret_ty_equal(d.output, f.output));
    assert(arg_vec_equal(x, z));
    assert(fndecl_equal(d, f));
}

/// Two patterns that count as equal to a third count as equal to each
/// other.
pub proof fn lemma_pat_equal_transitive(a: Pat, b: Pat, c: Pat)
    requires
        pat_equal(a, b),
        pat_equal(b, c),
    ensures
        pat_equal(a, c),
    decreases a, b, c,
{
    match (a.node, b.node, c.node) {
        (PatKind::Ident(_, _, s), PatKind::Ident(_, _, t), PatKind::Ident(_, _, u)) => {
            assert(opt_pat_equal(s, t) && opt_pat_equal(t, u));
            if let (Some(x), Some(y), Some(z)) = (s, t, u) {
                lemma_pat_equal_transitive(*x, *y, *z);
            }
            assert(opt_pat_equal(s, u));
        },
        (PatKind::Enum(p, o), PatKind::Enum(q, r), PatKind::Enum(s, t)) => {
            lemma_path_equal_transitive(p, q, s);
            if let (Some(x), Some(y), Some(z)) = (o, r, t) {
                lemma_pat_vec_equal_transitive(x@, y@, z@);
            }
        },
        (PatKind::Struct(p, f, _), PatKind::Struct(q, g, _), PatKind::Struct(r, h, _)) => {
            lemma_path_equal_transitive(p, q, r);
            assert(fieldpat_vec_equal(f@, g@) && fieldpat_vec_equal(g@, h@));
            assert forall|i: int| 0 <= i < f@.len() implies fieldpat_equal(#[trigger] f@[i], h@[i]) by {
                assert(fieldpat_equal(f@[i], g@[i]) && fieldpat_equal(g@[i], h@[i]));
                lemma_pat_equal_transitive(*f@[i].pat, *g@[i].pat, *h@[i].pat);
            }
            assert(fieldpat_vec_equal(f@, h@));
        },
        (PatKind::Tup(x), PatKind::Tup(y), PatKind::Tup(z)) => {
            lemma_pat_vec_equal_transitive(x@, y@, z@);
        },
        (PatKind::Box(x), PatKind::Box(y), PatKind::Box(z)) => {
            lemma_pat_equal_transitive(*x, *y, *z);
        },
        (PatKind::Region(x, _), PatKind::Region(y, _), PatKind::Region(z, _)) => {
            lemma_pat_equal_transitive(*x, *y, *z);
        },
        (PatKind::Lit(x), PatKind::Lit(y), PatKind::Lit(z)) => {
            lemma_exp_equal_transitive(*x, *y, *z);
        },
        (PatKind::Range(x, u), PatKind::Range(y, v), PatKind::Range(z, w)) => {
            lemma_exp_equal_transitive(*x, *y, *z);
            lemma_exp_equal_transitive(*u, *v, *w);
        },
        (PatKind::Vec(x, m, u), PatKind::Vec(y, n, v), PatKind::Vec(z, o, w)) => {
            lemma_pat_vec_equal_transitive(x@, y@, z@);
            assert(opt_pat_equal(m, n) && opt_pat_equal(n, o));
            if let (Some(s), Some(t), Some(r)) = (m, n, o) {
                lemma_pat_equal_transitive(*s, *t, *r);
            }
            assert(opt_pat_equal(m, o));
            lemma_pat_vec_equal_transitive(u@, v@, w@);
        },
        _ => {},
    }
}

pub proof fn lemma_pat_vec_equal_transitive(a: Seq<Pat>, b: Seq<Pat>, c: Seq<Pat>)
    requires
        pat_vec_equal(a, b),
        pat_vec_equal(b, c),
    ensures
        pat_vec_equal(a, c),
    decreases a, b, c,
{
    assert forall|i: int| 0 <= i < a.len() implies pat_equal(#[trigger] a[i], c[i]) by {
        lemma_pat_equal_transitive(a[i], b[i], c[i]);
    }
}

} // verus!
