//! `eq_op`: equal expressions on both sides of a comparison, of `&&` / `||`,
//! or of a bitwise `&`, `|`, `^`, as in `x == x`. This almost always is a
//! programmer error.
//!
//! Two expressions are taken as equal when they have the same shape: the
//! same operators (address-of and indexing included), calls, casts, fields,
//! literals and paths, read through parentheses. Macro invocations and the
//! forms not listed below (blocks, `if`, `match`, assignments, ...) are never
//! equal to anything, not even to themselves.
use vstd::prelude::*;
use crate::ast::{
    Arg, BareFnTy, BinOp, Expr, ExprKind, FieldPat, FnDecl, FunctionRetTy, Ident, Lifetime,
    LifetimeDef, MutTy, Pat, PatKind, Path, PolyTraitRef, QSelf, Ty, TyKind, TyParamBound,
};
use crate::lint::{binop_text, binop_to_string, lint_is, Diagnostic, Level, Lint};
use vstd::string::StringExecFns;
use crate::derived::{
    check_same_segments, check_same_ty_kind, same_segments, same_ty_kind,
};

verus! {

broadcast use vstd::std_specs::vec::group_vec_axioms;

// ---------------------------------------------------------------------------
// Specification: when two syntax trees count as equal
// ---------------------------------------------------------------------------

/// Two expressions are equal: one is a parenthesised expression equal to the
/// other, or both have the same form with equal parts.
pub open spec fn exp_equal(l: Expr, r: Expr) -> bool
    decreases l, r,
{
    match (l.node, r.node) {
        (ExprKind::Binary(lo, ll, lr), ExprKind::Binary(ro, rl, rr)) => {
            lo == ro && exp_equal(*ll, *rl) && exp_equal(*lr, *rr)
        },
        (ExprKind::Box(lp, lb), ExprKind::Box(rp, rb)) => {
            opt_exp_equal(lp, rp) && exp_equal(*lb, *rb)
        },
        (ExprKind::Call(lc, la), ExprKind::Call(rc, ra)) => {
            exp_equal(*lc, *rc) && exp_vec_equal(la@, ra@)
        },
        (ExprKind::Cast(le, lt), ExprKind::Cast(re, rt)) => ty_equal(*lt, *rt) && exp_equal(*le, *re),
        (ExprKind::Field(le, li), ExprKind::Field(re, ri)) => li == ri && exp_equal(*le, *re),
        (ExprKind::AddrOf(lm, le), ExprKind::AddrOf(rm, re)) => lm == rm && exp_equal(*le, *re),
        (ExprKind::Index(le, li), ExprKind::Index(re, ri)) => {
            exp_equal(*le, *re) && exp_equal(*li, *ri)
        },
        (ExprKind::Lit(a), ExprKind::Lit(b)) => a == b,
        (ExprKind::MethodCall(li, lt, la), ExprKind::MethodCall(ri, rt, ra)) => {
            li == ri && ty_vec_equal(lt@, rt@) && exp_vec_equal(la@, ra@)
        },
        (ExprKind::Paren(a), ExprKind::Paren(b)) => exp_equal(*a, *b),
        (ExprKind::Paren(a), _) => exp_equal(*a, r),
        (_, ExprKind::Paren(b)) => exp_equal(l, *b),
        (ExprKind::Path(lq, lp), ExprKind::Path(rq, rp)) => {
            opt_qself_equal(lq, rq) && path_equal(lp, rp)
        },
        (ExprKind::Tup(a), ExprKind::Tup(b)) => exp_vec_equal(a@, b@),
        (ExprKind::Unary(lo, a), ExprKind::Unary(ro, b)) => lo == ro && exp_equal(*a, *b),
        (ExprKind::Vec(a), ExprKind::Vec(b)) => exp_vec_equal(a@, b@),
        _ => false,
    }
}

/// Both absent, or both present and equal.
pub open spec fn opt_exp_equal(l: Option<Box<Expr>>, r: Option<Box<Expr>>) -> bool
    decreases l, r,
{
    match (l, r) {
        (None, None) => true,
        (Some(a), Some(b)) => exp_equal(*a, *b),
        _ => false,
    }
}

/// Two lists of expressions are equal: same length, equal element by element.
pub open spec fn exp_vec_equal(l: Seq<Expr>, r: Seq<Expr>) -> bool
    decreases l, r,
{
    l.len() == r.len() && forall|i: int| 0 <= i < l.len() ==> exp_equal(#[trigger] l[i], r[i])
}

/// Two paths are equal: the same `::` prefix and identical segments.
pub open spec fn path_equal(l: Path, r: Path) -> bool {
    l.global == r.global && same_segments(l.segments@, r.segments@)
}

/// Two `<T as Trait>` qualifiers are equal: the forms of their types are
/// identical and they split the path at the same place.
pub open spec fn qself_equal(l: QSelf, r: QSelf) -> bool {
    same_ty_kind(l.ty.node, r.ty.node) && l.position == r.position
}

pub open spec fn opt_qself_equal(l: Option<QSelf>, r: Option<QSelf>) -> bool {
    match (l, r) {
        (None, None) => true,
        (Some(a), Some(b)) => qself_equal(a, b),
        _ => false,
    }
}

/// Two types are equal: both have the same form with equal parts.
pub open spec fn ty_equal(l: Ty, r: Ty) -> bool
    decreases l, r,
{
    match (l.node, r.node) {
        (TyKind::Vec(a), TyKind::Vec(b)) => ty_equal(*a, *b),
        (TyKind::FixedLengthVec(lt, le), TyKind::FixedLengthVec(rt, re)) => {
            ty_equal(*lt, *rt) && exp_equal(*le, *re)
        },
        (TyKind::Ptr(a), TyKind::Ptr(b)) => mut_ty_equal(a, b),
        (TyKind::Rptr(lt, lm), TyKind::Rptr(rt, rm)) => {
            opt_lifetime_equal(lt, rt) && mut_ty_equal(lm, rm)
        },
        (TyKind::BareFn(a), TyKind::BareFn(b)) => bare_fn_ty_equal(*a, *b),
        (TyKind::Tup(a), TyKind::Tup(b)) => ty_vec_equal(a@, b@),
        (TyKind::Path(lq, lp), TyKind::Path(rq, rp)) => {
            opt_qself_equal(lq, rq) && path_equal(lp, rp)
        },
        (TyKind::ObjectSum(lt, lb), TyKind::ObjectSum(rt, rb)) => {
            ty_equal(*lt, *rt) && param_bounds_equal(lb@, rb@)
        },
        (TyKind::PolyTraitRef(a), TyKind::PolyTraitRef(b)) => param_bounds_equal(a@, b@),
        (TyKind::Paren(a), TyKind::Paren(b)) => ty_equal(*a, *b),
        (TyKind::Typeof(a), TyKind::Typeof(b)) => exp_equal(*a, *b),
        (TyKind::Infer, TyKind::Infer) => true,
        _ => false,
    }
}

pub open spec fn ty_vec_equal(l: Seq<Ty>, r: Seq<Ty>) -> bool
    decreases l, r,
{
    l.len() == r.len() && forall|i: int| 0 <= i < l.len() ==> ty_equal(#[trigger] l[i], r[i])
}

pub open spec fn mut_ty_equal(l: MutTy, r: MutTy) -> bool
    decreases l, r,
{
    l.mutbl == r.mutbl && ty_equal(*l.ty, *r.ty)
}

pub open spec fn bare_fn_ty_equal(l: BareFnTy, r: BareFnTy) -> bool
    decreases l, r,
{
    &&& l.unsafety == r.unsafety
    &&& l.abi == r.abi
    &&& lifetimedef_vec_equal(l.lifetimes@, r.lifetimes@)
    &&& fndecl_equal(*l.decl, *r.decl)
}

pub open spec fn fndecl_equal(l: FnDecl, r: FnDecl) -> bool
    decreases l, r,
{
    l.variadic == r.variadic && arg_vec_equal(l.inputs@, r.inputs@) && fnret_ty_equal(
        l.output,
        r.output,
    )
}

pub open spec fn fnret_ty_equal(l: FunctionRetTy, r: FunctionRetTy) -> bool
    decreases l, r,
{
    match (l, r) {
        (FunctionRetTy::NoReturn(_), FunctionRetTy::NoReturn(_)) => true,
        (FunctionRetTy::DefaultReturn(_), FunctionRetTy::DefaultReturn(_)) => true,
        (FunctionRetTy::Return(a), FunctionRetTy::Return(b)) => ty_equal(*a, *b),
        _ => false,
    }
}

pub open spec fn arg_equal(l: Arg, r: Arg) -> bool
    decreases l, r,
{
    ty_equal(*l.ty, *r.ty) && pat_equal(*l.pat, *r.pat)
}

pub open spec fn arg_vec_equal(l: Seq<Arg>, r: Seq<Arg>) -> bool
    decreases l, r,
{
    l.len() == r.len() && forall|i: int| 0 <= i < l.len() ==> arg_equal(#[trigger] l[i], r[i])
}

/// Two bounds are equal: trait bounds with the same modifier and equal
/// trait references, or equal lifetimes.
pub open spec fn param_bound_equal(l: TyParamBound, r: TyParamBound) -> bool {
    match (l, r) {
        (TyParamBound::TraitTyParamBound(lp, lm), TyParamBound::TraitTyParamBound(rp, rm)) => {
            lm == rm && poly_traitref_equal(lp, rp)
        },
        (TyParamBound::RegionTyParamBound(a), TyParamBound::RegionTyParamBound(b)) => {
            lifetime_equal(a, b)
        },
        _ => false,
    }
}

pub open spec fn param_bounds_equal(l: Seq<TyParamBound>, r: Seq<TyParamBound>) -> bool {
    l.len() == r.len() && forall|i: int|
        0 <= i < l.len() ==> param_bound_equal(#[trigger] l[i], r[i])
}

pub open spec fn poly_traitref_equal(l: PolyTraitRef, r: PolyTraitRef) -> bool {
    lifetimedef_vec_equal(l.bound_lifetimes@, r.bound_lifetimes@) && path_equal(
        l.trait_ref.path,
        r.trait_ref.path,
    )
}

/// Two lifetimes are equal when they have the same name.
pub open spec fn lifetime_equal(l: Lifetime, r: Lifetime) -> bool {
    l.name == r.name
}

pub open spec fn opt_lifetime_equal(l: Option<Lifetime>, r: Option<Lifetime>) -> bool {
    match (l, r) {
        (None, None) => true,
        (Some(a), Some(b)) => lifetime_equal(a, b),
        _ => false,
    }
}

pub open spec fn lifetime_vec_equal(l: Seq<Lifetime>, r: Seq<Lifetime>) -> bool {
    l.len() == r.len() && forall|i: int|
        0 <= i < l.len() ==> lifetime_equal(#[trigger] l[i], r[i])
}

pub open spec fn lifetimedef_equal(l: LifetimeDef, r: LifetimeDef) -> bool {
    lifetime_equal(l.lifetime, r.lifetime) && lifetime_vec_equal(l.bounds@, r.bounds@)
}

pub open spec fn lifetimedef_vec_equal(l: Seq<LifetimeDef>, r: Seq<LifetimeDef>) -> bool {
    l.len() == r.len() && forall|i: int|
        0 <= i < l.len() ==> lifetimedef_equal(#[trigger] l[i], r[i])
}

/// Two identifiers are equal: same name and same hygiene context.
pub open spec fn ident_equal(l: Ident, r: Ident) -> bool {
    l.name == r.name && l.ctxt == r.ctxt
}

/// Two patterns are equal: both have the same form with equal parts.
pub open spec fn pat_equal(l: Pat, r: Pat) -> bool
    decreases l, r,
{
    match (l.node, r.node) {
        (PatKind::Wild(a), PatKind::Wild(b)) => a == b,
        (PatKind::Ident(lm, li, lp), PatKind::Ident(rm, ri, rp)) => {
            lm == rm && ident_equal(li, ri) && opt_pat_equal(lp, rp)
        },
        (PatKind::Enum(lp, le), PatKind::Enum(rp, re)) => {
            path_equal(lp, rp) && (match (le, re) {
                (None, None) => true,
                (Some(a), Some(b)) => pat_vec_equal(a@, b@),
                _ => false,
            })
        },
        (PatKind::Struct(lp, lf, lb), PatKind::Struct(rp, rf, rb)) => {
            lb == rb && path_equal(lp, rp) && fieldpat_vec_equal(lf@, rf@)
        },
        (PatKind::Tup(a), PatKind::Tup(b)) => pat_vec_equal(a@, b@),
        (PatKind::Box(a), PatKind::Box(b)) => pat_equal(*a, *b),
        (PatKind::Region(lp, lm), PatKind::Region(rp, rm)) => pat_equal(*lp, *rp) && lm == rm,
        (PatKind::Lit(a), PatKind::Lit(b)) => exp_equal(*a, *b),
        (PatKind::Range(lf, lt), PatKind::Range(rf, rt)) => {
            exp_equal(*lf, *rf) && exp_equal(*lt, *rt)
        },
        (PatKind::Vec(lf, lp, ll), PatKind::Vec(rf, rp, rl)) => {
            pat_vec_equal(lf@, rf@) && opt_pat_equal(lp, rp) && pat_vec_equal(ll@, rl@)
        },
        _ => false,
    }
}

pub open spec fn opt_pat_equal(l: Option<Box<Pat>>, r: Option<Box<Pat>>) -> bool
    decreases l, r,
{
    match (l, r) {
        (None, None) => true,
        (Some(a), Some(b)) => pat_equal(*a, *b),
        _ => false,
    }
}

pub open spec fn pat_vec_equal(l: Seq<Pat>, r: Seq<Pat>) -> bool
    decreases l, r,
{
    l.len() == r.len() && forall|i: int| 0 <= i < l.len() ==> pat_equal(#[trigger] l[i], r[i])
}

pub open spec fn fieldpat_equal(l: FieldPat, r: FieldPat) -> bool
    decreases l, r,
{
    l.is_shorthand == r.is_shorthand && ident_equal(l.ident, r.ident) && pat_equal(
        *l.pat,
        *r.pat,
    )
}

pub open spec fn fieldpat_vec_equal(l: Seq<FieldPat>, r: Seq<FieldPat>) -> bool
    decreases l, r,
{
    l.len() == r.len() && forall|i: int|
        0 <= i < l.len() ==> fieldpat_equal(#[trigger] l[i], r[i])
}

/// The operators whose operands the lint compares: the comparisons, `&&`,
/// `||`, and the bitwise `^`, `&`, `|`.
pub open spec fn cmp_or_bit(op: BinOp) -> bool {
    match op {
        BinOp::Eq | BinOp::Lt | BinOp::Le | BinOp::Gt | BinOp::Ge | BinOp::Ne | BinOp::And
        | BinOp::Or | BinOp::BitXor | BinOp::BitAnd | BinOp::BitOr => true,
        _ => false,
    }
}


// ---------------------------------------------------------------------------
// The forms that the comparison looks into
// ---------------------------------------------------------------------------

/// `e`, and every expression, type and pattern inside it that the
/// comparison reads, has a form the comparison looks into: no macro
/// invocation, no block, `if`, `match`, ..., no macro type, no qualified-path
/// pattern.
pub open spec fn comparable_expr(e: Expr) -> bool
    decreases e,
{
    match e.node {
        ExprKind::Binary(_, l, r) => comparable_expr(*l) && comparable_expr(*r),
        ExprKind::Box(p, b) => comparable_opt_expr(p) && comparable_expr(*b),
        ExprKind::Call(c, a) => comparable_expr(*c) && comparable_exprs(a@),
        ExprKind::Cast(x, t) => comparable_expr(*x) && comparable_ty(*t),
        ExprKind::Field(x, _) => comparable_expr(*x),
        ExprKind::AddrOf(_, x) => comparable_expr(*x),
        ExprKind::Index(x, i) => comparable_expr(*x) && comparable_expr(*i),
        ExprKind::Lit(_) => true,
        ExprKind::MethodCall(_, t, a) => comparable_tys(t@) && comparable_exprs(a@),
        ExprKind::Paren(x) => comparable_expr(*x),
        ExprKind::Path(_, _) => true,
        ExprKind::Tup(a) => comparable_exprs(a@),
        ExprKind::Unary(_, x) => comparable_expr(*x),
        ExprKind::Vec(a) => comparable_exprs(a@),
        ExprKind::Mac(_) => false,
        ExprKind::Other => false,
    }
}

pub open spec fn comparable_exprs(s: Seq<Expr>) -> bool
    decreases s,
{
    forall|i: int| 0 <= i < s.len() ==> comparable_expr(#[trigger] s[i])
}

pub open spec fn comparable_opt_expr(e: Option<Box<Expr>>) -> bool
    decreases e,
{
    match e {
        None => true,
        Some(x) => comparable_expr(*x),
    }
}

/// The type form of [`comparable_expr`].
pub open spec fn comparable_ty(t: Ty) -> bool
    decreases t,
{
    match t.node {
        TyKind::Vec(a) => comparable_ty(*a),
        TyKind::FixedLengthVec(a, e) => comparable_ty(*a) && comparable_expr(*e),
        TyKind::Ptr(m) => comparable_ty(*m.ty),
        TyKind::Rptr(_, m) => comparable_ty(*m.ty),
        TyKind::BareFn(f) => comparable_bare_fn(*f),
        TyKind::Tup(a) => comparable_tys(a@),
        TyKind::Path(_, _) => true,
        TyKind::ObjectSum(a, _) => comparable_ty(*a),
        TyKind::PolyTraitRef(_) => true,
        TyKind::Paren(a) => comparable_ty(*a),
        TyKind::Typeof(e) => comparable_expr(*e),
        TyKind::Infer => true,
        TyKind::Mac(_) => false,
    }
}

pub open spec fn comparable_tys(s: Seq<Ty>) -> bool
    decreases s,
{
    forall|i: int| 0 <= i < s.len() ==> comparable_ty(#[trigger] s[i])
}

pub open spec fn comparable_bare_fn(f: BareFnTy) -> bool
    decreases f,
{
    comparable_args(f.decl.inputs@) && match f.decl.output {
        FunctionRetTy::Return(t) => comparable_ty(*t),
        _ => true,
    }
}

pub open spec fn comparable_args(s: Seq<Arg>) -> bool
    decreases s,
{
    forall|i: int|
        0 <= i < s.len() ==> comparable_ty(*(#[trigger] s[i]).ty) && comparable_pat(*s[i].pat)
}

/// The pattern form of [`comparable_expr`].
pub open spec fn comparable_pat(p: Pat) -> bool
    decreases p,
{
    match p.node {
        PatKind::Wild(_) => true,
        PatKind::Ident(_, _, s) => comparable_opt_pat(s),
        PatKind::Enum(_, o) => match o {
            None => true,
            Some(v) => comparable_pats(v@),
        },
        PatKind::Struct(_, f, _) => comparable_field_pats(f@),
        PatKind::Tup(a) => comparable_pats(a@),
        PatKind::Box(a) => comparable_pat(*a),
        PatKind::Region(a, _) => comparable_pat(*a),
        PatKind::Lit(e) => comparable_expr(*e),
        PatKind::Range(a, b) => comparable_expr(*a) && comparable_expr(*b),
        PatKind::Vec(a, m, z) => comparable_pats(a@) && comparable_opt_pat(m) && comparable_pats(
            z@,
        ),
        PatKind::QPath(_, _) => false,
        PatKind::Mac(_) => false,
    }
}

pub open spec fn comparable_pats(s: Seq<Pat>) -> bool
    decreases s,
{
    forall|i: int| 0 <= i < s.len() ==> comparable_pat(#[trigger] s[i])
}

pub open spec fn comparable_opt_pat(p: Option<Box<Pat>>) -> bool
    decreases p,
{
    match p {
        None => true,
        Some(x) => comparable_pat(*x),
    }
}

pub open spec fn comparable_field_pats(s: Seq<FieldPat>) -> bool
    decreases s,
{
    forall|i: int| 0 <= i < s.len() ==> comparable_pat(*(#[trigger] s[i]).pat)
}

// ---------------------------------------------------------------------------
// Computation
// ---------------------------------------------------------------------------

/// Whether two expressions count as equal for the lint.
pub fn is_exp_equal(left: &Expr, right: &Expr) -> (r: bool)
    ensures
        r == exp_equal(*left, *right),
    decreases *left, *right,
{
    match (&left.node, &right.node) {
        (ExprKind::Binary(lop, ll, lr), ExprKind::Binary(rop, rl, rr)) => {
            *lop == *rop && is_exp_equal(ll, rl) && is_exp_equal(lr, rr)
        },
        (ExprKind::Box(lpl, lboxed), ExprKind::Box(rpl, rboxed)) => {
            is_opt_exp_equal(lpl, rpl) && is_exp_equal(lboxed, rboxed)
        },
        (ExprKind::Call(lcallee, largs), ExprKind::Call(rcallee, rargs)) => {
            is_exp_equal(lcallee, rcallee) && is_exp_vec_equal(largs, rargs)
        },
        (ExprKind::Cast(lcast, lty), ExprKind::Cast(rcast, rty)) => {
            is_ty_equal(lty, rty) && is_exp_equal(lcast, rcast)
        },
        (ExprKind::Field(lfexp, lfident), ExprKind::Field(rfexp, rfident)) => {
            *lfident == *rfident && is_exp_equal(lfexp, rfexp)
        },
        (ExprKind::AddrOf(lmut, lexp), ExprKind::AddrOf(rmut, rexp)) => {
            *lmut == *rmut && is_exp_equal(lexp, rexp)
        },
        (ExprKind::Index(lexp, lidx), ExprKind::Index(rexp, ridx)) => {
            is_exp_equal(lexp, rexp) && is_exp_equal(lidx, ridx)
        },
        (ExprKind::Lit(llit), ExprKind::Lit(rlit)) => *llit == *rlit,
        (ExprKind::MethodCall(lident, lcty, lmargs), ExprKind::MethodCall(rident, rcty, rmargs)) => {
            *lident == *rident && is_ty_vec_equal(lcty, rcty) && is_exp_vec_equal(lmargs, rmargs)
        },
        (ExprKind::Paren(lparen), ExprKind::Paren(rparen)) => is_exp_equal(lparen, rparen),
        (ExprKind::Paren(lparen), _) => is_exp_equal(lparen, right),
        (_, ExprKind::Paren(rparen)) => is_exp_equal(left, rparen),
        (ExprKind::Path(lqself, lsubpath), ExprKind::Path(rqself, rsubpath)) => {
            is_opt_qself_equal(lqself, rqself) && is_path_equal(lsubpath, rsubpath)
        },
        (ExprKind::Tup(ltup), ExprKind::Tup(rtup)) => is_exp_vec_equal(ltup, rtup),
        (ExprKind::Unary(lunop, lparam), ExprKind::Unary(runop, rparam)) => {
            *lunop == *runop && is_exp_equal(lparam, rparam)
        },
        (ExprKind::Vec(lvec), ExprKind::Vec(rvec)) => is_exp_vec_equal(lvec, rvec),
        _ => false,
    }
}

/// Both absent, or both present and equal.
pub fn is_opt_exp_equal(left: &Option<Box<Expr>>, right: &Option<Box<Expr>>) -> (r: bool)
    ensures
        r == opt_exp_equal(*left, *right),
    decreases *left, *right,
{
    match (left, right) {
        (None, None) => true,
        (Some(l), Some(r)) => is_exp_equal(l, r),
        _ => false,
    }
}

pub fn is_exp_vec_equal(left: &Vec<Expr>, right: &Vec<Expr>) -> (r: bool)
    ensures
        r == exp_vec_equal(left@, right@),
    decreases left@, right@,
{
    if left.len() != right.len() {
        return false;
    }
    let mut i: usize = 0;
    while i < left.len()
        invariant
            left.len() == right.len(),
            0 <= i <= left.len(),
            forall|j: int| 0 <= j < i ==> exp_equal(#[trigger] left@[j], right@[j]),
        decreases left.len() - i,
    {
        if !is_exp_equal(&left[i], &right[i]) {
            return false;
        }
        i = i + 1;
    }
    true
}

/// Whether two paths count as equal: the same `::` prefix and identical
/// segments.
pub fn is_path_equal(left: &Path, right: &Path) -> (r: bool)
    ensures
        r == path_equal(*left, *right),
{
    left.global == right.global && check_same_segments(&left.segments, &right.segments)
}

/// Whether two `<T as Trait>` qualifiers count as equal.
pub fn is_qself_equal(left: &QSelf, right: &QSelf) -> (r: bool)
    ensures
        r == qself_equal(*left, *right),
{
    check_same_ty_kind(&left.ty.node, &right.ty.node) && left.position == right.position
}

pub fn is_opt_qself_equal(left: &Option<QSelf>, right: &Option<QSelf>) -> (r: bool)
    ensures
        r == opt_qself_equal(*left, *right),
{
    match (left, right) {
        (None, None) => true,
        (Some(l), Some(r)) => is_qself_equal(l, r),
        _ => false,
    }
}

/// Whether two types count as equal for the lint.
pub fn is_ty_equal(left: &Ty, right: &Ty) -> (r: bool)
    ensures
        r == ty_equal(*left, *right),
    decreases *left, *right,
{
    match (&left.node, &right.node) {
        (TyKind::Vec(lvec), TyKind::Vec(rvec)) => is_ty_equal(lvec, rvec),
        (TyKind::FixedLengthVec(lfvty, lfvexp), TyKind::FixedLengthVec(rfvty, rfvexp)) => {
            is_ty_equal(lfvty, rfvty) && is_exp_equal(lfvexp, rfvexp)
        },
        (TyKind::Ptr(lmut), TyKind::Ptr(rmut)) => is_mut_ty_equal(lmut, rmut),
        (TyKind::Rptr(ltime, lrmut), TyKind::Rptr(rtime, rrmut)) => {
            is_opt_lifetime_equal(ltime, rtime) && is_mut_ty_equal(lrmut, rrmut)
        },
        (TyKind::BareFn(lbare), TyKind::BareFn(rbare)) => is_bare_fn_ty_equal(lbare, rbare),
        (TyKind::Tup(ltup), TyKind::Tup(rtup)) => is_ty_vec_equal(ltup, rtup),
        (TyKind::Path(lqself, lpath), TyKind::Path(rqself, rpath)) => {
            is_opt_qself_equal(lqself, rqself) && is_path_equal(lpath, rpath)
        },
        (TyKind::ObjectSum(lsumty, lobounds), TyKind::ObjectSum(rsumty, robounds)) => {
            is_ty_equal(lsumty, rsumty) && is_param_bounds_equal(lobounds, robounds)
        },
        (TyKind::PolyTraitRef(ltbounds), TyKind::PolyTraitRef(rtbounds)) => {
            is_param_bounds_equal(ltbounds, rtbounds)
        },
        (TyKind::Paren(lty), TyKind::Paren(rty)) => is_ty_equal(lty, rty),
        (TyKind::Typeof(lof), TyKind::Typeof(rof)) => is_exp_equal(lof, rof),
        (TyKind::Infer, TyKind::Infer) => true,
        _ => false,
    }
}

pub fn is_ty_vec_equal(left: &Vec<Ty>, right: &Vec<Ty>) -> (r: bool)
    ensures
        r == ty_vec_equal(left@, right@),
    decreases left@, right@,
{
    if left.len() != right.len() {
        return false;
    }
    let mut i: usize = 0;
    while i < left.len()
        invariant
            left.len() == right.len(),
            0 <= i <= left.len(),
            forall|j: int| 0 <= j < i ==> ty_equal(#[trigger] left@[j], right@[j]),
        decreases left.len() - i,
    {
        if !is_ty_equal(&left[i], &right[i]) {
            return false;
        }
        i = i + 1;
    }
    true
}

pub fn is_mut_ty_equal(left: &MutTy, right: &MutTy) -> (r: bool)
    ensures
        r == mut_ty_equal(*left, *right),
    decreases *left, *right,
{
    left.mutbl == right.mutbl && is_ty_equal(&left.ty, &right.ty)
}

pub fn is_bare_fn_ty_equal(left: &BareFnTy, right: &BareFnTy) -> (r: bool)
    ensures
        r == bare_fn_ty_equal(*left, *right),
    decreases *left, *right,
{
    left.unsafety == right.unsafety && left.abi == right.abi && is_lifetimedef_vec_equal(
        &left.lifetimes,
        &right.lifetimes,
    ) && is_fndecl_equal(&left.decl, &right.decl)
}

pub fn is_fndecl_equal(left: &FnDecl, right: &FnDecl) -> (r: bool)
    ensures
        r == fndecl_equal(*left, *right),
    decreases *left, *right,
{
    left.variadic == right.variadic && is_arg_vec_equal(&left.inputs, &right.inputs)
        && is_fnret_ty_equal(&left.output, &right.output)
}

pub fn is_fnret_ty_equal(left: &FunctionRetTy, right: &FunctionRetTy) -> (r: bool)
    ensures
        r == fnret_ty_equal(*left, *right),
    decreases *left, *right,
{
    match (left, right) {
        (FunctionRetTy::NoReturn(_), FunctionRetTy::NoReturn(_)) => true,
        (FunctionRetTy::DefaultReturn(_), FunctionRetTy::DefaultReturn(_)) => true,
        (FunctionRetTy::Return(lty), FunctionRetTy::Return(rty)) => is_ty_equal(lty, rty),
        _ => false,
    }
}

pub fn is_arg_equal(left: &Arg, right: &Arg) -> (r: bool)
    ensures
        r == arg_equal(*left, *right),
    decreases *left, *right,
{
    is_ty_equal(&left.ty, &right.ty) && is_pat_equal(&left.pat, &right.pat)
}

pub fn is_arg_vec_equal(left: &Vec<Arg>, right: &Vec<Arg>) -> (r: bool)
    ensures
        r == arg_vec_equal(left@, right@),
    decreases left@, right@,
{
    if left.len() != right.len() {
        return false;
    }
    let mut i: usize = 0;
    while i < left.len()
        invariant
            left.len() == right.len(),
            0 <= i <= left.len(),
            forall|j: int| 0 <= j < i ==> arg_equal(#[trigger] left@[j], right@[j]),
        decreases left.len() - i,
    {
        if !is_arg_equal(&left[i], &right[i]) {
            return false;
        }
        i = i + 1;
    }
    true
}

pub fn is_param_bound_equal(left: &TyParamBound, right: &TyParamBound) -> (r: bool)
    ensures
        r == param_bound_equal(*left, *right),
{
    match (left, right) {
        (
            TyParamBound::TraitTyParamBound(lpoly, lmod),
            TyParamBound::TraitTyParamBound(rpoly, rmod),
        ) => *lmod == *rmod && is_poly_traitref_equal(lpoly, rpoly),
        (TyParamBound::RegionTyParamBound(ltime), TyParamBound::RegionTyParamBound(rtime)) => {
            is_lifetime_equal(ltime, rtime)
        },
        _ => false,
    }
}

pub fn is_param_bounds_equal(left: &Vec<TyParamBound>, right: &Vec<TyParamBound>) -> (r: bool)
    ensures
        r == param_bounds_equal(left@, right@),
{
    if left.len() != right.len() {
        return false;
    }
    let mut i: usize = 0;
    while i < left.len()
        invariant
            left.len() == right.len(),
            0 <= i <= left.len(),
            forall|j: int| 0 <= j < i ==> param_bound_equal(#[trigger] left@[j], right@[j]),
        decreases left.len() - i,
    {
        if !is_param_bound_equal(&left[i], &right[i]) {
            return false;
        }
        i = i + 1;
    }
    true
}

pub fn is_poly_traitref_equal(left: &PolyTraitRef, right: &PolyTraitRef) -> (r: bool)
    ensures
        r == poly_traitref_equal(*left, *right),
{
    is_lifetimedef_vec_equal(&left.bound_lifetimes, &right.bound_lifetimes) && is_path_equal(
        &left.trait_ref.path,
        &right.trait_ref.path,
    )
}

/// Whether two lifetimes have the same name.
pub fn is_lifetime_equal(left: &Lifetime, right: &Lifetime) -> (r: bool)
    ensures
        r == lifetime_equal(*left, *right),
{
    left.name == right.name
}

pub fn is_opt_lifetime_equal(left: &Option<Lifetime>, right: &Option<Lifetime>) -> (r: bool)
    ensures
        r == opt_lifetime_equal(*left, *right),
{
    match (left, right) {
        (None, None) => true,
        (Some(l), Some(r)) => is_lifetime_equal(l, r),
        _ => false,
    }
}

pub fn is_lifetime_vec_equal(left: &Vec<Lifetime>, right: &Vec<Lifetime>) -> (r: bool)
    ensures
        r == lifetime_vec_equal(left@, right@),
{
    if left.len() != right.len() {
        return false;
    }
    let mut i: usize = 0;
    while i < left.len()
        invariant
            left.len() == right.len(),
            0 <= i <= left.len(),
            forall|j: int| 0 <= j < i ==> lifetime_equal(#[trigger] left@[j], right@[j]),
        decreases left.len() - i,
    {
        if !is_lifetime_equal(&left[i], &right[i]) {
            return false;
        }
        i = i + 1;
    }
    true
}

pub fn is_lifetimedef_equal(left: &LifetimeDef, right: &LifetimeDef) -> (r: bool)
    ensures
        r == lifetimedef_equal(*left, *right),
{
    is_lifetime_equal(&left.lifetime, &right.lifetime) && is_lifetime_vec_equal(
        &left.bounds,
        &right.bounds,
    )
}

pub fn is_lifetimedef_vec_equal(left: &Vec<LifetimeDef>, right: &Vec<LifetimeDef>) -> (r: bool)
    ensures
        r == lifetimedef_vec_equal(left@, right@),
{
    if left.len() != right.len() {
        return false;
    }
    let mut i: usize = 0;
    while i < left.len()
        invariant
            left.len() == right.len(),
            0 <= i <= left.len(),
            forall|j: int| 0 <= j < i ==> lifetimedef_equal(#[trigger] left@[j], right@[j]),
        decreases left.len() - i,
    {
        if !is_lifetimedef_equal(&left[i], &right[i]) {
            return false;
        }
        i = i + 1;
    }
    true
}

/// Whether two identifiers have the same name and hygiene context.
pub fn is_ident_equal(left: &Ident, right: &Ident) -> (r: bool)
    ensures
        r == ident_equal(*left, *right),
{
    left.name == right.name && left.ctxt == right.ctxt
}

/// Whether two patterns count as equal for the lint.
pub fn is_pat_equal(left: &Pat, right: &Pat) -> (r: bool)
    ensures
        r == pat_equal(*left, *right),
    decreases *left, *right,
{
    match (&left.node, &right.node) {
        (PatKind::Wild(lwild), PatKind::Wild(rwild)) => *lwild == *rwild,
        (PatKind::Ident(lmode, lident, lpat), PatKind::Ident(rmode, rident, rpat)) => {
            *lmode == *rmode && is_ident_equal(lident, rident) && is_opt_pat_equal(lpat, rpat)
        },
        (PatKind::Enum(lpath, lenum), PatKind::Enum(rpath, renum)) => {
            is_path_equal(lpath, rpath) && match (lenum, renum) {
                (None, None) => true,
                (Some(l), Some(r)) => is_pat_vec_equal(l, r),
                _ => false,
            }
        },
        (PatKind::Struct(lpath, lfieldpat, lbool), PatKind::Struct(rpath, rfieldpat, rbool)) => {
            *lbool == *rbool && is_path_equal(lpath, rpath) && is_spanned_fieldpat_vec_equal(
                lfieldpat,
                rfieldpat,
            )
        },
        (PatKind::Tup(ltup), PatKind::Tup(rtup)) => is_pat_vec_equal(ltup, rtup),
        (PatKind::Box(lboxed), PatKind::Box(rboxed)) => is_pat_equal(lboxed, rboxed),
        (PatKind::Region(lpat, lmut), PatKind::Region(rpat, rmut)) => {
            is_pat_equal(lpat, rpat) && *lmut == *rmut
        },
        (PatKind::Lit(llit), PatKind::Lit(rlit)) => is_exp_equal(llit, rlit),
        (PatKind::Range(lfrom, lto), PatKind::Range(rfrom, rto)) => {
            is_exp_equal(lfrom, rfrom) && is_exp_equal(lto, rto)
        },
        (PatKind::Vec(lfirst, lpat, llast), PatKind::Vec(rfirst, rpat, rlast)) => {
            is_pat_vec_equal(lfirst, rfirst) && is_opt_pat_equal(lpat, rpat) && is_pat_vec_equal(
                llast,
                rlast,
            )
        },
        _ => false,
    }
}

pub fn is_opt_pat_equal(left: &Option<Box<Pat>>, right: &Option<Box<Pat>>) -> (r: bool)
    ensures
        r == opt_pat_equal(*left, *right),
    decreases *left, *right,
{
    match (left, right) {
        (None, None) => true,
        (Some(l), Some(r)) => is_pat_equal(l, r),
        _ => false,
    }
}

pub fn is_pat_vec_equal(left: &Vec<Pat>, right: &Vec<Pat>) -> (r: bool)
    ensures
        r == pat_vec_equal(left@, right@),
    decreases left@, right@,
{
    if left.len() != right.len() {
        return false;
    }
    let mut i: usize = 0;
    while i < left.len()
        invariant
            left.len() == right.len(),
            0 <= i <= left.len(),
            forall|j: int| 0 <= j < i ==> pat_equal(#[trigger] left@[j], right@[j]),
        decreases left.len() - i,
    {
        if !is_pat_equal(&left[i], &right[i]) {
            return false;
        }
        i = i + 1;
    }
    true
}

pub fn is_fieldpat_equal(left: &FieldPat, right: &FieldPat) -> (r: bool)
    ensures
        r == fieldpat_equal(*left, *right),
    decreases *left, *right,
{
    left.is_shorthand == right.is_shorthand && is_ident_equal(&left.ident, &right.ident)
        && is_pat_equal(&left.pat, &right.pat)
}

pub fn is_spanned_fieldpat_vec_equal(left: &Vec<FieldPat>, right: &Vec<FieldPat>) -> (r: bool)
    ensures
        r == fieldpat_vec_equal(left@, right@),
    decreases left@, right@,
{
    if left.len() != right.len() {
        return false;
    }
    let mut i: usize = 0;
    while i < left.len()
        invariant
            left.len() == right.len(),
            0 <= i <= left.len(),
            forall|j: int| 0 <= j < i ==> fieldpat_equal(#[trigger] left@[j], right@[j]),
        decreases left.len() - i,
    {
        if !is_fieldpat_equal(&left[i], &right[i]) {
            return false;
        }
        i = i + 1;
    }
    true
}

/// Whether the lint compares the operands of `op`.
pub fn is_cmp_or_bit(op: &BinOp) -> (r: bool)
    ensures
        r == cmp_or_bit(*op),
{
    match op {
        BinOp::Eq | BinOp::Lt | BinOp::Le | BinOp::Gt | BinOp::Ge | BinOp::Ne | BinOp::And
        | BinOp::Or | BinOp::BitXor | BinOp::BitAnd | BinOp::BitOr => true,
        _ => false,
    }
}


// ---------------------------------------------------------------------------
// The lint pass
// ---------------------------------------------------------------------------

/// The lint pass that looks for equal operands.
#[derive(Clone, Copy, Debug)]
pub struct EqOp;

/// `EQ_OP` warns by default.
pub open spec fn is_eq_op_lint(l: Lint) -> bool {
    lint_is(l, "EQ_OP"@, Level::Warn, "warn about comparing equal expressions (e.g. x == x)"@)
}

/// The `EQ_OP` lint.
pub fn eq_op_lint() -> (l: Lint)
    ensures
        is_eq_op_lint(l),
{
    Lint {
        name: "EQ_OP",
        default_level: Level::Warn,
        desc: "warn about comparing equal expressions (e.g. x == x)",
    }
}

/// The operator of `e` when `e` is a comparison, `&&`, `||`, `^`, `&` or
/// `|` whose two operands are equal; nothing otherwise.
pub open spec fn eq_op_finding(e: Expr) -> Option<BinOp> {
    match e.node {
        ExprKind::Binary(op, l, r) => if cmp_or_bit(op) && exp_equal(*l, *r) {
            Some(op)
        } else {
            None
        },
        _ => None,
    }
}

/// The text of the diagnostic for operator `op`.
pub open spec fn eq_op_message(op: BinOp) -> Seq<char> {
    "equal expressions as operands to "@ + binop_text(op)
}

impl EqOp {
    /// The lints this pass raises: `EQ_OP` alone.
    pub fn get_lints(&self) -> (v: Vec<Lint>)
        ensures
            v.len() == 1,
            is_eq_op_lint(v[0]),
    {
        let mut v: Vec<Lint> = Vec::new();
        v.push(eq_op_lint());
        v
    }

    /// The `EQ_OP` diagnostic for `e`, if `e` has equal operands; it covers
    /// the whole of `e` and names the operator.
    pub fn check_expr(&self, e: &Expr) -> (d: Option<Diagnostic>)
        ensures
            d is Some <==> eq_op_finding(*e) is Some,
            d matches Some(d) ==> {
                &&& is_eq_op_lint(d.lint)
                &&& d.span == e.span
                &&& d.message@ == eq_op_message(eq_op_finding(*e)->0)
            },
    {
        if let ExprKind::Binary(op, left, right) = &e.node {
            if is_cmp_or_bit(op) && is_exp_equal(left, right) {
                let mut message = String::from_str("equal expressions as operands to ");
                proof {
                    reveal_strlit("equal expressions as operands to ");
                }
                message.append(binop_to_string(*op));
                return Some(Diagnostic { lint: eq_op_lint(), span: e.span, message });
            }
        }
        None
    }
}

} // verus!
