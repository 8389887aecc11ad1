//! Node identity: the field-by-field comparison that `#[derive(PartialEq)]`
//! gives the compiler's syntax nodes. It compares everything a node holds,
//! node ids and spans included, so two separate occurrences of the same text
//! are never identical. The lints use it for the parts of a path they do not
//! look into themselves: the type of a qualified path and the segments.
use vstd::prelude::*;
use crate::ast::{
    Arg, BareFnTy, Expr, ExprKind, FieldPat, FnDecl, FunctionRetTy, Lifetime, LifetimeDef, MutTy,
    Pat, PatKind, Path, PathParameters, PathSegment, PolyTraitRef, QSelf, TraitRef, Ty, TyKind,
    TyParamBound, TypeBinding,
};

verus! {

broadcast use vstd::std_specs::vec::group_vec_axioms;

// ---------------------------------------------------------------------------
// Specification
// ---------------------------------------------------------------------------

/// Two expressions are identical: same id, same span, same form, and
/// identical parts.
pub open spec fn same_expr(a: Expr, b: Expr) -> bool
    decreases a,
{
    &&& a.id == b.id
    &&& a.span == b.span
    &&& match (a.node, b.node) {
        (ExprKind::Box(p, x), ExprKind::Box(q, y)) => same_opt_expr(p, q) && same_expr(*x, *y),
        (ExprKind::Vec(x), ExprKind::Vec(y)) => same_exprs(x@, y@),
        (ExprKind::Call(f, x), ExprKind::Call(g, y)) => same_expr(*f, *g) && same_exprs(x@, y@),
        (ExprKind::MethodCall(i, t, x), ExprKind::MethodCall(j, u, y)) => {
            i == j && same_tys(t@, u@) && same_exprs(x@, y@)
        },
        (ExprKind::Tup(x), ExprKind::Tup(y)) => same_exprs(x@, y@),
        (ExprKind::Binary(o, l, r), ExprKind::Binary(p, m, s)) => {
            o == p && same_expr(*l, *m) && same_expr(*r, *s)
        },
        (ExprKind::Unary(o, x), ExprKind::Unary(p, y)) => o == p && same_expr(*x, *y),
        (ExprKind::Lit(l), ExprKind::Lit(m)) => l == m,
        (ExprKind::Cast(x, t), ExprKind::Cast(y, u)) => same_expr(*x, *y) && same_ty(*t, *u),
        (ExprKind::Field(x, i), ExprKind::Field(y, j)) => same_expr(*x, *y) && i == j,
        (ExprKind::AddrOf(m, x), ExprKind::AddrOf(n, y)) => m == n && same_expr(*x, *y),
        (ExprKind::Index(x, i), ExprKind::Index(y, j)) => same_expr(*x, *y) && same_expr(*i, *j),
        (ExprKind::Path(q, p), ExprKind::Path(r, s)) => same_opt_qself(q, r) && same_path(p, s),
        (ExprKind::Paren(x), ExprKind::Paren(y)) => same_expr(*x, *y),
        (ExprKind::Mac(i), ExprKind::Mac(j)) => i == j,
        (ExprKind::Other, ExprKind::Other) => true,
        _ => false,
    }
}

pub open spec fn same_exprs(a: Seq<Expr>, b: Seq<Expr>) -> bool
    decreases a,
{
    a.len() == b.len() && forall|i: int| 0 <= i < a.len() ==> same_expr(#[trigger] a[i], b[i])
}

pub open spec fn same_opt_expr(a: Option<Box<Expr>>, b: Option<Box<Expr>>) -> bool
    decreases a,
{
    match (a, b) {
        (None, None) => true,
        (Some(x), Some(y)) => same_expr(*x, *y),
        _ => false,
    }
}

/// Two types are identical: same id, same span, same form, identical parts.
pub open spec fn same_ty(a: Ty, b: Ty) -> bool
    decreases a,
{
    a.id == b.id && a.span == b.span && same_ty_kind(a.node, b.node)
}

/// The forms of two types are identical (their own ids and spans aside).
pub open spec fn same_ty_kind(a: TyKind, b: TyKind) -> bool
    decreases a,
{
    match (a, b) {
        (TyKind::Vec(x), TyKind::Vec(y)) => same_ty(*x, *y),
        (TyKind::FixedLengthVec(x, e), TyKind::FixedLengthVec(y, f)) => {
            same_ty(*x, *y) && same_expr(*e, *f)
        },
        (TyKind::Ptr(m), TyKind::Ptr(n)) => same_mut_ty(m, n),
        (TyKind::Rptr(l, m), TyKind::Rptr(k, n)) => l == k && same_mut_ty(m, n),
        (TyKind::BareFn(f), TyKind::BareFn(g)) => same_bare_fn(*f, *g),
        (TyKind::Tup(x), TyKind::Tup(y)) => same_tys(x@, y@),
        (TyKind::Path(q, p), TyKind::Path(r, s)) => same_opt_qself(q, r) && same_path(p, s),
        (TyKind::ObjectSum(t, b), TyKind::ObjectSum(u, c)) => {
            same_ty(*t, *u) && same_bounds(b@, c@)
        },
        (TyKind::PolyTraitRef(b), TyKind::PolyTraitRef(c)) => same_bounds(b@, c@),
        (TyKind::Paren(x), TyKind::Paren(y)) => same_ty(*x, *y),
        (TyKind::Typeof(e), TyKind::Typeof(f)) => same_expr(*e, *f),
        (TyKind::Infer, TyKind::Infer) => true,
        (TyKind::Mac(i), TyKind::Mac(j)) => i == j,
        _ => false,
    }
}

pub open spec fn same_tys(a: Seq<Ty>, b: Seq<Ty>) -> bool
    decreases a,
{
    a.len() == b.len() && forall|i: int| 0 <= i < a.len() ==> same_ty(#[trigger] a[i], b[i])
}

pub open spec fn same_opt_ty(a: Option<Box<Ty>>, b: Option<Box<Ty>>) -> bool
    decreases a,
{
    match (a, b) {
        (None, None) => true,
        (Some(x), Some(y)) => same_ty(*x, *y),
        _ => false,
    }
}

pub open spec fn same_mut_ty(a: MutTy, b: MutTy) -> bool
    decreases a,
{
    same_ty(*a.ty, *b.ty) && a.mutbl == b.mutbl
}

pub open spec fn same_bare_fn(a: BareFnTy, b: BareFnTy) -> bool
    decreases a,
{
    &&& a.unsafety == b.unsafety
    &&& a.abi == b.abi
    &&& same_lifetime_defs(a.lifetimes@, b.lifetimes@)
    &&& same_fn_decl(*a.decl, *b.decl)
}

pub open spec fn same_lifetime_def(a: LifetimeDef, b: LifetimeDef) -> bool {
    a.lifetime == b.lifetime && a.bounds@ == b.bounds@
}

pub open spec fn same_lifetime_defs(a: Seq<LifetimeDef>, b: Seq<LifetimeDef>) -> bool {
    a.len() == b.len() && forall|i: int|
        0 <= i < a.len() ==> same_lifetime_def(#[trigger] a[i], b[i])
}

pub open spec fn same_fn_decl(a: FnDecl, b: FnDecl) -> bool
    decreases a,
{
    same_args(a.inputs@, b.inputs@) && same_ret(a.output, b.output) && a.variadic == b.variadic
}

pub open spec fn same_arg(a: Arg, b: Arg) -> bool
    decreases a,
{
    same_ty(*a.ty, *b.ty) && same_pat(*a.pat, *b.pat) && a.id == b.id
}

pub open spec fn same_args(a: Seq<Arg>, b: Seq<Arg>) -> bool
    decreases a,
{
    a.len() == b.len() && forall|i: int| 0 <= i < a.len() ==> same_arg(#[trigger] a[i], b[i])
}

pub open spec fn same_ret(a: FunctionRetTy, b: FunctionRetTy) -> bool
    decreases a,
{
    match (a, b) {
        (FunctionRetTy::NoReturn(s), FunctionRetTy::NoReturn(t)) => s == t,
        (FunctionRetTy::DefaultReturn(s), FunctionRetTy::DefaultReturn(t)) => s == t,
        (FunctionRetTy::Return(x), FunctionRetTy::Return(y)) => same_ty(*x, *y),
        _ => false,
    }
}

pub open spec fn same_bound(a: TyParamBound, b: TyParamBound) -> bool
    decreases a,
{
    match (a, b) {
        (TyParamBound::TraitTyParamBound(p, m), TyParamBound::TraitTyParamBound(q, n)) => {
            same_poly_trait_ref(p, q) && m == n
        },
        (TyParamBound::RegionTyParamBound(l), TyParamBound::RegionTyParamBound(k)) => l == k,
        _ => false,
    }
}

pub open spec fn same_bounds(a: Seq<TyParamBound>, b: Seq<TyParamBound>) -> bool
    decreases a,
{
    a.len() == b.len() && forall|i: int| 0 <= i < a.len() ==> same_bound(#[trigger] a[i], b[i])
}

pub open spec fn same_poly_trait_ref(a: PolyTraitRef, b: PolyTraitRef) -> bool
    decreases a,
{
    &&& same_lifetime_defs(a.bound_lifetimes@, b.bound_lifetimes@)
    &&& same_trait_ref(a.trait_ref, b.trait_ref)
    &&& a.span == b.span
}

pub open spec fn same_trait_ref(a: TraitRef, b: TraitRef) -> bool
    decreases a,
{
    same_path(a.path, b.path) && a.ref_id == b.ref_id
}

/// Two paths are identical: same span, same `::` prefix, identical segments.
pub open spec fn same_path(a: Path, b: Path) -> bool
    decreases a,
{
    a.span == b.span && a.global == b.global && same_segments(a.segments@, b.segments@)
}

pub open spec fn same_segment(a: PathSegment, b: PathSegment) -> bool
    decreases a,
{
    a.identifier == b.identifier && same_params(a.parameters, b.parameters)
}

pub open spec fn same_segments(a: Seq<PathSegment>, b: Seq<PathSegment>) -> bool
    decreases a,
{
    a.len() == b.len() && forall|i: int|
        0 <= i < a.len() ==> same_segment(#[trigger] a[i], b[i])
}

pub open spec fn same_params(a: PathParameters, b: PathParameters) -> bool
    decreases a,
{
    match (a, b) {
        (PathParameters::AngleBracketed(l, t, x), PathParameters::AngleBracketed(m, u, y)) => {
            l@ == m@ && same_tys(t@, u@) && same_bindings(x@, y@)
        },
        (PathParameters::Parenthesized(s, i, o), PathParameters::Parenthesized(t, j, p)) => {
            s == t && same_tys(i@, j@) && same_opt_ty(o, p)
        },
        _ => false,
    }
}

pub open spec fn same_binding(a: TypeBinding, b: TypeBinding) -> bool
    decreases a,
{
    a.id == b.id && a.ident == b.ident && same_ty(*a.ty, *b.ty) && a.span == b.span
}

pub open spec fn same_bindings(a: Seq<TypeBinding>, b: Seq<TypeBinding>) -> bool
    decreases a,
{
    a.len() == b.len() && forall|i: int|
        0 <= i < a.len() ==> same_binding(#[trigger] a[i], b[i])
}

pub open spec fn same_qself(a: QSelf, b: QSelf) -> bool
    decreases a,
{
    same_ty(*a.ty, *b.ty) && a.position == b.position
}

pub open spec fn same_opt_qself(a: Option<QSelf>, b: Option<QSelf>) -> bool
    decreases a,
{
    match (a, b) {
        (None, None) => true,
        (Some(x), Some(y)) => same_qself(x, y),
        _ => false,
    }
}

/// Two patterns are identical: same id, same span, same form, identical
/// parts.
pub open spec fn same_pat(a: Pat, b: Pat) -> bool
    decreases a,
{
    &&& a.id == b.id
    &&& a.span == b.span
    &&& match (a.node, b.node) {
        (PatKind::Wild(k), PatKind::Wild(l)) => k == l,
        (PatKind::Ident(m, i, s), PatKind::Ident(n, j, t)) => {
            m == n && i == j && same_opt_pat(s, t)
        },
        (PatKind::Enum(p, o), PatKind::Enum(q, r)) => same_path(p, q) && match (o, r) {
            (None, None) => true,
            (Some(x), Some(y)) => same_pats(x@, y@),
            _ => false,
        },
        (PatKind::Struct(p, f, d), PatKind::Struct(q, g, e)) => {
            same_path(p, q) && same_field_pats(f@, g@) && d == e
        },
        (PatKind::Tup(x), PatKind::Tup(y)) => same_pats(x@, y@),
        (PatKind::Box(x), PatKind::Box(y)) => same_pat(*x, *y),
        (PatKind::Region(x, m), PatKind::Region(y, n)) => same_pat(*x, *y) && m == n,
        (PatKind::Lit(e), PatKind::Lit(f)) => same_expr(*e, *f),
        (PatKind::Range(e, f), PatKind::Range(g, h)) => same_expr(*e, *g) && same_expr(*f, *h),
        (PatKind::Vec(x, m, z), PatKind::Vec(y, n, w)) => {
            same_pats(x@, y@) && same_opt_pat(m, n) && same_pats(z@, w@)
        },
        (PatKind::QPath(q, p), PatKind::QPath(r, s)) => same_qself(q, r) && same_path(p, s),
        (PatKind::Mac(i), PatKind::Mac(j)) => i == j,
        _ => false,
    }
}

pub open spec fn same_pats(a: Seq<Pat>, b: Seq<Pat>) -> bool
    decreases a,
{
    a.len() == b.len() && forall|i: int| 0 <= i < a.len() ==> same_pat(#[trigger] a[i], b[i])
}

pub open spec fn same_opt_pat(a: Option<Box<Pat>>, b: Option<Box<Pat>>) -> bool
    decreases a,
{
    match (a, b) {
        (None, None) => true,
        (Some(x), Some(y)) => same_pat(*x, *y),
        _ => false,
    }
}

pub open spec fn same_field_pat(a: FieldPat, b: FieldPat) -> bool
    decreases a,
{
    a.ident == b.ident && same_pat(*a.pat, *b.pat) && a.is_shorthand == b.is_shorthand
}

pub open spec fn same_field_pats(a: Seq<FieldPat>, b: Seq<FieldPat>) -> bool
    decreases a,
{
    a.len() == b.len() && forall|i: int|
        0 <= i < a.len() ==> same_field_pat(#[trigger] a[i], b[i])
}


// ---------------------------------------------------------------------------
// Computation
// ---------------------------------------------------------------------------

/// Whether two expressions are identical nodes.
pub fn check_same_expr(a: &Expr, b: &Expr) -> (r: bool)
    ensures
        r == same_expr(*a, *b),
    decreases *a,
{
    if a.id != b.id || a.span != b.span {
        return false;
    }
    match (&a.node, &b.node) {
        (ExprKind::Box(p, x), ExprKind::Box(q, y)) => check_same_opt_expr(p, q) && check_same_expr(x, y),
        (ExprKind::Vec(x), ExprKind::Vec(y)) => check_same_exprs(x, y),
        (ExprKind::Call(f, x), ExprKind::Call(g, y)) => check_same_expr(f, g) && check_same_exprs(x, y),
        (ExprKind::MethodCall(i, t, x), ExprKind::MethodCall(j, u, y)) => {
            *i == *j && check_same_tys(t, u) && check_same_exprs(x, y)
        },
        (ExprKind::Tup(x), ExprKind::Tup(y)) => check_same_exprs(x, y),
        (ExprKind::Binary(o, l, r), ExprKind::Binary(p, m, s)) => {
            *o == *p && check_same_expr(l, m) && check_same_expr(r, s)
        },
        (ExprKind::Unary(o, x), ExprKind::Unary(p, y)) => *o == *p && check_same_expr(x, y),
        (ExprKind::Lit(l), ExprKind::Lit(m)) => *l == *m,
        (ExprKind::Cast(x, t), ExprKind::Cast(y, u)) => check_same_expr(x, y) && check_same_ty(t, u),
        (ExprKind::Field(x, i), ExprKind::Field(y, j)) => check_same_expr(x, y) && *i == *j,
        (ExprKind::AddrOf(m, x), ExprKind::AddrOf(n, y)) => *m == *n && check_same_expr(x, y),
        (ExprKind::Index(x, i), ExprKind::Index(y, j)) => check_same_expr(x, y) && check_same_expr(i, j),
        (ExprKind::Path(q, p), ExprKind::Path(r, s)) => check_same_opt_qself(q, r) && check_same_path(p, s),
        (ExprKind::Paren(x), ExprKind::Paren(y)) => check_same_expr(x, y),
        (ExprKind::Mac(i), ExprKind::Mac(j)) => *i == *j,
        (ExprKind::Other, ExprKind::Other) => true,
        _ => false,
    }
}

pub fn check_same_opt_expr(a: &Option<Box<Expr>>, b: &Option<Box<Expr>>) -> (r: bool)
    ensures
        r == same_opt_expr(*a, *b),
    decreases *a,
{
    match (a, b) {
        (None, None) => true,
        (Some(x), Some(y)) => check_same_expr(x, y),
        _ => false,
    }
}

/// Whether two types are identical nodes.
pub fn check_same_ty(a: &Ty, b: &Ty) -> (r: bool)
    ensures
        r == same_ty(*a, *b),
    decreases *a,
{
    a.id == b.id && a.span == b.span && check_same_ty_kind(&a.node, &b.node)
}

/// Whether the forms of two types are identical (their own ids and spans aside).
pub fn check_same_ty_kind(a: &TyKind, b: &TyKind) -> (r: bool)
    ensures
        r == same_ty_kind(*a, *b),
    decreases *a,
{
    match (a, b) {
        (TyKind::Vec(x), TyKind::Vec(y)) => check_same_ty(x, y),
        (TyKind::FixedLengthVec(x, e), TyKind::FixedLengthVec(y, f)) => {
            check_same_ty(x, y) && check_same_expr(e, f)
        },
        (TyKind::Ptr(m), TyKind::Ptr(n)) => check_same_mut_ty(m, n),
        (TyKind::Rptr(l, m), TyKind::Rptr(k, n)) => *l == *k && check_same_mut_ty(m, n),
        (TyKind::BareFn(f), TyKind::BareFn(g)) => check_same_bare_fn(f, g),
        (TyKind::Tup(x), TyKind::Tup(y)) => check_same_tys(x, y),
        (TyKind::Path(q, p), TyKind::Path(r, s)) => check_same_opt_qself(q, r) && check_same_path(p, s),
        (TyKind::ObjectSum(t, b), TyKind::ObjectSum(u, c)) => {
            check_same_ty(t, u) && check_same_bounds(b, c)
        },
        (TyKind::PolyTraitRef(b), TyKind::PolyTraitRef(c)) => check_same_bounds(b, c),
        (TyKind::Paren(x), TyKind::Paren(y)) => check_same_ty(x, y),
        (TyKind::Typeof(e), TyKind::Typeof(f)) => check_same_expr(e, f),
        (TyKind::Infer, TyKind::Infer) => true,
        (TyKind::Mac(i), TyKind::Mac(j)) => *i == *j,
        _ => false,
    }
}

pub fn check_same_opt_ty(a: &Option<Box<Ty>>, b: &Option<Box<Ty>>) -> (r: bool)
    ensures
        r == same_opt_ty(*a, *b),
    decreases *a,
{
    match (a, b) {
        (None, None) => true,
        (Some(x), Some(y)) => check_same_ty(x, y),
        _ => false,
    }
}

pub fn check_same_mut_ty(a: &MutTy, b: &MutTy) -> (r: bool)
    ensures
        r == same_mut_ty(*a, *b),
    decreases *a,
{
    check_same_ty(&a.ty, &b.ty) && a.mutbl == b.mutbl
}

pub fn check_same_bare_fn(a: &BareFnTy, b: &BareFnTy) -> (r: bool)
    ensures
        r == same_bare_fn(*a, *b),
    decreases *a,
{
    a.unsafety == b.unsafety && a.abi == b.abi && check_same_lifetime_defs(&a.lifetimes, &b.lifetimes)
        && check_same_fn_decl(&a.decl, &b.decl)
}

pub fn check_same_lifetimes(a: &Vec<Lifetime>, b: &Vec<Lifetime>) -> (r: bool)
    ensures
        r == (a@ == b@),
{
    if a.len() != b.len() {
        return false;
    }
    let mut i: usize = 0;
    while i < a.len()
        invariant
            a.len() == b.len(),
            0 <= i <= a.len(),
            forall|j: int| 0 <= j < i ==> #[trigger] a@[j] == b@[j],
        decreases a.len() - i,
    {
        if a[i] != b[i] {
            return false;
        }
        i = i + 1;
    }
    assert(a@ =~= b@);
    true
}

pub fn check_same_lifetime_def(a: &LifetimeDef, b: &LifetimeDef) -> (r: bool)
    ensures
        r == same_lifetime_def(*a, *b),
{
    a.lifetime == b.lifetime && check_same_lifetimes(&a.bounds, &b.bounds)
}

pub fn check_same_fn_decl(a: &FnDecl, b: &FnDecl) -> (r: bool)
    ensures
        r == same_fn_decl(*a, *b),
    decreases *a,
{
    check_same_args(&a.inputs, &b.inputs) && check_same_ret(&a.output, &b.output) && a.variadic
        == b.variadic
}

pub fn check_same_arg(a: &Arg, b: &Arg) -> (r: bool)
    ensures
        r == same_arg(*a, *b),
    decreases *a,
{
    check_same_ty(&a.ty, &b.ty) && check_same_pat(&a.pat, &b.pat) && a.id == b.id
}

pub fn check_same_ret(a: &FunctionRetTy, b: &FunctionRetTy) -> (r: bool)
    ensures
        r == same_ret(*a, *b),
    decreases *a,
{
    match (a, b) {
        (FunctionRetTy::NoReturn(s), FunctionRetTy::NoReturn(t)) => *s == *t,
        (FunctionRetTy::DefaultReturn(s), FunctionRetTy::DefaultReturn(t)) => *s == *t,
        (FunctionRetTy::Return(x), FunctionRetTy::Return(y)) => check_same_ty(x, y),
        _ => false,
    }
}

pub fn check_same_bound(a: &TyParamBound, b: &TyParamBound) -> (r: bool)
    ensures
        r == same_bound(*a, *b),
    decreases *a,
{
    match (a, b) {
        (TyParamBound::TraitTyParamBound(p, m), TyParamBound::TraitTyParamBound(q, n)) => {
            check_same_poly_trait_ref(p, q) && *m == *n
        },
        (TyParamBound::RegionTyParamBound(l), TyParamBound::RegionTyParamBound(k)) => *l == *k,
        _ => false,
    }
}

pub fn check_same_poly_trait_ref(a: &PolyTraitRef, b: &PolyTraitRef) -> (r: bool)
    ensures
        r == same_poly_trait_ref(*a, *b),
    decreases *a,
{
    check_same_lifetime_defs(&a.bound_lifetimes, &b.bound_lifetimes) && check_same_trait_ref(
        &a.trait_ref,
        &b.trait_ref,
    ) && a.span == b.span
}

pub fn check_same_trait_ref(a: &TraitRef, b: &TraitRef) -> (r: bool)
    ensures
        r == same_trait_ref(*a, *b),
    decreases *a,
{
    check_same_path(&a.path, &b.path) && a.ref_id == b.ref_id
}

/// Whether two paths are identical nodes.
pub fn check_same_path(a: &Path, b: &Path) -> (r: bool)
    ensures
        r == same_path(*a, *b),
    decreases *a,
{
    a.span == b.span && a.global == b.global && check_same_segments(&a.segments, &b.segments)
}

pub fn check_same_segment(a: &PathSegment, b: &PathSegment) -> (r: bool)
    ensures
        r == same_segment(*a, *b),
    decreases *a,
{
    a.identifier == b.identifier && check_same_params(&a.parameters, &b.parameters)
}

pub fn check_same_params(a: &PathParameters, b: &PathParameters) -> (r: bool)
    ensures
        r == same_params(*a, *b),
    decreases *a,
{
    match (a, b) {
        (PathParameters::AngleBracketed(l, t, x), PathParameters::AngleBracketed(m, u, y)) => {
            check_same_lifetimes(l, m) && check_same_tys(t, u) && check_same_bindings(x, y)
        },
        (PathParameters::Parenthesized(s, i, o), PathParameters::Parenthesized(t, j, p)) => {
            *s == *t && check_same_tys(i, j) && check_same_opt_ty(o, p)
        },
        _ => false,
    }
}

pub fn check_same_binding(a: &TypeBinding, b: &TypeBinding) -> (r: bool)
    ensures
        r == same_binding(*a, *b),
    decreases *a,
{
    a.id == b.id && a.ident == b.ident && check_same_ty(&a.ty, &b.ty) && a.span == b.span
}

pub fn check_same_qself(a: &QSelf, b: &QSelf) -> (r: bool)
    ensures
        r == same_qself(*a, *b),
    decreases *a,
{
    check_same_ty(&a.ty, &b.ty) && a.position == b.position
}

pub fn check_same_opt_qself(a: &Option<QSelf>, b: &Option<QSelf>) -> (r: bool)
    ensures
        r == same_opt_qself(*a, *b),
    decreases *a,
{
    match (a, b) {
        (None, None) => true,
        (Some(x), Some(y)) => check_same_qself(x, y),
        _ => false,
    }
}

/// Whether two patterns are identical nodes.
pub fn check_same_pat(a: &Pat, b: &Pat) -> (r: bool)
    ensures
        r == same_pat(*a, *b),
    decreases *a,
{
    if a.id != b.id || a.span != b.span {
        return false;
    }
    match (&a.node, &b.node) {
        (PatKind::Wild(k), PatKind::Wild(l)) => *k == *l,
        (PatKind::Ident(m, i, s), PatKind::Ident(n, j, t)) => {
            *m == *n && *i == *j && check_same_opt_pat(s, t)
        },
        (PatKind::Enum(p, o), PatKind::Enum(q, r)) => check_same_path(p, q) && match (o, r) {
            (None, None) => true,
            (Some(x), Some(y)) => check_same_pats(x, y),
            _ => false,
        },
        (PatKind::Struct(p, f, d), PatKind::Struct(q, g, e)) => {
            check_same_path(p, q) && check_same_field_pats(f, g) && *d == *e
        },
        (PatKind::Tup(x), PatKind::Tup(y)) => check_same_pats(x, y),
        (PatKind::Box(x), PatKind::Box(y)) => check_same_pat(x, y),
        (PatKind::Region(x, m), PatKind::Region(y, n)) => check_same_pat(x, y) && *m == *n,
        (PatKind::Lit(e), PatKind::Lit(f)) => check_same_expr(e, f),
        (PatKind::Range(e, f), PatKind::Range(g, h)) => check_same_expr(e, g) && check_same_expr(f, h),
        (PatKind::Vec(x, m, z), PatKind::Vec(y, n, w)) => {
            check_same_pats(x, y) && check_same_opt_pat(m, n) && check_same_pats(z, w)
        },
        (PatKind::QPath(q, p), PatKind::QPath(r, s)) => check_same_qself(q, r) && check_same_path(p, s),
        (PatKind::Mac(i), PatKind::Mac(j)) => *i == *j,
        _ => false,
    }
}

pub fn check_same_opt_pat(a: &Option<Box<Pat>>, b: &Option<Box<Pat>>) -> (r: bool)
    ensures
        r == same_opt_pat(*a, *b),
    decreases *a,
{
    match (a, b) {
        (None, None) => true,
        (Some(x), Some(y)) => check_same_pat(x, y),
        _ => false,
    }
}

pub fn check_same_field_pat(a: &FieldPat, b: &FieldPat) -> (r: bool)
    ensures
        r == same_field_pat(*a, *b),
    decreases *a,
{
    a.ident == b.ident && check_same_pat(&a.pat, &b.pat) && a.is_shorthand == b.is_shorthand
}

pub fn check_same_exprs(a: &Vec<Expr>, b: &Vec<Expr>) -> (r: bool)
    ensures
        r == same_exprs(a@, b@),
    decreases a@,
{
    if a.len() != b.len() {
        return false;
    }
    let mut i: usize = 0;
    while i < a.len()
        invariant
            a.len() == b.len(),
            0 <= i <= a.len(),
            forall|j: int| 0 <= j < i ==> same_expr(#[trigger] a@[j], b@[j]),
        decreases a.len() - i,
    {
        if !check_same_expr(&a[i], &b[i]) {
            return false;
        }
        i = i + 1;
    }
    true
}

pub fn check_same_tys(a: &Vec<Ty>, b: &Vec<Ty>) -> (r: bool)
    ensures
        r == same_tys(a@, b@),
    decreases a@,
{
    if a.len() != b.len() {
        return false;
    }
    let mut i: usize = 0;
    while i < a.len()
        invariant
            a.len() == b.len(),
            0 <= i <= a.len(),
            forall|j: int| 0 <= j < i ==> same_ty(#[trigger] a@[j], b@[j]),
        decreases a.len() - i,
    {
        if !check_same_ty(&a[i], &b[i]) {
            return false;
        }
        i = i + 1;
    }
    true
}

pub fn check_same_args(a: &Vec<Arg>, b: &Vec<Arg>) -> (r: bool)
    ensures
        r == same_args(a@, b@),
    decreases a@,
{
    if a.len() != b.len() {
        return false;
    }
    let mut i: usize = 0;
    while i < a.len()
        invariant
            a.len() == b.len(),
            0 <= i <= a.len(),
            forall|j: int| 0 <= j < i ==> same_arg(#[trigger] a@[j], b@[j]),
        decreases a.len() - i,
    {
        if !check_same_arg(&a[i], &b[i]) {
            return false;
        }
        i = i + 1;
    }
    true
}

pub fn check_same_bounds(a: &Vec<TyParamBound>, b: &Vec<TyParamBound>) -> (r: bool)
    ensures
        r == same_bounds(a@, b@),
    decreases a@,
{
    if a.len() != b.len() {
        return false;
    }
    let mut i: usize = 0;
    while i < a.len()
        invariant
            a.len() == b.len(),
            0 <= i <= a.len(),
            forall|j: int| 0 <= j < i ==> same_bound(#[trigger] a@[j], b@[j]),
        decreases a.len() - i,
    {
        if !check_same_bound(&a[i], &b[i]) {
            return false;
        }
        i = i + 1;
    }
    true
}

pub fn check_same_segments(a: &Vec<PathSegment>, b: &Vec<PathSegment>) -> (r: bool)
    ensures
        r == same_segments(a@, b@),
    decreases a@,
{
    if a.len() != b.len() {
        return false;
    }
    let mut i: usize = 0;
    while i < a.len()
        invariant
            a.len() == b.len(),
            0 <= i <= a.len(),
            forall|j: int| 0 <= j < i ==> same_segment(#[trigger] a@[j], b@[j]),
        decreases a.len() - i,
    {
        if !check_same_segment(&a[i], &b[i]) {
            return false;
        }
        i = i + 1;
    }
    true
}

pub fn check_same_bindings(a: &Vec<TypeBinding>, b: &Vec<TypeBinding>) -> (r: bool)
    ensures
        r == same_bindings(a@, b@),
    decreases a@,
{
    if a.len() != b.len() {
        return false;
    }
    let mut i: usize = 0;
    while i < a.len()
        invariant
            a.len() == b.len(),
            0 <= i <= a.len(),
            forall|j: int| 0 <= j < i ==> same_binding(#[trigger] a@[j], b@[j]),
        decreases a.len() - i,
    {
        if !check_same_binding(&a[i], &b[i]) {
            return false;
        }
        i = i + 1;
    }
    true
}

pub fn check_same_pats(a: &Vec<Pat>, b: &Vec<Pat>) -> (r: bool)
    ensures
        r == same_pats(a@, b@),
    decreases a@,
{
    if a.len() != b.len() {
        return false;
    }
    let mut i: usize = 0;
    while i < a.len()
        invariant
            a.len() == b.len(),
            0 <= i <= a.len(),
            forall|j: int| 0 <= j < i ==> same_pat(#[trigger] a@[j], b@[j]),
        decreases a.len() - i,
    {
        if !check_same_pat(&a[i], &b[i]) {
            return false;
        }
        i = i + 1;
    }
    true
}

pub fn check_same_field_pats(a: &Vec<FieldPat>, b: &Vec<FieldPat>) -> (r: bool)
    ensures
        r == same_field_pats(a@, b@),
    decreases a@,
{
    if a.len() != b.len() {
        return false;
    }
    let mut i: usize = 0;
    while i < a.len()
        invariant
            a.len() == b.len(),
            0 <= i <= a.len(),
            forall|j: int| 0 <= j < i ==> same_field_pat(#[trigger] a@[j], b@[j]),
        decreases a.len() - i,
    {
        if !check_same_field_pat(&a[i], &b[i]) {
            return false;
        }
        i = i + 1;
    }
    true
}

pub fn check_same_lifetime_defs(a: &Vec<LifetimeDef>, b: &Vec<LifetimeDef>) -> (r: bool)
    ensures
        r == same_lifetime_defs(a@, b@),
{
    if a.len() != b.len() {
        return false;
    }
    let mut i: usize = 0;
    while i < a.len()
        invariant
            a.len() == b.len(),
            0 <= i <= a.len(),
            forall|j: int| 0 <= j < i ==> same_lifetime_def(#[trigger] a@[j], b@[j]),
        decreases a.len() - i,
    {
        if !check_same_lifetime_def(&a[i], &b[i]) {
            return false;
        }
        i = i + 1;
    }
    true
}


// ---------------------------------------------------------------------------
// Node identity is reflexive, symmetric and transitive
// ---------------------------------------------------------------------------

/// Every expression is identical to itself.
pub proof fn lemma_same_expr_refl(a: Expr)
    ensures
        same_expr(a, a),
    decreases a,
{
    match a.node {
        ExprKind::Box(p, x) => {
            lemma_same_opt_expr_refl(p);
            lemma_same_expr_refl(*x);
        },
        ExprKind::Vec(x) => lemma_same_exprs_refl(x@),
        ExprKind::Call(f, x) => {
            lemma_same_expr_refl(*f);
            lemma_same_exprs_refl(x@);
        },
        ExprKind::MethodCall(_, t, x) => {
            lemma_same_tys_refl(t@);
            lemma_same_exprs_refl(x@);
        },
        ExprKind::Tup(x) => lemma_same_exprs_refl(x@),
        ExprKind::Binary(_, l, r) => {
            lemma_same_expr_refl(*l);
            lemma_same_expr_refl(*r);
        },
        ExprKind::Unary(_, x) => lemma_same_expr_refl(*x),
        ExprKind::Cast(x, t) => {
            lemma_same_expr_refl(*x);
            lemma_same_ty_refl(*t);
        },
        ExprKind::Field(x, _) => lemma_same_expr_refl(*x),
        ExprKind::AddrOf(_, x) => lemma_same_expr_refl(*x),
        ExprKind::Index(x, i) => {
            lemma_same_expr_refl(*x);
            lemma_same_expr_refl(*i);
        },
        ExprKind::Path(q, p) => {
            lemma_same_opt_qself_refl(q);
            lemma_same_path_refl(p);
        },
        ExprKind::Paren(x) => lemma_same_expr_refl(*x),
        _ => {},
    }
}

pub proof fn lemma_same_exprs_refl(a: Seq<Expr>)
    ensures
        same_exprs(a, a),
    decreases a,
{
    assert forall|i: int| 0 <= i < a.len() implies same_expr(#[trigger] a[i], a[i]) by {
        lemma_same_expr_refl(a[i]);
    }
}

pub proof fn lemma_same_opt_expr_refl(a: Option<Box<Expr>>)
    ensures
        same_opt_expr(a, a),
    decreases a,
{
    if let Some(x) = a {
        lemma_same_expr_refl(*x);
    }
}

/// Every type is identical to itself.
pub proof fn lemma_same_ty_refl(a: Ty)
    ensures
        same_ty(a, a),
    decreases a,
{
    lemma_same_ty_kind_refl(a.node);
}

pub proof fn lemma_same_ty_kind_refl(a: TyKind)
    ensures
        same_ty_kind(a, a),
    decreases a,
{
    match a {
        TyKind::Vec(x) => lemma_same_ty_refl(*x),
        TyKind::FixedLengthVec(x, e) => {
            lemma_same_ty_refl(*x);
            lemma_same_expr_refl(*e);
        },
        TyKind::Ptr(m) => lemma_same_mut_ty_refl(m),
        TyKind::Rptr(_, m) => lemma_same_mut_ty_refl(m),
        TyKind::BareFn(f) => lemma_same_bare_fn_refl(*f),
        TyKind::Tup(x) => lemma_same_tys_refl(x@),
        TyKind::Path(q, p) => {
            lemma_same_opt_qself_refl(q);
            lemma_same_path_refl(p);
        },
        TyKind::ObjectSum(t, b) => {
            lemma_same_ty_refl(*t);
            lemma_same_bounds_refl(b@);
        },
        TyKind::PolyTraitRef(b) => lemma_same_bounds_refl(b@),
        TyKind::Paren(x) => lemma_same_ty_refl(*x),
        TyKind::Typeof(e) => lemma_same_expr_refl(*e),
        _ => {},
    }
}

pub proof fn lemma_same_tys_refl(a: Seq<Ty>)
    ensures
        same_tys(a, a),
    decreases a,
{
    assert forall|i: int| 0 <= i < a.len() implies same_ty(#[trigger] a[i], a[i]) by {
        lemma_same_ty_refl(a[i]);
    }
}

pub proof fn lemma_same_opt_ty_refl(a: Option<Box<Ty>>)
    ensures
        same_opt_ty(a, a),
    decreases a,
{
    if let Some(x) = a {
        lemma_same_ty_refl(*x);
    }
}

pub proof fn lemma_same_mut_ty_refl(a: MutTy)
    ensures
        same_mut_ty(a, a),
    decreases a,
{
    lemma_same_ty_refl(*a.ty);
}

pub proof fn lemma_same_bare_fn_refl(a: BareFnTy)
    ensures
        same_bare_fn(a, a),
    decreases a,
{
    lemma_same_lifetime_defs_refl(a.lifetimes@);
    lemma_same_fn_decl_refl(*a.decl);
}

pub proof fn lemma_same_lifetime_defs_refl(a: Seq<LifetimeDef>)
    ensures
        same_lifetime_defs(a, a),
{
}

pub proof fn lemma_same_fn_decl_refl(a: FnDecl)
    ensures
        same_fn_decl(a, a),
    decreases a,
{
    lemma_same_args_refl(a.inputs@);
    lemma_same_ret_refl(a.output);
}

pub proof fn lemma_same_args_refl(a: Seq<Arg>)
    ensures
        same_args(a, a),
    decreases a,
{
    assert forall|i: int| 0 <= i < a.len() implies same_arg(#[trigger] a[i], a[i]) by {
        lemma_same_ty_refl(*a[i].ty);
        lemma_same_pat_refl(*a[i].pat);
    }
}

pub proof fn lemma_same_ret_refl(a: FunctionRetTy)
    ensures
        same_ret(a, a),
    decreases a,
{
    if let FunctionRetTy::Return(x) = a {
        lemma_same_ty_refl(*x);
    }
}

pub proof fn lemma_same_bounds_refl(a: Seq<TyParamBound>)
    ensures
        same_bounds(a, a),
    decreases a,
{
    assert forall|i: int| 0 <= i < a.len() implies same_bound(#[trigger] a[i], a[i]) by {
        if let TyParamBound::TraitTyParamBound(p, _) = a[i] {
            lemma_same_path_refl(p.trait_ref.path);
        }
    }
}

/// Every path is identical to itself.
pub proof fn lemma_same_path_refl(a: Path)
    ensures
        same_path(a, a),
    decreases a,
{
    lemma_same_segments_refl(a.segments@);
}

pub proof fn lemma_same_segments_refl(a: Seq<PathSegment>)
    ensures
        same_segments(a, a),
    decreases a,
{
    assert forall|i: int| 0 <= i < a.len() implies same_segment(#[trigger] a[i], a[i]) by {
        lemma_same_params_refl(a[i].parameters);
    }
}

pub proof fn lemma_same_params_refl(a: PathParameters)
    ensures
        same_params(a, a),
    decreases a,
{
    match a {
        PathParameters::AngleBracketed(_, t, x) => {
            lemma_same_tys_refl(t@);
            assert forall|i: int| 0 <= i < x@.len() implies same_binding(
                #[trigger] x@[i],
                x@[i],
            ) by {
                lemma_same_ty_refl(*x@[i].ty);
            }
        },
        PathParameters::Parenthesized(_, i, o) => {
            lemma_same_tys_refl(i@);
            lemma_same_opt_ty_refl(o);
        },
    }
}

pub proof fn lemma_same_opt_qself_refl(a: Option<QSelf>)
    ensures
        same_opt_qself(a, a),
    decreases a,
{
    if let Some(q) = a {
        lemma_same_ty_refl(*q.ty);
    }
}

/// Every pattern is identical to itself.
pub proof fn lemma_same_pat_refl(a: Pat)
    ensures
        same_pat(a, a),
    decreases a,
{
    match a.node {
        PatKind::Ident(_, _, s) => {
            lemma_same_opt_pat_refl(s);
        },
        PatKind::Enum(p, o) => {
            lemma_same_path_refl(p);
            if let Some(x) = o {
                lemma_same_pats_refl(x@);
            }
        },
        PatKind::Struct(p, f, _) => {
            lemma_same_path_refl(p);
            assert forall|i: int| 0 <= i < f@.len() implies same_field_pat(
                #[trigger] f@[i],
                f@[i],
            ) by {
                lemma_same_pat_refl(*f@[i].pat);
            }
            assert(same_field_pats(f@, f@));
        },
        PatKind::Tup(x) => {
            lemma_same_pats_refl(x@);
        },
        PatKind::Box(x) => {
            lemma_same_pat_refl(*x);
        },
        PatKind::Region(x, _) => {
            lemma_same_pat_refl(*x);
        },
        PatKind::Lit(e) => {
            lemma_same_expr_refl(*e);
        },
        PatKind::Range(e, f) => {
            lemma_same_expr_refl(*e);
            lemma_same_expr_refl(*f);
        },
        PatKind::Vec(x, m, z) => {
            lemma_same_pats_refl(x@);
            lemma_same_opt_pat_refl(m);
            lemma_same_pats_refl(z@);
        },
        PatKind::QPath(q, p) => {
            lemma_same_ty_refl(*q.ty);
            lemma_same_path_refl(p);
            assert(same_qself(q, q));
        },
        _ => {},
    }
}

pub proof fn lemma_same_pats_refl(a: Seq<Pat>)
    ensures
        same_pats(a, a),
    decreases a,
{
    assert forall|i: int| 0 <= i < a.len() implies same_pat(#[trigger] a[i], a[i]) by {
        lemma_same_pat_refl(a[i]);
    }
}

pub proof fn lemma_same_opt_pat_refl(a: Option<Box<Pat>>)
    ensures
        same_opt_pat(a, a),
    decreases a,
{
    if let Some(x) = a {
        lemma_same_pat_refl(*x);
    }
}


/// Identity of expressions does not depend on the order of the two.
pub proof fn lemma_same_expr_sym(a: Expr, b: Expr)
    ensures
        same_expr(a, b) == same_expr(b, a),
    decreases a,
{
    match (a.node, b.node) {
        (ExprKind::Box(p, x), ExprKind::Box(q, y)) => {
            lemma_same_opt_expr_sym(p, q);
            lemma_same_expr_sym(*x, *y);
        },
        (ExprKind::Vec(x), ExprKind::Vec(y)) => lemma_same_exprs_sym(x@, y@),
        (ExprKind::Call(f, x), ExprKind::Call(g, y)) => {
            lemma_same_expr_sym(*f, *g);
            lemma_same_exprs_sym(x@, y@);
        },
        (ExprKind::MethodCall(_, t, x), ExprKind::MethodCall(_, u, y)) => {
            lemma_same_tys_sym(t@, u@);
            lemma_same_exprs_sym(x@, y@);
        },
        (ExprKind::Tup(x), ExprKind::Tup(y)) => lemma_same_exprs_sym(x@, y@),
        (ExprKind::Binary(_, l, r), ExprKind::Binary(_, m, s)) => {
            lemma_same_expr_sym(*l, *m);
            lemma_same_expr_sym(*r, *s);
        },
        (ExprKind::Unary(_, x), ExprKind::Unary(_, y)) => lemma_same_expr_sym(*x, *y),
        (ExprKind::Cast(x, t), ExprKind::Cast(y, u)) => {
            lemma_same_expr_sym(*x, *y);
            lemma_same_ty_sym(*t, *u);
        },
        (ExprKind::Field(x, _), ExprKind::Field(y, _)) => lemma_same_expr_sym(*x, *y),
        (ExprKind::AddrOf(_, x), ExprKind::AddrOf(_, y)) => lemma_same_expr_sym(*x, *y),
        (ExprKind::Index(x, i), ExprKind::Index(y, j)) => {
            lemma_same_expr_sym(*x, *y);
            lemma_same_expr_sym(*i, *j);
        },
        (ExprKind::Path(q, p), ExprKind::Path(r, s)) => {
            lemma_same_opt_qself_sym(q, r);
            lemma_same_path_sym(p, s);
        },
        (ExprKind::Paren(x), ExprKind::Paren(y)) => lemma_same_expr_sym(*x, *y),
        _ => {},
    }
}

pub proof fn lemma_same_exprs_sym(a: Seq<Expr>, b: Seq<Expr>)
    ensures
        same_exprs(a, b) == same_exprs(b, a),
    decreases a,
{
    if a.len() == b.len() {
        assert forall|i: int| 0 <= i < a.len() implies same_expr(#[trigger] a[i], b[i])
            == same_expr(b[i], a[i]) by {
            lemma_same_expr_sym(a[i], b[i]);
        }
    }
}

pub proof fn lemma_same_opt_expr_sym(a: Option<Box<Expr>>, b: Option<Box<Expr>>)
    ensures
        same_opt_expr(a, b) == same_opt_expr(b, a),
    decreases a,
{
    if let (Some(x), Some(y)) = (a, b) {
        lemma_same_expr_sym(*x, *y);
    }
}

/// Identity of types does not depend on the order of the two.
pub proof fn lemma_same_ty_sym(a: Ty, b: Ty)
    ensures
        same_ty(a, b) == same_ty(b, a),
    decreases a,
{
    lemma_same_ty_kind_sym(a.node, b.node);
}

pub proof fn lemma_same_ty_kind_sym(a: TyKind, b: TyKind)
    ensures
        same_ty_kind(a, b) == same_ty_kind(b, a),
    decreases a,
{
    match (a, b) {
        (TyKind::Vec(x), TyKind::Vec(y)) => lemma_same_ty_sym(*x, *y),
        (TyKind::FixedLengthVec(x, e), TyKind::FixedLengthVec(y, f)) => {
            lemma_same_ty_sym(*x, *y);
            lemma_same_expr_sym(*e, *f);
        },
        (TyKind::Ptr(m), TyKind::Ptr(n)) => lemma_same_mut_ty_sym(m, n),
        (TyKind::Rptr(_, m), TyKind::Rptr(_, n)) => lemma_same_mut_ty_sym(m, n),
        (TyKind::BareFn(f), TyKind::BareFn(g)) => lemma_same_bare_fn_sym(*f, *g),
        (TyKind::Tup(x), TyKind::Tup(y)) => lemma_same_tys_sym(x@, y@),
        (TyKind::Path(q, p), TyKind::Path(r, s)) => {
            lemma_same_opt_qself_sym(q, r);
            lemma_same_path_sym(p, s);
        },
        (TyKind::ObjectSum(t, b), TyKind::ObjectSum(u, c)) => {
            lemma_same_ty_sym(*t, *u);
            lemma_same_bounds_sym(b@, c@);
        },
        (TyKind::PolyTraitRef(b), TyKind::PolyTraitRef(c)) => lemma_same_bounds_sym(b@, c@),
        (TyKind::Paren(x), TyKind::Paren(y)) => lemma_same_ty_sym(*x, *y),
        (TyKind::Typeof(e), TyKind::Typeof(f)) => lemma_same_expr_sym(*e, *f),
        _ => {},
    }
}

pub proof fn lemma_same_tys_sym(a: Seq<Ty>, b: Seq<Ty>)
    ensures
        same_tys(a, b) == same_tys(b, a),
    decreases a,
{
    if a.len() == b.len() {
        assert forall|i: int| 0 <= i < a.len() implies same_ty(#[trigger] a[i], b[i]) == same_ty(
            b[i],
            a[i],
        ) by {
            lemma_same_ty_sym(a[i], b[i]);
        }
    }
}

pub proof fn lemma_same_opt_ty_sym(a: Option<Box<Ty>>, b: Option<Box<Ty>>)
    ensures
        same_opt_ty(a, b) == same_opt_ty(b, a),
    decreases a,
{
    if let (Some(x), Some(y)) = (a, b) {
        lemma_same_ty_sym(*x, *y);
    }
}

pub proof fn lemma_same_mut_ty_sym(a: MutTy, b: MutTy)
    ensures
        same_mut_ty(a, b) == same_mut_ty(b, a),
    decreases a,
{
    lemma_same_ty_sym(*a.ty, *b.ty);
}

pub proof fn lemma_same_bare_fn_sym(a: BareFnTy, b: BareFnTy)
    ensures
        same_bare_fn(a, b) == same_bare_fn(b, a),
    decreases a,
{
    lemma_same_lifetime_defs_sym(a.lifetimes@, b.lifetimes@);
    lemma_same_fn_decl_sym(*a.decl, *b.decl);
}

pub proof fn lemma_same_lifetime_defs_sym(a: Seq<LifetimeDef>, b: Seq<LifetimeDef>)
    ensures
        same_lifetime_defs(a, b) == same_lifetime_defs(b, a),
{
    if a.len() == b.len() {
        assert forall|i: int| 0 <= i < a.len() implies same_lifetime_def(#[trigger] a[i], b[i])
            == same_lifetime_def(b[i], a[i]) by {}
    }
}

pub proof fn lemma_same_fn_decl_sym(a: FnDecl, b: FnDecl)
    ensures
        same_fn_decl(a, b) == same_fn_decl(b, a),
    decreases a,
{
    lemma_same_args_sym(a.inputs@, b.inputs@);
    lemma_same_ret_sym(a.output, b.output);
}

pub proof fn lemma_same_args_sym(a: Seq<Arg>, b: Seq<Arg>)
    ensures
        same_args(a, b) == same_args(b, a),
    decreases a,
{
    if a.len() == b.len() {
        assert forall|i: int| 0 <= i < a.len() implies same_arg(#[trigger] a[i], b[i]) == same_arg(
            b[i],
            a[i],
        ) by {
            lemma_same_ty_sym(*a[i].ty, *b[i].ty);
            lemma_same_pat_sym(*a[i].pat, *b[i].pat);
        }
    }
}

pub proof fn lemma_same_ret_sym(a: FunctionRetTy, b: FunctionRetTy)
    ensures
        same_ret(a, b) == same_ret(b, a),
    decreases a,
{
    if let (FunctionRetTy::Return(x), FunctionRetTy::Return(y)) = (a, b) {
        lemma_same_ty_sym(*x, *y);
    }
}

pub proof fn lemma_same_bounds_sym(a: Seq<TyParamBound>, b: Seq<TyParamBound>)
    ensures
        same_bounds(a, b) == same_bounds(b, a),
    decreases a,
{
    if a.len() == b.len() {
        assert forall|i: int| 0 <= i < a.len() implies same_bound(#[trigger] a[i], b[i])
            == same_bound(b[i], a[i]) by {
            if let (
                TyParamBound::TraitTyParamBound(p, _),
                TyParamBound::TraitTyParamBound(q, _),
            ) = (a[i], b[i]) {
                lemma_same_lifetime_defs_sym(p.bound_lifetimes@, q.bound_lifetimes@);
                lemma_same_path_sym(p.trait_ref.path, q.trait_ref.path);
            }
        }
    }
}

/// Identity of paths does not depend on the order of the two.
pub proof fn lemma_same_path_sym(a: Path, b: Path)
    ensures
        same_path(a, b) == same_path(b, a),
    decreases a,
{
    lemma_same_segments_sym(a.segments@, b.segments@);
}

pub proof fn lemma_same_segments_sym(a: Seq<PathSegment>, b: Seq<PathSegment>)
    ensures
        same_segments(a, b) == same_segments(b, a),
    decreases a,
{
    if a.len() == b.len() {
        assert forall|i: int| 0 <= i < a.len() implies same_segment(#[trigger] a[i], b[i])
            == same_segment(b[i], a[i]) by {
            lemma_same_params_sym(a[i].parameters, b[i].parameters);
        }
    }
}

pub proof fn lemma_same_params_sym(a: PathParameters, b: PathParameters)
    ensures
        same_params(a, b) == same_params(b, a),
    decreases a,
{
    match (a, b) {
        (PathParameters::AngleBracketed(_, t, x), PathParameters::AngleBracketed(_, u, y)) => {
            lemma_same_tys_sym(t@, u@);
            if x@.len() == y@.len() {
                assert forall|i: int| 0 <= i < x@.len() implies same_binding(#[trigger] x@[i], y@[i])
                    == same_binding(y@[i], x@[i]) by {
                    lemma_same_ty_sym(*x@[i].ty, *y@[i].ty);
                }
            }
            assert(same_bindings(x@, y@) == same_bindings(y@, x@));
        },
        (PathParameters::Parenthesized(_, i, o), PathParameters::Parenthesized(_, j, p)) => {
            lemma_same_tys_sym(i@, j@);
            lemma_same_opt_ty_sym(o, p);
        },
        _ => {},
    }
}

pub proof fn lemma_same_opt_qself_sym(a: Option<QSelf>, b: Option<QSelf>)
    ensures
        same_opt_qself(a, b) == same_opt_qself(b, a),
    decreases a,
{
    if let (Some(q), Some(r)) = (a, b) {
        lemma_same_ty_sym(*q.ty, *r.ty);
        assert(same_qself(q, r) == same_qself(r, q));
    }
}

/// Identity of patterns does not depend on the order of the two.
pub proof fn lemma_same_pat_sym(a: Pat, b: Pat)
    ensures
        same_pat(a, b) == same_pat(b, a),
    decreases a,
{
    match (a.node, b.node) {
        (PatKind::Ident(_, _, s), PatKind::Ident(_, _, t)) => {
            lemma_same_opt_pat_sym(s, t);
        },
        (PatKind::Enum(p, o), PatKind::Enum(q, r)) => {
            lemma_same_path_sym(p, q);
            if let (Some(x), Some(y)) = (o, r) {
                lemma_same_pats_sym(x@, y@);
            }
        },
        (PatKind::Struct(p, f, _), PatKind::Struct(q, g, _)) => {
            lemma_same_path_sym(p, q);
            if f@.len() == g@.len() {
                assert forall|i: int| 0 <= i < f@.len() implies same_field_pat(
                    #[trigger] f@[i],
                    g@[i],
                ) == same_field_pat(g@[i], f@[i]) by {
                    lemma_same_pat_sym(*f@[i].pat, *g@[i].pat);
                }
            }
            assert(same_field_pats(f@, g@) == same_field_pats(g@, f@));
        },
        (PatKind::Tup(x), PatKind::Tup(y)) => {
            lemma_same_pats_sym(x@, y@);
        },
        (PatKind::Box(x), PatKind::Box(y)) => {
            lemma_same_pat_sym(*x, *y);
        },
        (PatKind::Region(x, _), PatKind::Region(y, _)) => {
            lemma_same_pat_sym(*x, *y);
        },
        (PatKind::Lit(e), PatKind::Lit(f)) => {
            lemma_same_expr_sym(*e, *f);
        },
        (PatKind::Range(e, f), PatKind::Range(g, h)) => {
            lemma_same_expr_sym(*e, *g);
            lemma_same_expr_sym(*f, *h);
        },
        (PatKind::Vec(x, m, z), PatKind::Vec(y, n, w)) => {
            lemma_same_pats_sym(x@, y@);
            lemma_same_opt_pat_sym(m, n);
            lemma_same_pats_sym(z@, w@);
        },
        (PatKind::QPath(q, p), PatKind::QPath(r, s)) => {
            lemma_same_ty_sym(*q.ty, *r.ty);
            lemma_same_path_sym(p, s);
            assert(same_qself(q, r) == same_qself(r, q));
        },
        _ => {},
    }
}

pub proof fn lemma_same_pats_sym(a: Seq<Pat>, b: Seq<Pat>)
    ensures
        same_pats(a, b) == same_pats(b, a),
    decreases a,
{
    if a.len() == b.len() {
        assert forall|i: int| 0 <= i < a.len() implies same_pat(#[trigger] a[i], b[i]) == same_pat(
            b[i],
            a[i],
        ) by {
            lemma_same_pat_sym(a[i], b[i]);
        }
    }
}

pub proof fn lemma_same_opt_pat_sym(a: Option<Box<Pat>>, b: Option<Box<Pat>>)
    ensures
        same_opt_pat(a, b) == same_opt_pat(b, a),
    decreases a,
{
    if let (Some(x), Some(y)) = (a, b) {
        lemma_same_pat_sym(*x, *y);
    }
}


/// Identity of expressions is transitive.
pub proof fn lemma_same_expr_trans(a: Expr, b: Expr, c: Expr)
    requires
        same_expr(a, b),
        same_expr(b, c),
    ensures
        same_expr(a, c),
    decreases a,
{
    match (a.node, b.node, c.node) {
        (ExprKind::Box(p, x), ExprKind::Box(q, y), ExprKind::Box(r, z)) => {
            lemma_same_opt_expr_trans(p, q, r);
            lemma_same_expr_trans(*x, *y, *z);
        },
        (ExprKind::Vec(x), ExprKind::Vec(y), ExprKind::Vec(z)) => lemma_same_exprs_trans(x@, y@, z@),
        (ExprKind::Call(f, x), ExprKind::Call(g, y), ExprKind::Call(h, z)) => {
            lemma_same_expr_trans(*f, *g, *h);
            lemma_same_exprs_trans(x@, y@, z@);
        },
        (ExprKind::MethodCall(_, t, x), ExprKind::MethodCall(_, u, y), ExprKind::MethodCall(_, v, z)) => {
            lemma_same_tys_trans(t@, u@, v@);
            lemma_same_exprs_trans(x@, y@, z@);
        },
        (ExprKind::Tup(x), ExprKind::Tup(y), ExprKind::Tup(z)) => lemma_same_exprs_trans(x@, y@, z@),
        (ExprKind::Binary(_, l, r), ExprKind::Binary(_, m, s), ExprKind::Binary(_, n, t)) => {
            lemma_same_expr_trans(*l, *m, *n);
            lemma_same_expr_trans(*r, *s, *t);
        },
        (ExprKind::Unary(_, x), ExprKind::Unary(_, y), ExprKind::Unary(_, z)) => {
            lemma_same_expr_trans(*x, *y, *z)
        },
        (ExprKind::Cast(x, t), ExprKind::Cast(y, u), ExprKind::Cast(z, v)) => {
            lemma_same_expr_trans(*x, *y, *z);
            lemma_same_ty_trans(*t, *u, *v);
        },
        (ExprKind::Field(x, _), ExprKind::Field(y, _), ExprKind::Field(z, _)) => {
            lemma_same_expr_trans(*x, *y, *z)
        },
        (ExprKind::AddrOf(_, x), ExprKind::AddrOf(_, y), ExprKind::AddrOf(_, z)) => {
            lemma_same_expr_trans(*x, *y, *z)
        },
        (ExprKind::Index(x, i), ExprKind::Index(y, j), ExprKind::Index(z, k)) => {
            lemma_same_expr_trans(*x, *y, *z);
            lemma_same_expr_trans(*i, *j, *k);
        },
        (ExprKind::Path(q, p), ExprKind::Path(r, s), ExprKind::Path(t, u)) => {
            lemma_same_opt_qself_trans(q, r, t);
            lemma_same_path_trans(p, s, u);
        },
        (ExprKind::Paren(x), ExprKind::Paren(y), ExprKind::Paren(z)) => {
            lemma_same_expr_trans(*x, *y, *z)
        },
        _ => {},
    }
}

pub proof fn lemma_same_exprs_trans(a: Seq<Expr>, b: Seq<Expr>, c: Seq<Expr>)
    requires
        same_exprs(a, b),
        same_exprs(b, c),
    ensures
        same_exprs(a, c),
    decreases a,
{
    assert forall|i: int| 0 <= i < a.len() implies same_expr(#[trigger] a[i], c[i]) by {
        lemma_same_expr_trans(a[i], b[i], c[i]);
    }
}

pub proof fn lemma_same_opt_expr_trans(a: Option<Box<Expr>>, b: Option<Box<Expr>>, c: Option<Box<Expr>>)
    requires
        same_opt_expr(a, b),
        same_opt_expr(b, c),
    ensures
        same_opt_expr(a, c),
    decreases a,
{
    if let (Some(x), Some(y), Some(z)) = (a, b, c) {
        lemma_same_expr_trans(*x, *y, *z);
    }
}

/// Identity of types is transitive.
pub proof fn lemma_same_ty_trans(a: Ty, b: Ty, c: Ty)
    requires
        same_ty(a, b),
        same_ty(b, c),
    ensures
        same_ty(a, c),
    decreases a,
{
    lemma_same_ty_kind_trans(a.node, b.node, c.node);
}

pub proof fn lemma_same_ty_kind_trans(a: TyKind, b: TyKind, c: TyKind)
    requires
        same_ty_kind(a, b),
        same_ty_kind(b, c),
    ensures
        same_ty_kind(a, c),
    decreases a,
{
    match (a, b, c) {
        (TyKind::Vec(x), TyKind::Vec(y), TyKind::Vec(z)) => lemma_same_ty_trans(*x, *y, *z),
        (TyKind::FixedLengthVec(x, e), TyKind::FixedLengthVec(y, f), TyKind::FixedLengthVec(z, g)) => {
            lemma_same_ty_trans(*x, *y, *z);
            lemma_same_expr_trans(*e, *f, *g);
        },
        (TyKind::Ptr(m), TyKind::Ptr(n), TyKind::Ptr(o)) => lemma_same_ty_trans(*m.ty, *n.ty, *o.ty),
        (TyKind::Rptr(_, m), TyKind::Rptr(_, n), TyKind::Rptr(_, o)) => {
            lemma_same_ty_trans(*m.ty, *n.ty, *o.ty)
        },
        (TyKind::BareFn(f), TyKind::BareFn(g), TyKind::BareFn(h)) => {
            lemma_same_bare_fn_trans(*f, *g, *h)
        },
        (TyKind::Tup(x), TyKind::Tup(y), TyKind::Tup(z)) => lemma_same_tys_trans(x@, y@, z@),
        (TyKind::Path(q, p), TyKind::Path(r, s), TyKind::Path(t, u)) => {
            lemma_same_opt_qself_trans(q, r, t);
            lemma_same_path_trans(p, s, u);
        },
        (TyKind::ObjectSum(t, b), TyKind::ObjectSum(u, d), TyKind::ObjectSum(v, e)) => {
            lemma_same_ty_trans(*t, *u, *v);
            lemma_same_bounds_trans(b@, d@, e@);
        },
        (TyKind::PolyTraitRef(b), TyKind::PolyTraitRef(d), TyKind::PolyTraitRef(e)) => {
            lemma_same_bounds_trans(b@, d@, e@)
        },
        (TyKind::Paren(x), TyKind::Paren(y), TyKind::Paren(z)) => lemma_same_ty_trans(*x, *y, *z),
        (TyKind::Typeof(e), TyKind::Typeof(f), TyKind::Typeof(g)) => {
            lemma_same_expr_trans(*e, *f, *g)
        },
        _ => {},
    }
}

pub proof fn lemma_same_tys_trans(a: Seq<Ty>, b: Seq<Ty>, c: Seq<Ty>)
    requires
        same_tys(a, b),
        same_tys(b, c),
    ensures
        same_tys(a, c),
    decreases a,
{
    assert forall|i: int| 0 <= i < a.len() implies same_ty(#[trigger] a[i], c[i]) by {
        lemma_same_ty_trans(a[i], b[i], c[i]);
    }
}

pub proof fn lemma_same_opt_ty_trans(a: Option<Box<Ty>>, b: Option<Box<Ty>>, c: Option<Box<Ty>>)
    requires
        same_opt_ty(a, b),
        same_opt_ty(b, c),
    ensures
        same_opt_ty(a, c),
    decreases a,
{
    if let (Some(x), Some(y), Some(z)) = (a, b, c) {
        lemma_same_ty_trans(*x, *y, *z);
    }
}

pub proof fn lemma_same_bare_fn_trans(a: BareFnTy, b: BareFnTy, c: BareFnTy)
    requires
        same_bare_fn(a, b),
        same_bare_fn(b, c),
    ensures
        same_bare_fn(a, c),
    decreases a,
{
    lemma_same_lifetime_defs_trans(a.lifetimes@, b.lifetimes@, c.lifetimes@);
    let (x, y, z) = (a.decl.inputs@, b.decl.inputs@, c.decl.inputs@);
    assert forall|i: int| 0 <= i < x.len() implies same_arg(#[trigger] x[i], z[i]) by {
        lemma_same_ty_trans(*x[i].ty, *y[i].ty, *z[i].ty);
        lemma_same_pat_trans(*x[i].pat, *y[i].pat, *z[i].pat);
    }
    if let (FunctionRetTy::Return(s), FunctionRetTy::Return(t), FunctionRetTy::Return(u)) = (
        a.decl.output,
        b.decl.output,
        c.decl.output,
    ) {
        lemma_same_ty_trans(*s, *t, *u);
    }
    assert(same_ret(a.decl.output, c.decl.output));
    assert(same_args(x, z));
    assert(same_fn_decl(*a.decl, *c.decl));
}

pub proof fn lemma_same_lifetime_defs_trans(
    a: Seq<LifetimeDef>,
    b: Seq<LifetimeDef>,
    c: Seq<LifetimeDef>,
)
    requires
        same_lifetime_defs(a, b),
        same_lifetime_defs(b, c),
    ensures
        same_lifetime_defs(a, c),
{
    assert forall|i: int| 0 <= i < a.len() implies same_lifetime_def(#[trigger] a[i], c[i]) by {
        assert(same_lifetime_def(a[i], b[i]) && same_lifetime_def(b[i], c[i]));
    }
}

pub proof fn lemma_same_bounds_trans(a: Seq<TyParamBound>, b: Seq<TyParamBound>, c: Seq<TyParamBound>)
    requires
        same_bounds(a, b),
        same_bounds(b, c),
    ensures
        same_bounds(a, c),
    decreases a,
{
    assert forall|i: int| 0 <= i < a.len() implies same_bound(#[trigger] a[i], c[i]) by {
        assert(same_bound(a[i], b[i]) && same_bound(b[i], c[i]));
        if let (
            TyParamBound::TraitTyParamBound(p, _),
            TyParamBound::TraitTyParamBound(q, _),
            TyParamBound::TraitTyParamBound(r, _),
        ) = (a[i], b[i], c[i]) {
            lemma_same_lifetime_defs_trans(p.bound_lifetimes@, q.bound_lifetimes@, r.bound_lifetimes@);
            lemma_same_path_trans(p.trait_ref.path, q.trait_ref.path, r.trait_ref.path);
            assert(same_trait_ref(p.trait_ref, r.trait_ref));
            assert(same_poly_trait_ref(p, r));
        }
    }
}

/// Identity of paths is transitive.
pub proof fn lemma_same_path_trans(a: Path, b: Path, c: Path)
    requires
        same_path(a, b),
        same_path(b, c),
    ensures
        same_path(a, c),
    decreases a,
{
    lemma_same_segments_trans(a.segments@, b.segments@, c.segments@);
}

pub proof fn lemma_same_segments_trans(a: Seq<PathSegment>, b: Seq<PathSegment>, c: Seq<PathSegment>)
    requires
        same_segments(a, b),
        same_segments(b, c),
    ensures
        same_segments(a, c),
    decreases a,
{
    assert forall|i: int| 0 <= i < a.len() implies same_segment(#[trigger] a[i], c[i]) by {
        assert(same_segment(a[i], b[i]) && same_segment(b[i], c[i]));
        lemma_same_params_trans(a[i].parameters, b[i].parameters, c[i].parameters);
    }
}

pub proof fn lemma_same_params_trans(a: PathParameters, b: PathParameters, c: PathParameters)
    requires
        same_params(a, b),
        same_params(b, c),
    ensures
        same_params(a, c),
    decreases a,
{
    match (a, b, c) {
        (
            PathParameters::AngleBracketed(_, t, x),
            PathParameters::AngleBracketed(_, u, y),
            PathParameters::AngleBracketed(_, v, z),
        ) => {
            lemma_same_tys_trans(t@, u@, v@);
            assert forall|i: int| 0 <= i < x@.len() implies same_binding(#[trigger] x@[i], z@[i]) by {
                assert(same_binding(x@[i], y@[i]) && same_binding(y@[i], z@[i]));
                lemma_same_ty_trans(*x@[i].ty, *y@[i].ty, *z@[i].ty);
            }
            assert(same_bindings(x@, z@));
        },
        (
            PathParameters::Parenthesized(_, i, o),
            PathParameters::Parenthesized(_, j, p),
            PathParameters::Parenthesized(_, k, q),
        ) => {
            lemma_same_tys_trans(i@, j@, k@);
            lemma_same_opt_ty_trans(o, p, q);
        },
        _ => {},
    }
}

pub proof fn lemma_same_opt_qself_trans(a: Option<QSelf>, b: Option<QSelf>, c: Option<QSelf>)
    requires
        same_opt_qself(a, b),
        same_opt_qself(b, c),
    ensures
        same_opt_qself(a, c),
    decreases a,
{
    if let (Some(q), Some(r), Some(s)) = (a, b, c) {
        lemma_same_ty_trans(*q.ty, *r.ty, *s.ty);
        assert(same_qself(q, s));
    }
}

/// Identity of patterns is transitive.
pub proof fn lemma_same_pat_trans(a: Pat, b: Pat, c: Pat)
    requires
        same_pat(a, b),
        same_pat(b, c),
    ensures
        same_pat(a, c),
    decreases a,
{
    match (a.node, b.node, c.node) {
        (PatKind::Ident(_, _, s), PatKind::Ident(_, _, t), PatKind::Ident(_, _, u)) => {
            lemma_same_opt_pat_trans(s, t, u);
        },
        (PatKind::Enum(p, o), PatKind::Enum(q, r), PatKind::Enum(s, t)) => {
            lemma_same_path_trans(p, q, s);
            if let (Some(x), Some(y), Some(z)) = (o, r, t) {
                lemma_same_pats_trans(x@, y@, z@);
            }
        },
        (PatKind::Struct(p, f, _), PatKind::Struct(q, g, _), PatKind::Struct(r, h, _)) => {
            lemma_same_path_trans(p, q, r);
            assert(same_field_pats(f@, g@));
            assert(same_field_pats(g@, h@));
            assert forall|i: int| 0 <= i < f@.len() implies same_field_pat(#[trigger] f@[i], h@[i]) by {
                assert(same_field_pat(f@[i], g@[i]) && same_field_pat(g@[i], h@[i]));
                lemma_same_pat_trans(*f@[i].pat, *g@[i].pat, *h@[i].pat);
            }
            assert(same_field_pats(f@, h@));
        },
        (PatKind::Tup(x), PatKind::Tup(y), PatKind::Tup(z)) => {
            lemma_same_pats_trans(x@, y@, z@);
        },
        (PatKind::Box(x), PatKind::Box(y), PatKind::Box(z)) => {
            lemma_same_pat_trans(*x, *y, *z);
        },
        (PatKind::Region(x, _), PatKind::Region(y, _), PatKind::Region(z, _)) => {
            lemma_same_pat_trans(*x, *y, *z);
        },
        (PatKind::Lit(e), PatKind::Lit(f), PatKind::Lit(g)) => {
            lemma_same_expr_trans(*e, *f, *g);
        },
        (PatKind::Range(e, f), PatKind::Range(g, h), PatKind::Range(i, j)) => {
            lemma_same_expr_trans(*e, *g, *i);
            lemma_same_expr_trans(*f, *h, *j);
        },
        (PatKind::Vec(x, m, z), PatKind::Vec(y, n, w), PatKind::Vec(v, o, u)) => {
            lemma_same_pats_trans(x@, y@, v@);
            lemma_same_opt_pat_trans(m, n, o);
            lemma_same_pats_trans(z@, w@, u@);
        },
        (PatKind::QPath(q, p), PatKind::QPath(r, s), PatKind::QPath(t, u)) => {
            assert(same_qself(q, r) && same_qself(r, t));
            lemma_same_ty_trans(*q.ty, *r.ty, *t.ty);
            lemma_same_path_trans(p, s, u);
            assert(same_qself(q, t));
        },
        _ => {},
    }
}

pub proof fn lemma_same_pats_trans(a: Seq<Pat>, b: Seq<Pat>, c: Seq<Pat>)
    requires
        same_pats(a, b),
        same_pats(b, c),
    ensures
        same_pats(a, c),
    decreases a,
{
    assert forall|i: int| 0 <= i < a.len() implies same_pat(#[trigger] a[i], c[i]) by {
        lemma_same_pat_trans(a[i], b[i], c[i]);
    }
}

pub proof fn lemma_same_opt_pat_trans(a: Option<Box<Pat>>, b: Option<Box<Pat>>, c: Option<Box<Pat>>)
    requires
        same_opt_pat(a, b),
        same_opt_pat(b, c),
    ensures
        same_opt_pat(a, c),
    decreases a,
{
    if let (Some(x), Some(y), Some(z)) = (a, b, c) {
        lemma_same_pat_trans(*x, *y, *z);
    }
}

} // verus!
