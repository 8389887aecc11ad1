//! What two operands that count as equal must agree on, stated without the
//! comparison's own definition: the form of each node, its operator, its
//! literal, its names, its mutability, and the names along every path.
use vstd::prelude::*;
use crate::ast::{
    Abi, BinOp, BindingMode, Expr, ExprKind, FunctionRetTy, Ident, Lit, Mutability, Pat, PatKind,
    PatWildKind, Path, PathSegment, Symbol, Ty, TyKind, TyParamBound, UnOp, Unsafety,
};
use crate::bit_mask::{bit_mask_finding, comparison_binop, incompatible, int_literal};
use crate::ast::LitIntType;
use crate::derived::{same_path, same_segment, same_segments};
use crate::eq_op::{
    eq_op_finding, exp_equal, exp_vec_equal, lifetime_equal, opt_lifetime_equal, param_bound_equal,
    param_bounds_equal, pat_equal, pat_vec_equal, path_equal, ty_equal, ty_vec_equal,
};
use crate::laws::{lemma_exp_equal_reflexive, lemma_parens_are_seen_through};
use crate::eq_op::comparable_expr;

verus! {

// ---------------------------------------------------------------------------
// The head of a node
// ---------------------------------------------------------------------------

/// The identifiers of a path's segments, in order.
pub open spec fn path_names(p: Path) -> Seq<Ident> {
    p.segments@.map_values(|s: PathSegment| s.identifier)
}

/// The top of an expression: its form and the data the node itself holds
/// (operator, literal, names, mutability, number of parts).
pub enum ExprHead {
    Box(bool),
    Vec(nat),
    Call(nat),
    MethodCall(Ident, nat, nat),
    Tup(nat),
    Binary(BinOp),
    Unary(UnOp),
    Lit(Lit),
    Cast,
    Field(Ident),
    AddrOf(Mutability),
    Index,
    Path(Option<usize>, bool, Seq<Ident>),
    Paren,
    Mac,
    Other,
}

pub open spec fn expr_head(e: Expr) -> ExprHead {
    match e.node {
        ExprKind::Box(p, _) => ExprHead::Box(p is Some),
        ExprKind::Vec(a) => ExprHead::Vec(a@.len()),
        ExprKind::Call(_, a) => ExprHead::Call(a@.len()),
        ExprKind::MethodCall(i, t, a) => ExprHead::MethodCall(i, t@.len(), a@.len()),
        ExprKind::Tup(a) => ExprHead::Tup(a@.len()),
        ExprKind::Binary(op, _, _) => ExprHead::Binary(op),
        ExprKind::Unary(op, _) => ExprHead::Unary(op),
        ExprKind::Lit(l) => ExprHead::Lit(l),
        ExprKind::Cast(_, _) => ExprHead::Cast,
        ExprKind::Field(_, i) => ExprHead::Field(i),
        ExprKind::AddrOf(m, _) => ExprHead::AddrOf(m),
        ExprKind::Index(_, _) => ExprHead::Index,
        ExprKind::Path(q, p) => ExprHead::Path(
            match q {
                Some(q) => Some(q.position),
                None => None,
            },
            p.global,
            path_names(p),
        ),
        ExprKind::Paren(_) => ExprHead::Paren,
        ExprKind::Mac(_) => ExprHead::Mac,
        ExprKind::Other => ExprHead::Other,
    }
}

/// An expression with its outer parentheses taken off.
pub open spec fn unparen(e: Expr) -> Expr
    decreases e,
{
    match e.node {
        ExprKind::Paren(x) => unparen(*x),
        _ => e,
    }
}

/// The top of a type.
pub enum TyHead {
    Vec,
    FixedLengthVec,
    Ptr(Mutability),
    Rptr(Option<Symbol>, Mutability),
    BareFn(Unsafety, Abi, bool, nat, bool),
    Tup(nat),
    Path(Option<usize>, bool, Seq<Ident>),
    ObjectSum(nat),
    PolyTraitRef(nat),
    Paren,
    Typeof,
    Infer,
    Mac,
}

pub open spec fn ty_head(t: Ty) -> TyHead {
    match t.node {
        TyKind::Vec(_) => TyHead::Vec,
        TyKind::FixedLengthVec(_, _) => TyHead::FixedLengthVec,
        TyKind::Ptr(m) => TyHead::Ptr(m.mutbl),
        TyKind::Rptr(l, m) => TyHead::Rptr(
            match l {
                Some(l) => Some(l.name),
                None => None,
            },
            m.mutbl,
        ),
        TyKind::BareFn(f) => TyHead::BareFn(
            f.unsafety,
            f.abi,
            f.decl.variadic,
            f.decl.inputs@.len(),
            f.decl.output is Return,
        ),
        TyKind::Tup(a) => TyHead::Tup(a@.len()),
        TyKind::Path(q, p) => TyHead::Path(
            match q {
                Some(q) => Some(q.position),
                None => None,
            },
            p.global,
            path_names(p),
        ),
        TyKind::ObjectSum(_, b) => TyHead::ObjectSum(b@.len()),
        TyKind::PolyTraitRef(b) => TyHead::PolyTraitRef(b@.len()),
        TyKind::Paren(_) => TyHead::Paren,
        TyKind::Typeof(_) => TyHead::Typeof,
        TyKind::Infer => TyHead::Infer,
        TyKind::Mac(_) => TyHead::Mac,
    }
}

/// The top of a pattern.
pub enum PatHead {
    Wild(PatWildKind),
    Ident(BindingMode, Ident, bool),
    Enum(bool, Seq<Ident>, Option<nat>),
    Struct(bool, Seq<Ident>, Seq<(Ident, bool)>, bool),
    Tup(nat),
    Box,
    Region(Mutability),
    Lit,
    Range,
    Vec(nat, bool, nat),
    QPath,
    Mac,
}

pub open spec fn pat_head(p: Pat) -> PatHead {
    match p.node {
        PatKind::Wild(k) => PatHead::Wild(k),
        PatKind::Ident(m, i, s) => PatHead::Ident(m, i, s is Some),
        PatKind::Enum(path, o) => PatHead::Enum(
            path.global,
            path_names(path),
            match o {
                Some(v) => Some(v@.len()),
                None => None,
            },
        ),
        PatKind::Struct(path, f, etc) => PatHead::Struct(
            path.global,
            path_names(path),
            f@.map_values(|fp: crate::ast::FieldPat| (fp.ident, fp.is_shorthand)),
            etc,
        ),
        PatKind::Tup(a) => PatHead::Tup(a@.len()),
        PatKind::Box(_) => PatHead::Box,
        PatKind::Region(_, m) => PatHead::Region(m),
        PatKind::Lit(_) => PatHead::Lit,
        PatKind::Range(_, _) => PatHead::Range,
        PatKind::Vec(a, m, z) => PatHead::Vec(a@.len(), m is Some, z@.len()),
        PatKind::QPath(_, _) => PatHead::QPath,
        PatKind::Mac(_) => PatHead::Mac,
    }
}

// ---------------------------------------------------------------------------
// Laws
// ---------------------------------------------------------------------------

/// Paths that count as equal have the same `::` prefix and the same names,
/// segment by segment: `x` and `y` never count as equal.
pub proof fn lemma_path_equal_same_names(p: Path, q: Path)
    requires
        path_equal(p, q),
    ensures
        p.global == q.global,
        path_names(p) == path_names(q),
{
    assert(same_segments(p.segments@, q.segments@));
    assert forall|i: int| 0 <= i < p.segments@.len() implies #[trigger] path_names(p)[i] == path_names(
        q,
    )[i] by {
        assert(same_segment(p.segments@[i], q.segments@[i]));
    }
    assert(path_names(p) =~= path_names(q));
}

/// Identical paths have the same names, segment by segment.
pub proof fn lemma_same_path_same_names(p: Path, q: Path)
    requires
        same_path(p, q),
    ensures
        p.global == q.global,
        path_names(p) == path_names(q),
{
    lemma_path_equal_same_names(p, q);
}

/// Two expressions that count as equal have, under their parentheses, the
/// same form with the same operator, literal, names, mutability and number of
/// parts: `a + b` and `a - b`, `&x` and `&mut x`, `1` and `2`, `x` and `y`
/// never count as equal.
pub proof fn lemma_equal_operands_same_head(l: Expr, r: Expr)
    requires
        exp_equal(l, r),
    ensures
        expr_head(unparen(l)) == expr_head(unparen(r)),
    decreases l, r,
{
    if let ExprKind::Paren(a) = l.node {
        lemma_parens_are_seen_through(l, r);
        lemma_equal_operands_same_head(*a, r);
    } else if let ExprKind::Paren(b) = r.node {
        lemma_parens_are_seen_through(r, l);
        lemma_equal_operands_same_head(l, *b);
    } else {
        assert(unparen(l) == l && unparen(r) == r);
        match (l.node, r.node) {
            (ExprKind::Box(p, _), ExprKind::Box(q, _)) => {
                assert(crate::eq_op::opt_exp_equal(p, q));
            },
            (ExprKind::Vec(a), ExprKind::Vec(b)) => assert(exp_vec_equal(a@, b@)),
            (ExprKind::Tup(a), ExprKind::Tup(b)) => assert(exp_vec_equal(a@, b@)),
            (ExprKind::Call(_, a), ExprKind::Call(_, b)) => assert(exp_vec_equal(a@, b@)),
            (ExprKind::MethodCall(_, t, a), ExprKind::MethodCall(_, u, b)) => {
                assert(exp_vec_equal(a@, b@) && ty_vec_equal(t@, u@));
            },
            (ExprKind::Path(q, p), ExprKind::Path(s, t)) => {
                lemma_path_equal_same_names(p, t);
            },
            _ => {},
        }
    }
}

/// Two types that count as equal have the same form with the same
/// mutability, lifetime name, calling convention, safety and number of parts:
/// `*mut u8` and `*const u8`, `&'a T` and `&'b T` never count as equal.
pub proof fn lemma_equal_types_same_head(l: Ty, r: Ty)
    requires
        ty_equal(l, r),
    ensures
        ty_head(l) == ty_head(r),
{
    match (l.node, r.node) {
        (TyKind::Rptr(a, m), TyKind::Rptr(b, n)) => {
            assert(opt_lifetime_equal(a, b));
            assert(crate::eq_op::mut_ty_equal(m, n));
        },
        (TyKind::Ptr(a), TyKind::Ptr(b)) => {
            assert(crate::eq_op::mut_ty_equal(a, b));
        },
        (TyKind::BareFn(f), TyKind::BareFn(g)) => {
            assert(crate::eq_op::bare_fn_ty_equal(*f, *g));
            assert(crate::eq_op::fndecl_equal(*f.decl, *g.decl));
            assert(crate::eq_op::arg_vec_equal(f.decl.inputs@, g.decl.inputs@));
            assert(crate::eq_op::fnret_ty_equal(f.decl.output, g.decl.output));
        },
        (TyKind::Tup(a), TyKind::Tup(b)) => assert(ty_vec_equal(a@, b@)),
        (TyKind::Path(q, p), TyKind::Path(s, t)) => {
            lemma_path_equal_same_names(p, t);
        },
        (TyKind::ObjectSum(_, a), TyKind::ObjectSum(_, b)) => assert(param_bounds_equal(a@, b@)),
        (TyKind::PolyTraitRef(a), TyKind::PolyTraitRef(b)) => assert(param_bounds_equal(a@, b@)),
        _ => {},
    }
}

/// Two patterns that count as equal have the same form with the same
/// binding mode, names, field names and shorthands, and number of parts:
/// `mut x` and `x`, `S { a, .. }` and `S { a }` never count as equal.
pub proof fn lemma_equal_patterns_same_head(l: Pat, r: Pat)
    requires
        pat_equal(l, r),
    ensures
        pat_head(l) == pat_head(r),
{
    match (l.node, r.node) {
        (PatKind::Ident(m, i, s), PatKind::Ident(n, j, t)) => {
            assert(crate::eq_op::ident_equal(i, j));
            assert(crate::eq_op::opt_pat_equal(s, t));
            assert(i == j);
            assert(pat_head(l) == pat_head(r));
        },
        (PatKind::Enum(p, o), PatKind::Enum(q, s)) => {
            lemma_path_equal_same_names(p, q);
            if let (Some(a), Some(b)) = (o, s) {
                assert(pat_vec_equal(a@, b@));
            }
            assert(pat_head(l) == pat_head(r));
        },
        (PatKind::Struct(p, f, _), PatKind::Struct(q, g, _)) => {
            lemma_path_equal_same_names(p, q);
            let ff = f@.map_values(|fp: crate::ast::FieldPat| (fp.ident, fp.is_shorthand));
            let gg = g@.map_values(|fp: crate::ast::FieldPat| (fp.ident, fp.is_shorthand));
            assert(crate::eq_op::fieldpat_vec_equal(f@, g@));
            assert forall|i: int| 0 <= i < ff.len() implies #[trigger] ff[i] == gg[i] by {
                assert(crate::eq_op::fieldpat_equal(f@[i], g@[i]));
            }
            assert(ff =~= gg);
            assert(pat_head(l) == pat_head(r));
        },
        (PatKind::Tup(a), PatKind::Tup(b)) => {
            assert(pat_vec_equal(a@, b@));
            assert(pat_head(l) == pat_head(r));
        },
        (PatKind::Vec(a, m, z), PatKind::Vec(b, n, w)) => {
            assert(pat_vec_equal(a@, b@) && pat_vec_equal(z@, w@));
            assert(crate::eq_op::opt_pat_equal(m, n));
            assert(pat_head(l) == pat_head(r));
        },
        _ => {},
    }
}

/// Every integer literal is read, whatever its suffix: `2`, `2u8` and
/// `2i64` all give 2.
pub proof fn lemma_int_literal_any_suffix(e: Expr)
    requires
        e.node matches ExprKind::Lit(Lit::Int(_, _)),
    ensures
        int_literal(e) == Some(e.node->Lit_0->Int_0),
{
}


// ---------------------------------------------------------------------------
// Positions inside a syntax tree
// ---------------------------------------------------------------------------

/// An expression, a type or a pattern.
pub enum Node {
    E(Expr),
    T(Ty),
    P(Pat),
}

/// The top of a node.
pub enum NodeHead {
    E(ExprHead),
    T(TyHead),
    P(PatHead),
}

pub open spec fn node_head(n: Node) -> NodeHead {
    match n {
        Node::E(e) => NodeHead::E(expr_head(e)),
        Node::T(t) => NodeHead::T(ty_head(t)),
        Node::P(p) => NodeHead::P(pat_head(p)),
    }
}

/// A node with the parentheses around an expression taken off.
pub open spec fn norm(n: Node) -> Node {
    match n {
        Node::E(e) => Node::E(unparen(e)),
        _ => n,
    }
}

/// The `k`-th part of a node, numbered from 0 in source order (for a method
/// call: the arguments, then the type arguments; for a bare function type:
/// the argument types, then the argument patterns, then the return type; for
/// a slice pattern: the leading patterns, the trailing ones, then the middle).
pub open spec fn child(n: Node, k: int) -> Option<Node> {
    match n {
        Node::E(e) => match e.node {
            ExprKind::Box(p, v) => if k == 0 {
                Some(Node::E(*v))
            } else if k == 1 && p is Some {
                Some(Node::E(*p->0))
            } else {
                None
            },
            ExprKind::Vec(a) => if 0 <= k < a@.len() { Some(Node::E(a@[k])) } else { None },
            ExprKind::Tup(a) => if 0 <= k < a@.len() { Some(Node::E(a@[k])) } else { None },
            ExprKind::Call(f, a) => if k == 0 {
                Some(Node::E(*f))
            } else if 1 <= k <= a@.len() {
                Some(Node::E(a@[k - 1]))
            } else {
                None
            },
            ExprKind::MethodCall(_, t, a) => if 0 <= k < a@.len() {
                Some(Node::E(a@[k]))
            } else if a@.len() <= k < a@.len() + t@.len() {
                Some(Node::T(t@[k - a@.len()]))
            } else {
                None
            },
            ExprKind::Binary(_, l, r) => if k == 0 {
                Some(Node::E(*l))
            } else if k == 1 {
                Some(Node::E(*r))
            } else {
                None
            },
            ExprKind::Unary(_, x) => if k == 0 { Some(Node::E(*x)) } else { None },
            ExprKind::Field(x, _) => if k == 0 { Some(Node::E(*x)) } else { None },
            ExprKind::AddrOf(_, x) => if k == 0 { Some(Node::E(*x)) } else { None },
            ExprKind::Paren(x) => if k == 0 { Some(Node::E(*x)) } else { None },
            ExprKind::Cast(x, t) => if k == 0 {
                Some(Node::E(*x))
            } else if k == 1 {
                Some(Node::T(*t))
            } else {
                None
            },
            ExprKind::Index(x, i) => if k == 0 {
                Some(Node::E(*x))
            } else if k == 1 {
                Some(Node::E(*i))
            } else {
                None
            },
            _ => None,
        },
        Node::T(t) => match t.node {
            TyKind::Vec(x) => if k == 0 { Some(Node::T(*x)) } else { None },
            TyKind::FixedLengthVec(x, e) => if k == 0 {
                Some(Node::T(*x))
            } else if k == 1 {
                Some(Node::E(*e))
            } else {
                None
            },
            TyKind::Ptr(m) => if k == 0 { Some(Node::T(*m.ty)) } else { None },
            TyKind::Rptr(_, m) => if k == 0 { Some(Node::T(*m.ty)) } else { None },
            TyKind::BareFn(f) => {
                let args = f.decl.inputs@;
                if 0 <= k < args.len() {
                    Some(Node::T(*args[k].ty))
                } else if args.len() <= k < 2 * args.len() {
                    Some(Node::P(*args[k - args.len()].pat))
                } else if k == 2 * args.len() && f.decl.output is Return {
                    Some(Node::T(*f.decl.output->Return_0))
                } else {
                    None
                }
            },
            TyKind::Tup(a) => if 0 <= k < a@.len() { Some(Node::T(a@[k])) } else { None },
            TyKind::ObjectSum(x, _) => if k == 0 { Some(Node::T(*x)) } else { None },
            TyKind::Paren(x) => if k == 0 { Some(Node::T(*x)) } else { None },
            TyKind::Typeof(e) => if k == 0 { Some(Node::E(*e)) } else { None },
            _ => None,
        },
        Node::P(p) => match p.node {
            PatKind::Ident(_, _, s) => if k == 0 && s is Some {
                Some(Node::P(*s->0))
            } else {
                None
            },
            PatKind::Enum(_, o) => match o {
                Some(a) => if 0 <= k < a@.len() { Some(Node::P(a@[k])) } else { None },
                None => None,
            },
            PatKind::Struct(_, f, _) => if 0 <= k < f@.len() {
                Some(Node::P(*f@[k].pat))
            } else {
                None
            },
            PatKind::Tup(a) => if 0 <= k < a@.len() { Some(Node::P(a@[k])) } else { None },
            PatKind::Box(x) => if k == 0 { Some(Node::P(*x)) } else { None },
            PatKind::Region(x, _) => if k == 0 { Some(Node::P(*x)) } else { None },
            PatKind::Lit(e) => if k == 0 { Some(Node::E(*e)) } else { None },
            PatKind::Range(a, b) => if k == 0 {
                Some(Node::E(*a))
            } else if k == 1 {
                Some(Node::E(*b))
            } else {
                None
            },
            PatKind::Vec(a, m, z) => if 0 <= k < a@.len() {
                Some(Node::P(a@[k]))
            } else if a@.len() <= k < a@.len() + z@.len() {
                Some(Node::P(z@[k - a@.len()]))
            } else if k == a@.len() + z@.len() && m is Some {
                Some(Node::P(*m->0))
            } else {
                None
            },
            _ => None,
        },
    }
}

/// The node reached from `n` by following the parts numbered in `path`,
/// parentheses around expressions taken off at every step.
pub open spec fn node_at(n: Node, path: Seq<int>) -> Option<Node>
    decreases path.len(),
{
    if path.len() == 0 {
        Some(norm(n))
    } else {
        match child(norm(n), path[0]) {
            Some(c) => node_at(c, path.drop_first()),
            None => None,
        }
    }
}

/// Two nodes count as equal for the lint.
pub open spec fn nodes_equal(a: Node, b: Node) -> bool {
    match (a, b) {
        (Node::E(x), Node::E(y)) => exp_equal(x, y),
        (Node::T(x), Node::T(y)) => ty_equal(x, y),
        (Node::P(x), Node::P(y)) => pat_equal(x, y),
        _ => false,
    }
}

/// Parentheses taken off both sides keep two expressions equal.
pub proof fn lemma_exp_equal_unparen(l: Expr, r: Expr)
    requires
        exp_equal(l, r),
    ensures
        exp_equal(unparen(l), unparen(r)),
    decreases l, r,
{
    if let ExprKind::Paren(a) = l.node {
        lemma_parens_are_seen_through(l, r);
        lemma_exp_equal_unparen(*a, r);
    } else if let ExprKind::Paren(b) = r.node {
        lemma_parens_are_seen_through(r, l);
        lemma_exp_equal_unparen(l, *b);
    } else {
        assert(unparen(l) == l && unparen(r) == r);
    }
}

proof fn lemma_unparen_not_paren(e: Expr)
    ensures
        !(unparen(e).node is Paren),
    decreases e,
{
    if let ExprKind::Paren(x) = e.node {
        lemma_unparen_not_paren(*x);
    }
}

/// Two equal nodes with no parentheses on top have parts at the same
/// numbers, and the parts at each number are equal.
proof fn lemma_children_agree(a: Node, b: Node, k: int)
    requires
        nodes_equal(a, b),
        !(a matches Node::E(x) && x.node is Paren),
        !(b matches Node::E(y) && y.node is Paren),
    ensures
        child(a, k) is Some <==> child(b, k) is Some,
        child(a, k) is Some ==> nodes_equal(child(a, k)->0, child(b, k)->0),
{
    match (a, b) {
        (Node::E(x), Node::E(y)) => {
            match (x.node, y.node) {
                (ExprKind::Box(p, _), ExprKind::Box(q, _)) => {
                    assert(crate::eq_op::opt_exp_equal(p, q));
                },
                (ExprKind::Vec(s), ExprKind::Vec(t)) => assert(exp_vec_equal(s@, t@)),
                (ExprKind::Tup(s), ExprKind::Tup(t)) => assert(exp_vec_equal(s@, t@)),
                (ExprKind::Call(_, s), ExprKind::Call(_, t)) => assert(exp_vec_equal(s@, t@)),
                (ExprKind::MethodCall(_, u, s), ExprKind::MethodCall(_, v, t)) => {
                    assert(exp_vec_equal(s@, t@) && ty_vec_equal(u@, v@));
                    if s@.len() <= k < s@.len() + u@.len() {
                        assert(ty_equal(u@[k - s@.len()], v@[k - t@.len()]));
                    }
                },
                _ => {},
            }
        },
        (Node::T(x), Node::T(y)) => {
            match (x.node, y.node) {
                (TyKind::Ptr(m), TyKind::Ptr(n)) => assert(crate::eq_op::mut_ty_equal(m, n)),
                (TyKind::Rptr(_, m), TyKind::Rptr(_, n)) => {
                    assert(crate::eq_op::mut_ty_equal(m, n))
                },
                (TyKind::BareFn(f), TyKind::BareFn(g)) => {
                    assert(crate::eq_op::bare_fn_ty_equal(*f, *g));
                    assert(crate::eq_op::fndecl_equal(*f.decl, *g.decl));
                    let (s, t) = (f.decl.inputs@, g.decl.inputs@);
                    assert(crate::eq_op::arg_vec_equal(s, t));
                    assert(crate::eq_op::fnret_ty_equal(f.decl.output, g.decl.output));
                    if 0 <= k < s.len() {
                        assert(crate::eq_op::arg_equal(s[k], t[k]));
                    } else if s.len() <= k < 2 * s.len() {
                        assert(crate::eq_op::arg_equal(s[k - s.len()], t[k - t.len()]));
                    }
                },
                (TyKind::Tup(s), TyKind::Tup(t)) => assert(ty_vec_equal(s@, t@)),
                _ => {},
            }
        },
        (Node::P(x), Node::P(y)) => {
            match (x.node, y.node) {
                (PatKind::Ident(_, _, s), PatKind::Ident(_, _, t)) => {
                    assert(crate::eq_op::opt_pat_equal(s, t));
                },
                (PatKind::Enum(_, o), PatKind::Enum(_, q)) => {
                    if let (Some(s), Some(t)) = (o, q) {
                        assert(pat_vec_equal(s@, t@));
                    }
                },
                (PatKind::Struct(_, f, _), PatKind::Struct(_, g, _)) => {
                    assert(crate::eq_op::fieldpat_vec_equal(f@, g@));
                    if 0 <= k < f@.len() {
                        assert(crate::eq_op::fieldpat_equal(f@[k], g@[k]));
                    }
                },
                (PatKind::Tup(s), PatKind::Tup(t)) => assert(pat_vec_equal(s@, t@)),
                (PatKind::Vec(s, m, z), PatKind::Vec(t, n, w)) => {
                    assert(pat_vec_equal(s@, t@) && pat_vec_equal(z@, w@));
                    assert(crate::eq_op::opt_pat_equal(m, n));
                    if s@.len() <= k < s@.len() + z@.len() {
                        assert(pat_equal(z@[k - s@.len()], w@[k - t@.len()]));
                    }
                },
                _ => {},
            }
        },
        _ => {},
    }
}

/// Two equal nodes have the same head.
pub proof fn lemma_equal_nodes_same_head(a: Node, b: Node)
    requires
        nodes_equal(norm(a), norm(b)),
    ensures
        node_head(norm(a)) == node_head(norm(b)),
{
    match (norm(a), norm(b)) {
        (Node::E(x), Node::E(y)) => {
            lemma_equal_operands_same_head(x, y);
            if let (Node::E(u), Node::E(v)) = (a, b) {
                lemma_unparen_idempotent(u);
                lemma_unparen_idempotent(v);
            }
        },
        (Node::T(x), Node::T(y)) => lemma_equal_types_same_head(x, y),
        (Node::P(x), Node::P(y)) => lemma_equal_patterns_same_head(x, y),
        _ => {},
    }
}

proof fn lemma_unparen_idempotent(e: Expr)
    ensures
        unparen(unparen(e)) == unparen(e),
    decreases e,
{
    lemma_unparen_not_paren(e);
    if let ExprKind::Paren(x) = e.node {
        lemma_unparen_idempotent(*x);
    }
}

/// Operands that count as equal are alike all the way down: at every
/// position, either both have no part there, or both have one, and the two
/// parts have the same form, operator, literal, names, mutability and number
/// of parts (parentheses around expressions aside). So `a + b == a + c`,
/// `f(x) == f(y)`, `x as u8 == x as u16` and `[a; 2] == [a; 3]`-typed casts
/// are never flagged.
pub proof fn lemma_equal_nodes_alike_everywhere(a: Node, b: Node, path: Seq<int>)
    requires
        nodes_equal(a, b),
    ensures
        node_at(a, path) is Some <==> node_at(b, path) is Some,
        node_at(a, path) is Some ==> node_head(node_at(a, path)->0) == node_head(
            node_at(b, path)->0,
        ),
    decreases path.len(),
{
    let (na, nb) = (norm(a), norm(b));
    assert(nodes_equal(na, nb)) by {
        if let (Node::E(x), Node::E(y)) = (a, b) {
            lemma_exp_equal_unparen(x, y);
        }
    }
    if let Node::E(x) = a {
        lemma_unparen_not_paren(x);
        lemma_unparen_idempotent(x);
    }
    if let Node::E(y) = b {
        lemma_unparen_not_paren(y);
        lemma_unparen_idempotent(y);
    }
    if path.len() == 0 {
        lemma_equal_nodes_same_head(na, nb);
    } else {
        lemma_children_agree(na, nb, path[0]);
        if let (Some(c), Some(d)) = (child(na, path[0]), child(nb, path[0])) {
            lemma_equal_nodes_alike_everywhere(c, d, path.drop_first());
        }
    }
}

// ---------------------------------------------------------------------------
// What the two lints flag
// ---------------------------------------------------------------------------

/// A comparison flagged for equal operands has operands alike at every
/// position: same form, operator, literal, names and mutability throughout.
/// So `a + b == a - b`, `x == y` and `p as *mut u8 == p as *const u8` are
/// never flagged.
pub proof fn lemma_flagged_operands_alike(e: Expr, path: Seq<int>)
    requires
        eq_op_finding(e) is Some,
    ensures
        e.node matches ExprKind::Binary(_, l, r) && {
            &&& (node_at(Node::E(*l), path) is Some <==> node_at(Node::E(*r), path) is Some)
            &&& (node_at(Node::E(*l), path) is Some ==> node_head(node_at(Node::E(*l), path)->0)
                == node_head(node_at(Node::E(*r), path)->0))
        },
{
    if let ExprKind::Binary(_, l, r) = e.node {
        lemma_equal_nodes_alike_everywhere(Node::E(*l), Node::E(*r), path);
    }
}

/// A comparison of a masked value with an integer literal, `_ & m <cmp> v`
/// or `_ | m <cmp> v`, is flagged exactly when it cannot come out both ways,
/// whatever type suffixes the literals `m` and `v` carry.
pub proof fn lemma_bit_mask_any_suffix(
    e: Expr,
    comparison: BinOp,
    bit_op: BinOp,
    mask: u64,
    mask_suffix: LitIntType,
    constant: u64,
    constant_suffix: LitIntType,
)
    requires
        e.node matches ExprKind::Binary(c, l, r) && (c == comparison && r.node == ExprKind::Lit(
            Lit::Int(constant, constant_suffix),
        ) && (l.node matches ExprKind::Binary(b, _, ml) && (b == bit_op && ml.node
            == ExprKind::Lit(Lit::Int(mask, mask_suffix))))),
        comparison_binop(comparison),
        bit_op == BinOp::BitAnd || bit_op == BinOp::BitOr,
    ensures
        bit_mask_finding(e) == if incompatible(bit_op, comparison, mask, constant) {
            Some((bit_op, comparison, mask, constant))
        } else {
            None
        },
{
}

/// An expression set against itself, `x <op> x`, is flagged for the six
/// comparisons, `&&`, `||`, `^`, `&` and `|`, and never for `+`, `-`, `*`,
/// `/`, `%`, `<<` or `>>`.
pub proof fn lemma_flagged_operators(e: Expr)
    requires
        e.node matches ExprKind::Binary(_, l, r) && (l == r && comparable_expr(*l)),
    ensures
        eq_op_finding(e) is Some <==> {
            let op = e.node->Binary_0;
            ||| op == BinOp::Eq
            ||| op == BinOp::Ne
            ||| op == BinOp::Lt
            ||| op == BinOp::Le
            ||| op == BinOp::Gt
            ||| op == BinOp::Ge
            ||| op == BinOp::And
            ||| op == BinOp::Or
            ||| op == BinOp::BitXor
            ||| op == BinOp::BitAnd
            ||| op == BinOp::BitOr
        },
{
    if let ExprKind::Binary(_, l, _) = e.node {
        lemma_exp_equal_reflexive(*l);
    }
}

} // verus!
