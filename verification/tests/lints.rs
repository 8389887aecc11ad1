use extra_lints::ast::{
    Abi, Arg, BareFnTy, BinOp, BindingMode, Expr, ExprKind, FieldPat, FnDecl, FunctionRetTy, Ident,
    IntTy, Lifetime, Lit, LitIntType, Mac, MutTy, Mutability, Pat, PatKind, PatWildKind, Path,
    PathParameters, PathSegment, QSelf, Sign, Span, StrStyle, Ty, TyKind, UnOp, Unsafety,
};
use extra_lints::derived::{check_same_expr, check_same_path, check_same_ty};
use extra_lints::eq_op::{is_pat_equal, is_ty_equal};
use extra_lints::bit_mask::BitMask;
use extra_lints::eq_op::{is_exp_equal, EqOp};
use extra_lints::lint::{Diagnostic, Level};
use extra_lints::{plugin_registrar, LintPassObject, Registry};

/// Hands out fresh node ids and spans, as the parser does.
struct Parser {
    next: u32,
}

impl Parser {
    fn new() -> Parser {
        Parser { next: 1 }
    }

    fn fresh(&mut self) -> (u32, Span) {
        let n = self.next;
        self.next += 1;
        (n, Span { lo: 10 * n, hi: 10 * n + 5 })
    }

    fn expr(&mut self, node: ExprKind) -> Expr {
        let (id, span) = self.fresh();
        Expr { id, span, node }
    }

    fn num(&mut self, v: u64) -> Expr {
        self.expr(ExprKind::Lit(Lit::Int(v, LitIntType::Unsuffixed(Sign::Plus))))
    }

    fn boolean(&mut self, b: bool) -> Expr {
        self.expr(ExprKind::Lit(Lit::Bool(b)))
    }

    fn string(&mut self, sym: u32) -> Expr {
        self.expr(ExprKind::Lit(Lit::Str(sym, StrStyle::Cooked)))
    }

    fn path(&mut self, name: u32) -> Path {
        let (_, span) = self.fresh();
        Path {
            span,
            global: false,
            segments: vec![PathSegment {
                identifier: Ident { name, ctxt: 0 },
                parameters: PathParameters::AngleBracketed(vec![], vec![], vec![]),
            }],
        }
    }

    fn var(&mut self, name: u32) -> Expr {
        let p = self.path(name);
        self.expr(ExprKind::Path(None, p))
    }

    fn bin(&mut self, op: BinOp, l: Expr, r: Expr) -> Expr {
        self.expr(ExprKind::Binary(op, Box::new(l), Box::new(r)))
    }

    fn paren(&mut self, e: Expr) -> Expr {
        self.expr(ExprKind::Paren(Box::new(e)))
    }

    fn neg(&mut self, e: Expr) -> Expr {
        self.expr(ExprKind::Unary(UnOp::Neg, Box::new(e)))
    }

    fn not(&mut self, e: Expr) -> Expr {
        self.expr(ExprKind::Unary(UnOp::Not, Box::new(e)))
    }

    fn call(&mut self, f: u32, args: Vec<Expr>) -> Expr {
        let callee = self.var(f);
        self.expr(ExprKind::Call(Box::new(callee), args))
    }

    fn method(&mut self, name: u32, receiver: Expr) -> Expr {
        self.expr(ExprKind::MethodCall(Ident { name, ctxt: 0 }, vec![], vec![receiver]))
    }

    fn cast(&mut self, e: Expr, ty_name: u32) -> Expr {
        let p = self.path(ty_name);
        let (id, span) = self.fresh();
        let ty = Ty { id, span, node: TyKind::Path(None, p) };
        self.expr(ExprKind::Cast(Box::new(e), Box::new(ty)))
    }

    fn array(&mut self, items: Vec<Expr>) -> Expr {
        self.expr(ExprKind::Vec(items))
    }

    fn tuple(&mut self, items: Vec<Expr>) -> Expr {
        self.expr(ExprKind::Tup(items))
    }

    fn boxed(&mut self, e: Expr) -> Expr {
        self.expr(ExprKind::Box(None, Box::new(e)))
    }

    fn invocation(&mut self, name: u32, tokens: u32) -> Mac {
        let (_, span) = self.fresh();
        Mac { name: Ident { name, ctxt: 0 }, tokens, span }
    }

    fn mac(&mut self, name: u32) -> Expr {
        let m = self.invocation(name, 0);
        self.expr(ExprKind::Mac(m))
    }

    fn addr_of(&mut self, mutbl: Mutability, e: Expr) -> Expr {
        self.expr(ExprKind::AddrOf(mutbl, Box::new(e)))
    }

    fn index(&mut self, e: Expr, i: Expr) -> Expr {
        self.expr(ExprKind::Index(Box::new(e), Box::new(i)))
    }
}

// Interned names used below.
const X: u32 = 1;
const MIN: u32 = 2;
const ID: u32 = 3;
const LEN: u32 = 4;
const F32: u32 = 5;
const VEC: u32 = 6;
const ONE_TEXT: u32 = 7;

/// Every expression inside `e`, `e` included.
fn subexprs<'a>(e: &'a Expr, out: &mut Vec<&'a Expr>) {
    out.push(e);
    match &e.node {
        ExprKind::Box(p, b) => {
            if let Some(p) = p {
                subexprs(p, out);
            }
            subexprs(b, out);
        }
        ExprKind::Vec(xs) | ExprKind::Tup(xs) => xs.iter().for_each(|x| subexprs(x, out)),
        ExprKind::Call(f, xs) => {
            subexprs(f, out);
            xs.iter().for_each(|x| subexprs(x, out));
        }
        ExprKind::MethodCall(_, _, xs) => xs.iter().for_each(|x| subexprs(x, out)),
        ExprKind::Binary(_, l, r) => {
            subexprs(l, out);
            subexprs(r, out);
        }
        ExprKind::Unary(_, x) | ExprKind::Cast(x, _) | ExprKind::Field(x, _) | ExprKind::Paren(x) => {
            subexprs(x, out)
        }
        _ => {}
    }
}

/// The `eq_op` diagnostics raised anywhere inside `e`.
fn eq_op_diagnostics(e: &Expr) -> Vec<Diagnostic> {
    let mut all = Vec::new();
    subexprs(e, &mut all);
    all.into_iter().filter_map(|x| EqOp.check_expr(x)).collect()
}

/// The `bad_bit_mask` diagnostics raised anywhere inside `e`.
fn bit_mask_diagnostics(e: &Expr) -> Vec<Diagnostic> {
    let mut all = Vec::new();
    subexprs(e, &mut all);
    all.into_iter().filter_map(|x| BitMask.check_expr(x)).collect()
}

#[test]
fn test_eq_op() {
    let mut p = Parser::new();
    // false != true
    let (f, t) = (p.boolean(false), p.boolean(true));
    let e = p.bin(BinOp::Ne, f, t);
    assert!(eq_op_diagnostics(&e).is_empty());
    // x - 1 == 2 - 1: we don't track state
    let (x, one) = (p.var(X), p.num(1));
    let l = p.bin(BinOp::Sub, x, one);
    let (two, one) = (p.num(2), p.num(1));
    let r = p.bin(BinOp::Sub, two, one);
    let e = p.bin(BinOp::Eq, l, r);
    assert!(eq_op_diagnostics(&e).is_empty());
    // (1 + 2) + 3 == 1 + (2 + 3): we don't match associative exprs yet
    let (a, b) = (p.num(1), p.num(2));
    let ab = p.bin(BinOp::Add, a, b);
    let ab = p.paren(ab);
    let c = p.num(3);
    let l = p.bin(BinOp::Add, ab, c);
    let (b, c) = (p.num(2), p.num(3));
    let bc = p.bin(BinOp::Add, b, c);
    let bc = p.paren(bc);
    let a = p.num(1);
    let r = p.bin(BinOp::Add, a, bc);
    let e = p.bin(BinOp::Eq, l, r);
    assert!(eq_op_diagnostics(&e).is_empty());
    // 1 + 2 == 2 + 1
    let (a, b) = (p.num(1), p.num(2));
    let l = p.bin(BinOp::Add, a, b);
    let (b, a) = (p.num(2), p.num(1));
    let r = p.bin(BinOp::Add, b, a);
    let e = p.bin(BinOp::Eq, l, r);
    assert!(eq_op_diagnostics(&e).is_empty());
    // min(1, 2) == min(2, 1)
    let args = vec![p.num(1), p.num(2)];
    let l = p.call(MIN, args);
    let args = vec![p.num(2), p.num(1)];
    let r = p.call(MIN, args);
    let e = p.bin(BinOp::Eq, l, r);
    assert!(eq_op_diagnostics(&e).is_empty());
}

#[test]
fn test_bit_masks() {
    let mut p = Parser::new();
    // x & 1 == 1
    let (x, one) = (p.var(X), p.num(1));
    let masked = p.bin(BinOp::BitAnd, x, one);
    let one = p.num(1);
    let e = p.bin(BinOp::Eq, masked, one);
    assert!(bit_mask_diagnostics(&e).is_empty());
    // x & 1 > 0
    let (x, one) = (p.var(X), p.num(1));
    let masked = p.bin(BinOp::BitAnd, x, one);
    let zero = p.num(0);
    let e = p.bin(BinOp::Gt, masked, zero);
    assert!(bit_mask_diagnostics(&e).is_empty());
}

fn eq_op_message(d: &Diagnostic) -> &str {
    d.message.as_str()
}

#[test]
fn one_eq_one_is_flagged() {
    let mut p = Parser::new();
    let (a, b) = (p.num(1), p.num(1));
    let e = p.bin(BinOp::Eq, a, b);
    let d = EqOp.check_expr(&e).expect("1 == 1 is flagged");
    assert_eq!(eq_op_message(&d), "equal expressions as operands to ==");
    assert_eq!(d.span, e.span);
    assert_eq!(d.lint.name, "EQ_OP");
    assert_eq!(d.lint.default_level, Level::Warn);
}

#[test]
fn parens_and_unop_are_seen_through() {
    let mut p = Parser::new();
    // (-(2) < -(2))
    let two = p.num(2);
    let two = p.paren(two);
    let l = p.neg(two);
    let two = p.num(2);
    let two = p.paren(two);
    let r = p.neg(two);
    let e = p.bin(BinOp::Lt, l, r);
    let e = p.paren(e);
    let found = eq_op_diagnostics(&e);
    assert_eq!(found.len(), 1);
    assert_eq!(found[0].message, "equal expressions as operands to <");
    // 1 != (1)
    let one = p.num(1);
    let inner = p.num(1);
    let r = p.paren(inner);
    let e = p.bin(BinOp::Ne, one, r);
    assert_eq!(EqOp.check_expr(&e).unwrap().message, "equal expressions as operands to !=");
    // (1 + 2) == 1 + 2
    let (a, b) = (p.num(1), p.num(2));
    let l = p.bin(BinOp::Add, a, b);
    let l = p.paren(l);
    let (a, b) = (p.num(1), p.num(2));
    let r = p.bin(BinOp::Add, a, b);
    let e = p.bin(BinOp::Eq, l, r);
    assert_eq!(eq_op_diagnostics(&e).len(), 1);
}

#[test]
fn calls_are_compared() {
    let mut p = Parser::new();
    // id(true) && id(true)
    let arg = vec![p.boolean(true)];
    let l = p.call(ID, arg);
    let arg = vec![p.boolean(true)];
    let r = p.call(ID, arg);
    let e = p.bin(BinOp::And, l, r);
    assert_eq!(EqOp.check_expr(&e).unwrap().message, "equal expressions as operands to &&");
}

#[test]
fn casts_are_compared() {
    let mut p = Parser::new();
    // (10 as f32) > (10 as f32)
    let ten = p.num(10);
    let l = p.cast(ten, F32);
    let l = p.paren(l);
    let ten = p.num(10);
    let r = p.cast(ten, F32);
    let r = p.paren(r);
    let e = p.bin(BinOp::Gt, l, r);
    assert!(EqOp.check_expr(&e).is_some());
}

#[test]
fn complex_binops_raise_three_diagnostics() {
    let mut p = Parser::new();
    // ((1 + 1) & (1 + 1) == (1 + 1) & (1 + 1))
    let mut side = |p: &mut Parser| {
        let (a, b) = (p.num(1), p.num(1));
        let s1 = p.bin(BinOp::Add, a, b);
        let s1 = p.paren(s1);
        let (a, b) = (p.num(1), p.num(1));
        let s2 = p.bin(BinOp::Add, a, b);
        let s2 = p.paren(s2);
        p.bin(BinOp::BitAnd, s1, s2)
    };
    let l = side(&mut p);
    let r = side(&mut p);
    let e = p.bin(BinOp::Eq, l, r);
    let e = p.paren(e);
    let found = eq_op_diagnostics(&e);
    assert_eq!(found.len(), 3);
    assert_eq!(found[0].message, "equal expressions as operands to ==");
    assert_eq!(found[1].message, "equal expressions as operands to &");
    assert_eq!(found[2].message, "equal expressions as operands to &");
    // (1 * 2) + (3 * 4) == 1 * 2 + 3 * 4
    let (a, b) = (p.num(1), p.num(2));
    let m1 = p.bin(BinOp::Mul, a, b);
    let m1 = p.paren(m1);
    let (a, b) = (p.num(3), p.num(4));
    let m2 = p.bin(BinOp::Mul, a, b);
    let m2 = p.paren(m2);
    let l = p.bin(BinOp::Add, m1, m2);
    let (a, b) = (p.num(1), p.num(2));
    let m1 = p.bin(BinOp::Mul, a, b);
    let (a, b) = (p.num(3), p.num(4));
    let m2 = p.bin(BinOp::Mul, a, b);
    let r = p.bin(BinOp::Add, m1, m2);
    let e = p.bin(BinOp::Eq, l, r);
    assert_eq!(eq_op_diagnostics(&e).len(), 1);
}

#[test]
fn boxes_and_parens_are_compared() {
    let mut p = Parser::new();
    // box 1 == box 1 || (1) < (1)
    let one = p.num(1);
    let l = p.boxed(one);
    let one = p.num(1);
    let r = p.boxed(one);
    let boxes = p.bin(BinOp::Eq, l, r);
    let one = p.num(1);
    let l = p.paren(one);
    let one = p.num(1);
    let r = p.paren(one);
    let parens = p.bin(BinOp::Lt, l, r);
    let e = p.bin(BinOp::Or, boxes, parens);
    let found = eq_op_diagnostics(&e);
    assert_eq!(found.len(), 2);
    assert_eq!(found[0].message, "equal expressions as operands to ==");
    assert_eq!(found[1].message, "equal expressions as operands to <");
}

#[test]
fn string_literals_are_compared() {
    let mut p = Parser::new();
    let (a, b) = (p.string(ONE_TEXT), p.string(ONE_TEXT));
    let e = p.bin(BinOp::Eq, a, b);
    assert!(EqOp.check_expr(&e).is_some());
    // a different text is a different symbol
    let (a, b) = (p.string(ONE_TEXT), p.string(ONE_TEXT + 1));
    let e = p.bin(BinOp::Eq, a, b);
    assert!(EqOp.check_expr(&e).is_none());
    // the same digits with another suffix are another literal
    let a = p.num(1);
    let b = p.expr(ExprKind::Lit(Lit::Int(1, LitIntType::Signed(IntTy::I32, Sign::Plus))));
    let e = p.bin(BinOp::Eq, a, b);
    assert!(EqOp.check_expr(&e).is_none());
}

#[test]
fn arrays_tuples_and_methods_are_compared_but_not_macros() {
    let mut p = Parser::new();
    // !([1] != [1])
    let items = vec![p.num(1)];
    let l = p.array(items);
    let items = vec![p.num(1)];
    let r = p.array(items);
    let ne = p.bin(BinOp::Ne, l, r);
    let ne = p.paren(ne);
    let e = p.not(ne);
    assert_eq!(eq_op_diagnostics(&e).len(), 1);
    // !((1, 2) != (1, 2))
    let items = vec![p.num(1), p.num(2)];
    let l = p.tuple(items);
    let items = vec![p.num(1), p.num(2)];
    let r = p.tuple(items);
    let ne = p.bin(BinOp::Ne, l, r);
    let ne = p.paren(ne);
    let e = p.not(ne);
    assert_eq!(eq_op_diagnostics(&e).len(), 1);
    // [1].len() == [1].len()
    let items = vec![p.num(1)];
    let arr = p.array(items);
    let l = p.method(LEN, arr);
    let items = vec![p.num(1)];
    let arr = p.array(items);
    let r = p.method(LEN, arr);
    let e = p.bin(BinOp::Eq, l, r);
    assert!(EqOp.check_expr(&e).is_some());
    // vec![1, 2, 3] == vec![1, 2, 3]: macro invocations are not compared
    let (l, r) = (p.mac(VEC), p.mac(VEC));
    let e = p.bin(BinOp::Eq, l, r);
    assert!(EqOp.check_expr(&e).is_none());
}

#[test]
fn only_comparisons_and_logical_and_bitwise_operators_are_checked() {
    let mut p = Parser::new();
    for op in [
        BinOp::Eq, BinOp::Lt, BinOp::Le, BinOp::Gt, BinOp::Ge, BinOp::Ne, BinOp::And, BinOp::Or,
        BinOp::BitXor, BinOp::BitAnd, BinOp::BitOr,
    ] {
        let (a, b) = (p.var(X), p.var(X));
        let e = p.bin(op, a, b);
        assert!(EqOp.check_expr(&e).is_some(), "{:?}", op);
    }
    for op in [BinOp::Add, BinOp::Sub, BinOp::Mul, BinOp::Div, BinOp::Rem, BinOp::Shl, BinOp::Shr] {
        let (a, b) = (p.var(X), p.var(X));
        let e = p.bin(op, a, b);
        assert!(EqOp.check_expr(&e).is_none(), "{:?}", op);
    }
}

#[test]
fn equality_does_not_depend_on_operand_order() {
    let mut p = Parser::new();
    let inner = p.var(X);
    let a = p.paren(inner);
    let b = p.var(X);
    assert!(is_exp_equal(&a, &b));
    assert!(is_exp_equal(&b, &a));
    let c = p.num(3);
    assert!(!is_exp_equal(&a, &c));
    assert!(!is_exp_equal(&c, &a));
}

/// `x <bit_op> mask <op> constant`
fn masked(p: &mut Parser, bit_op: BinOp, mask: u64, op: BinOp, constant: u64) -> Expr {
    let (x, m) = (p.var(X), p.num(mask));
    let l = p.bin(bit_op, x, m);
    let c = p.num(constant);
    p.bin(op, l, c)
}

#[test]
fn readme_bit_mask_table() {
    let mut p = Parser::new();
    let cases = [
        (BinOp::BitAnd, 2, BinOp::Eq, 3, "incompatible bit mask: _ & 2 can never be equal to 3"),
        (BinOp::BitAnd, 2, BinOp::Lt, 3, "incompatible bit mask: _ & 2 will always be lower than 3"),
        (BinOp::BitAnd, 1, BinOp::Gt, 1, "incompatible bit mask: _ & 1 will never be higher than 1"),
        (BinOp::BitOr, 1, BinOp::Eq, 0, "incompatible bit mask: _ | 1 can never be equal to 0"),
        (BinOp::BitOr, 1, BinOp::Lt, 1, "incompatible bit mask: _ | 1 will never be lower than 1"),
        (BinOp::BitOr, 1, BinOp::Gt, 0, "incompatible bit mask: _ | 1 will always be higher than 0"),
    ];
    for (bit_op, mask, op, constant, message) in cases {
        let e = masked(&mut p, bit_op, mask, op, constant);
        let d = BitMask.check_expr(&e).expect(message);
        assert_eq!(d.message, message);
        assert_eq!(d.span, e.span);
        assert_eq!(d.lint.name, "BAD_BIT_MASK");
        assert_eq!(d.lint.default_level, Level::Deny);
    }
}

#[test]
fn bit_mask_second_comparison_of_each_row() {
    let mut p = Parser::new();
    let e = masked(&mut p, BinOp::BitAnd, 2, BinOp::Ne, 3);
    assert_eq!(
        BitMask.check_expr(&e).unwrap().message,
        "incompatible bit mask: _ & 2 can never be equal to 3"
    );
    let e = masked(&mut p, BinOp::BitAnd, 2, BinOp::Ge, 3);
    assert!(BitMask.check_expr(&e).is_some());
    let e = masked(&mut p, BinOp::BitAnd, 1, BinOp::Le, 1);
    assert!(BitMask.check_expr(&e).is_some());
    let e = masked(&mut p, BinOp::BitOr, 1, BinOp::Ge, 1);
    assert!(BitMask.check_expr(&e).is_some());
    let e = masked(&mut p, BinOp::BitOr, 1, BinOp::Le, 0);
    assert!(BitMask.check_expr(&e).is_some());
}

#[test]
fn bit_mask_compatible_comparisons_pass() {
    let mut p = Parser::new();
    // x & 3 == 2 can hold (x = 2)
    let e = masked(&mut p, BinOp::BitAnd, 3, BinOp::Eq, 2);
    assert!(BitMask.check_expr(&e).is_none());
    // x & 3 < 3 can fail (x = 3)
    let e = masked(&mut p, BinOp::BitAnd, 3, BinOp::Lt, 3);
    assert!(BitMask.check_expr(&e).is_none());
    // x | 2 == 3 can hold (x = 1)
    let e = masked(&mut p, BinOp::BitOr, 2, BinOp::Eq, 3);
    assert!(BitMask.check_expr(&e).is_none());
    // x | 1 > 1 can hold (x = 2)
    let e = masked(&mut p, BinOp::BitOr, 1, BinOp::Gt, 1);
    assert!(BitMask.check_expr(&e).is_none());
    // x ^ 1 == 2: not a mask
    let e = masked(&mut p, BinOp::BitXor, 1, BinOp::Eq, 2);
    assert!(BitMask.check_expr(&e).is_none());
    // x & 1 + 2: not a comparison
    let e = masked(&mut p, BinOp::BitAnd, 1, BinOp::Add, 2);
    assert!(BitMask.check_expr(&e).is_none());
}

#[test]
fn bit_mask_reads_through_parentheses_and_either_side() {
    let mut p = Parser::new();
    // (1 & x) == 2
    let (m, x) = (p.num(1), p.var(X));
    let l = p.bin(BinOp::BitAnd, m, x);
    let l = p.paren(l);
    let c = p.num(2);
    let e = p.bin(BinOp::Eq, l, c);
    assert_eq!(
        BitMask.check_expr(&e).unwrap().message,
        "incompatible bit mask: _ & 1 can never be equal to 2"
    );
    // the constant must stand on the right: 2 == x & 1 is not read
    let (x, m) = (p.var(X), p.num(1));
    let r = p.bin(BinOp::BitAnd, x, m);
    let c = p.num(2);
    let e = p.bin(BinOp::Eq, c, r);
    assert!(BitMask.check_expr(&e).is_none());
    // a parenthesised constant is not read either: x & 1 == (2)
    let (x, m) = (p.var(X), p.num(1));
    let l = p.bin(BinOp::BitAnd, x, m);
    let c = p.num(2);
    let c = p.paren(c);
    let e = p.bin(BinOp::Eq, l, c);
    assert!(BitMask.check_expr(&e).is_none());
}

#[test]
fn bit_mask_flags_exactly_the_constant_comparisons() {
    // for small masks and constants, the lint fires exactly when no value of
    // `_` changes the outcome of the comparison
    let mut p = Parser::new();
    for bit_op in [BinOp::BitAnd, BinOp::BitOr] {
        for op in [BinOp::Eq, BinOp::Ne, BinOp::Lt, BinOp::Ge, BinOp::Le, BinOp::Gt] {
            for mask in 0u64..8 {
                for constant in 0u64..8 {
                    let mut outcomes = std::collections::BTreeSet::new();
                    for x in 0u64..16 {
                        let v = if bit_op == BinOp::BitAnd { x & mask } else { x | mask };
                        let r = match op {
                            BinOp::Eq => v == constant,
                            BinOp::Ne => v != constant,
                            BinOp::Lt => v < constant,
                            BinOp::Ge => v >= constant,
                            BinOp::Le => v <= constant,
                            _ => v > constant,
                        };
                        outcomes.insert(r);
                    }
                    let e = masked(&mut p, bit_op, mask, op, constant);
                    let flagged = BitMask.check_expr(&e).is_some();
                    // the table's claim for this row
                    let claim = match op {
                        BinOp::Eq => false,
                        BinOp::Ne => true,
                        BinOp::Lt | BinOp::Le => bit_op == BinOp::BitAnd,
                        _ => bit_op != BinOp::BitAnd,
                    };
                    let constant_as_claimed = outcomes.len() == 1 && outcomes.contains(&claim);
                    assert_eq!(flagged, constant_as_claimed, "{:?} {} {:?} {}", bit_op, mask, op, constant);
                }
            }
        }
    }
}

#[test]
fn large_numbers_are_written_in_full() {
    let mut p = Parser::new();
    let e = masked(&mut p, BinOp::BitOr, u64::MAX, BinOp::Lt, 1234567890);
    assert_eq!(
        BitMask.check_expr(&e).unwrap().message,
        "incompatible bit mask: _ | 18446744073709551615 will never be lower than 1234567890"
    );
    let e = masked(&mut p, BinOp::BitAnd, 0, BinOp::Eq, 10);
    assert_eq!(
        BitMask.check_expr(&e).unwrap().message,
        "incompatible bit mask: _ & 0 can never be equal to 10"
    );
}

#[test]
fn registrar_adds_both_passes_in_order() {
    let mut reg = Registry::new();
    plugin_registrar(&mut reg);
    assert_eq!(reg.lint_passes.len(), 2);
    assert!(matches!(reg.lint_passes[0], LintPassObject::EqOp(_)));
    assert!(matches!(reg.lint_passes[1], LintPassObject::BitMask(_)));
    let eq_lints = reg.lint_passes[0].get_lints();
    assert_eq!(eq_lints.len(), 1);
    assert_eq!(eq_lints[0].name, "EQ_OP");
    assert_eq!(eq_lints[0].desc, "warn about comparing equal expressions (e.g. x == x)");
    let mask_lints = reg.lint_passes[1].get_lints();
    assert_eq!(mask_lints[0].name, "BAD_BIT_MASK");
    assert_eq!(mask_lints[0].default_level, Level::Deny);
    // both passes run on the same expression: x & 2 == x & 2
    let mut p = Parser::new();
    let (x, m) = (p.var(X), p.num(2));
    let l = p.bin(BinOp::BitAnd, x, m);
    let (x, m) = (p.var(X), p.num(2));
    let r = p.bin(BinOp::BitAnd, x, m);
    let e = p.bin(BinOp::Eq, l, r);
    assert!(reg.lint_passes[0].check_expr(&e).is_some());
    assert!(reg.lint_passes[1].check_expr(&e).is_none());
}

impl Parser {
    fn ty(&mut self, node: TyKind) -> Ty {
        let (id, span) = self.fresh();
        Ty { id, span, node }
    }

    fn ty_path(&mut self, name: u32) -> Ty {
        let p = self.path(name);
        self.ty(TyKind::Path(None, p))
    }

    fn pat(&mut self, node: PatKind) -> Pat {
        let (id, span) = self.fresh();
        Pat { id, span, node }
    }

    fn binding(&mut self, name: u32) -> Pat {
        self.pat(PatKind::Ident(BindingMode::ByValue(Mutability::Immutable), Ident { name, ctxt: 0 }, None))
    }
}

const T: u32 = 10;
const TRAIT: u32 = 11;
const NEW: u32 = 12;
const U8: u32 = 13;
const A: u32 = 14;

#[test]
fn types_are_compared_by_shape() {
    let mut p = Parser::new();
    // &'a mut [u8; 4] against itself, written twice
    let mut make = |p: &mut Parser| {
        let elem = p.ty_path(U8);
        let four = p.num(4);
        let arr = p.ty(TyKind::FixedLengthVec(Box::new(elem), Box::new(four)));
        let (id, span) = p.fresh();
        let lt = Lifetime { id, span, name: A };
        p.ty(TyKind::Rptr(Some(lt), MutTy { ty: Box::new(arr), mutbl: Mutability::Mutable }))
    };
    let a = make(&mut p);
    let b = make(&mut p);
    assert!(is_ty_equal(&a, &b));
    // &'a [u8; 4] is another type
    let elem = p.ty_path(U8);
    let four = p.num(4);
    let arr = p.ty(TyKind::FixedLengthVec(Box::new(elem), Box::new(four)));
    let c = p.ty(TyKind::Rptr(None, MutTy { ty: Box::new(arr), mutbl: Mutability::Mutable }));
    assert!(!is_ty_equal(&a, &c));
    // `_` equals `_`; a macro type never equals anything
    let (i1, i2) = (p.ty(TyKind::Infer), p.ty(TyKind::Infer));
    assert!(is_ty_equal(&i1, &i2));
    let inv = p.invocation(T, 0);
    let m1 = p.ty(TyKind::Mac(inv));
    assert!(!is_ty_equal(&m1, &m1));
    // (u8) is not read through, unlike parentheses in expressions
    let inner = p.ty_path(U8);
    let paren = p.ty(TyKind::Paren(Box::new(inner)));
    let plain = p.ty_path(U8);
    assert!(!is_ty_equal(&paren, &plain));
}

#[test]
fn bare_fn_types_compare_their_arguments() {
    let mut p = Parser::new();
    let mut make = |p: &mut Parser, arg_name: u32| {
        let ty = p.ty_path(U8);
        let pat = p.binding(arg_name);
        let (id, _) = p.fresh();
        let (_, span) = p.fresh();
        let decl = FnDecl {
            inputs: vec![Arg { ty: Box::new(ty), pat: Box::new(pat), id }],
            output: FunctionRetTy::DefaultReturn(span),
            variadic: false,
        };
        let f = BareFnTy { unsafety: Unsafety::Normal, abi: Abi::Rust, lifetimes: vec![], decl: Box::new(decl) };
        p.ty(TyKind::BareFn(Box::new(f)))
    };
    let a = make(&mut p, X);
    let b = make(&mut p, X);
    let c = make(&mut p, T);
    assert!(is_ty_equal(&a, &b));
    assert!(!is_ty_equal(&a, &c));
}

#[test]
fn patterns_are_compared_by_shape() {
    let mut p = Parser::new();
    // Variant(x, _) against itself
    let mut make = |p: &mut Parser| {
        let path = p.path(T);
        let x = p.binding(X);
        let wild = p.pat(PatKind::Wild(PatWildKind::Single));
        p.pat(PatKind::Enum(path, Some(vec![x, wild])))
    };
    let a = make(&mut p);
    let b = make(&mut p);
    assert!(is_pat_equal(&a, &b));
    // Variant(..) is another pattern
    let path = p.path(T);
    let c = p.pat(PatKind::Enum(path, None));
    assert!(!is_pat_equal(&a, &c));
    // S { x, .. } against S { x: x, .. }: the shorthand flag counts
    let path = p.path(T);
    let x = p.binding(X);
    let d = p.pat(PatKind::Struct(path, vec![FieldPat { ident: Ident { name: X, ctxt: 0 }, pat: Box::new(x), is_shorthand: true }], true));
    let path = p.path(T);
    let x = p.binding(X);
    let e = p.pat(PatKind::Struct(path, vec![FieldPat { ident: Ident { name: X, ctxt: 0 }, pat: Box::new(x), is_shorthand: false }], true));
    assert!(!is_pat_equal(&d, &e));
    assert!(is_pat_equal(&d, &d));
    // identifiers from another hygiene context differ
    let y = p.pat(PatKind::Ident(BindingMode::ByValue(Mutability::Immutable), Ident { name: X, ctxt: 1 }, None));
    let x = p.binding(X);
    assert!(!is_pat_equal(&x, &y));
}

#[test]
fn qualified_paths_compare_the_qualifying_type_as_a_node() {
    let mut p = Parser::new();
    // <_ as Trait>::new == <_ as Trait>::new: the `_` nodes are alike
    let mut qualified = |p: &mut Parser, ty: Ty| {
        let path = p.path(NEW);
        p.expr(ExprKind::Path(Some(QSelf { ty: Box::new(ty), position: 1 }), path))
    };
    let i1 = p.ty(TyKind::Infer);
    let i2 = p.ty(TyKind::Infer);
    let a = qualified(&mut p, i1);
    let b = qualified(&mut p, i2);
    let (a2, b2) = (p.paren(a), p.paren(b));
    let e = p.bin(BinOp::Eq, a2, b2);
    assert!(EqOp.check_expr(&e).is_some());
    // <T as Trait>::new twice: the two `T` paths sit at different places in
    // the source, so the qualifying types are different nodes
    let t1 = p.ty_path(T);
    let t2 = p.ty_path(T);
    let a = qualified(&mut p, t1);
    let b = qualified(&mut p, t2);
    assert!(!is_exp_equal(&a, &b));
    let _ = TRAIT;
}

#[test]
fn type_arguments_in_paths_are_compared_as_nodes() {
    let mut p = Parser::new();
    // Vec::<u8>::new() == Vec::<u8>::new(): the `u8` arguments are separate nodes
    let mut generic_call = |p: &mut Parser| {
        let arg = p.ty_path(U8);
        let (_, span) = p.fresh();
        let path = Path {
            span,
            global: false,
            segments: vec![
                PathSegment { identifier: Ident { name: VEC, ctxt: 0 }, parameters: PathParameters::AngleBracketed(vec![], vec![arg], vec![]) },
                PathSegment { identifier: Ident { name: NEW, ctxt: 0 }, parameters: PathParameters::AngleBracketed(vec![], vec![], vec![]) },
            ],
        };
        let callee = p.expr(ExprKind::Path(None, path));
        p.expr(ExprKind::Call(Box::new(callee), vec![]))
    };
    let a = generic_call(&mut p);
    let b = generic_call(&mut p);
    assert!(!is_exp_equal(&a, &b));
    // one and the same node is identical to itself
    assert!(is_exp_equal(&a, &a));
    assert!(check_same_expr(&a, &a));
    assert!(!check_same_expr(&a, &b));
}

#[test]
fn node_identity_counts_ids_and_spans() {
    let mut p = Parser::new();
    let a = p.ty_path(U8);
    let b = p.ty_path(U8);
    assert!(check_same_ty(&a, &a));
    assert!(!check_same_ty(&a, &b));
    let pa = p.path(T);
    let mut pb = p.path(T);
    assert!(!check_same_path(&pa, &pb));
    pb.span = pa.span;
    assert!(check_same_path(&pa, &pb));
}

const ARR: u32 = 15;
const MAC_M: u32 = 16;

#[test]
fn address_of_and_indexing_are_compared() {
    let mut p = Parser::new();
    // &x == &x
    let x = p.var(X);
    let l = p.addr_of(Mutability::Immutable, x);
    let x = p.var(X);
    let r = p.addr_of(Mutability::Immutable, x);
    let e = p.bin(BinOp::Eq, l, r);
    assert_eq!(EqOp.check_expr(&e).unwrap().message, "equal expressions as operands to ==");
    // &mut x == &x: another mutability
    let x = p.var(X);
    let l = p.addr_of(Mutability::Mutable, x);
    let x = p.var(X);
    let r = p.addr_of(Mutability::Immutable, x);
    let e = p.bin(BinOp::Eq, l, r);
    assert!(EqOp.check_expr(&e).is_none());
    // a[0] == a[0]
    let (a, i) = (p.var(ARR), p.num(0));
    let l = p.index(a, i);
    let (a, i) = (p.var(ARR), p.num(0));
    let r = p.index(a, i);
    let e = p.bin(BinOp::Eq, l, r);
    assert!(EqOp.check_expr(&e).is_some());
    // a[0] == a[1]
    let (a, i) = (p.var(ARR), p.num(0));
    let l = p.index(a, i);
    let (a, i) = (p.var(ARR), p.num(1));
    let r = p.index(a, i);
    let e = p.bin(BinOp::Eq, l, r);
    assert!(EqOp.check_expr(&e).is_none());
}

#[test]
fn macro_types_in_qualified_paths_are_separate_nodes() {
    let mut p = Parser::new();
    // <m!(u8) as T>::new == <m!(u16) as T>::new
    let mut qualified = |p: &mut Parser, tokens: u32| {
        let inv = p.invocation(MAC_M, tokens);
        let ty = p.ty(TyKind::Mac(inv));
        let path = p.path(NEW);
        p.expr(ExprKind::Path(Some(QSelf { ty: Box::new(ty), position: 1 }), path))
    };
    let a = qualified(&mut p, U8);
    let b = qualified(&mut p, U8 + 1);
    assert!(!is_exp_equal(&a, &b));
    // even with the same tokens, two invocations stand at different places
    let c = qualified(&mut p, U8);
    assert!(!is_exp_equal(&a, &c));
}

#[test]
fn equality_of_operands_is_transitive() {
    let mut p = Parser::new();
    // (x + 1), x + 1 and ((x + 1)) are all equal to one another
    let (x, one) = (p.var(X), p.num(1));
    let s = p.bin(BinOp::Add, x, one);
    let a = p.paren(s);
    let (x, one) = (p.var(X), p.num(1));
    let b = p.bin(BinOp::Add, x, one);
    let (x, one) = (p.var(X), p.num(1));
    let s = p.bin(BinOp::Add, x, one);
    let s = p.paren(s);
    let c = p.paren(s);
    assert!(is_exp_equal(&a, &b));
    assert!(is_exp_equal(&b, &c));
    assert!(is_exp_equal(&a, &c));
}
