//! The part of a Rust syntax tree that the lints read.
//!
//! The shapes follow the compiler's own syntax tree: every expression, type
//! and pattern carries its node id and its span, names are interned symbols,
//! and the forms that no lint looks into are kept as opaque leaves.
use vstd::prelude::*;

verus! {

/// An interned string: equal text has an equal symbol.
pub type Symbol = u32;

/// The id that the parser gives each node.
pub type NodeId = u32;

/// A byte range of the source text.
#[derive(Clone, Copy, Debug, PartialEq, Eq, Structural)]
pub struct Span {
    pub lo: u32,
    pub hi: u32,
}

/// An identifier: its name and its hygiene context.
#[derive(Clone, Copy, Debug, PartialEq, Eq, Structural)]
pub struct Ident {
    pub name: Symbol,
    pub ctxt: u32,
}

/// Binary operators.
#[derive(Clone, Copy, Debug, PartialEq, Eq, Structural)]
pub enum BinOp {
    Add,
    Sub,
    Mul,
    Div,
    Rem,
    And,
    Or,
    BitXor,
    BitAnd,
    BitOr,
    Shl,
    Shr,
    Eq,
    Lt,
    Le,
    Ne,
    Ge,
    Gt,
}

/// Unary operators.
#[derive(Clone, Copy, Debug, PartialEq, Eq, Structural)]
pub enum UnOp {
    Uniq,
    Deref,
    Not,
    Neg,
}

#[derive(Clone, Copy, Debug, PartialEq, Eq, Structural)]
pub enum Mutability {
    Mutable,
    Immutable,
}

#[derive(Clone, Copy, Debug, PartialEq, Eq, Structural)]
pub enum BindingMode {
    ByRef(Mutability),
    ByValue(Mutability),
}

/// `_` or `..` in a pattern.
#[derive(Clone, Copy, Debug, PartialEq, Eq, Structural)]
pub enum PatWildKind {
    Single,
    Multi,
}

#[derive(Clone, Copy, Debug, PartialEq, Eq, Structural)]
pub enum Unsafety {
    Unsafe,
    Normal,
}

/// Calling conventions of a bare function type.
#[derive(Clone, Copy, Debug, PartialEq, Eq, Structural)]
pub enum Abi {
    Cdecl,
    Stdcall,
    Fastcall,
    Vectorcall,
    Aapcs,
    Win64,
    Rust,
    C,
    System,
    RustIntrinsic,
    RustCall,
    PlatformIntrinsic,
}

/// `?Sized` against a plain trait bound.
#[derive(Clone, Copy, Debug, PartialEq, Eq, Structural)]
pub enum TraitBoundModifier {
    Bare,
    Maybe,
}

#[derive(Clone, Copy, Debug, PartialEq, Eq, Structural)]
pub enum StrStyle {
    Cooked,
    Raw(u32),
}

#[derive(Clone, Copy, Debug, PartialEq, Eq, Structural)]
pub enum IntTy {
    Is,
    I8,
    I16,
    I32,
    I64,
}

#[derive(Clone, Copy, Debug, PartialEq, Eq, Structural)]
pub enum UintTy {
    Us,
    U8,
    U16,
    U32,
    U64,
}

#[derive(Clone, Copy, Debug, PartialEq, Eq, Structural)]
pub enum FloatTy {
    F32,
    F64,
}

/// The sign the parser recorded with an integer literal.
#[derive(Clone, Copy, Debug, PartialEq, Eq, Structural)]
pub enum Sign {
    Minus,
    Plus,
}

#[derive(Clone, Copy, Debug, PartialEq, Eq, Structural)]
pub enum LitIntType {
    Signed(IntTy, Sign),
    Unsigned(UintTy),
    Unsuffixed(Sign),
}

/// A literal. Text (of strings, byte strings and float literals) is interned.
#[derive(Clone, Copy, Debug, PartialEq, Eq, Structural)]
pub enum Lit {
    Str(Symbol, StrStyle),
    Binary(Symbol),
    Byte(u8),
    Char(char),
    Int(u64, LitIntType),
    Float(Symbol, FloatTy),
    FloatUnsuffixed(Symbol),
    Bool(bool),
}

/// A macro invocation: the macro's name, its tokens (interned as one text)
/// and where it stands.
#[derive(Clone, Copy, Debug, PartialEq, Eq, Structural)]
pub struct Mac {
    pub name: Ident,
    pub tokens: Symbol,
    pub span: Span,
}

/// A lifetime such as `'a`.
#[derive(Clone, Copy, Debug, PartialEq, Eq, Structural)]
pub struct Lifetime {
    pub id: NodeId,
    pub span: Span,
    pub name: Symbol,
}

/// A lifetime parameter with its bounds: `'a: 'b + 'c`.
pub struct LifetimeDef {
    pub lifetime: Lifetime,
    pub bounds: Vec<Lifetime>,
}

/// An expression.
pub struct Expr {
    pub id: NodeId,
    pub span: Span,
    pub node: ExprKind,
}

pub enum ExprKind {
    /// `box (place) value`
    Box(Option<Box<Expr>>, Box<Expr>),
    /// `[a, b, c]`
    Vec(Vec<Expr>),
    /// `f(a, b)`
    Call(Box<Expr>, Vec<Expr>),
    /// `receiver.method::<T>(args)`: the receiver is the first argument.
    MethodCall(Ident, Vec<Ty>, Vec<Expr>),
    /// `(a, b)`
    Tup(Vec<Expr>),
    Binary(BinOp, Box<Expr>, Box<Expr>),
    Unary(UnOp, Box<Expr>),
    Lit(Lit),
    /// `e as T`
    Cast(Box<Expr>, Box<Ty>),
    /// `e.field`
    Field(Box<Expr>, Ident),
    /// `&e`, `&mut e`
    AddrOf(Mutability, Box<Expr>),
    /// `e[i]`
    Index(Box<Expr>, Box<Expr>),
    /// A path, possibly qualified: `<T as Trait>::name`.
    Path(Option<QSelf>, Path),
    /// `(e)`
    Paren(Box<Expr>),
    /// A macro invocation.
    Mac(Mac),
    /// Any other form (blocks, `if`, `match`, assignments, loops, ...).
    Other,
}

/// A type.
pub struct Ty {
    pub id: NodeId,
    pub span: Span,
    pub node: TyKind,
}

pub enum TyKind {
    /// `[T]`
    Vec(Box<Ty>),
    /// `[T; n]`
    FixedLengthVec(Box<Ty>, Box<Expr>),
    /// `*const T`, `*mut T`
    Ptr(MutTy),
    /// `&'a mut T`
    Rptr(Option<Lifetime>, MutTy),
    /// `unsafe extern "C" fn(A) -> B`
    BareFn(Box<BareFnTy>),
    /// `(A, B)`
    Tup(Vec<Ty>),
    Path(Option<QSelf>, Path),
    /// `Trait + 'a + Send`
    ObjectSum(Box<Ty>, Vec<TyParamBound>),
    /// `for<'a> Trait<'a>`
    PolyTraitRef(Vec<TyParamBound>),
    /// `(T)`
    Paren(Box<Ty>),
    /// `typeof(e)`
    Typeof(Box<Expr>),
    /// `_`
    Infer,
    /// A macro in type position.
    Mac(Mac),
}

/// A pattern.
pub struct Pat {
    pub id: NodeId,
    pub span: Span,
    pub node: PatKind,
}

pub enum PatKind {
    Wild(PatWildKind),
    /// `ref mut name @ sub`
    Ident(BindingMode, Ident, Option<Box<Pat>>),
    /// `Variant(a, b)`, or `Variant(..)` when the list is absent.
    Enum(Path, Option<Vec<Pat>>),
    /// `Struct { a, b: p, .. }`: the flag is the trailing `..`.
    Struct(Path, Vec<FieldPat>, bool),
    Tup(Vec<Pat>),
    Box(Box<Pat>),
    /// `&mut p`
    Region(Box<Pat>, Mutability),
    /// A literal or constant expression.
    Lit(Box<Expr>),
    /// `lo...hi`
    Range(Box<Expr>, Box<Expr>),
    /// `[a, b, rest.., z]`
    Vec(Vec<Pat>, Option<Box<Pat>>, Vec<Pat>),
    /// `<T as Trait>::CONST`
    QPath(QSelf, Path),
    Mac(Mac),
}

/// `field: pattern` in a struct pattern.
pub struct FieldPat {
    pub ident: Ident,
    pub pat: Box<Pat>,
    pub is_shorthand: bool,
}

/// A path such as `::a::b::<T>::c`.
pub struct Path {
    pub span: Span,
    pub global: bool,
    pub segments: Vec<PathSegment>,
}

pub struct PathSegment {
    pub identifier: Ident,
    pub parameters: PathParameters,
}

pub enum PathParameters {
    /// `<'a, T, Item = U>`
    AngleBracketed(Vec<Lifetime>, Vec<Ty>, Vec<TypeBinding>),
    /// `(A, B) -> C`
    Parenthesized(Span, Vec<Ty>, Option<Box<Ty>>),
}

/// `Item = T` inside angle brackets.
pub struct TypeBinding {
    pub id: NodeId,
    pub ident: Ident,
    pub ty: Box<Ty>,
    pub span: Span,
}

/// The `<T as Trait>` part of a qualified path; `position` counts the
/// segments of the path that belong to the trait.
pub struct QSelf {
    pub ty: Box<Ty>,
    pub position: usize,
}

pub struct MutTy {
    pub ty: Box<Ty>,
    pub mutbl: Mutability,
}

pub struct BareFnTy {
    pub unsafety: Unsafety,
    pub abi: Abi,
    pub lifetimes: Vec<LifetimeDef>,
    pub decl: Box<FnDecl>,
}

pub struct FnDecl {
    pub inputs: Vec<Arg>,
    pub output: FunctionRetTy,
    pub variadic: bool,
}

pub struct Arg {
    pub ty: Box<Ty>,
    pub pat: Box<Pat>,
    pub id: NodeId,
}

pub enum FunctionRetTy {
    /// `-> !`
    NoReturn(Span),
    /// No return type written.
    DefaultReturn(Span),
    Return(Box<Ty>),
}

pub enum TyParamBound {
    TraitTyParamBound(PolyTraitRef, TraitBoundModifier),
    RegionTyParamBound(Lifetime),
}

/// `for<'a> Trait<'a>`
pub struct PolyTraitRef {
    pub bound_lifetimes: Vec<LifetimeDef>,
    pub trait_ref: TraitRef,
    pub span: Span,
}

pub struct TraitRef {
    pub path: Path,
    pub ref_id: NodeId,
}

} // verus!
