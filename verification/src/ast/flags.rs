//! Operators and the small enumerations of the syntax tree.

use vstd::prelude::*;

use crate::ast::ident::NodeId;
use crate::ast::span::Spanned;

verus! {

/// Whether a place can be written to.
#[derive(Debug, Clone, Copy, PartialEq, Eq, Structural)]
pub enum Mutability {
    Mutable,
    Immutable,
}

/// A binary operator.
#[derive(Debug, Clone, Copy, PartialEq, Eq, Structural)]
pub enum BinOpKind {
    Add,
    Sub,
    Mul,
    Div,
    Rem,
    And,
    Or,
    BitXor,
    BitAnd,
    BitOr,
    Shl,
    Shr,
    Eq,
    Lt,
    Le,
    Ne,
    Ge,
    Gt,
}

/// A binary operator with its span.
pub type BinOp = Spanned<BinOpKind>;

/// A unary operator.
#[derive(Debug, Clone, Copy, PartialEq, Eq, Structural)]
pub enum UnOp {
    Deref,
    Not,
    Neg,
}

/// How a closure captures.
#[derive(Debug, Clone, Copy, PartialEq, Eq, Structural)]
pub enum CaptureBy {
    Value,
    Ref,
}

/// Whether a generator can be moved.
#[derive(Debug, Clone, Copy, PartialEq, Eq, Structural)]
pub enum Movability {
    Static,
    Movable,
}

/// Whether a function is asynchronous.
#[derive(Debug, Clone, Copy, PartialEq, Eq, Structural)]
pub enum IsAsync {
    Async { closure_id: NodeId, return_impl_trait_id: NodeId },
    NotAsync,
}

/// Whether something is unsafe to use.
#[derive(Debug, Clone, Copy, PartialEq, Eq, Structural)]
pub enum Unsafety {
    Unsafe,
    Normal,
}

/// Whether a function is `const`.
#[derive(Debug, Clone, Copy, PartialEq, Eq, Structural)]
pub enum Constness {
    Const,
    NotConst,
}

/// Whether an item of an `impl` can be specialised.
#[derive(Debug, Clone, Copy, PartialEq, Eq, Structural)]
pub enum Defaultness {
    Default,
    Final,
}

/// Whether an `impl` is negative.
#[derive(Debug, Clone, Copy, PartialEq, Eq, Structural)]
pub enum ImplPolarity {
    Positive,
    Negative,
}

/// Whether a trait is an auto trait.
#[derive(Debug, Clone, Copy, PartialEq, Eq, Structural)]
pub enum IsAuto {
    Yes,
    No,
}

/// The two kinds of ranges in expressions.
#[derive(Debug, Clone, Copy, PartialEq, Eq, Structural)]
pub enum RangeLimits {
    /// `..`
    HalfOpen,
    /// `..=`
    Closed,
}

/// The two spellings of a closed range in a pattern.
#[derive(Debug, Clone, Copy, PartialEq, Eq, Structural)]
pub enum RangeSyntax {
    DotDotDot,
    DotDotEq,
}

/// The end of a range pattern.
#[derive(Debug, Clone, Copy, PartialEq, Eq, Structural)]
pub enum RangeEnd {
    Included(RangeSyntax),
    Excluded,
}

/// How a pattern binds.
#[derive(Debug, Clone, Copy, PartialEq, Eq, Structural)]
pub enum BindingMode {
    ByRef(Mutability),
    ByValue(Mutability),
}

/// Who made a block unsafe.
#[derive(Debug, Clone, Copy, PartialEq, Eq, Structural)]
pub enum UnsafeSource {
    CompilerGenerated,
    UserProvided,
}

/// Whether a block is unsafe.
#[derive(Debug, Clone, Copy, PartialEq, Eq, Structural)]
pub enum BlockCheckMode {
    Default,
    Unsafe(UnsafeSource),
}

/// The modifier of a trait bound.
#[derive(Debug, Clone, Copy, PartialEq, Eq, Structural)]
pub enum TraitBoundModifier {
    /// No modifier.
    Plain,
    /// `?Trait`.
    Maybe,
}

/// Whether a trait object is written with `dyn`.
#[derive(Debug, Clone, Copy, PartialEq, Eq, Structural)]
pub enum TraitObjectSyntax {
    Dyn,
    /// Without `dyn`.
    Bare,
}

/// The dialect of an inline assembly block.
#[derive(Debug, Clone, Copy, PartialEq, Eq, Structural)]
pub enum AsmDialect {
    Att,
    Intel,
}

/// How a string literal is written.
#[derive(Debug, Clone, Copy, PartialEq, Eq, Structural)]
pub enum StrStyle {
    Cooked,
    /// With this many hash signs.
    Raw(u16),
}

/// A signed integer type.
#[derive(Debug, Clone, Copy, PartialEq, Eq, Structural)]
pub enum IntTy {
    Isize,
    I8,
    I16,
    I32,
    I64,
    I128,
}

/// An unsigned integer type.
#[derive(Debug, Clone, Copy, PartialEq, Eq, Structural)]
pub enum UintTy {
    Usize,
    U8,
    U16,
    U32,
    U64,
    U128,
}

/// A floating-point type.
#[derive(Debug, Clone, Copy, PartialEq, Eq, Structural)]
pub enum FloatTy {
    F32,
    F64,
}

/// The type that an integer literal is suffixed with.
#[derive(Debug, Clone, Copy, PartialEq, Eq, Structural)]
pub enum LitIntType {
    Signed(IntTy),
    Unsigned(UintTy),
    Unsuffixed,
}

/// The kind of a literal token.
#[derive(Debug, Clone, Copy, PartialEq, Eq, Structural)]
pub enum TokenLitKind {
    Bool,
    Byte,
    Char,
    Integer,
    Float,
    Str,
    StrRaw(u16),
    ByteStr,
    ByteStrRaw(u16),
    /// A literal that could not be read.
    Invalid,
}

/// The delimiters of a macro call.
#[derive(Debug, Clone, Copy, PartialEq, Eq, Structural)]
pub enum MacDelimiter {
    Parenthesis,
    Bracket,
    Brace,
}

/// How a macro call in statement position ends.
#[derive(Debug, Clone, Copy, PartialEq, Eq, Structural)]
pub enum MacStmtStyle {
    Semicolon,
    Braces,
    NoBraces,
}

/// Whether an attribute stands before or inside what it applies to.
#[derive(Debug, Clone, Copy, PartialEq, Eq, Structural)]
pub enum AttrStyle {
    Outer,
    Inner,
}

/// The two spellings of crate visibility.
#[derive(Debug, Clone, Copy, PartialEq, Eq, Structural)]
pub enum CrateSugar {
    /// `pub(crate)`.
    PubCrate,
    /// `crate`.
    JustCrate,
}

/// A calling convention.
#[derive(Debug, Clone, Copy, PartialEq, Eq, Structural)]
pub enum Abi {
    Cdecl,
    Stdcall,
    Fastcall,
    Vectorcall,
    Thiscall,
    Aapcs,
    Win64,
    SysV64,
    PtxKernel,
    Msp430Interrupt,
    X86Interrupt,
    AmdGpuKernel,
    Rust,
    C,
    System,
    RustIntrinsic,
    RustCall,
    PlatformIntrinsic,
    Unadjusted,
}

/// What stands before the `fn` of a function.
#[derive(Debug, Clone, Copy, PartialEq)]
pub struct FnHeader {
    pub unsafety: Unsafety,
    pub asyncness: Spanned<IsAsync>,
    pub constness: Spanned<Constness>,
    pub abi: Abi,
}

} // verus!
