//! The part of Rust syntax that GPU kernels and GPU structs may use, as plain
//! values: types, literals, expressions, statements, attributes, signatures.
use vstd::prelude::*;

verus! {

/// The length expression of an array type `[T; N]`.
pub enum LenAst {
    /// An integer literal, by its base-10 digits.
    Int(String),
    /// A literal of another kind.
    OtherLit,
    /// An expression that is not a literal.
    NotLit,
}

/// A type as written in a signature or a field.
pub enum TypeAst {
    /// A path type, by the identifier of its first segment (`None` for an empty path).
    Path(Option<String>),
    /// An array type `[elem; len]`.
    Array(Box<TypeAst>, LenAst),
    /// Any other kind of type.
    Other,
}

/// A literal expression.
pub enum Lit {
    /// A float literal, by its token text.
    Float(String),
    /// An integer literal, by its token text.
    Int(String),
    Bool(bool),
    /// A string, character or byte literal.
    Other,
}

/// A binary operator.
#[derive(Debug, Clone, Copy, PartialEq, Eq, Structural)]
pub enum BinOp {
    Add,
    Sub,
    Mul,
    Div,
    Rem,
    And,
    Or,
    Eq,
    Lt,
    Le,
    Gt,
    Ge,
    Ne,
    AddAssign,
    SubAssign,
    MulAssign,
    DivAssign,
    RemAssign,
    /// A bit or shift operator.
    Other,
}

/// A unary operator.
#[derive(Debug, Clone, Copy, PartialEq, Eq, Structural)]
pub enum UnOp {
    Neg,
    Not,
    /// Dereference.
    Other,
}

/// The member named in a field access or a struct literal.
pub enum Member {
    Named(String),
    /// A tuple index.
    Unnamed,
}

/// One `member: expr` of a struct literal.
pub struct FieldValue {
    pub member: Member,
    pub expr: Expr,
}

/// An expression.
pub enum Expr {
    /// A path, by the identifier of its last segment (`None` for an empty path).
    Path(Option<String>),
    Lit(Lit),
    Binary(Box<Expr>, BinOp, Box<Expr>),
    Field(Box<Expr>, Member),
    /// `receiver.method(args)`.
    MethodCall(Box<Expr>, String, Vec<Expr>),
    /// `func(args)`.
    Call(Box<Expr>, Vec<Expr>),
    Assign(Box<Expr>, Box<Expr>),
    Paren(Box<Expr>),
    Unary(UnOp, Box<Expr>),
    Index(Box<Expr>, Box<Expr>),
    Array(Vec<Expr>),
    /// A struct literal, by the identifier of the last segment of its path.
    Struct(Option<String>, Vec<FieldValue>),
    /// Any other kind of expression.
    Other,
}

/// The pattern of a `let`.
pub enum Pattern {
    /// A plain binding: its name and whether it is `mut`.
    Ident(String, bool),
    Other,
}

/// A statement of a kernel body.
pub enum Stmt {
    /// `let pat = init;` (`init` is `None` when there is no initializer).
    Local(Pattern, Option<Expr>),
    /// An expression, and whether a semicolon follows it.
    Expr(Expr, bool),
    /// An item or a macro statement.
    Other,
}

/// The item of a `#[enki(...)]` attribute.
pub enum MetaItem {
    /// A bare identifier such as `position`.
    Flag(String),
    /// `target = N`, with `N` read as a `u32`.
    Target(u32),
}

/// An attribute on a struct field.
pub struct AttrInput {
    /// Whether the attribute is `#[enki(...)]`.
    pub is_enki: bool,
    /// The items read from an `enki` attribute, in order.
    pub items: Vec<MetaItem>,
    /// A syntax error met after the items, with its text.
    pub syntax_error: Option<String>,
}

/// A struct field as written.
pub struct FieldInput {
    /// Its identifier; `None` for a tuple field.
    pub ident: Option<String>,
    pub ty: TypeAst,
    pub attrs: Vec<AttrInput>,
}

/// The shape of the item that a derive is applied to.
pub enum DataInput {
    /// A struct with named fields.
    Named(Vec<FieldInput>),
    /// A tuple or unit struct.
    Unnamed,
    /// An enum or a union.
    NotStruct,
}

/// The item that a derive is applied to.
pub struct DeriveInput {
    pub name: String,
    pub data: DataInput,
}

/// A parameter of a kernel signature.
pub enum ParamInput {
    /// `self` in any form.
    Receiver,
    /// `pat: ty`, with the pattern's identifier when it is a plain binding.
    Typed(Option<String>, TypeAst),
}

/// A kernel function as written.
pub struct FnInput {
    pub name: String,
    pub inputs: Vec<ParamInput>,
    /// The return type; `None` when there is no `->`.
    pub output: Option<TypeAst>,
    pub body: Vec<Stmt>,
}

} // verus!
