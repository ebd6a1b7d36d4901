//! The parts of a declaration that the classifier reads, as plain values.
//!
//! Paths are carried as handles: the front end that parsed the declaration
//! keeps the full paths and renders the generated code from them.
use vstd::prelude::*;

verus! {

/// A handle to a path that the front end keeps.
pub type PathId = usize;

/// A type as written in a field or variant.
#[derive(Debug, PartialEq, Eq)]
pub enum TypeSyntax {
    /// The empty tuple `()`.
    Unit,
    /// A path type; `last` is the identifier of its last segment and `args`
    /// the arguments of that segment.
    Path { id: PathId, last: String, args: PathArgs },
    /// Any other form (references, arrays, non-empty tuples, ...).
    Other,
}

/// The arguments of a path segment.
#[derive(Debug, PartialEq, Eq)]
pub enum PathArgs {
    Plain,
    Angle(Vec<GenericArg>),
    Parenthesized,
}

/// One generic argument.
#[derive(Debug, PartialEq, Eq)]
pub enum GenericArg {
    Type(TypeSyntax),
    /// A lifetime, a constant or a binding.
    Other,
}

/// A path given as the value of a `default` attribute.
#[derive(Debug, Clone, Copy, PartialEq, Eq)]
pub struct ExprPath {
    pub id: PathId,
    /// Whether every segment with angle-bracketed arguments is written `::<..>`.
    pub turbofish: bool,
}

/// The value of a `key = "..."` attribute entry, with the forms the front end
/// could read it as.
#[derive(Debug, PartialEq, Eq)]
pub struct MetaValue {
    /// The literal's text.
    pub text: String,
    /// The literal read as an identifier, if it is one.
    pub ident: Option<String>,
    /// The literal read as a path, if it is one.
    pub path: Option<ExprPath>,
}

/// One entry of a `#[capnp_conv(...)]` attribute.
#[derive(Debug, PartialEq, Eq)]
pub struct MetaItem {
    pub key: String,
    pub value: Option<MetaValue>,
}

/// A struct field.
#[derive(Debug, PartialEq, Eq)]
pub struct FieldDecl {
    /// `None` for a field of a tuple struct.
    pub name: Option<String>,
    pub ty: TypeSyntax,
    pub attrs: Vec<MetaItem>,
}

/// The slots of an enum variant.
#[derive(Debug, PartialEq, Eq)]
pub enum VariantSlots {
    Unit,
    Unnamed(Vec<TypeSyntax>),
    Named,
}

/// An enum variant.
#[derive(Debug, PartialEq, Eq)]
pub struct VariantDecl {
    pub name: String,
    pub slots: VariantSlots,
    pub attrs: Vec<MetaItem>,
}

/// A generic parameter of the declared item.
#[derive(Debug, PartialEq, Eq)]
pub enum GenericParamDecl {
    Type(String),
    /// A lifetime or const parameter.
    Other,
}

/// The body of a declared item.
#[derive(Debug, PartialEq, Eq)]
pub enum ItemBody {
    Struct(Vec<FieldDecl>),
    Enum(Vec<VariantDecl>),
    Union,
}

/// A declared item.
#[derive(Debug, PartialEq, Eq)]
pub struct ItemDecl {
    pub ident: String,
    pub generics: Vec<GenericParamDecl>,
    pub body: ItemBody,
}

} // verus!
