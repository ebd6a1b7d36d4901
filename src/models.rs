//! The classified model of a declaration.
use vstd::prelude::*;

use crate::syntax::{ExprPath, PathId};

verus! {

/// How a field or variant payload is represented on the wire.
#[derive(Debug, PartialEq, Eq)]
pub enum FieldType {
    /// A `PhantomData` witness: never written or read.
    Phantom,
    /// A payload-free variant of a simple enum.
    EnumVariant,
    /// `()`.
    Void,
    /// bool, i8/16/32/64, u8/16/32/64, f32/64.
    Primitive(PathId),
    /// `Vec<u8>` marked as `data`.
    Data(PathId),
    /// `String`.
    Text(PathId),
    /// A non-generic struct.
    Struct(PathId),
    /// The enum generated from the schema, used as it is.
    Enum(PathId),
    /// A hand-written enum that maps to and from the generated one.
    EnumRemote(PathId),
    /// A named group or union: read and written without an extra wrapper.
    GroupOrUnion(PathId),
    /// An unnamed union: read and written through the enclosing builder or reader.
    UnnamedUnion(PathId),
    /// `Vec<T>`.
    List(Box<FieldType>),
    /// A struct with generic arguments.
    GenericStruct(PathId),
}

/// The wrapper peeled off a field's type.
#[derive(Debug, Clone, Copy, PartialEq, Eq)]
pub enum FieldWrapper {
    Bare,
    Box,
    Option,
}

/// The kind that a `type` attribute selects.
#[derive(Debug, Clone, Copy, PartialEq, Eq)]
pub enum TypeSpecifier {
    Default,
    EnumRemote,
    Enum,
    GroupOrUnion,
    UnnamedUnion,
    Data,
}

/// A classified field of a struct, or variant of an enum.
#[derive(Debug, PartialEq, Eq)]
pub struct FieldInfo {
    pub rust_name: String,
    pub field_type: FieldType,
    pub capnp_name_override: Option<String>,
    /// The variant carries a trailing `PhantomData` slot.
    pub has_phantom_in_variant: bool,
    /// The field is one arm of a named union (an `Option<T>` on the Rust side).
    pub is_union_field: bool,
    /// The field is an `Option<T>` that is not a union arm.
    pub is_optional: bool,
    pub is_boxed: bool,
    pub skip_read: bool,
    pub skip_write: bool,
    /// The function that gives the value of a field that is not read.
    pub default_override: Option<ExprPath>,
}

/// A classified struct.
#[derive(Debug, PartialEq, Eq)]
pub struct StructInfo {
    pub ident: String,
    pub fields: Vec<FieldInfo>,
    pub generics: Vec<String>,
}

/// A classified enum.
#[derive(Debug, PartialEq, Eq)]
pub struct EnumInfo {
    pub ident: String,
    pub fields: Vec<FieldInfo>,
    pub generics: Vec<String>,
}

/// A classified item.
#[derive(Debug, PartialEq, Eq)]
pub enum ItemInfo {
    Struct(StructInfo),
    Enum(EnumInfo),
}

/// Blob, struct, list and generic struct values are pointers on the wire:
/// they can be absent.
pub open spec fn is_ptr_type_spec(t: FieldType) -> bool {
    match t {
        FieldType::Data(_) | FieldType::Text(_) | FieldType::Struct(_) | FieldType::List(_)
        | FieldType::GenericStruct(_) => true,
        _ => false,
    }
}

/// Whether values of this type are pointers on the wire.
pub fn is_ptr_type(field_type: &FieldType) -> (r: bool)
    ensures
        r == is_ptr_type_spec(*field_type),
{
    match field_type {
        FieldType::Data(_) | FieldType::Text(_) | FieldType::Struct(_) | FieldType::List(_)
        | FieldType::GenericStruct(_) => true,
        _ => false,
    }
}

impl EnumInfo {
    /// Some variant carries a payload.
    pub open spec fn is_union_spec(&self) -> bool {
        exists|i: int| 0 <= i < self.fields@.len() && !(self.fields@[i].field_type is EnumVariant)
    }

    /// Whether the enum is a union (some variant carries a payload) rather
    /// than a simple enum.
    pub fn is_union(&self) -> (r: bool)
        ensures
            r == self.is_union_spec(),
    {
        let mut i: usize = 0;
        while i < self.fields.len()
            invariant
                0 <= i <= self.fields@.len(),
                forall|j: int| 0 <= j < i ==> self.fields@[j].field_type is EnumVariant,
            decreases self.fields@.len() - i,
        {
            if !matches!(self.fields[i].field_type, FieldType::EnumVariant) {
                return true;
            }
            i = i + 1;
        }
        false
    }
}

} // verus!
