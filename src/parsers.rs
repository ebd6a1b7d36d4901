//! The field classifier and the structural rules of the model.
use vstd::prelude::*;

use crate::attrs::{check_attributes, scan_attributes, FieldAttributesInfo};
use crate::error::ConvError;
use crate::names::is_str;
use crate::models::{EnumInfo, FieldInfo, FieldType, FieldWrapper, ItemInfo, StructInfo, TypeSpecifier};
use crate::syntax::{
    FieldDecl, GenericArg, GenericParamDecl, ItemBody, ItemDecl, PathArgs, TypeSyntax, VariantDecl,
    VariantSlots,
};

verus! {

/// The identifiers of the primitive types that the wire format stores inline.
pub open spec fn is_primitive_name(s: Seq<char>) -> bool {
    s == "bool"@ || s == "i8"@ || s == "i16"@ || s == "i32"@ || s == "i64"@ || s == "u8"@
        || s == "u16"@ || s == "u32"@ || s == "u64"@ || s == "f32"@ || s == "f64"@
}

/// The type is a path whose last segment is `name`.
pub open spec fn is_named(ty: TypeSyntax, name: Seq<char>) -> bool {
    match ty {
        TypeSyntax::Path { last, .. } => last@ == name,
        _ => false,
    }
}

/// The type is `Vec<u8>`, the Rust form of the wire's `Data`.
pub open spec fn is_data_type_spec(ty: TypeSyntax) -> bool {
    match ty {
        TypeSyntax::Path { last, args: PathArgs::Angle(a), .. } => last@ == "Vec"@ && a@.len() == 1
            && match a@[0] {
            GenericArg::Type(t) => is_named(t, "u8"@),
            GenericArg::Other => false,
        },
        _ => false,
    }
}

/// The kind of a type once `Option`, `Box` and `PhantomData` are peeled off.
pub open spec fn parse_type_spec(ty: TypeSyntax, specifier: TypeSpecifier) -> Result<
    FieldType,
    ConvError,
>
    decreases ty,
{
    match ty {
        TypeSyntax::Unit => Ok(FieldType::Void),
        TypeSyntax::Path { id, last, args } => {
            let l = last@;
            if l == "Option"@ || l == "Box"@ || l == "PhantomData"@ {
                Err(ConvError::InvalidGenericArgument)
            } else if is_primitive_name(l) {
                Ok(FieldType::Primitive(id))
            } else if l == "String"@ {
                Ok(FieldType::Text(id))
            } else if specifier == TypeSpecifier::Data && is_data_type_spec(ty) {
                Ok(FieldType::Data(id))
            } else {
                match args {
                    PathArgs::Plain => match specifier {
                        TypeSpecifier::Default => Ok(FieldType::Struct(id)),
                        TypeSpecifier::EnumRemote => Ok(FieldType::EnumRemote(id)),
                        TypeSpecifier::Enum => Ok(FieldType::Enum(id)),
                        TypeSpecifier::GroupOrUnion => Ok(FieldType::GroupOrUnion(id)),
                        TypeSpecifier::UnnamedUnion => Ok(FieldType::UnnamedUnion(id)),
                        TypeSpecifier::Data => Err(ConvError::DataNotBytes),
                    },
                    PathArgs::Angle(a) => if l == "Vec"@ {
                        if a@.len() == 1 {
                            match a@[0] {
                                GenericArg::Type(t) => match parse_type_spec(t, specifier) {
                                    Ok(inner) => Ok(FieldType::List(Box::new(inner))),
                                    Err(e) => Err(e),
                                },
                                GenericArg::Other => Err(ConvError::InvalidGenericArgument),
                            }
                        } else {
                            Err(ConvError::VecArity)
                        }
                    } else {
                        match specifier {
                            TypeSpecifier::Default => Ok(FieldType::GenericStruct(id)),
                            TypeSpecifier::GroupOrUnion => Ok(FieldType::GroupOrUnion(id)),
                            TypeSpecifier::UnnamedUnion => Ok(FieldType::UnnamedUnion(id)),
                            _ => Err(ConvError::GenericEnum),
                        }
                    },
                    PathArgs::Parenthesized => Err(ConvError::ParenthesizedArguments),
                }
            }
        },
        TypeSyntax::Other => Err(ConvError::IncompatibleType),
    }
}

/// `Option<X>`, `Box<X>`, `PhantomData<X>`, ...: the last segment's name and
/// `X`, for a path whose last segment has exactly one type argument.
pub open spec fn peel_spec(ty: TypeSyntax) -> Option<(Seq<char>, TypeSyntax)> {
    match ty {
        TypeSyntax::Path { last, args: PathArgs::Angle(a), .. } => if a@.len() == 1 {
            match a@[0] {
                GenericArg::Type(t) => Some((last@, t)),
                GenericArg::Other => None,
            }
        } else {
            None
        },
        _ => None,
    }
}

/// The kind of a field's type and the wrapper peeled off it.
pub open spec fn parse_spec(ty: TypeSyntax, specifier: TypeSpecifier) -> Result<
    (FieldType, FieldWrapper),
    ConvError,
> {
    let (inner, wrapper) = match peel_spec(ty) {
        Some((name, sub)) => if name == "Option"@ {
            (sub, FieldWrapper::Option)
        } else if name == "Box"@ {
            (sub, FieldWrapper::Box)
        } else {
            (ty, FieldWrapper::Bare)
        },
        None => (ty, FieldWrapper::Bare),
    };
    let is_phantom = match peel_spec(ty) {
        Some((name, _)) => name == "PhantomData"@,
        None => false,
    };
    if is_phantom {
        Ok((FieldType::Phantom, FieldWrapper::Bare))
    } else {
        match parse_type_spec(inner, specifier) {
            Ok(t) => Ok((t, wrapper)),
            Err(e) => Err(e),
        }
    }
}

/// The attribute set says anything at all.
pub open spec fn has_any_attribute(a: FieldAttributesInfo) -> bool {
    a.skip || a.skip_read || a.skip_write || a.union_field || a.default is Some
        || a.name_override is Some || a.type_specifier != TypeSpecifier::Default
}

/// The classified struct field, or the first rule it breaks.
pub open spec fn parse_field_spec(field: FieldDecl) -> Result<FieldInfo, ConvError> {
    match check_attributes(scan_attributes(field.attrs@)) {
        Err(e) => Err(e),
        Ok(a) => match parse_spec(field.ty, a.type_specifier) {
            Err(e) => Err(e),
            Ok((ft, wrapper)) => {
                let is_union_field = a.union_field && wrapper == FieldWrapper::Option;
                let is_optional = !a.union_field && wrapper == FieldWrapper::Option;
                let is_boxed = !a.union_field && wrapper == FieldWrapper::Box;
                if ft is Phantom && has_any_attribute(a) {
                    Err(ConvError::PhantomWithAttributes)
                } else if a.union_field && wrapper == FieldWrapper::Box {
                    Err(ConvError::BoxedUnionField)
                } else if a.union_field && wrapper == FieldWrapper::Bare {
                    Err(ConvError::UnionFieldNotOption)
                } else if ft is UnnamedUnion && is_union_field {
                    Err(ConvError::UnionContainsUnnamedUnion)
                } else if (ft is GroupOrUnion || ft is UnnamedUnion) && is_optional {
                    Err(ConvError::OptionalGroupOrUnion)
                } else if is_boxed {
                    Err(ConvError::BoxNotSupported)
                } else if field.name is None {
                    Err(ConvError::UnnamedField)
                } else {
                    Ok(
                        FieldInfo {
                            rust_name: field.name->0,
                            field_type: ft,
                            capnp_name_override: a.name_override,
                            has_phantom_in_variant: false,
                            is_union_field,
                            is_optional,
                            is_boxed,
                            skip_read: a.skip || a.skip_read,
                            skip_write: a.skip || a.skip_write,
                            default_override: a.default,
                        },
                    )
                }
            },
        },
    }
}

/// The payload slot of a variant (`None` for a unit variant) and whether a
/// `PhantomData` slot follows it.
pub open spec fn variant_slots_spec(slots: VariantSlots) -> Result<(Option<TypeSyntax>, bool), ConvError> {
    match slots {
        VariantSlots::Unit => Ok((None, false)),
        VariantSlots::Unnamed(v) => if v@.len() == 1 {
            Ok((Some(v@[0]), false))
        } else if v@.len() == 2 {
            if is_named(v@[1], "PhantomData"@) {
                Ok((Some(v@[0]), true))
            } else {
                Err(ConvError::SecondSlotNotPhantom)
            }
        } else {
            Err(ConvError::TooManyVariantSlots)
        },
        VariantSlots::Named => Err(ConvError::NamedVariantFields),
    }
}

/// The classified enum variant, or the first rule it breaks.
pub open spec fn parse_variant_spec(variant: VariantDecl) -> Result<FieldInfo, ConvError> {
    match variant_slots_spec(variant.slots) {
        Err(e) => Err(e),
        Ok((payload, is_phantom)) => match check_attributes(scan_attributes(variant.attrs@)) {
            Err(e) => Err(e),
            Ok(a) => {
                let parsed = match payload {
                    Some(ty) => parse_spec(ty, a.type_specifier),
                    None => Ok((FieldType::EnumVariant, FieldWrapper::Bare)),
                };
                match parsed {
                    Err(e) => Err(e),
                    Ok((ft, wrapper)) => if ft is Phantom {
                        Err(ConvError::PhantomFirstInVariant)
                    } else if ft is UnnamedUnion {
                        Err(ConvError::UnionContainsUnnamedUnion)
                    } else if wrapper == FieldWrapper::Option {
                        Err(ConvError::OptionInVariant)
                    } else if a.skip || a.skip_read || a.skip_write || a.default is Some
                        || a.union_field {
                        Err(ConvError::VariantWithFieldAttributes)
                    } else if ft is EnumVariant && a.type_specifier != TypeSpecifier::Default {
                        Err(ConvError::SimpleVariantWithTypeKind)
                    } else if wrapper == FieldWrapper::Box {
                        Err(ConvError::BoxNotSupported)
                    } else {
                        Ok(
                            FieldInfo {
                                rust_name: variant.name,
                                field_type: ft,
                                capnp_name_override: a.name_override,
                                has_phantom_in_variant: is_phantom,
                                is_union_field: false,
                                is_optional: false,
                                is_boxed: false,
                                skip_read: false,
                                skip_write: false,
                                default_override: None,
                            },
                        )
                    },
                }
            },
        },
    }
}

/// Each field classified in order, or the error of the first that is refused.
pub open spec fn parse_fields_spec(fields: Seq<FieldDecl>) -> Result<Seq<FieldInfo>, ConvError>
    decreases fields.len(),
{
    if fields.len() == 0 {
        Ok(Seq::empty())
    } else {
        match parse_fields_spec(fields.drop_last()) {
            Ok(done) => match parse_field_spec(fields.last()) {
                Ok(f) => Ok(done.push(f)),
                Err(e) => Err(e),
            },
            Err(e) => Err(e),
        }
    }
}

/// Each variant classified in order, or the error of the first that is refused.
pub open spec fn parse_variants_spec(variants: Seq<VariantDecl>) -> Result<Seq<FieldInfo>, ConvError>
    decreases variants.len(),
{
    if variants.len() == 0 {
        Ok(Seq::empty())
    } else {
        match parse_variants_spec(variants.drop_last()) {
            Ok(done) => match parse_variant_spec(variants.last()) {
                Ok(f) => Ok(done.push(f)),
                Err(e) => Err(e),
            },
            Err(e) => Err(e),
        }
    }
}

/// The names of the type parameters; any other kind of parameter is refused.
pub open spec fn parse_generics_spec(generics: Seq<GenericParamDecl>) -> Result<Seq<String>, ConvError>
    decreases generics.len(),
{
    if generics.len() == 0 {
        Ok(Seq::empty())
    } else {
        match parse_generics_spec(generics.drop_last()) {
            Ok(done) => match generics.last() {
                GenericParamDecl::Type(name) => Ok(done.push(name)),
                GenericParamDecl::Other => Err(ConvError::InvalidGeneric),
            },
            Err(e) => Err(e),
        }
    }
}

/// `r` is the item made of `ident`, the members `members` and the generic
/// parameters `generics` when both lists were accepted, and otherwise the
/// error of the members, or failing that of the generic parameters.
pub open spec fn outcome_matches(
    r_fields: Option<(Seq<FieldInfo>, Seq<String>)>,
    r_err: Option<ConvError>,
    members: Result<Seq<FieldInfo>, ConvError>,
    generics: Result<Seq<String>, ConvError>,
) -> bool {
    match members {
        Err(e) => r_err == Some(e) && r_fields is None,
        Ok(fs) => match generics {
            Err(e) => r_err == Some(e) && r_fields is None,
            Ok(gs) => r_err is None && r_fields == Some((fs, gs)),
        },
    }
}

/// What `StructInfo::parse_struct` gives, as an outcome.
pub open spec fn struct_outcome(r: Result<StructInfo, ConvError>) -> (Option<(Seq<FieldInfo>, Seq<String>)>, Option<ConvError>) {
    match r {
        Ok(info) => (Some((info.fields@, info.generics@)), None),
        Err(e) => (None, Some(e)),
    }
}

/// What `EnumInfo::parse_enum` gives, as an outcome.
pub open spec fn enum_outcome(r: Result<EnumInfo, ConvError>) -> (Option<(Seq<FieldInfo>, Seq<String>)>, Option<ConvError>) {
    match r {
        Ok(info) => (Some((info.fields@, info.generics@)), None),
        Err(e) => (None, Some(e)),
    }
}

/// `r` is what classifying `input` gives: the struct or enum made of its
/// classified members and type parameters, or the first error met.
pub open spec fn parse_input_ok(input: ItemDecl, r: Result<ItemInfo, ConvError>) -> bool {
    match input.body {
        ItemBody::Struct(fields) => match r {
            Ok(ItemInfo::Struct(info)) => info.ident == input.ident && outcome_matches(
                Some((info.fields@, info.generics@)),
                None,
                parse_fields_spec(fields@),
                parse_generics_spec(input.generics@),
            ),
            Err(e) => outcome_matches(None, Some(e), parse_fields_spec(fields@), parse_generics_spec(input.generics@)),
            _ => false,
        },
        ItemBody::Enum(variants) => match r {
            Ok(ItemInfo::Enum(info)) => info.ident == input.ident && outcome_matches(
                Some((info.fields@, info.generics@)),
                None,
                parse_variants_spec(variants@),
                parse_generics_spec(input.generics@),
            ),
            Err(e) => outcome_matches(None, Some(e), parse_variants_spec(variants@), parse_generics_spec(input.generics@)),
            _ => false,
        },
        ItemBody::Union => r == Err::<ItemInfo, ConvError>(ConvError::NotStructOrEnum),
    }
}

/// For a type such as `Option<bool>`: the last segment's name (`Option`)
/// and its single type argument (`bool`).
pub fn try_peel_type(ty: &TypeSyntax) -> (r: Option<(&String, &TypeSyntax)>)
    ensures
        match peel_spec(*ty) {
            Some((name, sub)) => match r {
                Some((n, t)) => n@ == name && *t == sub,
                None => false,
            },
            None => r is None,
        },
{
    if let TypeSyntax::Path { last, args: PathArgs::Angle(a), .. } = ty {
        if a.len() == 1 {
            if let GenericArg::Type(sub) = &a[0] {
                return Some((last, sub));
            }
        }
    }
    None
}

/// Whether `name` is one of the primitive type names.
pub fn is_capnp_primative(name: &String) -> (r: bool)
    ensures
        r == is_primitive_name(name@),
{
    is_str(name, "bool") || is_str(name, "i8") || is_str(name, "i16") || is_str(name, "i32")
        || is_str(name, "i64") || is_str(name, "u8") || is_str(name, "u16") || is_str(name, "u32")
        || is_str(name, "u64") || is_str(name, "f32") || is_str(name, "f64")
}

/// Whether the type is `Vec<u8>`.
pub fn is_capnp_data_type(ty: &TypeSyntax) -> (r: bool)
    ensures
        r == is_data_type_spec(*ty),
{
    match ty {
        TypeSyntax::Path { last, args: PathArgs::Angle(a), .. } => {
            if is_str(last, "Vec") && a.len() == 1 {
                match &a[0] {
                    GenericArg::Type(TypeSyntax::Path { last: inner, .. }) => is_str(inner, "u8"),
                    _ => false,
                }
            } else {
                false
            }
        },
        _ => false,
    }
}

impl FieldType {
    /// Classifies a type that carries no wrapper.
    pub fn parse_type(ty: &TypeSyntax, specifier: TypeSpecifier) -> (r: Result<Self, ConvError>)
        ensures
            r == parse_type_spec(*ty, specifier),
        decreases ty,
    {
        match ty {
            TypeSyntax::Unit => Ok(FieldType::Void),
            TypeSyntax::Path { id, last, args } => {
                if is_str(last, "Option") || is_str(last, "Box") || is_str(last, "PhantomData") {
                    Err(ConvError::InvalidGenericArgument)
                } else if is_capnp_primative(last) {
                    Ok(FieldType::Primitive(*id))
                } else if is_str(last, "String") {
                    Ok(FieldType::Text(*id))
                } else if matches!(specifier, TypeSpecifier::Data) && is_capnp_data_type(ty) {
                    Ok(FieldType::Data(*id))
                } else {
                    match args {
                        PathArgs::Plain => match specifier {
                            TypeSpecifier::Default => Ok(FieldType::Struct(*id)),
                            TypeSpecifier::EnumRemote => Ok(FieldType::EnumRemote(*id)),
                            TypeSpecifier::Enum => Ok(FieldType::Enum(*id)),
                            TypeSpecifier::GroupOrUnion => Ok(FieldType::GroupOrUnion(*id)),
                            TypeSpecifier::UnnamedUnion => Ok(FieldType::UnnamedUnion(*id)),
                            TypeSpecifier::Data => Err(ConvError::DataNotBytes),
                        },
                        PathArgs::Angle(a) => if is_str(last, "Vec") {
                            if a.len() == 1 {
                                match &a[0] {
                                    GenericArg::Type(t) => {
                                        proof {
                                            assert(decreases_to!(a => a@[0]));
                                        }
                                        match FieldType::parse_type(t, specifier) {
                                            Ok(inner) => Ok(FieldType::List(Box::new(inner))),
                                            Err(e) => Err(e),
                                        }
                                    },
                                    GenericArg::Other => Err(ConvError::InvalidGenericArgument),
                                }
                            } else {
                                Err(ConvError::VecArity)
                            }
                        } else {
                            match specifier {
                                TypeSpecifier::Default => Ok(FieldType::GenericStruct(*id)),
                                TypeSpecifier::GroupOrUnion => Ok(FieldType::GroupOrUnion(*id)),
                                TypeSpecifier::UnnamedUnion => Ok(FieldType::UnnamedUnion(*id)),
                                _ => Err(ConvError::GenericEnum),
                            }
                        },
                        PathArgs::Parenthesized => Err(ConvError::ParenthesizedArguments),
                    }
                }
            },
            TypeSyntax::Other => Err(ConvError::IncompatibleType),
        }
    }

    /// Peels `Option`, `Box` or `PhantomData` off a field's type and
    /// classifies what is inside.
    pub fn parse(ty: &TypeSyntax, specifier: TypeSpecifier) -> (r: Result<(Self, FieldWrapper), ConvError>)
        ensures
            r == parse_spec(*ty, specifier),
    {
        if let Some((last, sub)) = try_peel_type(ty) {
            if is_str(last, "PhantomData") {
                return Ok((FieldType::Phantom, FieldWrapper::Bare));
            } else if is_str(last, "Option") {
                return match FieldType::parse_type(sub, specifier) {
                    Ok(t) => Ok((t, FieldWrapper::Option)),
                    Err(e) => Err(e),
                };
            } else if is_str(last, "Box") {
                return match FieldType::parse_type(sub, specifier) {
                    Ok(t) => Ok((t, FieldWrapper::Box)),
                    Err(e) => Err(e),
                };
            }
        }
        match FieldType::parse_type(ty, specifier) {
            Ok(t) => Ok((t, FieldWrapper::Bare)),
            Err(e) => Err(e),
        }
    }
}

/// The slots of a variant: whether it has a payload slot, and whether a
/// `PhantomData` slot follows it.
fn get_variant_type(slots: &VariantSlots) -> (r: Result<(bool, bool), ConvError>)
    ensures
        match variant_slots_spec(*slots) {
            Ok((payload, phantom)) => r == Ok::<(bool, bool), ConvError>((payload is Some, phantom))
                && (payload is Some ==> (*slots is Unnamed && slots->Unnamed_0@.len() >= 1
                && payload == Some(slots->Unnamed_0@[0]))),
            Err(e) => r == Err::<(bool, bool), ConvError>(e),
        },
{
    match slots {
        VariantSlots::Unit => Ok((false, false)),
        VariantSlots::Unnamed(v) => if v.len() == 1 {
            Ok((true, false))
        } else if v.len() == 2 {
            let is_phantom = match &v[1] {
                TypeSyntax::Path { last, .. } => is_str(last, "PhantomData"),
                _ => false,
            };
            if is_phantom {
                Ok((true, true))
            } else {
                Err(ConvError::SecondSlotNotPhantom)
            }
        } else {
            Err(ConvError::TooManyVariantSlots)
        },
        VariantSlots::Named => Err(ConvError::NamedVariantFields),
    }
}

impl FieldInfo {
    /// Classifies a struct field and checks the rules that hold of it.
    pub fn parse_field(field: &FieldDecl) -> (r: Result<Self, ConvError>)
        ensures
            r == parse_field_spec(*field),
    {
        let a = match FieldAttributesInfo::new(&field.attrs) {
            Ok(a) => a,
            Err(e) => return Err(e),
        };
        let (ft, wrapper) = match FieldType::parse(&field.ty, a.type_specifier) {
            Ok(p) => p,
            Err(e) => return Err(e),
        };
        let is_union_field = a.union_field && matches!(wrapper, FieldWrapper::Option);
        let is_optional = !a.union_field && matches!(wrapper, FieldWrapper::Option);
        let is_boxed = !a.union_field && matches!(wrapper, FieldWrapper::Box);
        let any_attribute = a.skip || a.skip_read || a.skip_write || a.union_field
            || a.default.is_some() || a.name_override.is_some() || !matches!(
            a.type_specifier,
            TypeSpecifier::Default
        );
        if matches!(ft, FieldType::Phantom) && any_attribute {
            Err(ConvError::PhantomWithAttributes)
        } else if a.union_field && matches!(wrapper, FieldWrapper::Box) {
            Err(ConvError::BoxedUnionField)
        } else if a.union_field && matches!(wrapper, FieldWrapper::Bare) {
            Err(ConvError::UnionFieldNotOption)
        } else if matches!(ft, FieldType::UnnamedUnion(_)) && is_union_field {
            Err(ConvError::UnionContainsUnnamedUnion)
        } else if matches!(ft, FieldType::GroupOrUnion(_) | FieldType::UnnamedUnion(_))
            && is_optional {
            Err(ConvError::OptionalGroupOrUnion)
        } else if is_boxed {
            Err(ConvError::BoxNotSupported)
        } else {
            match &field.name {
                None => Err(ConvError::UnnamedField),
                Some(name) => Ok(
                    FieldInfo {
                        rust_name: name.clone(),
                        field_type: ft,
                        capnp_name_override: a.name_override,
                        has_phantom_in_variant: false,
                        is_union_field,
                        is_optional,
                        is_boxed,
                        skip_read: a.skip || a.skip_read,
                        skip_write: a.skip || a.skip_write,
                        default_override: a.default,
                    },
                ),
            }
        }
    }

    /// Classifies an enum variant and checks the rules that hold of it.
    pub fn parse_variant(variant: &VariantDecl) -> (r: Result<Self, ConvError>)
        ensures
            r == parse_variant_spec(*variant),
    {
        let (has_payload, is_phantom) = match get_variant_type(&variant.slots) {
            Ok(p) => p,
            Err(e) => return Err(e),
        };
        let a = match FieldAttributesInfo::new(&variant.attrs) {
            Ok(a) => a,
            Err(e) => return Err(e),
        };
        let parsed = if has_payload {
            match &variant.slots {
                VariantSlots::Unnamed(v) => FieldType::parse(&v[0], a.type_specifier),
                _ => Ok((FieldType::EnumVariant, FieldWrapper::Bare)),
            }
        } else {
            Ok((FieldType::EnumVariant, FieldWrapper::Bare))
        };
        let (ft, wrapper) = match parsed {
            Ok(p) => p,
            Err(e) => return Err(e),
        };
        if matches!(ft, FieldType::Phantom) {
            Err(ConvError::PhantomFirstInVariant)
        } else if matches!(ft, FieldType::UnnamedUnion(_)) {
            Err(ConvError::UnionContainsUnnamedUnion)
        } else if matches!(wrapper, FieldWrapper::Option) {
            Err(ConvError::OptionInVariant)
        } else if a.skip || a.skip_read || a.skip_write || a.default.is_some() || a.union_field {
            Err(ConvError::VariantWithFieldAttributes)
        } else if matches!(ft, FieldType::EnumVariant) && !matches!(
            a.type_specifier,
            TypeSpecifier::Default
        ) {
            Err(ConvError::SimpleVariantWithTypeKind)
        } else if matches!(wrapper, FieldWrapper::Box) {
            Err(ConvError::BoxNotSupported)
        } else {
            Ok(
                FieldInfo {
                    rust_name: variant.name.clone(),
                    field_type: ft,
                    capnp_name_override: a.name_override,
                    has_phantom_in_variant: is_phantom,
                    is_union_field: false,
                    is_optional: false,
                    is_boxed: false,
                    skip_read: false,
                    skip_write: false,
                    default_override: None,
                },
            )
        }
    }
}

/// The names of the type parameters.
fn parse_generics(generics: &Vec<GenericParamDecl>) -> (r: Result<Vec<String>, ConvError>)
    ensures
        match parse_generics_spec(generics@) {
            Ok(gs) => r is Ok && r->Ok_0@ == gs,
            Err(e) => r == Err::<Vec<String>, ConvError>(e),
        },
{
    let mut out: Vec<String> = Vec::new();
    let mut i: usize = 0;
    while i < generics.len()
        invariant
            0 <= i <= generics@.len(),
            parse_generics_spec(generics@.take(i as int)) == Ok::<Seq<String>, ConvError>(out@),
        decreases generics@.len() - i,
    {
        proof {
            assert(generics@.take(i + 1).drop_last() == generics@.take(i as int));
        }
        match &generics[i] {
            GenericParamDecl::Type(name) => out.push(name.clone()),
            GenericParamDecl::Other => {
                proof {
                    lemma_generics_error_stays(generics@, i as int + 1);
                }
                return Err(ConvError::InvalidGeneric);
            },
        }
        i = i + 1;
    }
    proof {
        assert(generics@.take(i as int) == generics@);
    }
    Ok(out)
}

proof fn lemma_generics_error_stays(items: Seq<GenericParamDecl>, n: int)
    requires
        0 <= n <= items.len(),
        parse_generics_spec(items.take(n)) is Err,
    ensures
        parse_generics_spec(items) == parse_generics_spec(items.take(n)),
    decreases items.len() - n,
{
    if n < items.len() {
        assert(items.take(n + 1).drop_last() == items.take(n));
        lemma_generics_error_stays(items, n + 1);
    } else {
        assert(items.take(n) == items);
    }
}

proof fn lemma_fields_error_stays(items: Seq<FieldDecl>, n: int)
    requires
        0 <= n <= items.len(),
        parse_fields_spec(items.take(n)) is Err,
    ensures
        parse_fields_spec(items) == parse_fields_spec(items.take(n)),
    decreases items.len() - n,
{
    if n < items.len() {
        assert(items.take(n + 1).drop_last() == items.take(n));
        lemma_fields_error_stays(items, n + 1);
    } else {
        assert(items.take(n) == items);
    }
}

proof fn lemma_variants_error_stays(items: Seq<VariantDecl>, n: int)
    requires
        0 <= n <= items.len(),
        parse_variants_spec(items.take(n)) is Err,
    ensures
        parse_variants_spec(items) == parse_variants_spec(items.take(n)),
    decreases items.len() - n,
{
    if n < items.len() {
        assert(items.take(n + 1).drop_last() == items.take(n));
        lemma_variants_error_stays(items, n + 1);
    } else {
        assert(items.take(n) == items);
    }
}

impl StructInfo {
    /// Classifies each field of a struct in order, then reads its type parameters.
    pub fn parse_struct(ident: &String, generics: &Vec<GenericParamDecl>, fields: &Vec<FieldDecl>) -> (r: Result<Self, ConvError>)
        ensures
            outcome_matches(struct_outcome(r).0, struct_outcome(r).1, parse_fields_spec(fields@), parse_generics_spec(generics@)),
            r is Ok ==> r->Ok_0.ident == *ident,
    {
        let mut out: Vec<FieldInfo> = Vec::new();
        let mut i: usize = 0;
        while i < fields.len()
            invariant
                0 <= i <= fields@.len(),
                parse_fields_spec(fields@.take(i as int)) == Ok::<Seq<FieldInfo>, ConvError>(out@),
            decreases fields@.len() - i,
        {
            proof {
                assert(fields@.take(i + 1).drop_last() == fields@.take(i as int));
            }
            match FieldInfo::parse_field(&fields[i]) {
                Ok(f) => out.push(f),
                Err(e) => {
                    proof {
                        lemma_fields_error_stays(fields@, i as int + 1);
                    }
                    return Err(e);
                },
            }
            i = i + 1;
        }
        proof {
            assert(fields@.take(i as int) == fields@);
        }
        let generics = match parse_generics(generics) {
            Ok(g) => g,
            Err(e) => return Err(e),
        };
        Ok(StructInfo { ident: ident.clone(), fields: out, generics })
    }
}

impl EnumInfo {
    /// Classifies each variant of an enum in order, then reads its type parameters.
    pub fn parse_enum(ident: &String, generics: &Vec<GenericParamDecl>, variants: &Vec<VariantDecl>) -> (r: Result<Self, ConvError>)
        ensures
            outcome_matches(enum_outcome(r).0, enum_outcome(r).1, parse_variants_spec(variants@), parse_generics_spec(generics@)),
            r is Ok ==> r->Ok_0.ident == *ident,
    {
        let mut out: Vec<FieldInfo> = Vec::new();
        let mut i: usize = 0;
        while i < variants.len()
            invariant
                0 <= i <= variants@.len(),
                parse_variants_spec(variants@.take(i as int)) == Ok::<Seq<FieldInfo>, ConvError>(out@),
            decreases variants@.len() - i,
        {
            proof {
                assert(variants@.take(i + 1).drop_last() == variants@.take(i as int));
            }
            match FieldInfo::parse_variant(&variants[i]) {
                Ok(f) => out.push(f),
                Err(e) => {
                    proof {
                        lemma_variants_error_stays(variants@, i as int + 1);
                    }
                    return Err(e);
                },
            }
            i = i + 1;
        }
        proof {
            assert(variants@.take(i as int) == variants@);
        }
        let generics = match parse_generics(generics) {
            Ok(g) => g,
            Err(e) => return Err(e),
        };
        Ok(EnumInfo { ident: ident.clone(), fields: out, generics })
    }
}

impl ItemInfo {
    /// Classifies a declared struct or enum; any other item is refused.
    pub fn parse_input(input: &ItemDecl) -> (r: Result<Self, ConvError>)
        ensures
            parse_input_ok(*input, r),
    {
        match &input.body {
            ItemBody::Struct(fields) => match StructInfo::parse_struct(&input.ident, &input.generics, fields) {
                Ok(info) => Ok(ItemInfo::Struct(info)),
                Err(e) => Err(e),
            },
            ItemBody::Enum(variants) => match EnumInfo::parse_enum(&input.ident, &input.generics, variants) {
                Ok(info) => Ok(ItemInfo::Enum(info)),
                Err(e) => Err(e),
            },
            ItemBody::Union => Err(ConvError::NotStructOrEnum),
        }
    }
}

} // verus!
