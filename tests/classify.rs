use capnp_conv::error::ConvError;
use capnp_conv::models::{FieldInfo, FieldType, FieldWrapper, ItemInfo, TypeSpecifier};
use capnp_conv::parsers::{is_capnp_data_type, is_capnp_primative};
use capnp_conv::syntax::{
    FieldDecl, GenericArg, GenericParamDecl, ItemBody, ItemDecl, MetaItem, MetaValue, PathArgs,
    TypeSyntax, VariantDecl, VariantSlots,
};

fn plain(id: usize, name: &str) -> TypeSyntax {
    TypeSyntax::Path { id, last: name.to_string(), args: PathArgs::Plain }
}

fn generic(id: usize, name: &str, args: Vec<TypeSyntax>) -> TypeSyntax {
    TypeSyntax::Path {
        id,
        last: name.to_string(),
        args: PathArgs::Angle(args.into_iter().map(GenericArg::Type).collect()),
    }
}

fn flag(key: &str) -> MetaItem {
    MetaItem { key: key.to_string(), value: None }
}

fn kind(text: &str) -> MetaItem {
    MetaItem {
        key: "type".to_string(),
        value: Some(MetaValue { text: text.to_string(), ident: Some(text.to_string()), path: None }),
    }
}

fn field(name: &str, ty: TypeSyntax, attrs: Vec<MetaItem>) -> FieldDecl {
    FieldDecl { name: Some(name.to_string()), ty, attrs }
}

fn parse_one(ty: TypeSyntax, attrs: Vec<MetaItem>) -> Result<FieldInfo, ConvError> {
    FieldInfo::parse_field(&field("f", ty, attrs))
}

#[test]
fn primitive_names() {
    for name in ["bool", "i8", "i16", "i32", "i64", "u8", "u16", "u32", "u64", "f32", "f64"] {
        assert!(is_capnp_primative(&name.to_string()), "{}", name);
    }
    assert!(!is_capnp_primative(&"String".to_string()));
    assert!(!is_capnp_primative(&"i128".to_string()));
}

#[test]
fn data_type_is_vec_of_u8() {
    assert!(is_capnp_data_type(&generic(1, "Vec", vec![plain(2, "u8")])));
    assert!(!is_capnp_data_type(&generic(1, "Vec", vec![plain(2, "u16")])));
    assert!(!is_capnp_data_type(&plain(1, "Vec")));
}

#[test]
fn classifies_plain_types() {
    assert_eq!(FieldType::parse_type(&TypeSyntax::Unit, TypeSpecifier::Default), Ok(FieldType::Void));
    assert_eq!(FieldType::parse_type(&plain(3, "i32"), TypeSpecifier::Default), Ok(FieldType::Primitive(3)));
    assert_eq!(FieldType::parse_type(&plain(4, "String"), TypeSpecifier::Default), Ok(FieldType::Text(4)));
    assert_eq!(FieldType::parse_type(&plain(5, "Basic"), TypeSpecifier::Default), Ok(FieldType::Struct(5)));
    assert_eq!(FieldType::parse_type(&plain(5, "Basic"), TypeSpecifier::Enum), Ok(FieldType::Enum(5)));
    assert_eq!(FieldType::parse_type(&plain(5, "Basic"), TypeSpecifier::EnumRemote), Ok(FieldType::EnumRemote(5)));
    assert_eq!(FieldType::parse_type(&plain(5, "Basic"), TypeSpecifier::GroupOrUnion), Ok(FieldType::GroupOrUnion(5)));
    assert_eq!(FieldType::parse_type(&plain(5, "Basic"), TypeSpecifier::UnnamedUnion), Ok(FieldType::UnnamedUnion(5)));
    assert_eq!(
        FieldType::parse_type(&generic(6, "Generic", vec![plain(7, "T")]), TypeSpecifier::Default),
        Ok(FieldType::GenericStruct(6))
    );
}

#[test]
fn classifies_data_only_with_attribute() {
    let bytes = generic(1, "Vec", vec![plain(2, "u8")]);
    assert_eq!(FieldType::parse_type(&bytes, TypeSpecifier::Data), Ok(FieldType::Data(1)));
    assert_eq!(
        FieldType::parse_type(&bytes, TypeSpecifier::Default),
        Ok(FieldType::List(Box::new(FieldType::Primitive(2))))
    );
    assert_eq!(FieldType::parse_type(&plain(1, "Basic"), TypeSpecifier::Data), Err(ConvError::DataNotBytes));
}

#[test]
fn classifies_nested_lists() {
    let ty = generic(1, "Vec", vec![generic(2, "Vec", vec![generic(3, "GenericStruct", vec![plain(4, "T")])])]);
    assert_eq!(
        FieldType::parse_type(&ty, TypeSpecifier::Default),
        Ok(FieldType::List(Box::new(FieldType::List(Box::new(FieldType::GenericStruct(3))))))
    );
}

#[test]
fn classify_errors() {
    assert_eq!(FieldType::parse_type(&TypeSyntax::Other, TypeSpecifier::Default), Err(ConvError::IncompatibleType));
    assert_eq!(
        FieldType::parse_type(&generic(1, "Vec", vec![plain(2, "A"), plain(3, "B")]), TypeSpecifier::Default),
        Err(ConvError::VecArity)
    );
    assert_eq!(
        FieldType::parse_type(&generic(1, "Foo", vec![plain(2, "A")]), TypeSpecifier::Enum),
        Err(ConvError::GenericEnum)
    );
    let paren = TypeSyntax::Path { id: 1, last: "Fn".to_string(), args: PathArgs::Parenthesized };
    assert_eq!(FieldType::parse_type(&paren, TypeSpecifier::Default), Err(ConvError::ParenthesizedArguments));
    let vec_of_lifetime = TypeSyntax::Path {
        id: 1,
        last: "Vec".to_string(),
        args: PathArgs::Angle(vec![GenericArg::Other]),
    };
    assert_eq!(
        FieldType::parse_type(&vec_of_lifetime, TypeSpecifier::Default),
        Err(ConvError::InvalidGenericArgument)
    );
    assert_eq!(
        FieldType::parse_type(&generic(1, "Vec", vec![generic(2, "Option", vec![plain(3, "i32")])]), TypeSpecifier::Default),
        Err(ConvError::InvalidGenericArgument)
    );
}

#[test]
fn peels_wrappers() {
    assert_eq!(
        FieldType::parse(&generic(1, "Option", vec![plain(2, "i32")]), TypeSpecifier::Default),
        Ok((FieldType::Primitive(2), FieldWrapper::Option))
    );
    assert_eq!(
        FieldType::parse(&generic(1, "Box", vec![plain(2, "Basic")]), TypeSpecifier::Default),
        Ok((FieldType::Struct(2), FieldWrapper::Box))
    );
    assert_eq!(
        FieldType::parse(&generic(1, "PhantomData", vec![plain(2, "T")]), TypeSpecifier::Default),
        Ok((FieldType::Phantom, FieldWrapper::Bare))
    );
    assert_eq!(
        FieldType::parse(&plain(1, "u64"), TypeSpecifier::Default),
        Ok((FieldType::Primitive(1), FieldWrapper::Bare))
    );
}

#[test]
fn field_flags() {
    let f = parse_one(generic(1, "Option", vec![plain(2, "String")]), vec![]).unwrap();
    assert!(f.is_optional && !f.is_union_field);
    assert_eq!(f.rust_name, "f");
    let f = parse_one(generic(1, "Option", vec![plain(2, "String")]), vec![flag("union_variant")]).unwrap();
    assert!(f.is_union_field && !f.is_optional);
    let f = parse_one(plain(1, "i32"), vec![flag("skip")]).unwrap();
    assert!(f.skip_read && f.skip_write);
    let f = parse_one(plain(1, "i32"), vec![flag("skip_write")]).unwrap();
    assert!(!f.skip_read && f.skip_write);
}

#[test]
fn field_rule_errors() {
    let phantom = generic(1, "PhantomData", vec![plain(2, "T")]);
    assert_eq!(parse_one(phantom, vec![flag("skip")]), Err(ConvError::PhantomWithAttributes));
    assert_eq!(
        parse_one(generic(1, "Box", vec![plain(2, "S")]), vec![flag("union_variant")]),
        Err(ConvError::BoxedUnionField)
    );
    assert_eq!(parse_one(plain(1, "S"), vec![flag("union_variant")]), Err(ConvError::UnionFieldNotOption));
    assert_eq!(
        parse_one(generic(1, "Option", vec![plain(2, "U")]), vec![flag("union_variant"), kind("unnamed_union")]),
        Err(ConvError::UnionContainsUnnamedUnion)
    );
    assert_eq!(
        parse_one(generic(1, "Option", vec![plain(2, "G")]), vec![kind("group")]),
        Err(ConvError::OptionalGroupOrUnion)
    );
    assert_eq!(
        parse_one(generic(1, "Option", vec![plain(2, "G")]), vec![kind("unnamed_union")]),
        Err(ConvError::OptionalGroupOrUnion)
    );
    assert_eq!(parse_one(generic(1, "Box", vec![plain(2, "S")]), vec![]), Err(ConvError::BoxNotSupported));
    let unnamed = FieldDecl { name: None, ty: plain(1, "i32"), attrs: vec![] };
    assert_eq!(FieldInfo::parse_field(&unnamed), Err(ConvError::UnnamedField));
}

fn variant(name: &str, slots: VariantSlots, attrs: Vec<MetaItem>) -> VariantDecl {
    VariantDecl { name: name.to_string(), slots, attrs }
}

#[test]
fn variant_rules() {
    let v = FieldInfo::parse_variant(&variant("A", VariantSlots::Unit, vec![])).unwrap();
    assert_eq!(v.field_type, FieldType::EnumVariant);
    let v = FieldInfo::parse_variant(&variant(
        "B",
        VariantSlots::Unnamed(vec![plain(1, "T"), generic(2, "PhantomData", vec![plain(3, "Y")])]),
        vec![],
    ))
    .unwrap();
    assert!(v.has_phantom_in_variant);
    assert_eq!(v.field_type, FieldType::Struct(1));
    assert_eq!(
        FieldInfo::parse_variant(&variant("C", VariantSlots::Unnamed(vec![plain(1, "T"), plain(2, "U")]), vec![])),
        Err(ConvError::SecondSlotNotPhantom)
    );
    assert_eq!(
        FieldInfo::parse_variant(&variant(
            "D",
            VariantSlots::Unnamed(vec![plain(1, "T"), plain(2, "U"), plain(3, "V")]),
            vec![]
        )),
        Err(ConvError::TooManyVariantSlots)
    );
    assert_eq!(
        FieldInfo::parse_variant(&variant("E", VariantSlots::Named, vec![])),
        Err(ConvError::NamedVariantFields)
    );
    assert_eq!(
        FieldInfo::parse_variant(&variant(
            "F",
            VariantSlots::Unnamed(vec![generic(1, "PhantomData", vec![plain(2, "T")])]),
            vec![]
        )),
        Err(ConvError::PhantomFirstInVariant)
    );
    assert_eq!(
        FieldInfo::parse_variant(&variant("G", VariantSlots::Unnamed(vec![plain(1, "U")]), vec![kind("unnamed_union")])),
        Err(ConvError::UnionContainsUnnamedUnion)
    );
    assert_eq!(
        FieldInfo::parse_variant(&variant(
            "H",
            VariantSlots::Unnamed(vec![generic(1, "Option", vec![plain(2, "T")])]),
            vec![]
        )),
        Err(ConvError::OptionInVariant)
    );
    assert_eq!(
        FieldInfo::parse_variant(&variant("I", VariantSlots::Unnamed(vec![plain(1, "T")]), vec![flag("skip")])),
        Err(ConvError::VariantWithFieldAttributes)
    );
    assert_eq!(
        FieldInfo::parse_variant(&variant("J", VariantSlots::Unit, vec![kind("enum")])),
        Err(ConvError::SimpleVariantWithTypeKind)
    );
    assert_eq!(
        FieldInfo::parse_variant(&variant(
            "K",
            VariantSlots::Unnamed(vec![generic(1, "Box", vec![plain(2, "T")])]),
            vec![]
        )),
        Err(ConvError::BoxNotSupported)
    );
}

#[test]
fn items() {
    let decl = ItemDecl {
        ident: "S".to_string(),
        generics: vec![GenericParamDecl::Type("T".to_string())],
        body: ItemBody::Struct(vec![field("a", plain(1, "i32"), vec![]), field("b", plain(2, "T"), vec![])]),
    };
    match ItemInfo::parse_input(&decl) {
        Ok(ItemInfo::Struct(s)) => {
            assert_eq!(s.ident, "S");
            assert_eq!(s.generics, vec!["T".to_string()]);
            assert_eq!(s.fields.len(), 2);
            assert_eq!(s.fields[1].field_type, FieldType::Struct(2));
        }
        other => panic!("unexpected {:?}", other),
    }
    let bad_generic = ItemDecl { ident: "S".to_string(), generics: vec![GenericParamDecl::Other], body: ItemBody::Struct(vec![]) };
    assert_eq!(ItemInfo::parse_input(&bad_generic), Err(ConvError::InvalidGeneric));
    let union = ItemDecl { ident: "U".to_string(), generics: vec![], body: ItemBody::Union };
    assert_eq!(ItemInfo::parse_input(&union), Err(ConvError::NotStructOrEnum));
    let first_error_wins = ItemDecl {
        ident: "S".to_string(),
        generics: vec![GenericParamDecl::Other],
        body: ItemBody::Struct(vec![field("a", TypeSyntax::Other, vec![])]),
    };
    assert_eq!(ItemInfo::parse_input(&first_error_wins), Err(ConvError::IncompatibleType));
    let e = ItemDecl {
        ident: "E".to_string(),
        generics: vec![],
        body: ItemBody::Enum(vec![variant("Val1", VariantSlots::Unit, vec![]), variant("Val2", VariantSlots::Unit, vec![])]),
    };
    match ItemInfo::parse_input(&e) {
        Ok(ItemInfo::Enum(info)) => assert!(!info.is_union()),
        other => panic!("unexpected {:?}", other),
    }
}
