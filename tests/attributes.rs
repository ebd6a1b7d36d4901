use capnp_conv::attrs::FieldAttributesInfo;
use capnp_conv::error::ConvError;
use capnp_conv::models::TypeSpecifier;
use capnp_conv::syntax::{ExprPath, MetaItem, MetaValue};

fn flag(key: &str) -> MetaItem {
    MetaItem { key: key.to_string(), value: None }
}

fn text(key: &str, value: &str) -> MetaItem {
    MetaItem {
        key: key.to_string(),
        value: Some(MetaValue { text: value.to_string(), ident: Some(value.to_string()), path: None }),
    }
}

fn default_fn(id: usize, turbofish: bool) -> MetaItem {
    MetaItem {
        key: "default".to_string(),
        value: Some(MetaValue { text: "f".to_string(), ident: None, path: Some(ExprPath { id, turbofish }) }),
    }
}

#[test]
fn empty_attributes() {
    let a = FieldAttributesInfo::new(&vec![]).unwrap();
    assert_eq!(a.type_specifier, TypeSpecifier::Default);
    assert!(a.name_override.is_none() && a.default.is_none());
    assert!(!a.skip && !a.skip_read && !a.skip_write && !a.union_field);
}

#[test]
fn type_kinds() {
    let cases = [
        ("enum", TypeSpecifier::Enum),
        ("enum_remote", TypeSpecifier::EnumRemote),
        ("group", TypeSpecifier::GroupOrUnion),
        ("union", TypeSpecifier::GroupOrUnion),
        ("unnamed_union", TypeSpecifier::UnnamedUnion),
        ("data", TypeSpecifier::Data),
    ];
    for (t, expected) in cases {
        assert_eq!(FieldAttributesInfo::new(&vec![text("type", t)]).unwrap().type_specifier, expected);
    }
    assert_eq!(FieldAttributesInfo::new(&vec![text("type", "struct")]), Err(ConvError::UnknownTypeKind));
}

#[test]
fn name_and_default() {
    let a = FieldAttributesInfo::new(&vec![text("name", "wireName"), flag("skip_read"), default_fn(7, true)]).unwrap();
    assert_eq!(a.name_override, Some("wireName".to_string()));
    assert_eq!(a.default, Some(ExprPath { id: 7, turbofish: true }));
    assert!(a.skip_read);
}

#[test]
fn attribute_errors() {
    assert_eq!(FieldAttributesInfo::new(&vec![flag("bogus")]), Err(ConvError::UnknownAttribute));
    assert_eq!(FieldAttributesInfo::new(&vec![flag("skip"), flag("skip")]), Err(ConvError::DuplicateAttribute));
    assert_eq!(
        FieldAttributesInfo::new(&vec![text("type", "enum"), text("type", "group")]),
        Err(ConvError::DuplicateAttribute)
    );
    assert_eq!(FieldAttributesInfo::new(&vec![default_fn(1, true)]), Err(ConvError::DefaultWithoutSkip));
    assert_eq!(
        FieldAttributesInfo::new(&vec![flag("skip"), default_fn(1, false)]),
        Err(ConvError::NotTurbofish)
    );
    assert_eq!(
        FieldAttributesInfo::new(&vec![flag("skip"), flag("skip_read")]),
        Err(ConvError::SkipWithSkipReadOrWrite)
    );
    assert_eq!(FieldAttributesInfo::new(&vec![flag("name")]), Err(ConvError::MalformedAttributeValue));
    assert_eq!(
        FieldAttributesInfo::new(&vec![text("skip", "yes")]),
        Err(ConvError::MalformedAttributeValue)
    );
    // the first refused entry decides the error
    assert_eq!(
        FieldAttributesInfo::new(&vec![flag("bogus"), flag("skip"), flag("skip")]),
        Err(ConvError::UnknownAttribute)
    );
}
