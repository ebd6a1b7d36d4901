use capnp_conv::capitalize_first_letter;
use capnp_conv::error::ConvError;
use capnp_conv::generators::{FieldRead, FieldWrite, ItemRead, ItemWrite, ReadOp, ReaderName, ValueRef, WriteOp};
use capnp_conv::impls::{expand, GeneratedImpls, ImplSet};
use capnp_conv::models::FieldInfo;
use capnp_conv::names::{to_capnp_generic, NameCase};
use capnp_conv::syntax::{
    ExprPath, FieldDecl, GenericArg, GenericParamDecl, ItemBody, ItemDecl, MetaItem, MetaValue, PathArgs,
    TypeSyntax, VariantDecl, VariantSlots,
};

fn plain(id: usize, name: &str) -> TypeSyntax {
    TypeSyntax::Path { id, last: name.to_string(), args: PathArgs::Plain }
}

fn generic(id: usize, name: &str, args: Vec<TypeSyntax>) -> TypeSyntax {
    TypeSyntax::Path {
        id,
        last: name.to_string(),
        args: PathArgs::Angle(args.into_iter().map(GenericArg::Type).collect()),
    }
}

fn flag(key: &str) -> MetaItem {
    MetaItem { key: key.to_string(), value: None }
}

fn kind(text: &str) -> MetaItem {
    MetaItem {
        key: "type".to_string(),
        value: Some(MetaValue { text: text.to_string(), ident: Some(text.to_string()), path: None }),
    }
}

fn field(name: &str, ty: TypeSyntax, attrs: Vec<MetaItem>) -> FieldDecl {
    FieldDecl { name: Some(name.to_string()), ty, attrs }
}

fn strukt(name: &str, generics: &[&str], fields: Vec<FieldDecl>) -> ItemDecl {
    ItemDecl {
        ident: name.to_string(),
        generics: generics.iter().map(|g| GenericParamDecl::Type(g.to_string())).collect(),
        body: ItemBody::Struct(fields),
    }
}

fn struct_parts(g: &GeneratedImpls) -> (&Vec<capnp_conv::impls::StructFieldWrite>, &capnp_conv::impls::StructReader) {
    match &g.impls {
        ImplSet::Struct { writer, reader } => (writer, reader),
        other => panic!("not a struct: {:?}", other),
    }
}

fn getter(r: &FieldRead) -> Option<String> {
    match r {
        FieldRead::Value(v) => v.fetch.getter.clone(),
        _ => None,
    }
}

#[test]
fn accessor_names_follow_schema_casing() {
    let f = FieldInfo::parse_field(&field("textVal", plain(1, "String"), vec![])).unwrap();
    assert_eq!(f.get_capnp_name(NameCase::Snake), "text_val");
    assert_eq!(f.get_capnp_name(NameCase::UpperCamel), "TextVal");
    assert_eq!(f.get_capnp_name(NameCase::Capitalized), "TextVal");
    let f = FieldInfo::parse_field(&field("union_val1", plain(1, "String"), vec![])).unwrap();
    assert_eq!(f.get_capnp_name(NameCase::UpperCamel), "UnionVal1");
    assert_eq!(capitalize_first_letter("val1"), "Val1");
    assert_eq!(capitalize_first_letter("Val1"), "Val1");
    assert_eq!(to_capnp_generic(&"T".to_string()), "__CaPnP__T");
}

#[test]
fn scenario_struct_of_four_kinds() {
    // { prim: i32, text: String, list: Vec<i32>, nested: Struct }
    let decl = strukt(
        "TestStruct",
        &[],
        vec![
            field("prim", plain(1, "i32"), vec![]),
            field("text", plain(2, "String"), vec![]),
            field("list", generic(3, "Vec", vec![plain(4, "i32")]), vec![]),
            field("nested", plain(5, "BasicStruct"), vec![]),
        ],
    );
    let g = expand(&decl).unwrap();
    assert_eq!(g.ident, "TestStruct");
    let (writer, reader) = struct_parts(&g);
    let expected_writes = [
        ("set_prim", WriteOp::SetCopy),
        ("set_text", WriteOp::SetText),
        ("init_list", WriteOp::List(ItemWrite::SetCopy)),
        ("init_nested", WriteOp::WriteInit),
    ];
    assert_eq!(writer.len(), 4);
    for (w, (accessor, op)) in writer.iter().zip(expected_writes) {
        assert!(w.union_arm.is_none());
        match &w.write {
            FieldWrite::Write(v) => {
                assert_eq!(v.accessor, accessor);
                assert_eq!(v.op, op);
                assert!(matches!(v.value, ValueRef::SelfField(_)));
            }
            other => panic!("unexpected {:?}", other),
        }
    }
    let expected_reads = [
        ("get_prim", ReadOp::Direct),
        ("get_text", ReadOp::OwnedText),
        ("get_list", ReadOp::List(ItemRead::Direct)),
        ("get_nested", ReadOp::ReadStruct(5)),
    ];
    assert!(reader.arms.is_empty());
    assert_eq!(reader.fields.len(), 4);
    for (b, (get, op)) in reader.fields.iter().zip(expected_reads) {
        assert_eq!(getter(&b.value), Some(get.to_string()));
        match &b.value {
            FieldRead::Value(v) => {
                assert_eq!(v.op, op);
                assert_eq!(v.fetch.reader, ReaderName::Reader);
                assert!(!v.fetch.reborrow);
            }
            other => panic!("unexpected {:?}", other),
        }
    }
}

#[test]
fn scenario_union_arms() {
    // { prim: i32, union_val1: Option<String>, union_val2: Option<BasicStruct> }
    let decl = strukt(
        "UnionStruct",
        &[],
        vec![
            field("prim", plain(1, "i32"), vec![]),
            field("union_val1", generic(2, "Option", vec![plain(3, "String")]), vec![flag("union_variant")]),
            field("union_val2", generic(4, "Option", vec![plain(5, "BasicStruct")]), vec![flag("union_variant")]),
        ],
    );
    let g = expand(&decl).unwrap();
    let (writer, reader) = struct_parts(&g);
    assert_eq!(writer[1].union_arm, Some("union_val1".to_string()));
    assert_eq!(writer[2].union_arm, Some("union_val2".to_string()));
    assert!(matches!(&writer[1].write, FieldWrite::Write(v) if v.value == ValueRef::Val && v.accessor == "set_union_val1"));
    assert_eq!(reader.fields.len(), 1);
    assert_eq!(reader.fields[0].rust_name, "prim");
    assert_eq!(reader.arms.len(), 2);
    assert_eq!(reader.arms[0].variant, "UnionVal1");
    assert_eq!(reader.arms[1].variant, "UnionVal2");
    for (i, arm) in reader.arms.iter().enumerate() {
        let set: Vec<usize> = arm.fields.iter().enumerate().filter(|(_, f)| f.value.is_some()).map(|(j, _)| j).collect();
        assert_eq!(set, vec![i]);
        match arm.fields[i].value.as_ref().unwrap() {
            FieldRead::Value(v) => {
                assert_eq!(v.fetch.reader, ReaderName::Val);
                assert!(v.fetch.getter.is_none());
            }
            other => panic!("unexpected {:?}", other),
        }
    }
    assert!(matches!(&reader.arms[0].fields[0].value, Some(FieldRead::Value(v)) if v.op == ReadOp::OwnedText));
    assert!(matches!(&reader.arms[1].fields[1].value, Some(FieldRead::Value(v)) if v.op == ReadOp::ReadStruct(5)));
}

#[test]
fn optional_fields_check_presence_of_pointers_only() {
    // the shape of `TestOptional`
    let decl = strukt(
        "TestOptional",
        &[],
        vec![
            field("prim", generic(1, "Option", vec![plain(2, "i32")]), vec![]),
            field("struc", generic(3, "Option", vec![plain(4, "BasicStruct")]), vec![]),
            field("text", generic(5, "Option", vec![plain(6, "String")]), vec![]),
            field("data", generic(7, "Option", vec![generic(8, "Vec", vec![plain(9, "u8")])]), vec![kind("data")]),
            field("list", generic(10, "Option", vec![generic(11, "Vec", vec![plain(12, "i32")])]), vec![]),
        ],
    );
    let g = expand(&decl).unwrap();
    let (writer, reader) = struct_parts(&g);
    for w in writer.iter() {
        assert!(matches!(&w.write, FieldWrite::IfSome { source: ValueRef::SelfField(_), write } if write.value == ValueRef::Val));
    }
    assert!(matches!(&reader.fields[0].value, FieldRead::SomeOf(inner) if matches!(**inner, FieldRead::Value(_))));
    assert!(matches!(&reader.fields[1].value, FieldRead::Present { checker, value } if checker == "has_struc" && value.op == ReadOp::ReadStruct(4)));
    assert!(matches!(&reader.fields[2].value, FieldRead::Present { checker, .. } if checker == "has_text"));
    assert!(matches!(&reader.fields[3].value, FieldRead::Present { checker, value } if checker == "has_data" && value.op == ReadOp::OwnedData));
    assert!(matches!(&reader.fields[4].value, FieldRead::Present { checker, value } if checker == "has_list" && value.op == ReadOp::List(ItemRead::Direct)));
    match &writer[3].write {
        FieldWrite::IfSome { write, .. } => {
            assert_eq!(write.accessor, "set_data");
            assert_eq!(write.op, WriteOp::SetRef);
        }
        other => panic!("unexpected {:?}", other),
    }
}

#[test]
fn skipped_fields_use_defaults() {
    let default_item = MetaItem {
        key: "default".to_string(),
        value: Some(MetaValue { text: "d".to_string(), ident: None, path: Some(ExprPath { id: 99, turbofish: true }) }),
    };
    let decl = strukt(
        "TestDefaults",
        &[],
        vec![
            field("prim", plain(1, "i32"), vec![flag("skip_read"), default_item]),
            field("text", plain(2, "String"), vec![flag("skip")]),
            field("list", generic(3, "Vec", vec![plain(4, "i32")]), vec![flag("skip_read")]),
            field("opt", generic(5, "Option", vec![plain(6, "i32")]), vec![flag("skip_read")]),
        ],
    );
    let g = expand(&decl).unwrap();
    let (writer, reader) = struct_parts(&g);
    assert_eq!(reader.fields[0].value, FieldRead::CallDefault(ExprPath { id: 99, turbofish: true }));
    assert_eq!(reader.fields[1].value, FieldRead::DefaultOf(2));
    assert_eq!(reader.fields[2].value, FieldRead::EmptyList);
    assert_eq!(reader.fields[3].value, FieldRead::SomeOf(Box::new(FieldRead::DefaultOf(6))));
    assert!(matches!(writer[0].write, FieldWrite::Write(_)));
    assert_eq!(writer[1].write, FieldWrite::Noop);
}

#[test]
fn generic_struct_reborrows_and_names_parameters() {
    let decl = strukt(
        "GenericStruct",
        &["A", "B"],
        vec![
            field("a_val", plain(1, "A"), vec![]),
            field("marker", generic(2, "PhantomData", vec![plain(3, "B")]), vec![]),
            field("nested", generic(4, "Vec", vec![generic(5, "Vec", vec![plain(6, "A")])]), vec![]),
        ],
    );
    let g = expand(&decl).unwrap();
    assert_eq!(g.generics, vec!["A".to_string(), "B".to_string()]);
    assert_eq!(g.capnp_generics, vec!["__CaPnP__A".to_string(), "__CaPnP__B".to_string()]);
    let (writer, reader) = struct_parts(&g);
    assert_eq!(writer[1].write, FieldWrite::Noop);
    assert_eq!(reader.fields[1].value, FieldRead::Phantom);
    match &reader.fields[0].value {
        FieldRead::Value(v) => assert!(v.fetch.reborrow),
        other => panic!("unexpected {:?}", other),
    }
    match &reader.fields[2].value {
        FieldRead::Value(v) => assert_eq!(v.op, ReadOp::List(ItemRead::List(Box::new(ItemRead::ReadStruct(6))))),
        other => panic!("unexpected {:?}", other),
    }
    match &writer[2].write {
        FieldWrite::Write(v) => assert_eq!(v.op, WriteOp::List(ItemWrite::List(Box::new(ItemWrite::WriteItem)))),
        other => panic!("unexpected {:?}", other),
    }
}

fn variant(name: &str, slots: VariantSlots, attrs: Vec<MetaItem>) -> VariantDecl {
    VariantDecl { name: name.to_string(), slots, attrs }
}

#[test]
fn simple_enum_maps_variants() {
    let name = MetaItem {
        key: "name".to_string(),
        value: Some(MetaValue { text: "other".to_string(), ident: Some("other".to_string()), path: None }),
    };
    let decl = ItemDecl {
        ident: "RemoteExampleEnum".to_string(),
        generics: vec![],
        body: ItemBody::Enum(vec![variant("val1", VariantSlots::Unit, vec![]), variant("Val2", VariantSlots::Unit, vec![name])]),
    };
    let g = expand(&decl).unwrap();
    match &g.impls {
        ImplSet::SimpleEnum { to_wire, from_wire } => {
            assert_eq!(to_wire, from_wire);
            assert_eq!(to_wire[0].rust_name, "val1");
            assert_eq!(to_wire[0].capnp_name, "Val1");
            assert_eq!(to_wire[1].rust_name, "Val2");
            assert_eq!(to_wire[1].capnp_name, "Other");
        }
        other => panic!("unexpected {:?}", other),
    }
}

#[test]
fn union_enum_reads_and_writes_each_variant() {
    let decl = ItemDecl {
        ident: "ExampleUnion".to_string(),
        generics: vec![GenericParamDecl::Type("T".to_string())],
        body: ItemBody::Enum(vec![
            variant("Val1", VariantSlots::Unnamed(vec![plain(1, "T")]), vec![]),
            variant(
                "TextVal",
                VariantSlots::Unnamed(vec![plain(2, "String"), generic(3, "PhantomData", vec![plain(4, "T")])]),
                vec![],
            ),
        ]),
    };
    let g = expand(&decl).unwrap();
    match &g.impls {
        ImplSet::UnionEnum { variant_writers, variant_readers } => {
            assert_eq!(variant_writers.len(), 2);
            assert!(variant_writers[1].has_phantom);
            assert!(matches!(&variant_writers[1].write, FieldWrite::Write(v) if v.accessor == "set_text_val" && v.op == WriteOp::SetText && v.value == ValueRef::Val));
            assert_eq!(variant_readers[0].capnp_variant, "Val1");
            assert_eq!(variant_readers[1].capnp_variant, "TextVal");
            assert!(variant_readers[1].has_phantom);
            assert!(matches!(&variant_readers[0].value, FieldRead::Value(v) if v.op == ReadOp::ReadStruct(1) && v.fetch.getter.is_none()));
        }
        other => panic!("unexpected {:?}", other),
    }
}

#[test]
fn unsupported_shapes_are_refused() {
    let decl = strukt("S", &[], vec![field("g", generic(1, "Vec", vec![plain(2, "G")]), vec![kind("group")])]);
    assert_eq!(expand(&decl).err(), Some(ConvError::UnsupportedListItem));
    let mixed = ItemDecl {
        ident: "E".to_string(),
        generics: vec![],
        body: ItemBody::Enum(vec![variant("A", VariantSlots::Unit, vec![]), variant("B", VariantSlots::Unnamed(vec![plain(1, "T")]), vec![])]),
    };
    assert_eq!(expand(&mixed).err(), Some(ConvError::MixedEnum));
}
