use capnp_conv::examples::{BasicStruct, ExampleEnum, GenericStruct, RemoteExampleEnum};
use capnp_conv::remote::RemoteEnum;

#[test]
fn remote_enum_maps_both_ways() {
    for w in [ExampleEnum::Val1, ExampleEnum::Val2] {
        let h = RemoteExampleEnum::from(w);
        assert_eq!(h.to_capnp_enum(), w);
    }
    for h in [RemoteExampleEnum::Val1, RemoteExampleEnum::Val2] {
        assert_eq!(RemoteExampleEnum::from(h.to_wire()), h);
    }
    assert_eq!(RemoteExampleEnum::Val2.to_capnp_enum(), ExampleEnum::Val2);
}

#[test]
fn example_values_compare_by_fields() {
    let basic = BasicStruct { val: 10 };
    let g = GenericStruct { val: basic.clone() };
    assert_eq!(g, GenericStruct { val: BasicStruct { val: 10 } });
    assert_ne!(g, GenericStruct { val: BasicStruct { val: 11 } });
}
