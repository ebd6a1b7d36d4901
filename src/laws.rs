//! Laws of the generated code, stated over the shape of what the generators
//! produce; [`crate::semantics`] states what that code does.
use vstd::prelude::*;

use crate::generators::{field_read_ok, field_write_ok, snake_name, supported_field, FieldRead, FieldWrite, ReaderName};
use crate::impls::{enum_pairs_ok, impls_ok, part, EnumPair, GeneratedImpls};
use crate::models::{is_ptr_type_spec, FieldInfo, ItemInfo, StructInfo};
use crate::names::upper_camel_case_of;

verus! {

/// In the reader of a struct with union arms, match arm `i` (for the arm's
/// variant of the wire discriminant) sets exactly one union field, arm `i`,
/// to the value read, and every other union field to `None`.
pub proof fn lemma_union_arms_exclusive(s: StructInfo, g: GeneratedImpls, i: int)
    requires
        impls_ok(g, ItemInfo::Struct(s)),
        0 <= i < part(s.fields@, true).len(),
    ensures
        g.impls is Struct,
        ({
            let u = part(s.fields@, true);
            let arm = g.impls->Struct_reader.arms@[i];
            &&& arm.variant@ == upper_camel_case_of(u[i].capnp_base_name())
            &&& arm.fields@.len() == u.len()
            &&& forall|j: int| 0 <= j < u.len() ==> ((#[trigger] arm.fields@[j]).value is Some <==> j == i)
            &&& arm.fields@[i].rust_name == u[i].rust_name
        }),
{
    let u = part(s.fields@, true);
    let arm = g.impls->Struct_reader.arms@[i];
    assert(crate::impls::arm_ok(arm, u, i, s.generics@.len() > 0));
}

/// An optional pointer field (text, data, struct, list) is read only when the
/// wire says it is present, from the field the writer fills when it is
/// `Some`, and the writer writes nothing for `None`. An optional inline field
/// (a primitive or an enum) is always read as `Some`.
pub proof fn lemma_optional_presence(f: FieldInfo, w: FieldWrite, r: FieldRead, owned: bool, reborrow: bool)
    requires
        supported_field(f),
        field_write_ok(w, f, owned),
        field_read_ok(r, f, false, reborrow),
        f.is_optional,
        !f.skip_read,
        !f.skip_write,
        !(f.field_type is Phantom),
    ensures
        w is IfSome,
        is_ptr_type_spec(f.field_type) ==> {
            &&& r is Present
            &&& r->checker@ == "has_"@ + snake_name(f)
            &&& r->Present_value.fetch.getter->0@ == "get_"@ + snake_name(f)
        },
        !is_ptr_type_spec(f.field_type) ==> {
            &&& r is SomeOf
            &&& *r->SomeOf_0 is Value
            &&& (*r->SomeOf_0)->Value_0.fetch.reader == ReaderName::Reader
        },
{
}

/// A field (other than a marker) that is not read takes the value of its default function (or of
/// its type's default), whatever the wire holds: the reader has no fetch for
/// it. A field that is not written has no write at all.
pub proof fn lemma_skip_with_default(f: FieldInfo, w: FieldWrite, r: FieldRead, owned: bool, pre_fetched: bool, reborrow: bool)
    requires
        supported_field(f),
        field_write_ok(w, f, owned),
        field_read_ok(r, f, pre_fetched, reborrow),
    ensures
        f.skip_write ==> w == FieldWrite::Noop,
        !(f.field_type is Phantom) && f.skip_read && f.default_override is Some && !f.is_optional ==> r == FieldRead::CallDefault(
            f.default_override->0,
        ),
        !(f.field_type is Phantom) && f.skip_read && f.default_override is Some && f.is_optional ==> r is SomeOf && *r->SomeOf_0
            == FieldRead::CallDefault(f.default_override->0),
        f.skip_read ==> !(r is Value || r is Present),
{
}

/// Distinct names in a list of variant pairs.
pub open spec fn distinct_names(p: Seq<EnumPair>, wire_side: bool) -> bool {
    forall|i: int, j: int|
        0 <= i < p.len() && 0 <= j < p.len() && i != j ==> (if wire_side {
            (#[trigger] p[i]).capnp_name@ != (#[trigger] p[j]).capnp_name@
        } else {
            p[i].rust_name@ != p[j].rust_name@
        })
}

/// For a simple enum whose variants have distinct names and distinct schema
/// names, the generated mappings are inverse: the arm of `From` that matches
/// the enumerant that variant `i` maps to gives variant `i` back, and the
/// arm of `to_capnp_enum` that matches the variant that enumerant `i` maps to
/// gives enumerant `i` back.
pub proof fn lemma_remote_enum_round_trip(fs: Seq<FieldInfo>, to_wire: Seq<EnumPair>, from_wire: Seq<EnumPair>, i: int)
    requires
        enum_pairs_ok(to_wire, fs),
        enum_pairs_ok(from_wire, fs),
        distinct_names(to_wire, true),
        distinct_names(to_wire, false),
        0 <= i < fs.len(),
    ensures
        forall|k: int|
            0 <= k < from_wire.len() && (#[trigger] from_wire[k]).capnp_name@ == to_wire[i].capnp_name@ ==> k == i
                && from_wire[k].rust_name == to_wire[i].rust_name,
        forall|k: int|
            0 <= k < to_wire.len() && (#[trigger] to_wire[k]).rust_name@ == from_wire[i].rust_name@ ==> k == i
                && to_wire[k].capnp_name@ == from_wire[i].capnp_name@,
{
    assert forall|k: int|
        0 <= k < from_wire.len() && (#[trigger] from_wire[k]).capnp_name@ == to_wire[i].capnp_name@ implies k == i
            && from_wire[k].rust_name == to_wire[i].rust_name by {
        assert(to_wire[k].capnp_name@ == from_wire[k].capnp_name@);
    }
    assert forall|k: int|
        0 <= k < to_wire.len() && (#[trigger] to_wire[k]).rust_name@ == from_wire[i].rust_name@ implies k == i
            && to_wire[k].capnp_name@ == from_wire[i].capnp_name@ by {
        assert(to_wire[i].rust_name == from_wire[i].rust_name);
    }
}

} // verus!
