//! The generated operations of a whole struct or enum.
use vstd::prelude::*;

use crate::error::ConvError;
use crate::generators::{field_read_ok, field_write_ok, supported_field, supported_type, FieldRead, FieldWrite};
use crate::models::{EnumInfo, FieldInfo, FieldType, ItemInfo, StructInfo};
use crate::parsers::parse_input_ok;
use crate::syntax::ItemDecl;
use crate::generators::supported_item;
use crate::names::{cased, snake_case_of, to_capnp_generic, to_case, upper_camel_case_of, NameCase};

verus! {

/// The write of one struct field; a union arm is written only when it is
/// `Some` (`if let Some(val) = &self.x { ... }`).
#[derive(Debug, PartialEq, Eq)]
pub struct StructFieldWrite {
    pub union_arm: Option<String>,
    pub write: FieldWrite,
}

/// `let x = e;` (or `x: e` when the struct has no union).
#[derive(Debug, PartialEq, Eq)]
pub struct ReadBinding {
    pub rust_name: String,
    pub value: FieldRead,
}

/// A union arm's field in a match arm: `x: Some(e)` or `x: None`.
#[derive(Debug, PartialEq, Eq)]
pub struct ArmField {
    pub rust_name: String,
    pub value: Option<FieldRead>,
}

/// `Which::V(val) => Self { ... }`.
#[derive(Debug, PartialEq, Eq)]
pub struct UnionArm {
    pub variant: String,
    pub fields: Vec<ArmField>,
}

/// The body of a struct's reader: the fields outside the union, then a match
/// on the union's discriminant when there are union arms.
#[derive(Debug, PartialEq, Eq)]
pub struct StructReader {
    pub fields: Vec<ReadBinding>,
    pub arms: Vec<UnionArm>,
}

/// `Self::V(val[, _]) => write`.
#[derive(Debug, PartialEq, Eq)]
pub struct VariantWrite {
    pub rust_name: String,
    pub has_phantom: bool,
    pub write: FieldWrite,
}

/// `Which::W(val) => Self::V(e[, PhantomData])`.
#[derive(Debug, PartialEq, Eq)]
pub struct VariantRead {
    pub capnp_variant: String,
    pub rust_name: String,
    pub has_phantom: bool,
    pub value: FieldRead,
}

/// One variant of a simple enum and the generated enumerant it maps to.
#[derive(Debug, PartialEq, Eq)]
pub struct EnumPair {
    pub rust_name: String,
    pub capnp_name: String,
}

/// The operations generated for an item.
#[derive(Debug, PartialEq, Eq)]
pub enum ImplSet {
    /// Writer, reader and `TryFrom` of a struct.
    Struct { writer: Vec<StructFieldWrite>, reader: StructReader },
    /// Writer, reader and `TryFrom` of an enum with payloads.
    UnionEnum { variant_writers: Vec<VariantWrite>, variant_readers: Vec<VariantRead> },
    /// `to_capnp_enum`, `Into` and `From` of a simple enum.
    SimpleEnum { to_wire: Vec<EnumPair>, from_wire: Vec<EnumPair> },
}

/// Everything generated for one item.
#[derive(Debug, PartialEq, Eq)]
pub struct GeneratedImpls {
    pub ident: String,
    pub generics: Vec<String>,
    /// The wire-level type parameter beside each Rust one.
    pub capnp_generics: Vec<String>,
    pub impls: ImplSet,
}

/// The fields of `fs` that are union arms (`arms`) or are not, in order.
pub open spec fn part(fs: Seq<FieldInfo>, arms: bool) -> Seq<FieldInfo>
    decreases fs.len(),
{
    if fs.len() == 0 {
        Seq::empty()
    } else if fs.last().is_union_field == arms {
        part(fs.drop_last(), arms).push(fs.last())
    } else {
        part(fs.drop_last(), arms)
    }
}

/// Match arm `i` of a struct reader whose union arms are `u`: it names the
/// arm's variant and sets arm `i` to the value read and every other arm to
/// `None`.
pub open spec fn arm_ok(a: UnionArm, u: Seq<FieldInfo>, i: int, reborrow: bool) -> bool {
    &&& a.variant@ == upper_camel_case_of(u[i].capnp_base_name())
    &&& a.fields@.len() == u.len()
    &&& forall|j: int|
        0 <= j < u.len() ==> {
            let af = #[trigger] a.fields@[j];
            &&& af.rust_name == u[j].rust_name
            &&& (j == i ==> af.value is Some && field_read_ok(af.value->0, u[i], true, reborrow))
            &&& (j != i ==> af.value is None)
        }
}

/// The reader of a struct with fields `fs`.
pub open spec fn struct_reader_ok(r: StructReader, fs: Seq<FieldInfo>, reborrow: bool) -> bool {
    let nu = part(fs, false);
    let u = part(fs, true);
    &&& r.fields@.len() == nu.len()
    &&& forall|i: int|
        0 <= i < nu.len() ==> (#[trigger] r.fields@[i]).rust_name == nu[i].rust_name
            && field_read_ok(r.fields@[i].value, nu[i], false, reborrow)
    &&& r.arms@.len() == u.len()
    &&& forall|i: int| 0 <= i < u.len() ==> arm_ok(#[trigger] r.arms@[i], u, i, reborrow)
}

/// The writer of a struct with fields `fs`: one write per field, in order.
pub open spec fn struct_writer_ok(w: Seq<StructFieldWrite>, fs: Seq<FieldInfo>) -> bool {
    &&& w.len() == fs.len()
    &&& forall|i: int|
        0 <= i < fs.len() ==> {
            let s = #[trigger] w[i];
            if fs[i].is_union_field {
                s.union_arm is Some && s.union_arm->0 == fs[i].rust_name && field_write_ok(s.write, fs[i], false)
            } else {
                s.union_arm is None && field_write_ok(s.write, fs[i], true)
            }
        }
}

/// The writer of an enum with payloads: one arm per variant.
pub open spec fn enum_writer_ok(w: Seq<VariantWrite>, fs: Seq<FieldInfo>) -> bool {
    &&& w.len() == fs.len()
    &&& forall|i: int|
        0 <= i < fs.len() ==> (#[trigger] w[i]).rust_name == fs[i].rust_name
            && w[i].has_phantom == fs[i].has_phantom_in_variant && field_write_ok(w[i].write, fs[i], false)
}

/// The reader of an enum with payloads: one arm per variant, named by the
/// upper camel case of the variant's snake-case schema name.
pub open spec fn enum_reader_ok(r: Seq<VariantRead>, fs: Seq<FieldInfo>, reborrow: bool) -> bool {
    &&& r.len() == fs.len()
    &&& forall|i: int|
        0 <= i < fs.len() ==> {
            let v = #[trigger] r[i];
            &&& v.rust_name == fs[i].rust_name
            &&& v.has_phantom == fs[i].has_phantom_in_variant
            &&& v.capnp_variant@ == upper_camel_case_of(snake_case_of(fs[i].capnp_base_name()))
            &&& field_read_ok(v.value, fs[i], true, reborrow)
        }
}

/// The variant pairs of a simple enum: each variant with the capitalized
/// schema name.
pub open spec fn enum_pairs_ok(p: Seq<EnumPair>, fs: Seq<FieldInfo>) -> bool {
    &&& p.len() == fs.len()
    &&& forall|i: int|
        0 <= i < fs.len() ==> (#[trigger] p[i]).rust_name == fs[i].rust_name
            && p[i].capnp_name@ == cased(NameCase::Capitalized, fs[i].capnp_base_name())
}

/// The wire-level type parameters beside `generics`.
pub open spec fn capnp_generics_ok(c: Seq<String>, generics: Seq<String>) -> bool {
    &&& c.len() == generics.len()
    &&& forall|i: int| 0 <= i < generics.len() ==> (#[trigger] c[i])@ == "__CaPnP__"@ + generics[i]@
}

/// A struct whose every field the generated code can handle.
pub open spec fn struct_supported(s: StructInfo) -> bool {
    forall|i: int| 0 <= i < s.fields@.len() ==> supported_field(#[trigger] s.fields@[i])
}

/// An enum that is either simple (no payloads) or has a supported payload in
/// every variant.
pub open spec fn enum_supported(e: EnumInfo) -> bool {
    e.is_union_spec() ==> forall|i: int|
        0 <= i < e.fields@.len() ==> supported_type((#[trigger] e.fields@[i]).field_type)
}

/// An item that the generator can handle.
pub open spec fn item_supported(item: ItemInfo) -> bool {
    match item {
        ItemInfo::Struct(s) => struct_supported(s),
        ItemInfo::Enum(e) => enum_supported(e),
    }
}

/// What is generated for `item`: for a struct, its writer and reader; for an
/// enum with payloads, its writer and reader; for a simple enum, the variant
/// mapping in both directions.
pub open spec fn impls_ok(g: GeneratedImpls, item: ItemInfo) -> bool {
    match item {
        ItemInfo::Struct(s) => {
            &&& g.ident == s.ident
            &&& g.generics@ == s.generics@
            &&& capnp_generics_ok(g.capnp_generics@, s.generics@)
            &&& match g.impls {
                ImplSet::Struct { writer, reader } => struct_writer_ok(writer@, s.fields@)
                    && struct_reader_ok(reader, s.fields@, s.generics@.len() > 0),
                _ => false,
            }
        },
        ItemInfo::Enum(e) => {
            &&& g.ident == e.ident
            &&& g.generics@ == e.generics@
            &&& capnp_generics_ok(g.capnp_generics@, e.generics@)
            &&& if e.is_union_spec() {
                match g.impls {
                    ImplSet::UnionEnum { variant_writers, variant_readers } => enum_writer_ok(variant_writers@, e.fields@)
                        && enum_reader_ok(variant_readers@, e.fields@, e.generics@.len() > 0),
                    _ => false,
                }
            } else {
                match g.impls {
                    ImplSet::SimpleEnum { to_wire, from_wire } => enum_pairs_ok(to_wire@, e.fields@)
                        && enum_pairs_ok(from_wire@, e.fields@),
                    _ => false,
                }
            }
        },
    }
}

/// The wire-level type parameters beside `generics`.
pub fn generate_capnp_generics(generics: &Vec<String>) -> (r: Vec<String>)
    ensures
        capnp_generics_ok(r@, generics@),
{
    let mut out: Vec<String> = Vec::new();
    let mut i: usize = 0;
    while i < generics.len()
        invariant
            0 <= i <= generics@.len(),
            out@.len() == i,
            forall|k: int| 0 <= k < i ==> (#[trigger] out@[k])@ == "__CaPnP__"@ + generics@[k]@,
        decreases generics@.len() - i,
    {
        out.push(to_capnp_generic(&generics[i]));
        i = i + 1;
    }
    out
}

fn copy_names(v: &Vec<String>) -> (r: Vec<String>)
    ensures
        r@ == v@,
{
    let mut out: Vec<String> = Vec::new();
    let mut i: usize = 0;
    while i < v.len()
        invariant
            0 <= i <= v@.len(),
            out@ == v@.take(i as int),
        decreases v@.len() - i,
    {
        out.push(v[i].clone());
        proof {
            assert(v@.take(i + 1) == v@.take(i as int).push(v@[i as int]));
        }
        i = i + 1;
    }
    proof {
        assert(v@.take(i as int) == v@);
    }
    out
}

/// The positions of the fields of `fs` that are union arms (`arms`) or are not.
fn part_indices(fs: &Vec<FieldInfo>, arms: bool) -> (r: Vec<usize>)
    ensures
        r@.len() == part(fs@, arms).len(),
        forall|k: int| 0 <= k < r@.len() ==> #[trigger] r@[k] < fs@.len() && fs@[r@[k] as int] == part(fs@, arms)[k],
{
    let mut out: Vec<usize> = Vec::new();
    let mut i: usize = 0;
    while i < fs.len()
        invariant
            0 <= i <= fs@.len(),
            out@.len() == part(fs@.take(i as int), arms).len(),
            forall|k: int| 0 <= k < out@.len() ==> #[trigger] out@[k] < i && fs@[out@[k] as int] == part(fs@.take(i as int), arms)[k],
        decreases fs@.len() - i,
    {
        proof {
            assert(fs@.take(i + 1).drop_last() == fs@.take(i as int));
            assert(fs@.take(i + 1).last() == fs@[i as int]);
        }
        if fs[i].is_union_field == arms {
            out.push(i);
        }
        i = i + 1;
    }
    proof {
        assert(fs@.take(i as int) == fs@);
    }
    out
}

impl StructInfo {
    /// The body of the struct's writer: every field in order, a union arm
    /// only when it is `Some`.
    pub fn generate_writer_impl(&self) -> (r: Vec<StructFieldWrite>)
        requires
            struct_supported(*self),
        ensures
            struct_writer_ok(r@, self.fields@),
    {
        let mut out: Vec<StructFieldWrite> = Vec::new();
        let mut i: usize = 0;
        while i < self.fields.len()
            invariant
                0 <= i <= self.fields@.len(),
                struct_supported(*self),
                out@.len() == i,
                forall|k: int| 0 <= k < i ==> {
                    let s = #[trigger] out@[k];
                    if self.fields@[k].is_union_field {
                        s.union_arm is Some && s.union_arm->0 == self.fields@[k].rust_name
                            && field_write_ok(s.write, self.fields@[k], false)
                    } else {
                        s.union_arm is None && field_write_ok(s.write, self.fields@[k], true)
                    }
                },
            decreases self.fields@.len() - i,
        {
            let field = &self.fields[i];
            proof {
                assert(supported_field(self.fields@[i as int]));
            }
            let w = if field.is_union_field {
                StructFieldWrite {
                    union_arm: Some(field.rust_name.clone()),
                    write: field.generate_field_writer_from_reference(),
                }
            } else {
                StructFieldWrite { union_arm: None, write: field.generate_field_writer_from_owned() }
            };
            out.push(w);
            i = i + 1;
        }
        out
    }

    /// The body of the struct's reader.
    pub fn generate_reader_impl(&self) -> (r: StructReader)
        requires
            struct_supported(*self),
        ensures
            struct_reader_ok(r, self.fields@, self.generics@.len() > 0),
    {
        let reborrow = self.generics.len() > 0;
        let nu = part_indices(&self.fields, false);
        let u = part_indices(&self.fields, true);
        let ghost nus = part(self.fields@, false);
        let ghost us = part(self.fields@, true);
        let mut fields: Vec<ReadBinding> = Vec::new();
        let mut i: usize = 0;
        while i < nu.len()
            invariant
                0 <= i <= nu@.len(),
                struct_supported(*self),
                reborrow == (self.generics@.len() > 0),
                nus == part(self.fields@, false),
                nu@.len() == nus.len(),
                forall|k: int| 0 <= k < nu@.len() ==> #[trigger] nu@[k] < self.fields@.len() && self.fields@[nu@[k] as int] == nus[k],
                fields@.len() == i,
                forall|k: int| 0 <= k < i ==> (#[trigger] fields@[k]).rust_name == nus[k].rust_name
                    && field_read_ok(fields@[k].value, nus[k], false, reborrow),
            decreases nu@.len() - i,
        {
            let field = &self.fields[nu[i]];
            proof {
                assert(supported_field(self.fields@[nu@[i as int] as int]));
            }
            fields.push(ReadBinding { rust_name: field.rust_name.clone(), value: field.generate_field_reader(false, reborrow) });
            i = i + 1;
        }
        let mut arms: Vec<UnionArm> = Vec::new();
        let mut a: usize = 0;
        while a < u.len()
            invariant
                0 <= a <= u@.len(),
                struct_supported(*self),
                us == part(self.fields@, true),
                u@.len() == us.len(),
                forall|k: int| 0 <= k < u@.len() ==> #[trigger] u@[k] < self.fields@.len() && self.fields@[u@[k] as int] == us[k],
                arms@.len() == a,
                forall|k: int| 0 <= k < a ==> arm_ok(#[trigger] arms@[k], us, k, reborrow),
            decreases u@.len() - a,
        {
            let arm_field = &self.fields[u[a]];
            let variant = arm_field.get_capnp_name(NameCase::UpperCamel);
            let mut afs: Vec<ArmField> = Vec::new();
            let mut j: usize = 0;
            while j < u.len()
                invariant
                    0 <= j <= u@.len(),
                    0 <= a < u@.len(),
                    struct_supported(*self),
                    u@.len() == us.len(),
                    forall|k: int| 0 <= k < u@.len() ==> #[trigger] u@[k] < self.fields@.len() && self.fields@[u@[k] as int] == us[k],
                    *arm_field == us[a as int],
                    afs@.len() == j,
                    forall|k: int| 0 <= k < j ==> {
                        let af = #[trigger] afs@[k];
                        &&& af.rust_name == us[k].rust_name
                        &&& (k == a ==> af.value is Some && field_read_ok(af.value->0, us[a as int], true, reborrow))
                        &&& (k != a ==> af.value is None)
                    },
                decreases u@.len() - j,
            {
                let other = &self.fields[u[j]];
                let value = if j == a {
                    proof {
                        assert(supported_field(self.fields@[u@[a as int] as int]));
                    }
                    Some(arm_field.generate_field_reader(true, reborrow))
                } else {
                    None
                };
                afs.push(ArmField { rust_name: other.rust_name.clone(), value });
                j = j + 1;
            }
            arms.push(UnionArm { variant, fields: afs });
            a = a + 1;
        }
        StructReader { fields, arms }
    }
}

impl EnumInfo {
    /// The body of the writer of an enum with payloads: one arm per variant.
    pub fn generate_writer_impl(&self) -> (r: Vec<VariantWrite>)
        requires
            forall|i: int| 0 <= i < self.fields@.len() ==> supported_type((#[trigger] self.fields@[i]).field_type),
        ensures
            enum_writer_ok(r@, self.fields@),
    {
        let mut out: Vec<VariantWrite> = Vec::new();
        let mut i: usize = 0;
        while i < self.fields.len()
            invariant
                0 <= i <= self.fields@.len(),
                forall|k: int| 0 <= k < self.fields@.len() ==> supported_type((#[trigger] self.fields@[k]).field_type),
                out@.len() == i,
                forall|k: int| 0 <= k < i ==> (#[trigger] out@[k]).rust_name == self.fields@[k].rust_name
                    && out@[k].has_phantom == self.fields@[k].has_phantom_in_variant
                    && field_write_ok(out@[k].write, self.fields@[k], false),
            decreases self.fields@.len() - i,
        {
            let field = &self.fields[i];
            proof {
                assert(supported_type(self.fields@[i as int].field_type));
            }
            out.push(
                VariantWrite {
                    rust_name: field.rust_name.clone(),
                    has_phantom: field.has_phantom_in_variant,
                    write: field.generate_field_writer_from_reference(),
                },
            );
            i = i + 1;
        }
        out
    }

    /// The body of the reader of an enum with payloads: one arm per variant.
    pub fn generate_reader_impl(&self) -> (r: Vec<VariantRead>)
        requires
            forall|i: int| 0 <= i < self.fields@.len() ==> supported_type((#[trigger] self.fields@[i]).field_type),
        ensures
            enum_reader_ok(r@, self.fields@, self.generics@.len() > 0),
    {
        let reborrow = self.generics.len() > 0;
        let mut out: Vec<VariantRead> = Vec::new();
        let mut i: usize = 0;
        while i < self.fields.len()
            invariant
                0 <= i <= self.fields@.len(),
                reborrow == (self.generics@.len() > 0),
                forall|k: int| 0 <= k < self.fields@.len() ==> supported_type((#[trigger] self.fields@[k]).field_type),
                out@.len() == i,
                forall|k: int| 0 <= k < i ==> {
                    let v = #[trigger] out@[k];
                    &&& v.rust_name == self.fields@[k].rust_name
                    &&& v.has_phantom == self.fields@[k].has_phantom_in_variant
                    &&& v.capnp_variant@ == upper_camel_case_of(snake_case_of(self.fields@[k].capnp_base_name()))
                    &&& field_read_ok(v.value, self.fields@[k], true, reborrow)
                },
            decreases self.fields@.len() - i,
        {
            let field = &self.fields[i];
            proof {
                assert(supported_type(self.fields@[i as int].field_type));
            }
            let snake = field.get_capnp_name(NameCase::Snake);
            let capnp_variant = to_case(NameCase::UpperCamel, snake.as_str());
            out.push(
                VariantRead {
                    capnp_variant,
                    rust_name: field.rust_name.clone(),
                    has_phantom: field.has_phantom_in_variant,
                    value: field.generate_field_reader(true, reborrow),
                },
            );
            i = i + 1;
        }
        out
    }

    fn generate_pairs(&self) -> (r: Vec<EnumPair>)
        ensures
            enum_pairs_ok(r@, self.fields@),
    {
        let mut out: Vec<EnumPair> = Vec::new();
        let mut i: usize = 0;
        while i < self.fields.len()
            invariant
                0 <= i <= self.fields@.len(),
                out@.len() == i,
                forall|k: int| 0 <= k < i ==> (#[trigger] out@[k]).rust_name == self.fields@[k].rust_name
                    && out@[k].capnp_name@ == cased(NameCase::Capitalized, self.fields@[k].capnp_base_name()),
            decreases self.fields@.len() - i,
        {
            let field = &self.fields[i];
            out.push(
                EnumPair {
                    rust_name: field.rust_name.clone(),
                    capnp_name: field.get_capnp_name(NameCase::Capitalized),
                },
            );
            i = i + 1;
        }
        out
    }

    /// The arms of `to_capnp_enum`: each variant to its generated enumerant.
    pub fn generate_to_impl(&self) -> (r: Vec<EnumPair>)
        ensures
            enum_pairs_ok(r@, self.fields@),
    {
        self.generate_pairs()
    }

    /// The arms of `From<generated enum>`: each generated enumerant to its variant.
    pub fn generate_from_impl(&self) -> (r: Vec<EnumPair>)
        ensures
            enum_pairs_ok(r@, self.fields@),
    {
        self.generate_pairs()
    }
}

impl ItemInfo {
    /// Everything generated for the item.
    pub fn generate_impls(&self) -> (r: GeneratedImpls)
        requires
            item_supported(*self),
        ensures
            impls_ok(r, *self),
    {
        match self {
            ItemInfo::Struct(s) => GeneratedImpls {
                ident: s.ident.clone(),
                generics: copy_names(&s.generics),
                capnp_generics: generate_capnp_generics(&s.generics),
                impls: ImplSet::Struct { writer: s.generate_writer_impl(), reader: s.generate_reader_impl() },
            },
            ItemInfo::Enum(e) => {
                let impls = if e.is_union() {
                    ImplSet::UnionEnum {
                        variant_writers: e.generate_writer_impl(),
                        variant_readers: e.generate_reader_impl(),
                    }
                } else {
                    ImplSet::SimpleEnum { to_wire: e.generate_to_impl(), from_wire: e.generate_from_impl() }
                };
                GeneratedImpls {
                    ident: e.ident.clone(),
                    generics: copy_names(&e.generics),
                    capnp_generics: generate_capnp_generics(&e.generics),
                    impls,
                }
            },
        }
    }
}

fn is_supported_item(t: &FieldType) -> (r: bool)
    ensures
        r == supported_item(*t),
    decreases t,
{
    match t {
        FieldType::Phantom | FieldType::EnumVariant | FieldType::GroupOrUnion(_)
        | FieldType::UnnamedUnion(_) => false,
        FieldType::List(item) => is_supported_item(item),
        _ => true,
    }
}

fn is_supported_type(t: &FieldType) -> (r: bool)
    ensures
        r == supported_type(*t),
{
    match t {
        FieldType::Phantom | FieldType::EnumVariant => false,
        FieldType::List(item) => is_supported_item(item),
        _ => true,
    }
}

/// The error for a member whose type the generator cannot handle.
pub open spec fn unsupported_error(t: FieldType) -> ConvError {
    match t {
        FieldType::List(_) => ConvError::UnsupportedListItem,
        FieldType::EnumVariant => ConvError::MixedEnum,
        _ => ConvError::IncompatibleType,
    }
}

fn unsupported(t: &FieldType) -> (r: ConvError)
    ensures
        r == unsupported_error(*t),
{
    match t {
        FieldType::List(_) => ConvError::UnsupportedListItem,
        FieldType::EnumVariant => ConvError::MixedEnum,
        _ => ConvError::IncompatibleType,
    }
}

/// The fields of a struct, or the variants of an enum.
pub open spec fn members(item: ItemInfo) -> Seq<FieldInfo> {
    match item {
        ItemInfo::Struct(s) => s.fields@,
        ItemInfo::Enum(e) => e.fields@,
    }
}

/// A member that the generator can handle, in a struct (`in_struct`) or in
/// an enum with payloads.
pub open spec fn member_supported(in_struct: bool, f: FieldInfo) -> bool {
    if in_struct {
        supported_field(f)
    } else {
        supported_type(f.field_type)
    }
}

/// `e` is the error of the first member of `item` that the generator cannot
/// handle.
pub open spec fn first_unsupported(item: ItemInfo, e: ConvError) -> bool {
    exists|i: int|
        0 <= i < members(item).len() && !member_supported(item is Struct, #[trigger] members(item)[i])
            && (forall|k: int| 0 <= k < i ==> member_supported(item is Struct, #[trigger] members(item)[k]))
            && e == unsupported_error(members(item)[i].field_type)
}

impl ItemInfo {
    /// Checks that the generator can handle every member: lists hold no
    /// groups, unions or markers, and an enum with payloads has a payload in
    /// every variant. The error is that of the first member refused.
    pub fn check_supported(&self) -> (r: Result<(), ConvError>)
        ensures
            r is Ok <==> item_supported(*self),
            r is Err ==> first_unsupported(*self, r->Err_0),
    {
        let (fields, union_like) = match self {
            ItemInfo::Struct(s) => (&s.fields, false),
            ItemInfo::Enum(e) => (&e.fields, e.is_union()),
        };
        let is_struct = matches!(self, ItemInfo::Struct(_));
        if !is_struct && !union_like {
            return Ok(());
        }
        let mut i: usize = 0;
        while i < fields.len()
            invariant
                0 <= i <= fields@.len(),
                is_struct || union_like,
                fields@ == members(*self),
                is_struct == (*self is Struct),
                !is_struct ==> union_like == (*self)->Enum_0.is_union_spec(),
                forall|k: int| 0 <= k < i ==> member_supported(is_struct, #[trigger] fields@[k]),
            decreases fields@.len() - i,
        {
            let t = &fields[i].field_type;
            let ok = if is_struct {
                matches!(t, FieldType::Phantom) || is_supported_type(t)
            } else {
                is_supported_type(t)
            };
            if !ok {
                proof {
                    assert(!member_supported(is_struct, members(*self)[i as int]));
                }
                return Err(unsupported(t));
            }
            i = i + 1;
        }
        Ok(())
    }
}

/// Classifies a declaration, checks that the generator can handle it, and
/// generates its operations.
pub fn expand(input: &ItemDecl) -> (r: Result<GeneratedImpls, ConvError>)
    ensures
        match r {
            Ok(g) => exists|item: ItemInfo| parse_input_ok(*input, Ok(item)) && item_supported(item) && impls_ok(g, item),
            Err(e) => parse_input_ok(*input, Err(e)) || exists|item: ItemInfo|
                parse_input_ok(*input, Ok(item)) && !item_supported(item) && first_unsupported(item, e),
        },
{
    let item = match ItemInfo::parse_input(input) {
        Ok(item) => item,
        Err(e) => return Err(e),
    };
    match item.check_supported() {
        Ok(()) => Ok(item.generate_impls()),
        Err(e) => Err(e),
    }
}

} // verus!
