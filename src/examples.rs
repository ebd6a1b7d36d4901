//! The Rust side of the example schema: the data types that the generated
//! conversions read and write.
use vstd::prelude::*;

use crate::remote::RemoteEnum;

verus! {

/// A struct of one primitive field.
#[derive(Debug, Clone, Copy, PartialEq)]
pub struct BasicStruct {
    pub val: i32,
}

/// The enum that the schema compiler generates for `ExampleEnum`.
#[derive(Debug, Clone, Copy, PartialEq, Eq, Structural)]
pub enum ExampleEnum {
    Val1,
    Val2,
}

/// A hand-written mirror of [`ExampleEnum`].
#[derive(Debug, Clone, Copy, PartialEq, Eq, Structural)]
pub enum RemoteExampleEnum {
    Val1,
    Val2,
}

/// A struct with one generic field.
#[derive(Debug, Clone, PartialEq)]
pub struct GenericStruct<T> {
    pub val: T,
}

/// A named group of two fields.
#[derive(Debug, PartialEq)]
pub struct ExampleGroup<T> {
    pub val1: T,
    pub val2: T,
}

/// A named union.
#[derive(Debug, PartialEq)]
pub enum ExampleUnion<T> {
    Val1(T),
    Val2(T),
}

/// The unnamed union of `ExampleStruct`.
#[derive(Debug, PartialEq)]
pub enum ExampleUnnamedUnion<T> {
    Val1(T),
    Val2(T),
}

/// A struct with a field of every kind.
#[derive(Debug, PartialEq)]
pub struct ExampleStruct<T> {
    pub i32_val: i32,
    pub text_val: String,
    pub data_val: Vec<u8>,
    pub nested_val: BasicStruct,
    pub enum_val: ExampleEnum,
    pub enum_val_remote: RemoteExampleEnum,
    pub generic_struct: GenericStruct<BasicStruct>,
    pub generic_generic_struct: GenericStruct<T>,
    pub list_val: Vec<Vec<GenericStruct<T>>>,
    pub group_val: ExampleGroup<T>,
    pub union_val: ExampleUnion<T>,
    pub unnamed_union: ExampleUnnamedUnion<T>,
}

/// The generated enumerant of each mirror variant.
pub open spec fn example_to_wire(v: RemoteExampleEnum) -> ExampleEnum {
    match v {
        RemoteExampleEnum::Val1 => ExampleEnum::Val1,
        RemoteExampleEnum::Val2 => ExampleEnum::Val2,
    }
}

/// The mirror variant of each generated enumerant.
pub open spec fn example_from_wire(v: ExampleEnum) -> RemoteExampleEnum {
    match v {
        ExampleEnum::Val1 => RemoteExampleEnum::Val1,
        ExampleEnum::Val2 => RemoteExampleEnum::Val2,
    }
}

impl RemoteExampleEnum {
    /// The generated enumerant that this variant stands for.
    pub fn to_wire(&self) -> (r: ExampleEnum)
        ensures
            r == example_to_wire(*self),
    {
        match self {
            RemoteExampleEnum::Val1 => ExampleEnum::Val1,
            RemoteExampleEnum::Val2 => ExampleEnum::Val2,
        }
    }
}

impl RemoteEnum<ExampleEnum> for RemoteExampleEnum {
    fn to_capnp_enum(&self) -> ExampleEnum {
        self.to_wire()
    }
}

impl From<ExampleEnum> for RemoteExampleEnum {
    fn from(other: ExampleEnum) -> (r: Self) {
        match other {
            ExampleEnum::Val1 => RemoteExampleEnum::Val1,
            ExampleEnum::Val2 => RemoteExampleEnum::Val2,
        }
    }
}

impl vstd::std_specs::convert::FromSpecImpl<ExampleEnum> for RemoteExampleEnum {
    open spec fn obeys_from_spec() -> bool {
        true
    }

    open spec fn from_spec(v: ExampleEnum) -> RemoteExampleEnum {
        example_from_wire(v)
    }
}

/// Writes each mirror variant of `input` into the wire list `list` as its
/// generated enumerant.
pub fn write_remote_list(list: &mut Vec<ExampleEnum>, input: &Vec<RemoteExampleEnum>)
    requires
        old(list)@.len() == input@.len(),
    ensures
        final(list)@ == input@.map_values(|h: RemoteExampleEnum| example_to_wire(h)),
{
    let mut i: usize = 0;
    while i < input.len()
        invariant
            0 <= i <= input@.len(),
            list@.len() == input@.len(),
            forall|k: int| 0 <= k < i ==> #[trigger] list@[k] == example_to_wire(input@[k]),
        decreases input@.len() - i,
    {
        list.set(i, input[i].to_wire());
        i = i + 1;
    }
    proof {
        assert(list@ == input@.map_values(|h: RemoteExampleEnum| example_to_wire(h)));
    }
}

/// Reads each generated enumerant of the wire list `list` as its mirror variant.
pub fn read_remote_list(list: &Vec<ExampleEnum>) -> (r: Vec<RemoteExampleEnum>)
    ensures
        r@ == list@.map_values(|w: ExampleEnum| example_from_wire(w)),
{
    let mut out: Vec<RemoteExampleEnum> = Vec::new();
    let mut i: usize = 0;
    while i < list.len()
        invariant
            0 <= i <= list@.len(),
            out@.len() == i,
            forall|k: int| 0 <= k < i ==> #[trigger] out@[k] == example_from_wire(list@[k]),
        decreases list@.len() - i,
    {
        out.push(RemoteExampleEnum::from(list[i]));
        i = i + 1;
    }
    proof {
        assert(out@ == list@.map_values(|w: ExampleEnum| example_from_wire(w)));
    }
    out
}

/// Mapping a generated enumerant to its mirror and back gives the
/// enumerant, and mapping a mirror variant to the generated enum and back
/// gives the variant.
pub proof fn lemma_example_enum_round_trip(w: ExampleEnum, h: RemoteExampleEnum)
    ensures
        example_to_wire(example_from_wire(w)) == w,
        example_from_wire(example_to_wire(h)) == h,
{
}

/// Writing a list of mirror variants into a wire list and reading it back
/// gives the list written.
pub proof fn lemma_remote_list_round_trip(input: Seq<RemoteExampleEnum>)
    ensures
        input.map_values(|h: RemoteExampleEnum| example_to_wire(h)).map_values(
            |w: ExampleEnum| example_from_wire(w),
        ) == input,
{
    let back = input.map_values(|h: RemoteExampleEnum| example_to_wire(h)).map_values(
        |w: ExampleEnum| example_from_wire(w),
    );
    assert(back =~= input);
}

} // verus!
