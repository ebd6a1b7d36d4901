use vstd::prelude::*;

verus! {

/// A hand-written enum that mirrors an enum generated from the schema.
pub trait RemoteEnum<T> {
    /// The generated enumerant that this variant stands for.
    fn to_capnp_enum(&self) -> T;
}

} // verus!
