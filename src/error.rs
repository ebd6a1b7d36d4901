use vstd::prelude::*;

verus! {

/// Why a declaration cannot be turned into conversion code.
#[derive(Debug, Clone, Copy, PartialEq, Eq)]
pub enum ConvError {
    /// The item is neither a struct nor an enum.
    NotStructOrEnum,
    /// A generic parameter that is not a type parameter.
    InvalidGeneric,
    /// A struct field without a name.
    UnnamedField,
    /// An attribute key that is not recognised.
    UnknownAttribute,
    /// An attribute that needs a value was given none, or one of the wrong form.
    MalformedAttributeValue,
    /// A `type` attribute whose value is not a known type kind.
    UnknownTypeKind,
    /// A `default` attribute whose path is not written in turbofish form.
    NotTurbofish,
    /// The same attribute twice on one field or variant.
    DuplicateAttribute,
    /// `default` without `skip` or `skip_read`: it would never be used.
    DefaultWithoutSkip,
    /// `skip` together with `skip_read` or `skip_write`.
    SkipWithSkipReadOrWrite,
    /// A `PhantomData` field that carries an attribute.
    PhantomWithAttributes,
    /// A `Box<T>` field marked as a union variant.
    BoxedUnionField,
    /// A union variant field that is not an `Option<T>`.
    UnionFieldNotOption,
    /// A union that would contain an unnamed union.
    UnionContainsUnnamedUnion,
    /// A group or union field wrapped in `Option<T>`.
    OptionalGroupOrUnion,
    /// A boxed field or variant: boxing is not supported.
    BoxNotSupported,
    /// `PhantomData` in the first slot of an enum variant.
    PhantomFirstInVariant,
    /// An enum variant holding an `Option<T>`.
    OptionInVariant,
    /// An enum variant with `skip`, `default` or `union_variant`.
    VariantWithFieldAttributes,
    /// A payload-free variant with a type kind attribute.
    SimpleVariantWithTypeKind,
    /// The second slot of a variant is not `PhantomData<T>`.
    SecondSlotNotPhantom,
    /// A variant with more than one slot besides a trailing `PhantomData`.
    TooManyVariantSlots,
    /// A variant with named fields.
    NamedVariantFields,
    /// `Option`, `Box` or `PhantomData` where a plain type is expected, or a
    /// generic argument that is not a type.
    InvalidGenericArgument,
    /// A `data` field whose type is not `Vec<u8>`.
    DataNotBytes,
    /// A `Vec` with other than one generic argument.
    VecArity,
    /// Generic arguments on an enum type.
    GenericEnum,
    /// Parenthesized generic arguments.
    ParenthesizedArguments,
    /// A type that has no wire representation.
    IncompatibleType,
    /// A list whose items are groups, unions or marker types.
    UnsupportedListItem,
    /// An enum that mixes payload-free variants with payload variants.
    MixedEnum,
}

} // verus!
