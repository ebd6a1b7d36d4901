//! The code generator: from a classified item, the operations of the
//! generated writer, reader and conversions.
//!
//! The output is a description of the generated code, one node per
//! construct; the front end prints each node as the tokens it names.
use vstd::prelude::*;

use crate::models::{is_ptr_type, is_ptr_type_spec, FieldInfo, FieldType};
use crate::names::{prefixed, snake_case_of, NameCase};
use crate::syntax::{ExprPath, PathId};

verus! {

/// The reader a value is fetched from: the struct's `reader`, or the `val`
/// that the union match has fetched already.
#[derive(Debug, Clone, Copy, PartialEq, Eq)]
pub enum ReaderName {
    Reader,
    Val,
}

/// How a field's wire value is fetched: `reader[.reborrow()].get_x()`, or
/// the prefetched `val` itself when `getter` is `None`.
#[derive(Debug, PartialEq, Eq)]
pub struct Fetch {
    pub reader: ReaderName,
    pub reborrow: bool,
    pub getter: Option<String>,
}

/// Turning one list item `reader.get(idx)` into its Rust value.
#[derive(Debug, PartialEq, Eq)]
pub enum ItemRead {
    /// `()`
    Unit,
    /// `reader.get(idx)`
    Direct,
    /// `reader.get(idx)?.to_owned()`
    OwnedData,
    /// `reader.get(idx)?.to_string()?`
    OwnedText,
    /// `P::read(reader.get(idx))?`
    ReadStruct(PathId),
    /// `reader.get(idx)?.into()`
    IntoRemote,
    /// `reader.get(idx)?`
    EnumValue,
    /// A nested list, read item by item.
    List(Box<ItemRead>),
}

/// Turning a fetched field value `v` into its Rust value.
#[derive(Debug, PartialEq, Eq)]
pub enum ReadOp {
    /// `()`
    Unit,
    /// `v`
    Direct,
    /// `v?.to_owned()`
    OwnedData,
    /// `v?.to_string()?`
    OwnedText,
    /// `P::read(v?)?`
    ReadStruct(PathId),
    /// `v?.into()`
    IntoRemote,
    /// `v?`
    EnumValue,
    /// `P::read(v)?`
    ReadGroup(PathId),
    /// `P::read(reader)?`: the enclosing reader itself, no getter.
    ReadWhole(PathId),
    /// `{ let reader = v?; ... }`, the items read in order.
    List(ItemRead),
}

/// Reading a field's wire value.
#[derive(Debug, PartialEq, Eq)]
pub struct ValueRead {
    pub fetch: Fetch,
    pub op: ReadOp,
}

/// The expression that gives a field's Rust value in the reader.
#[derive(Debug, PartialEq, Eq)]
pub enum FieldRead {
    /// `PhantomData`
    Phantom,
    /// `f()`: the field's default function.
    CallDefault(ExprPath),
    /// `T::default()`
    DefaultOf(PathId),
    /// `()`
    UnitValue,
    /// `Vec::default()`
    EmptyList,
    /// `Some(e)`
    SomeOf(Box<FieldRead>),
    /// `match reader.has_x() { true => Some(v), false => None }`
    Present { checker: String, value: ValueRead },
    /// The wire value itself.
    Value(ValueRead),
}

/// Writing one list item `item` at `idx`.
#[derive(Debug, PartialEq, Eq)]
pub enum ItemWrite {
    /// `builder.set(idx, ())`
    SetUnit,
    /// `builder.set(idx, *item)`
    SetCopy,
    /// `builder.set(idx, item)`
    SetRef,
    /// `item.write(builder.reborrow().get(idx))`
    WriteItem,
    /// `builder.set(idx, to_capnp_enum(item))`
    SetRemote,
    /// `builder.reborrow().init(idx, len)`, then the items in order.
    List(Box<ItemWrite>),
}

/// Writing a field's value `v` through the accessor `a`.
#[derive(Debug, PartialEq, Eq)]
pub enum WriteOp {
    /// `builder.a(())`
    SetUnit,
    /// `builder.a(v)` for a `Copy` value.
    SetCopy,
    /// `builder.a(&v)`
    SetRef,
    /// `builder.a(v.as_str())`
    SetText,
    /// `v.write(builder.reborrow().a())`
    WriteInit,
    /// `builder.a(to_capnp_enum(&v))`
    SetRemote,
    /// `v.write(builder.reborrow())`: the enclosing builder itself.
    WriteThrough,
    /// `builder.reborrow().a(len)`, then the items in order.
    List(ItemWrite),
}

/// The value a writer reads from: the field `self.x` (owned), or the `val`
/// bound by an `if let Some(val)` or a `match` (a reference).
#[derive(Debug, PartialEq, Eq)]
pub enum ValueRef {
    SelfField(String),
    Val,
}

/// Writing a value.
#[derive(Debug, PartialEq, Eq)]
pub struct ValueWrite {
    pub value: ValueRef,
    /// `set_x` or `init_x`; unused by `WriteThrough`.
    pub accessor: String,
    pub op: WriteOp,
}

/// The statement that writes a field.
#[derive(Debug, PartialEq, Eq)]
pub enum FieldWrite {
    /// Nothing is written.
    Noop,
    Write(ValueWrite),
    /// `if let Some(val) = source { write }`
    IfSome { source: ValueRef, write: ValueWrite },
}

/// A type that the generated code can read and write as a field.
pub open spec fn supported_type(t: FieldType) -> bool
    decreases t,
{
    match t {
        FieldType::Phantom | FieldType::EnumVariant => false,
        FieldType::List(item) => supported_item(*item),
        _ => true,
    }
}

/// A type that the generated code can read and write as a list item.
pub open spec fn supported_item(t: FieldType) -> bool
    decreases t,
{
    match t {
        FieldType::Phantom | FieldType::EnumVariant | FieldType::GroupOrUnion(_)
        | FieldType::UnnamedUnion(_) => false,
        FieldType::List(item) => supported_item(*item),
        _ => true,
    }
}

/// How a list item of type `t` is read.
pub open spec fn item_read_of(t: FieldType) -> ItemRead
    decreases t,
{
    match t {
        FieldType::Void => ItemRead::Unit,
        FieldType::Primitive(_) => ItemRead::Direct,
        FieldType::Data(_) => ItemRead::OwnedData,
        FieldType::Text(_) => ItemRead::OwnedText,
        FieldType::Struct(p) | FieldType::GenericStruct(p) => ItemRead::ReadStruct(p),
        FieldType::EnumRemote(_) => ItemRead::IntoRemote,
        FieldType::Enum(_) => ItemRead::EnumValue,
        FieldType::List(item) => ItemRead::List(Box::new(item_read_of(*item))),
        _ => ItemRead::Unit,
    }
}

/// How a fetched field value of type `t` is read.
pub open spec fn read_op_of(t: FieldType) -> ReadOp {
    match t {
        FieldType::Void => ReadOp::Unit,
        FieldType::Primitive(_) => ReadOp::Direct,
        FieldType::Data(_) => ReadOp::OwnedData,
        FieldType::Text(_) => ReadOp::OwnedText,
        FieldType::Struct(p) | FieldType::GenericStruct(p) => ReadOp::ReadStruct(p),
        FieldType::EnumRemote(_) => ReadOp::IntoRemote,
        FieldType::Enum(_) => ReadOp::EnumValue,
        FieldType::GroupOrUnion(p) => ReadOp::ReadGroup(p),
        FieldType::UnnamedUnion(p) => ReadOp::ReadWhole(p),
        FieldType::List(item) => ReadOp::List(item_read_of(*item)),
        _ => ReadOp::Unit,
    }
}

/// How a list item of type `t` is written.
pub open spec fn item_write_of(t: FieldType) -> ItemWrite
    decreases t,
{
    match t {
        FieldType::Void => ItemWrite::SetUnit,
        FieldType::Primitive(_) | FieldType::Enum(_) => ItemWrite::SetCopy,
        FieldType::Data(_) | FieldType::Text(_) => ItemWrite::SetRef,
        FieldType::Struct(_) | FieldType::GenericStruct(_) => ItemWrite::WriteItem,
        FieldType::EnumRemote(_) => ItemWrite::SetRemote,
        FieldType::List(item) => ItemWrite::List(Box::new(item_write_of(*item))),
        _ => ItemWrite::SetUnit,
    }
}

/// How a field value of type `t` is written.
pub open spec fn write_op_of(t: FieldType) -> WriteOp {
    match t {
        FieldType::Void => WriteOp::SetUnit,
        FieldType::Primitive(_) | FieldType::Enum(_) => WriteOp::SetCopy,
        FieldType::Data(_) => WriteOp::SetRef,
        FieldType::Text(_) => WriteOp::SetText,
        FieldType::Struct(_) | FieldType::GenericStruct(_) | FieldType::GroupOrUnion(_) => WriteOp::WriteInit,
        FieldType::EnumRemote(_) => WriteOp::SetRemote,
        FieldType::UnnamedUnion(_) => WriteOp::WriteThrough,
        FieldType::List(item) => WriteOp::List(item_write_of(*item)),
        _ => WriteOp::SetUnit,
    }
}

/// A write through `init_x` rather than `set_x`.
pub open spec fn uses_initializer(op: WriteOp) -> bool {
    op is WriteInit || op is List || op is WriteThrough
}

/// The fetch of the field whose schema name is `name` (snake case).
pub open spec fn fetch_ok(f: Fetch, name: Seq<char>, pre_fetched: bool, reborrow: bool) -> bool {
    &&& f.reborrow == reborrow
    &&& if pre_fetched {
        f.reader == ReaderName::Val && f.getter is None
    } else {
        f.reader == ReaderName::Reader && f.getter is Some && f.getter->0@ == "get_"@ + name
    }
}

/// The read of a value of type `t` from the field whose schema name is `name`.
pub open spec fn value_read_ok(r: ValueRead, t: FieldType, name: Seq<char>, pre_fetched: bool, reborrow: bool) -> bool {
    fetch_ok(r.fetch, name, pre_fetched, reborrow) && r.op == read_op_of(t)
}

/// The write of a value of type `t` to the field whose schema name is `name`.
pub open spec fn value_write_ok(w: ValueWrite, t: FieldType, name: Seq<char>, value: ValueRef) -> bool {
    &&& w.value == value
    &&& w.op == write_op_of(t)
    &&& w.accessor@ == (if uses_initializer(w.op) { "init_"@ } else { "set_"@ }) + name
}

/// The snake-case schema name of a field.
pub open spec fn snake_name(f: FieldInfo) -> Seq<char> {
    snake_case_of(f.capnp_base_name())
}

/// The value of a field that is not read: its default function, or the
/// default of its type.
pub open spec fn default_read_ok(r: FieldRead, f: FieldInfo) -> bool {
    match f.default_override {
        Some(p) => r == FieldRead::CallDefault(p),
        None => match f.field_type {
            FieldType::Void => r == FieldRead::UnitValue,
            FieldType::List(_) => r == FieldRead::EmptyList,
            FieldType::Primitive(p) | FieldType::Data(p) | FieldType::Text(p) | FieldType::Struct(p)
            | FieldType::EnumRemote(p) | FieldType::Enum(p) | FieldType::GroupOrUnion(p)
            | FieldType::UnnamedUnion(p) | FieldType::GenericStruct(p) => r == FieldRead::DefaultOf(p),
            _ => false,
        },
    }
}

/// The expression that the reader gives for field `f`.
///
/// A marker is rebuilt; a field that is not read gets its default; an
/// optional pointer field is read only when present, an optional inline
/// field is always `Some`; any other field is read from the prefetched `val`
/// when `pre_fetched`, else through its getter.
pub open spec fn field_read_ok(r: FieldRead, f: FieldInfo, pre_fetched: bool, reborrow: bool) -> bool {
    if f.field_type is Phantom {
        r == FieldRead::Phantom
    } else if f.skip_read {
        if f.is_optional {
            r is SomeOf && default_read_ok(*r->SomeOf_0, f)
        } else {
            default_read_ok(r, f)
        }
    } else if f.is_optional {
        if is_ptr_type_spec(f.field_type) {
            &&& r is Present
            &&& r->checker@ == "has_"@ + snake_name(f)
            &&& value_read_ok(r->Present_value, f.field_type, snake_name(f), false, reborrow)
        } else {
            &&& r is SomeOf
            &&& *r->SomeOf_0 is Value
            &&& value_read_ok((*r->SomeOf_0)->Value_0, f.field_type, snake_name(f), false, reborrow)
        }
    } else {
        r is Value && value_read_ok(r->Value_0, f.field_type, snake_name(f), pre_fetched, reborrow)
    }
}

/// The statement that writes field `f` from `value` (the field itself when
/// `owned`, else the bound `val`): nothing for a marker or a field that is
/// not written, a guarded write for an optional field, else a write.
pub open spec fn field_write_ok(w: FieldWrite, f: FieldInfo, owned: bool) -> bool {
    let source = if owned { ValueRef::SelfField(f.rust_name) } else { ValueRef::Val };
    if f.skip_write || f.field_type is Phantom {
        w == FieldWrite::Noop
    } else if f.is_optional {
        &&& w is IfSome
        &&& w->source == source
        &&& value_write_ok(w->IfSome_write, f.field_type, snake_name(f), ValueRef::Val)
    } else {
        w is Write && value_write_ok(w->Write_0, f.field_type, snake_name(f), source)
    }
}

/// A field or variant that the generated code can handle.
pub open spec fn supported_field(f: FieldInfo) -> bool {
    f.field_type is Phantom || supported_type(f.field_type)
}

/// The Rust value bound to a field, for the writer.
fn field_source(f: &FieldInfo, owned: bool) -> (r: ValueRef)
    ensures
        r == (if owned { ValueRef::SelfField(f.rust_name) } else { ValueRef::Val }),
{
    if owned {
        ValueRef::SelfField(f.rust_name.clone())
    } else {
        ValueRef::Val
    }
}

impl FieldInfo {
    /// The value of the field when it is not read.
    pub fn generate_default_reader(&self) -> (r: FieldRead)
        requires
            supported_type(self.field_type),
        ensures
            default_read_ok(r, *self),
    {
        match self.default_override {
            Some(p) => FieldRead::CallDefault(p),
            None => match &self.field_type {
                FieldType::Void => FieldRead::UnitValue,
                FieldType::List(_) => FieldRead::EmptyList,
                FieldType::Primitive(p) | FieldType::Data(p) | FieldType::Text(p) | FieldType::Struct(p)
                | FieldType::EnumRemote(p) | FieldType::Enum(p) | FieldType::GroupOrUnion(p)
                | FieldType::UnnamedUnion(p) | FieldType::GenericStruct(p) => FieldRead::DefaultOf(*p),
                _ => FieldRead::UnitValue,
            },
        }
    }

    /// The expression that gives the field's value in the reader.
    pub fn generate_field_reader(&self, pre_fetched: bool, reborrow_readers: bool) -> (r: FieldRead)
        requires
            supported_field(*self),
        ensures
            field_read_ok(r, *self, pre_fetched, reborrow_readers),
    {
        if matches!(self.field_type, FieldType::Phantom) {
            FieldRead::Phantom
        } else if self.skip_read {
            let value = self.generate_default_reader();
            if self.is_optional {
                FieldRead::SomeOf(Box::new(value))
            } else {
                value
            }
        } else {
            let name = self.get_capnp_name(NameCase::Snake);
            if self.is_optional {
                let value = self.field_type.generate_field_reader(&name, false, reborrow_readers);
                if is_ptr_type(&self.field_type) {
                    FieldRead::Present { checker: prefixed("has_", &name), value }
                } else {
                    FieldRead::SomeOf(Box::new(FieldRead::Value(value)))
                }
            } else {
                FieldRead::Value(self.field_type.generate_field_reader(&name, pre_fetched, reborrow_readers))
            }
        }
    }

    fn generate_field_writer(&self, owned: bool) -> (r: FieldWrite)
        requires
            supported_field(*self),
        ensures
            field_write_ok(r, *self, owned),
    {
        if self.skip_write || matches!(self.field_type, FieldType::Phantom) {
            FieldWrite::Noop
        } else {
            let name = self.get_capnp_name(NameCase::Snake);
            let source = field_source(self, owned);
            if self.is_optional {
                FieldWrite::IfSome { source, write: self.field_type.generate_field_writer(ValueRef::Val, &name) }
            } else {
                FieldWrite::Write(self.field_type.generate_field_writer(source, &name))
            }
        }
    }

    /// The statement that writes the field from the bound reference `val`.
    pub fn generate_field_writer_from_reference(&self) -> (r: FieldWrite)
        requires
            supported_field(*self),
        ensures
            field_write_ok(r, *self, false),
    {
        self.generate_field_writer(false)
    }

    /// The statement that writes the field from `self`.
    pub fn generate_field_writer_from_owned(&self) -> (r: FieldWrite)
        requires
            supported_field(*self),
        ensures
            field_write_ok(r, *self, true),
    {
        self.generate_field_writer(true)
    }
}

impl FieldType {
    /// How a list item of this type is read.
    pub fn generate_struct_field_reader_list_item(&self) -> (r: ItemRead)
        requires
            supported_item(*self),
        ensures
            r == item_read_of(*self),
        decreases self,
    {
        match self {
            FieldType::Void => ItemRead::Unit,
            FieldType::Primitive(_) => ItemRead::Direct,
            FieldType::Data(_) => ItemRead::OwnedData,
            FieldType::Text(_) => ItemRead::OwnedText,
            FieldType::Struct(p) | FieldType::GenericStruct(p) => ItemRead::ReadStruct(*p),
            FieldType::EnumRemote(_) => ItemRead::IntoRemote,
            FieldType::Enum(_) => ItemRead::EnumValue,
            FieldType::List(item) => ItemRead::List(Box::new(item.generate_struct_field_reader_list_item())),
            _ => ItemRead::Unit,
        }
    }

    /// How a list item of this type is written.
    pub fn generate_struct_field_writer_list_item(&self) -> (r: ItemWrite)
        requires
            supported_item(*self),
        ensures
            r == item_write_of(*self),
        decreases self,
    {
        match self {
            FieldType::Void => ItemWrite::SetUnit,
            FieldType::Primitive(_) | FieldType::Enum(_) => ItemWrite::SetCopy,
            FieldType::Data(_) | FieldType::Text(_) => ItemWrite::SetRef,
            FieldType::Struct(_) | FieldType::GenericStruct(_) => ItemWrite::WriteItem,
            FieldType::EnumRemote(_) => ItemWrite::SetRemote,
            FieldType::List(item) => ItemWrite::List(Box::new(item.generate_struct_field_writer_list_item())),
            _ => ItemWrite::SetUnit,
        }
    }

    /// The read of a field of this type whose schema name is `name`.
    pub fn generate_field_reader(&self, name: &String, pre_fetched: bool, reborrow: bool) -> (r: ValueRead)
        requires
            supported_type(*self),
        ensures
            value_read_ok(r, *self, name@, pre_fetched, reborrow),
    {
        let fetch = if pre_fetched {
            Fetch { reader: ReaderName::Val, reborrow, getter: None }
        } else {
            Fetch { reader: ReaderName::Reader, reborrow, getter: Some(prefixed("get_", name)) }
        };
        let op = match self {
            FieldType::Void => ReadOp::Unit,
            FieldType::Primitive(_) => ReadOp::Direct,
            FieldType::Data(_) => ReadOp::OwnedData,
            FieldType::Text(_) => ReadOp::OwnedText,
            FieldType::Struct(p) | FieldType::GenericStruct(p) => ReadOp::ReadStruct(*p),
            FieldType::EnumRemote(_) => ReadOp::IntoRemote,
            FieldType::Enum(_) => ReadOp::EnumValue,
            FieldType::GroupOrUnion(p) => ReadOp::ReadGroup(*p),
            FieldType::UnnamedUnion(p) => ReadOp::ReadWhole(*p),
            FieldType::List(item) => ReadOp::List(item.generate_struct_field_reader_list_item()),
            _ => ReadOp::Unit,
        };
        ValueRead { fetch, op }
    }

    /// The write of `value`, of this type, to the field whose schema name is `name`.
    pub fn generate_field_writer(&self, value: ValueRef, name: &String) -> (r: ValueWrite)
        requires
            supported_type(*self),
        ensures
            value_write_ok(r, *self, name@, value),
    {
        let op = match self {
            FieldType::Void => WriteOp::SetUnit,
            FieldType::Primitive(_) | FieldType::Enum(_) => WriteOp::SetCopy,
            FieldType::Data(_) => WriteOp::SetRef,
            FieldType::Text(_) => WriteOp::SetText,
            FieldType::Struct(_) | FieldType::GenericStruct(_) | FieldType::GroupOrUnion(_) => WriteOp::WriteInit,
            FieldType::EnumRemote(_) => WriteOp::SetRemote,
            FieldType::UnnamedUnion(_) => WriteOp::WriteThrough,
            FieldType::List(item) => WriteOp::List(item.generate_struct_field_writer_list_item()),
            _ => WriteOp::SetUnit,
        };
        let initializer = matches!(op, WriteOp::WriteInit | WriteOp::List(_) | WriteOp::WriteThrough);
        let accessor = if initializer {
            prefixed("init_", name)
        } else {
            prefixed("set_", name)
        };
        ValueWrite { value, accessor, op }
    }
}

} // verus!
