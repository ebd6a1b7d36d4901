//! A model of the builder and reader views that the generated code runs
//! against, and the meaning of each generated construct over it.
//!
//! A message maps each schema field that was set to its wire value; a getter
//! of a field never set gives the wire default, and `has_x` says whether it
//! was set. A nested struct, group or union is carried as a value of its
//! own (`Val::Msg`): its own generated conversions are taken to carry it
//! unchanged, which the laws here establish one type at a time. A mirror
//! enum goes through `to_wire` and `from_wire`, which undo each other for
//! the generated mappings (see `laws::lemma_remote_enum_round_trip`).
use vstd::prelude::*;

use crate::generators::{
    field_read_ok, field_write_ok, item_read_of, item_write_of, read_op_of, snake_name, supported_field,
    supported_item, supported_type, write_op_of, Fetch, FieldRead, FieldWrite, ItemRead, ItemWrite, ReadOp,
    ValueWrite, WriteOp,
};
use crate::impls::{
    enum_supported, impls_ok, part, struct_supported, GeneratedImpls, StructFieldWrite, UnionArm, VariantRead,
    VariantWrite,
};
use crate::names::{snake_case_of, upper_camel_case_of};
use crate::models::{is_ptr_type_spec, EnumInfo, FieldInfo, FieldType, ItemInfo, StructInfo};
use crate::syntax::{ExprPath, PathId};

verus! {

/// The schema field that an accessor `set_x`, `init_x`, `get_x` or `has_x`
/// addresses.
pub open spec fn slot_of(accessor: Seq<char>) -> Seq<char> {
    if accessor.len() >= 4 && (accessor.take(4) == "set_"@ || accessor.take(4) == "get_"@
        || accessor.take(4) == "has_"@) {
        accessor.skip(4)
    } else if accessor.len() >= 5 && accessor.take(5) == "init_"@ {
        accessor.skip(5)
    } else {
        accessor
    }
}

/// Each accessor of the field `n` addresses `n`.
pub proof fn lemma_slot_of(n: Seq<char>)
    ensures
        slot_of("set_"@ + n) == n,
        slot_of("get_"@ + n) == n,
        slot_of("has_"@ + n) == n,
        slot_of("init_"@ + n) == n,
{
    reveal_strlit("set_");
    reveal_strlit("get_");
    reveal_strlit("has_");
    reveal_strlit("init_");
    assert(("set_"@ + n).take(4) =~= "set_"@);
    assert(("set_"@ + n).skip(4) =~= n);
    assert(("get_"@ + n).take(4) =~= "get_"@);
    assert(("get_"@ + n).skip(4) =~= n);
    assert(("has_"@ + n).take(4) =~= "has_"@);
    assert(("has_"@ + n).skip(4) =~= n);
    let i = "init_"@ + n;
    assert(i.take(4)[0] == 'i');
    assert(i.take(4) != "set_"@);
    assert(i.take(4) != "get_"@);
    assert(i.take(4) != "has_"@);
    assert(i.take(5) =~= "init_"@);
    assert(i.skip(5) =~= n);
}

/// A Rust value as the generated code handles it.
pub enum Val {
    Unit,
    /// A primitive (a `bool` as 0 or 1, a float by its bits).
    Num(int),
    Bytes(Seq<u8>),
    Chars(Seq<char>),
    /// A struct, group or union value; what its own conversions carry.
    Msg(int),
    /// A generated enumerant, or a variant of a hand-written mirror enum.
    Tag(int),
    Items(Seq<Val>),
    /// `PhantomData`.
    Marker,
    /// `None`.
    Nothing,
    /// `Some(v)`.
    Just(Box<Val>),
}

/// A value held by a wire field or list item.
pub enum Wire {
    Unit,
    Num(int),
    Bytes(Seq<u8>),
    Chars(Seq<char>),
    Msg(int),
    Tag(int),
    Items(Seq<Wire>),
}

/// A struct message: the fields set so far, by schema name; the value
/// written through the builder itself (an unnamed union); and the union's
/// discriminant, the schema name of the union field set last.
pub struct Message {
    pub slots: Map<Seq<char>, Wire>,
    pub whole: Option<int>,
    pub which: Option<Seq<char>>,
}

/// The list item that `iw` stores for `v`; a mirror variant `h` is stored as
/// the enumerant `to_wire(h)`.
pub open spec fn write_item(iw: ItemWrite, v: Val, to_wire: spec_fn(int) -> int) -> Wire
    decreases iw,
{
    match iw {
        ItemWrite::SetUnit => Wire::Unit,
        ItemWrite::SetCopy => match v {
            Val::Num(x) => Wire::Num(x),
            Val::Tag(x) => Wire::Tag(x),
            _ => Wire::Unit,
        },
        ItemWrite::SetRef => match v {
            Val::Bytes(b) => Wire::Bytes(b),
            Val::Chars(c) => Wire::Chars(c),
            _ => Wire::Unit,
        },
        ItemWrite::WriteItem => match v {
            Val::Msg(x) => Wire::Msg(x),
            _ => Wire::Unit,
        },
        ItemWrite::SetRemote => match v {
            Val::Tag(x) => Wire::Tag(to_wire(x)),
            _ => Wire::Unit,
        },
        ItemWrite::List(inner) => match v {
            Val::Items(s) => Wire::Items(Seq::new(s.len(), |i: int| write_item(*inner, s[i], to_wire))),
            _ => Wire::Unit,
        },
    }
}

/// The Rust value that `ir` reads from the list item `w`; an enumerant `e`
/// is read into a mirror enum as `from_wire(e)`.
pub open spec fn read_item(ir: ItemRead, w: Wire, from_wire: spec_fn(int) -> int) -> Val
    decreases ir,
{
    match ir {
        ItemRead::Unit => Val::Unit,
        ItemRead::Direct => match w {
            Wire::Num(x) => Val::Num(x),
            _ => Val::Unit,
        },
        ItemRead::OwnedData => match w {
            Wire::Bytes(b) => Val::Bytes(b),
            _ => Val::Unit,
        },
        ItemRead::OwnedText => match w {
            Wire::Chars(c) => Val::Chars(c),
            _ => Val::Unit,
        },
        ItemRead::ReadStruct(_) => match w {
            Wire::Msg(x) => Val::Msg(x),
            _ => Val::Unit,
        },
        ItemRead::IntoRemote => match w {
            Wire::Tag(x) => Val::Tag(from_wire(x)),
            _ => Val::Unit,
        },
        ItemRead::EnumValue => match w {
            Wire::Tag(x) => Val::Tag(x),
            _ => Val::Unit,
        },
        ItemRead::List(inner) => match w {
            Wire::Items(s) => Val::Items(Seq::new(s.len(), |i: int| read_item(*inner, s[i], from_wire))),
            _ => Val::Unit,
        },
    }
}

/// The wire value that a field write `op` stores for `v`.
pub open spec fn write_value(op: WriteOp, v: Val, to_wire: spec_fn(int) -> int) -> Wire {
    match op {
        WriteOp::SetUnit => Wire::Unit,
        WriteOp::SetCopy => write_item(ItemWrite::SetCopy, v, to_wire),
        WriteOp::SetRef => write_item(ItemWrite::SetRef, v, to_wire),
        WriteOp::SetText => write_item(ItemWrite::SetRef, v, to_wire),
        WriteOp::WriteInit | WriteOp::WriteThrough => write_item(ItemWrite::WriteItem, v, to_wire),
        WriteOp::SetRemote => write_item(ItemWrite::SetRemote, v, to_wire),
        WriteOp::List(iw) => write_item(ItemWrite::List(Box::new(iw)), v, to_wire),
    }
}

/// The Rust value that a field read `op` gives for the wire value `w`.
pub open spec fn read_value(op: ReadOp, w: Wire, from_wire: spec_fn(int) -> int) -> Val {
    match op {
        ReadOp::Unit => Val::Unit,
        ReadOp::Direct => read_item(ItemRead::Direct, w, from_wire),
        ReadOp::OwnedData => read_item(ItemRead::OwnedData, w, from_wire),
        ReadOp::OwnedText => read_item(ItemRead::OwnedText, w, from_wire),
        ReadOp::ReadStruct(p) | ReadOp::ReadGroup(p) | ReadOp::ReadWhole(p) => read_item(
            ItemRead::ReadStruct(p),
            w,
            from_wire,
        ),
        ReadOp::IntoRemote => read_item(ItemRead::IntoRemote, w, from_wire),
        ReadOp::EnumValue => read_item(ItemRead::EnumValue, w, from_wire),
        ReadOp::List(ir) => read_item(ItemRead::List(Box::new(ir)), w, from_wire),
    }
}

/// What a getter gives for a field that was never set: the wire default.
pub open spec fn wire_default(op: ReadOp) -> Wire {
    match op {
        ReadOp::Direct => Wire::Num(0),
        ReadOp::OwnedData => Wire::Bytes(Seq::empty()),
        ReadOp::OwnedText => Wire::Chars(Seq::empty()),
        ReadOp::IntoRemote | ReadOp::EnumValue => Wire::Tag(0),
        ReadOp::List(_) => Wire::Items(Seq::empty()),
        ReadOp::ReadStruct(_) | ReadOp::ReadGroup(_) | ReadOp::ReadWhole(_) => Wire::Msg(0),
        ReadOp::Unit => Wire::Unit,
    }
}

/// The wire value a read fetches: the field its getter names (or its
/// default), the prefetched `val`, or the message itself.
pub open spec fn fetch_wire(f: Fetch, op: ReadOp, m: Message, val: Wire) -> Wire {
    if op is ReadWhole {
        match m.whole {
            Some(x) => Wire::Msg(x),
            None => wire_default(op),
        }
    } else {
        match f.getter {
            None => val,
            Some(g) => if m.slots.contains_key(slot_of(g@)) {
                m.slots[slot_of(g@)]
            } else {
                wire_default(op)
            },
        }
    }
}

/// The message after the write `vw` of `v`.
pub open spec fn put(m: Message, vw: ValueWrite, v: Val, to_wire: spec_fn(int) -> int) -> Message {
    if vw.op is WriteThrough {
        Message {
            whole: match v {
                Val::Msg(x) => Some(x),
                _ => None,
            },
            ..m
        }
    } else {
        Message { slots: m.slots.insert(slot_of(vw.accessor@), write_value(vw.op, v, to_wire)), ..m }
    }
}

/// The message after the field write `w` of the Rust value `v`.
pub open spec fn eval_write(w: FieldWrite, v: Val, m: Message, to_wire: spec_fn(int) -> int) -> Message {
    match w {
        FieldWrite::Noop => m,
        FieldWrite::Write(vw) => put(m, vw, v, to_wire),
        FieldWrite::IfSome { write, .. } => match v {
            Val::Just(x) => put(m, write, *x, to_wire),
            _ => m,
        },
    }
}

/// The Rust value that the field read `r` gives from the message `m`, with
/// `val` prefetched; `defaults` gives what each default function returns and
/// `type_defaults` each type's default.
pub open spec fn eval_read(
    r: FieldRead,
    m: Message,
    val: Wire,
    from_wire: spec_fn(int) -> int,
    defaults: spec_fn(ExprPath) -> Val,
    type_defaults: spec_fn(PathId) -> Val,
) -> Val
    decreases r,
{
    match r {
        FieldRead::Phantom => Val::Marker,
        FieldRead::CallDefault(p) => defaults(p),
        FieldRead::DefaultOf(id) => type_defaults(id),
        FieldRead::UnitValue => Val::Unit,
        FieldRead::EmptyList => Val::Items(Seq::empty()),
        FieldRead::SomeOf(e) => Val::Just(Box::new(eval_read(*e, m, val, from_wire, defaults, type_defaults))),
        FieldRead::Present { checker, value } => if m.slots.contains_key(slot_of(checker@)) {
            Val::Just(Box::new(read_value(value.op, fetch_wire(value.fetch, value.op, m, val), from_wire)))
        } else {
            Val::Nothing
        },
        FieldRead::Value(v) => read_value(v.op, fetch_wire(v.fetch, v.op, m, val), from_wire),
    }
}

/// `v` is a Rust value of the type `t`.
pub open spec fn conforms(v: Val, t: FieldType) -> bool
    decreases t,
{
    match t {
        FieldType::Void => v is Unit,
        FieldType::Primitive(_) => v is Num,
        FieldType::Data(_) => v is Bytes,
        FieldType::Text(_) => v is Chars,
        FieldType::Struct(_) | FieldType::GenericStruct(_) | FieldType::GroupOrUnion(_)
        | FieldType::UnnamedUnion(_) => v is Msg,
        FieldType::Enum(_) | FieldType::EnumRemote(_) => v is Tag,
        FieldType::List(item) => v is Items && forall|i: int|
            0 <= i < v->Items_0.len() ==> conforms(#[trigger] v->Items_0[i], *item),
        _ => false,
    }
}

/// `from_wire` undoes `to_wire`.
pub open spec fn inverse(to_wire: spec_fn(int) -> int, from_wire: spec_fn(int) -> int) -> bool {
    forall|h: int| #[trigger] from_wire(to_wire(h)) == h
}

proof fn lemma_item_round_trip(t: FieldType, v: Val, to_wire: spec_fn(int) -> int, from_wire: spec_fn(int) -> int)
    requires
        supported_item(t),
        conforms(v, t),
        inverse(to_wire, from_wire),
    ensures
        read_item(item_read_of(t), write_item(item_write_of(t), v, to_wire), from_wire) == v,
    decreases t,
{
    if let FieldType::List(item) = t {
        let s = v->Items_0;
        let w = write_item(item_write_of(t), v, to_wire);
        let back = read_item(item_read_of(t), w, from_wire);
        assert forall|i: int| 0 <= i < s.len() implies #[trigger] back->Items_0[i] == s[i] by {
            lemma_item_round_trip(*item, s[i], to_wire, from_wire);
        }
        assert(back->Items_0 =~= s);
    }
}

/// A value of a supported type, written by the write the generator picks
/// for the type and read by the read it picks, comes back unchanged, at
/// every depth of nested lists.
pub proof fn lemma_value_round_trip(t: FieldType, v: Val, to_wire: spec_fn(int) -> int, from_wire: spec_fn(int) -> int)
    requires
        supported_type(t),
        conforms(v, t),
        inverse(to_wire, from_wire),
    ensures
        read_value(read_op_of(t), write_value(write_op_of(t), v, to_wire), from_wire) == v,
{
    if let FieldType::List(item) = t {
        let s = v->Items_0;
        let w = write_value(write_op_of(t), v, to_wire);
        let back = read_value(read_op_of(t), w, from_wire);
        assert(item_write_of(*item) == *Box::new(item_write_of(*item)));
        assert forall|i: int| 0 <= i < s.len() implies #[trigger] back->Items_0[i] == s[i] by {
            lemma_item_round_trip(*item, s[i], to_wire, from_wire);
        }
        assert(back->Items_0 =~= s);
    }
}

/// `v` is a Rust value of the field `f`: of its type, or for an optional
/// field `None` or `Some` of a value of its type.
pub open spec fn field_value(v: Val, f: FieldInfo) -> bool {
    if f.is_optional {
        v is Nothing || (v is Just && conforms(*v->Just_0, f.field_type))
    } else {
        conforms(v, f.field_type)
    }
}

/// The round trip of one field. A field that is written and read, into a
/// message where it was not set before: the value read is the value
/// written, except that `None` in an optional inline field (a primitive or
/// an enum, which is always present on the wire) reads back as `Some`.
pub proof fn lemma_field_round_trip(
    f: FieldInfo,
    w: FieldWrite,
    r: FieldRead,
    owned: bool,
    reborrow: bool,
    v: Val,
    m: Message,
    to_wire: spec_fn(int) -> int,
    from_wire: spec_fn(int) -> int,
    defaults: spec_fn(ExprPath) -> Val,
    type_defaults: spec_fn(PathId) -> Val,
)
    requires
        supported_field(f),
        field_write_ok(w, f, owned),
        field_read_ok(r, f, false, reborrow),
        !(f.field_type is Phantom),
        !f.skip_read,
        !f.skip_write,
        field_value(v, f),
        inverse(to_wire, from_wire),
        !m.slots.contains_key(snake_name(f)),
    ensures
        ({
            let out = eval_read(r, eval_write(w, v, m, to_wire), Wire::Unit, from_wire, defaults, type_defaults);
            if f.is_optional && v is Nothing && !is_ptr_type_spec(f.field_type) {
                out is Just
            } else {
                out == v
            }
        }),
{
    let n = snake_name(f);
    lemma_slot_of(n);
    reveal_with_fuel(eval_read, 2);
    if f.is_optional {
        if let Val::Just(x) = v {
            lemma_value_round_trip(f.field_type, *x, to_wire, from_wire);
        }
    } else {
        lemma_value_round_trip(f.field_type, v, to_wire, from_wire);
    }
}

/// A field that is not read (other than a marker) reads as its default
/// function's value, or its type's default, whatever the message holds; a
/// field that is not written leaves the message as it was.
pub proof fn lemma_skip_semantics(
    f: FieldInfo,
    w: FieldWrite,
    r: FieldRead,
    owned: bool,
    pre_fetched: bool,
    reborrow: bool,
    v: Val,
    m: Message,
    val: Wire,
    to_wire: spec_fn(int) -> int,
    from_wire: spec_fn(int) -> int,
    defaults: spec_fn(ExprPath) -> Val,
    type_defaults: spec_fn(PathId) -> Val,
)
    requires
        supported_field(f),
        field_write_ok(w, f, owned),
        field_read_ok(r, f, pre_fetched, reborrow),
    ensures
        f.skip_write ==> eval_write(w, v, m, to_wire) == m,
        !(f.field_type is Phantom) && f.skip_read && f.default_override is Some ==> eval_read(
            r,
            m,
            val,
            from_wire,
            defaults,
            type_defaults,
        ) == if f.is_optional {
            Val::Just(Box::new(defaults(f.default_override->0)))
        } else {
            defaults(f.default_override->0)
        },
{
    reveal_with_fuel(eval_read, 2);
}

/// A message with nothing set.
pub open spec fn empty_message() -> Message {
    Message { slots: Map::empty(), whole: None, which: None }
}

/// The schema field that a write sets.
pub open spec fn written_slot(w: FieldWrite) -> Seq<char> {
    match w {
        FieldWrite::Write(vw) => slot_of(vw.accessor@),
        FieldWrite::IfSome { write, .. } => slot_of(write.accessor@),
        FieldWrite::Noop => Seq::empty(),
    }
}

/// The struct writer's statement `s` for the field value `v`: a union arm
/// is written only when it is `Some`, and then sets the discriminant.
pub open spec fn eval_struct_field_write(s: StructFieldWrite, v: Val, m: Message, to_wire: spec_fn(int) -> int) -> Message {
    if s.union_arm is Some {
        match v {
            Val::Just(x) => Message { which: Some(written_slot(s.write)), ..eval_write(s.write, *x, m, to_wire) },
            _ => m,
        }
    } else {
        eval_write(s.write, v, m, to_wire)
    }
}

/// The message after the struct writer's statements `ws` for the field
/// values `vs`, in order.
pub open spec fn eval_writes(ws: Seq<StructFieldWrite>, vs: Seq<Val>, m: Message, to_wire: spec_fn(int) -> int) -> Message
    decreases ws.len(),
{
    if ws.len() == 0 || vs.len() == 0 {
        m
    } else {
        eval_struct_field_write(ws.last(), vs.last(), eval_writes(ws.drop_last(), vs.drop_last(), m, to_wire), to_wire)
    }
}

/// `m1` and `m2` agree on what the reader of field `f` looks at (nothing,
/// for a marker).
pub open spec fn agrees(m1: Message, m2: Message, f: FieldInfo) -> bool {
    let n = snake_name(f);
    f.field_type is Phantom || {
        &&& m1.slots.contains_key(n) == m2.slots.contains_key(n)
        &&& m1.slots.contains_key(n) ==> m1.slots[n] == m2.slots[n]
        &&& f.field_type is UnnamedUnion ==> m1.whole == m2.whole
    }
}

/// The reader of a field looks only at the field's slot, and at the whole
/// message for an unnamed union.
proof fn lemma_read_local(
    f: FieldInfo,
    r: FieldRead,
    reborrow: bool,
    m1: Message,
    m2: Message,
    from_wire: spec_fn(int) -> int,
    defaults: spec_fn(ExprPath) -> Val,
    type_defaults: spec_fn(PathId) -> Val,
)
    requires
        supported_field(f),
        field_read_ok(r, f, false, reborrow),
        agrees(m1, m2, f),
    ensures
        eval_read(r, m1, Wire::Unit, from_wire, defaults, type_defaults) == eval_read(
            r,
            m2,
            Wire::Unit,
            from_wire,
            defaults,
            type_defaults,
        ),
{
    lemma_slot_of(snake_name(f));
    reveal_with_fuel(eval_read, 2);
}

/// A field's write changes only the field's slot, and the whole message
/// only for an unnamed union; into a message where the field is unset, it
/// sets what it sets into an empty message.
proof fn lemma_write_frame(f: FieldInfo, w: FieldWrite, owned: bool, v: Val, m: Message, to_wire: spec_fn(int) -> int)
    requires
        supported_field(f),
        field_write_ok(w, f, owned),
    ensures
        ({
            let m2 = eval_write(w, v, m, to_wire);
            &&& forall|k: Seq<char>|
                (!(f.field_type is Phantom) ==> k != snake_name(f)) ==> (#[trigger] m2.slots.contains_key(k)
                    == m.slots.contains_key(k) && (m.slots.contains_key(k) ==> m2.slots[k] == m.slots[k]))
            &&& !(f.field_type is UnnamedUnion) ==> m2.whole == m.whole
            &&& m2.which == m.which
            &&& (!m.slots.contains_key(snake_name(f)) && (f.field_type is UnnamedUnion ==> m.whole is None))
                ==> agrees(m2, eval_write(w, v, empty_message(), to_wire), f)
        }),
{
    lemma_slot_of(snake_name(f));
}

/// With no union arms, the non-arm fields are all the fields.
proof fn lemma_part_all(fs: Seq<FieldInfo>)
    requires
        forall|i: int| 0 <= i < fs.len() ==> !(#[trigger] fs[i]).is_union_field,
    ensures
        part(fs, false) == fs,
        part(fs, true).len() == 0,
    decreases fs.len(),
{
    if fs.len() > 0 {
        lemma_part_all(fs.drop_last());
        assert(fs.drop_last().push(fs.last()) == fs);
    }
}

/// The values `vs` are values of the fields `fs` (a marker field holds the
/// marker).
pub open spec fn struct_values(vs: Seq<Val>, fs: Seq<FieldInfo>) -> bool {
    &&& vs.len() == fs.len()
    &&& forall|i: int|
        0 <= i < fs.len() ==> if (#[trigger] fs[i]).field_type is Phantom {
            vs[i] is Marker
        } else {
            field_value(vs[i], fs[i])
        }
}

/// Each field that is not a marker has a schema name of its own, and at most
/// one field is an unnamed union.
pub open spec fn distinct_slots(fs: Seq<FieldInfo>) -> bool {
    &&& forall|i: int, j: int|
        0 <= i < fs.len() && 0 <= j < fs.len() && i != j && !(fs[i].field_type is Phantom)
            && !(fs[j].field_type is Phantom) ==> snake_name(#[trigger] fs[i]) != snake_name(#[trigger] fs[j])
    &&& forall|i: int, j: int|
        0 <= i < fs.len() && 0 <= j < fs.len() && (#[trigger] fs[i]).field_type is UnnamedUnion
            && (#[trigger] fs[j]).field_type is UnnamedUnion ==> i == j
}

proof fn lemma_writes_prefix(
    fs: Seq<FieldInfo>,
    ws: Seq<StructFieldWrite>,
    vs: Seq<Val>,
    k: int,
    to_wire: spec_fn(int) -> int,
)
    requires
        0 <= k <= fs.len(),
        ws.len() == fs.len(),
        vs.len() == fs.len(),
        distinct_slots(fs),
        forall|i: int|
            0 <= i < fs.len() ==> supported_field(#[trigger] fs[i]) && !fs[i].is_union_field
                && ws[i].union_arm is None && field_write_ok(ws[i].write, fs[i], true),
    ensures
        ({
            let m = eval_writes(ws.take(k), vs.take(k), empty_message(), to_wire);
            forall|i: int|
                0 <= i < fs.len() ==> if i < k {
                    agrees(m, eval_write(ws[i].write, vs[i], empty_message(), to_wire), #[trigger] fs[i])
                } else {
                    !(fs[i].field_type is Phantom) ==> !m.slots.contains_key(snake_name(fs[i])) && (
                    fs[i].field_type is UnnamedUnion ==> m.whole is None)
                }
        }),
    decreases k,
{
    if k > 0 {
        lemma_writes_prefix(fs, ws, vs, k - 1, to_wire);
        let prev = eval_writes(ws.take(k - 1), vs.take(k - 1), empty_message(), to_wire);
        assert(ws.take(k).drop_last() == ws.take(k - 1));
        assert(vs.take(k).drop_last() == vs.take(k - 1));
        let j = k - 1;
        lemma_write_frame(fs[j], ws[j].write, true, vs[j], prev, to_wire);
        let m = eval_writes(ws.take(k), vs.take(k), empty_message(), to_wire);
        assert(m == eval_write(ws[j].write, vs[j], prev, to_wire));
        assert forall|i: int| 0 <= i < fs.len() implies if i < k {
            agrees(m, eval_write(ws[i].write, vs[i], empty_message(), to_wire), #[trigger] fs[i])
        } else {
            !(fs[i].field_type is Phantom) ==> !m.slots.contains_key(snake_name(fs[i])) && (
            fs[i].field_type is UnnamedUnion ==> m.whole is None)
        } by {
            if i != j && !(fs[i].field_type is Phantom) && !(fs[j].field_type is Phantom) {
                assert(snake_name(fs[i]) != snake_name(fs[j]));
            }
            if i != j && fs[i].field_type is UnnamedUnion && fs[j].field_type is UnnamedUnion {
                assert(false);
            }
            if i < j {
                lemma_write_frame(fs[i], ws[i].write, true, vs[i], empty_message(), to_wire);
            }
        }
    }
}

/// The round trip of a struct without union arms whose fields are all
/// written and read, each under a schema name of its own: every field read
/// back is the field written, except that `None` in an optional inline
/// field reads back as `Some`.
pub proof fn lemma_struct_round_trip(
    s: StructInfo,
    g: GeneratedImpls,
    vs: Seq<Val>,
    to_wire: spec_fn(int) -> int,
    from_wire: spec_fn(int) -> int,
    defaults: spec_fn(ExprPath) -> Val,
    type_defaults: spec_fn(PathId) -> Val,
)
    requires
        impls_ok(g, ItemInfo::Struct(s)),
        struct_supported(s),
        forall|i: int|
            0 <= i < s.fields@.len() ==> !(#[trigger] s.fields@[i]).is_union_field && !s.fields@[i].skip_read
                && !s.fields@[i].skip_write,
        distinct_slots(s.fields@),
        struct_values(vs, s.fields@),
        inverse(to_wire, from_wire),
    ensures
        g.impls is Struct,
        ({
            let fs = s.fields@;
            let writer = g.impls->Struct_writer@;
            let reader = g.impls->Struct_reader;
            let m = eval_writes(writer, vs, empty_message(), to_wire);
            &&& reader.arms@.len() == 0
            &&& reader.fields@.len() == fs.len()
            &&& forall|i: int|
                0 <= i < fs.len() ==> {
                    let out = eval_read(
                        (#[trigger] reader.fields@[i]).value,
                        m,
                        Wire::Unit,
                        from_wire,
                        defaults,
                        type_defaults,
                    );
                    if fs[i].is_optional && vs[i] is Nothing && !is_ptr_type_spec(fs[i].field_type) {
                        out is Just
                    } else {
                        out == vs[i]
                    }
                }
        }),
{
    let fs = s.fields@;
    let writer = g.impls->Struct_writer@;
    let reader = g.impls->Struct_reader;
    let reborrow = s.generics@.len() > 0;
    lemma_part_all(fs);
    assert forall|i: int| 0 <= i < fs.len() implies supported_field(#[trigger] fs[i]) && !fs[i].is_union_field
        && writer[i].union_arm is None && field_write_ok(writer[i].write, fs[i], true) by {
        assert(supported_field(s.fields@[i]));
    }
    lemma_writes_prefix(fs, writer, vs, fs.len() as int, to_wire);
    assert(writer.take(fs.len() as int) == writer);
    assert(vs.take(fs.len() as int) == vs);
    let m = eval_writes(writer, vs, empty_message(), to_wire);
    assert forall|i: int| 0 <= i < fs.len() implies {
        let out = eval_read(
            (#[trigger] reader.fields@[i]).value,
            m,
            Wire::Unit,
            from_wire,
            defaults,
            type_defaults,
        );
        if fs[i].is_optional && vs[i] is Nothing && !is_ptr_type_spec(fs[i].field_type) {
            out is Just
        } else {
            out == vs[i]
        }
    } by {
        let f = fs[i];
        let r = reader.fields@[i].value;
        let single = eval_write(writer[i].write, vs[i], empty_message(), to_wire);
        assert(field_read_ok(r, f, false, reborrow));
        lemma_read_local(f, r, reborrow, m, single, from_wire, defaults, type_defaults);
        if f.field_type is Phantom {
            assert(r == FieldRead::Phantom);
        } else {
            lemma_field_round_trip(
                f,
                writer[i].write,
                r,
                true,
                reborrow,
                vs[i],
                empty_message(),
                to_wire,
                from_wire,
                defaults,
                type_defaults,
            );
        }
    }
}

/// The fields that the reader's match gives for the message `m`: the arm
/// whose variant is the one of the discriminant (`variant_of` names the
/// generated variant of each schema field), with the value read for its own
/// field and `None` for the others; `None` when no arm matches.
pub open spec fn eval_union_read(
    arms: Seq<UnionArm>,
    m: Message,
    variant_of: spec_fn(Seq<char>) -> Seq<char>,
    from_wire: spec_fn(int) -> int,
    defaults: spec_fn(ExprPath) -> Val,
    type_defaults: spec_fn(PathId) -> Val,
) -> Option<Seq<Val>> {
    match m.which {
        None => None,
        Some(n) => if exists|i: int| 0 <= i < arms.len() && (#[trigger] arms[i]).variant@ == variant_of(n) {
            let i = choose|i: int| 0 <= i < arms.len() && (#[trigger] arms[i]).variant@ == variant_of(n);
            let fields = arms[i].fields@;
            Some(
                Seq::new(
                    fields.len(),
                    |j: int|
                        match fields[j].value {
                            Some(r) => Val::Just(
                                Box::new(eval_read(r, m, m.slots[n], from_wire, defaults, type_defaults)),
                            ),
                            None => Val::Nothing,
                        },
                ),
            )
        } else {
            None
        },
    }
}

/// The entries of `vs` at the fields of `fs` that are union arms (`arms`)
/// or are not, in order.
pub open spec fn part_values(fs: Seq<FieldInfo>, vs: Seq<Val>, arms: bool) -> Seq<Val>
    decreases fs.len(),
{
    if fs.len() == 0 || vs.len() == 0 {
        Seq::empty()
    } else if fs.last().is_union_field == arms {
        part_values(fs.drop_last(), vs.drop_last(), arms).push(vs.last())
    } else {
        part_values(fs.drop_last(), vs.drop_last(), arms)
    }
}

/// The position in `fs` of entry `k` of `part(fs, arms)`.
pub open spec fn part_index(fs: Seq<FieldInfo>, arms: bool, k: int) -> int
    decreases fs.len(),
{
    if fs.len() == 0 {
        0
    } else if fs.last().is_union_field == arms && k == part(fs.drop_last(), arms).len() {
        fs.len() - 1
    } else {
        part_index(fs.drop_last(), arms, k)
    }
}

proof fn lemma_part_index(fs: Seq<FieldInfo>, vs: Seq<Val>, arms: bool)
    requires
        vs.len() == fs.len(),
    ensures
        part_values(fs, vs, arms).len() == part(fs, arms).len(),
        forall|k: int|
            0 <= k < part(fs, arms).len() ==> {
                let i = #[trigger] part_index(fs, arms, k);
                &&& 0 <= i < fs.len()
                &&& fs[i] == part(fs, arms)[k]
                &&& fs[i].is_union_field == arms
                &&& vs[i] == part_values(fs, vs, arms)[k]
            },
        forall|k1: int, k2: int|
            0 <= k1 < part(fs, arms).len() && 0 <= k2 < part(fs, arms).len() && k1 != k2
                ==> #[trigger] part_index(fs, arms, k1) != #[trigger] part_index(fs, arms, k2),
        forall|i: int|
            0 <= i < fs.len() && (#[trigger] fs[i]).is_union_field == arms ==> exists|k: int|
                0 <= k < part(fs, arms).len() && #[trigger] part_index(fs, arms, k) == i,
    decreases fs.len(),
{
    if fs.len() > 0 {
        let fs0 = fs.drop_last();
        let vs0 = vs.drop_last();
        lemma_part_index(fs0, vs0, arms);
        let n0 = part(fs0, arms).len() as int;
        assert forall|k: int| 0 <= k < part(fs, arms).len() implies {
            let i = #[trigger] part_index(fs, arms, k);
            &&& 0 <= i < fs.len()
            &&& fs[i] == part(fs, arms)[k]
            &&& fs[i].is_union_field == arms
            &&& vs[i] == part_values(fs, vs, arms)[k]
        } by {
            if fs.last().is_union_field == arms && k == n0 {
            } else {
                assert(part_index(fs, arms, k) == part_index(fs0, arms, k));
            }
        }
        assert forall|k: int| 0 <= k < part(fs0, arms).len() implies #[trigger] part_index(fs, arms, k)
            == part_index(fs0, arms, k) && part_index(fs0, arms, k) < fs0.len() by {
        }
        assert forall|k1: int, k2: int|
            0 <= k1 < part(fs, arms).len() && 0 <= k2 < part(fs, arms).len() && k1 != k2 implies #[trigger] part_index(
            fs,
            arms,
            k1,
        ) != #[trigger] part_index(fs, arms, k2) by {
            if k1 < n0 && k2 < n0 {
                assert(part_index(fs0, arms, k1) != part_index(fs0, arms, k2));
            }
        }
        assert forall|i: int| 0 <= i < fs.len() && (#[trigger] fs[i]).is_union_field == arms implies exists|k: int|
            0 <= k < part(fs, arms).len() && #[trigger] part_index(fs, arms, k) == i by {
            if i == fs.len() - 1 {
                assert(part_index(fs, arms, n0) == i);
            } else {
                assert(fs0[i] == fs[i]);
                let k = choose|k: int| 0 <= k < part(fs0, arms).len() && #[trigger] part_index(fs0, arms, k) == i;
                assert(part_index(fs, arms, k) == i);
            }
        }
    }
}

/// The round trip of a struct with union arms: the fields outside the union
/// read back as written (an optional inline `None` as `Some`), and the
/// reader's match takes the arm of the discriminant that the write set,
/// reading that arm back unchanged and giving `None` for every other arm.
/// Exactly one arm is `Some`; every field has a schema name of its own, and
/// every arm a generated variant of its own (`variant_of` names the
/// variant of each schema field, as the schema compiler does).
pub proof fn lemma_union_struct_round_trip(
    s: StructInfo,
    g: GeneratedImpls,
    vs: Seq<Val>,
    a: int,
    variant_of: spec_fn(Seq<char>) -> Seq<char>,
    to_wire: spec_fn(int) -> int,
    from_wire: spec_fn(int) -> int,
    defaults: spec_fn(ExprPath) -> Val,
    type_defaults: spec_fn(PathId) -> Val,
)
    requires
        impls_ok(g, ItemInfo::Struct(s)),
        struct_supported(s),
        forall|i: int|
            0 <= i < s.fields@.len() ==> !(#[trigger] s.fields@[i]).skip_read && !s.fields@[i].skip_write,
        forall|i: int|
            0 <= i < s.fields@.len() && (#[trigger] s.fields@[i]).is_union_field ==> !s.fields@[i].is_optional
                && !(s.fields@[i].field_type is Phantom) && !(s.fields@[i].field_type is UnnamedUnion)
                && variant_of(snake_name(s.fields@[i])) == upper_camel_case_of(s.fields@[i].capnp_base_name()),
        forall|i: int, j: int|
            0 <= i < s.fields@.len() && 0 <= j < s.fields@.len() && i != j && s.fields@[i].is_union_field
                && s.fields@[j].is_union_field ==> upper_camel_case_of((#[trigger] s.fields@[i]).capnp_base_name())
                != upper_camel_case_of((#[trigger] s.fields@[j]).capnp_base_name()),
        distinct_slots(s.fields@),
        vs.len() == s.fields@.len(),
        0 <= a < vs.len(),
        s.fields@[a].is_union_field,
        vs[a] is Just && conforms(*vs[a]->Just_0, s.fields@[a].field_type),
        forall|i: int|
            0 <= i < vs.len() && i != a && (#[trigger] s.fields@[i]).is_union_field ==> vs[i] is Nothing,
        forall|i: int|
            0 <= i < vs.len() && !(#[trigger] s.fields@[i]).is_union_field ==> if s.fields@[i].field_type is Phantom {
                vs[i] is Marker
            } else {
                field_value(vs[i], s.fields@[i])
            },
        inverse(to_wire, from_wire),
    ensures
        g.impls is Struct,
        ({
            let fs = s.fields@;
            let reader = g.impls->Struct_reader;
            let m = eval_writes(g.impls->Struct_writer@, vs, empty_message(), to_wire);
            let nu = part(fs, false);
            let nv = part_values(fs, vs, false);
            &&& reader.fields@.len() == nu.len()
            &&& forall|k: int|
                0 <= k < nu.len() ==> {
                    let out = eval_read(
                        (#[trigger] reader.fields@[k]).value,
                        m,
                        Wire::Unit,
                        from_wire,
                        defaults,
                        type_defaults,
                    );
                    if nu[k].is_optional && nv[k] is Nothing && !is_ptr_type_spec(nu[k].field_type) {
                        out is Just
                    } else {
                        out == nv[k]
                    }
                }
            &&& eval_union_read(reader.arms@, m, variant_of, from_wire, defaults, type_defaults) == Some(
                part_values(fs, vs, true),
            )
        }),
{
    let fs = s.fields@;
    let writer = g.impls->Struct_writer@;
    let reader = g.impls->Struct_reader;
    let reborrow = s.generics@.len() > 0;
    let u = part(fs, true);
    let nu = part(fs, false);
    lemma_part_index(fs, vs, true);
    lemma_part_index(fs, vs, false);
    assert forall|i: int| 0 <= i < fs.len() implies supported_field(#[trigger] fs[i]) && (writer[i].union_arm
        is Some) == fs[i].is_union_field && field_write_ok(writer[i].write, fs[i], !fs[i].is_union_field) by {
        assert(supported_field(s.fields@[i]));
    }
    lemma_mixed_writes(fs, writer, vs, a, fs.len() as int, to_wire);
    assert(writer.take(fs.len() as int) == writer);
    assert(vs.take(fs.len() as int) == vs);
    let m = eval_writes(writer, vs, empty_message(), to_wire);
    // the fields outside the union
    assert forall|k: int| 0 <= k < nu.len() implies {
        let out = eval_read(
            (#[trigger] reader.fields@[k]).value,
            m,
            Wire::Unit,
            from_wire,
            defaults,
            type_defaults,
        );
        let nv = part_values(fs, vs, false);
        if nu[k].is_optional && nv[k] is Nothing && !is_ptr_type_spec(nu[k].field_type) {
            out is Just
        } else {
            out == nv[k]
        }
    } by {
        let i = part_index(fs, false, k);
        let f = fs[i];
        let r = reader.fields@[k].value;
        let single = eval_struct_field_write(writer[i], vs[i], empty_message(), to_wire);
        assert(single == eval_write(writer[i].write, vs[i], empty_message(), to_wire));
        lemma_read_local(f, r, reborrow, m, single, from_wire, defaults, type_defaults);
        if f.field_type is Phantom {
            assert(r == FieldRead::Phantom);
        } else {
            lemma_field_round_trip(
                f,
                writer[i].write,
                r,
                true,
                reborrow,
                vs[i],
                empty_message(),
                to_wire,
                from_wire,
                defaults,
                type_defaults,
            );
        }
    }
    // the union
    let f = fs[a];
    let n = snake_name(f);
    lemma_slot_of(n);
    lemma_write_frame(f, writer[a].write, false, *vs[a]->Just_0, empty_message(), to_wire);
    assert(m.which == Some(n));
    let ka = choose|k: int| 0 <= k < u.len() && #[trigger] part_index(fs, true, k) == a;
    assert(crate::impls::arm_ok(reader.arms@[ka], u, ka, reborrow));
    assert(reader.arms@[ka].variant@ == variant_of(n));
    let kc = choose|kc: int| 0 <= kc < reader.arms@.len() && (#[trigger] reader.arms@[kc]).variant@ == variant_of(n);
    assert(crate::impls::arm_ok(reader.arms@[kc], u, kc, reborrow));
    assert(part_index(fs, true, kc) == a) by {
        let ic = part_index(fs, true, kc);
        if ic != a {
            assert(upper_camel_case_of(fs[ic].capnp_base_name()) != upper_camel_case_of(fs[a].capnp_base_name()));
        }
    }
    assert(kc == ka);
    let x = *vs[a]->Just_0;
    lemma_value_round_trip(f.field_type, x, to_wire, from_wire);
    let out = eval_union_read(reader.arms@, m, variant_of, from_wire, defaults, type_defaults);
    let uv = part_values(fs, vs, true);
    assert forall|j: int| 0 <= j < u.len() implies #[trigger] out->0[j] == uv[j] by {
        if j != ka {
            assert(part_index(fs, true, j) != a);
        }
    }
    assert(out->0 =~= uv);
}

proof fn lemma_mixed_writes(
    fs: Seq<FieldInfo>,
    ws: Seq<StructFieldWrite>,
    vs: Seq<Val>,
    a: int,
    k: int,
    to_wire: spec_fn(int) -> int,
)
    requires
        0 <= a < fs.len(),
        0 <= k <= fs.len(),
        ws.len() == fs.len(),
        vs.len() == fs.len(),
        distinct_slots(fs),
        fs[a].is_union_field,
        vs[a] is Just,
        forall|i: int| 0 <= i < fs.len() && i != a && (#[trigger] fs[i]).is_union_field ==> vs[i] is Nothing,
        forall|i: int|
            0 <= i < fs.len() ==> supported_field(#[trigger] fs[i]) && (ws[i].union_arm is Some)
                == fs[i].is_union_field && field_write_ok(ws[i].write, fs[i], !fs[i].is_union_field),
        forall|i: int|
            0 <= i < fs.len() && (#[trigger] fs[i]).is_union_field ==> !fs[i].is_optional && !(
            fs[i].field_type is Phantom) && !(fs[i].field_type is UnnamedUnion) && !fs[i].skip_write,
    ensures
        ({
            let m = eval_writes(ws.take(k), vs.take(k), empty_message(), to_wire);
            &&& m.which == (if a < k { Some(snake_name(fs[a])) } else { None::<Seq<char>> })
            &&& forall|i: int|
                0 <= i < fs.len() ==> if i < k {
                    agrees(m, eval_struct_field_write(ws[i], vs[i], empty_message(), to_wire), #[trigger] fs[i])
                } else {
                    !(fs[i].field_type is Phantom) ==> !m.slots.contains_key(snake_name(fs[i])) && (
                    fs[i].field_type is UnnamedUnion ==> m.whole is None)
                }
        }),
    decreases k,
{
    if k > 0 {
        lemma_mixed_writes(fs, ws, vs, a, k - 1, to_wire);
        let prev = eval_writes(ws.take(k - 1), vs.take(k - 1), empty_message(), to_wire);
        assert(ws.take(k).drop_last() == ws.take(k - 1));
        assert(vs.take(k).drop_last() == vs.take(k - 1));
        let j = k - 1;
        let m = eval_writes(ws.take(k), vs.take(k), empty_message(), to_wire);
        assert(m == eval_struct_field_write(ws[j], vs[j], prev, to_wire));
        lemma_slot_of(snake_name(fs[j]));
        let inner = if fs[j].is_union_field && vs[j] is Just { *vs[j]->Just_0 } else { vs[j] };
        lemma_write_frame(fs[j], ws[j].write, !fs[j].is_union_field, inner, prev, to_wire);
        lemma_write_frame(fs[j], ws[j].write, !fs[j].is_union_field, inner, empty_message(), to_wire);
        if fs[j].is_union_field {
            assert(written_slot(ws[j].write) == snake_name(fs[j]));
            if j != a {
                assert(vs[j] is Nothing);
            }
        }
        assert forall|i: int| 0 <= i < fs.len() implies if i < k {
            agrees(m, eval_struct_field_write(ws[i], vs[i], empty_message(), to_wire), #[trigger] fs[i])
        } else {
            !(fs[i].field_type is Phantom) ==> !m.slots.contains_key(snake_name(fs[i])) && (
            fs[i].field_type is UnnamedUnion ==> m.whole is None)
        } by {
            if i != j && !(fs[i].field_type is Phantom) && !(fs[j].field_type is Phantom) {
                assert(snake_name(fs[i]) != snake_name(fs[j]));
            }
            if i != j && fs[i].field_type is UnnamedUnion && fs[j].field_type is UnnamedUnion {
                assert(false);
            }
        }
    }
}

/// The message after the enum writer's arm for variant `i` with payload
/// `v`: the payload's field is set, and with it the discriminant.
pub open spec fn eval_enum_write(ws: Seq<VariantWrite>, i: int, v: Val, m: Message, to_wire: spec_fn(int) -> int) -> Message {
    Message { which: Some(written_slot(ws[i].write)), ..eval_write(ws[i].write, v, m, to_wire) }
}

/// What the reader of an enum with payloads gives for `m`: the variant of
/// the arm for the discriminant's generated variant, with its payload read
/// from the discriminant's field; `None` when no arm matches.
pub open spec fn eval_enum_read(
    arms: Seq<VariantRead>,
    m: Message,
    variant_of: spec_fn(Seq<char>) -> Seq<char>,
    from_wire: spec_fn(int) -> int,
    defaults: spec_fn(ExprPath) -> Val,
    type_defaults: spec_fn(PathId) -> Val,
) -> Option<(Seq<char>, Val)> {
    match m.which {
        None => None,
        Some(n) => if exists|i: int| 0 <= i < arms.len() && (#[trigger] arms[i]).capnp_variant@ == variant_of(n) {
            let i = choose|i: int| 0 <= i < arms.len() && (#[trigger] arms[i]).capnp_variant@ == variant_of(n);
            Some((arms[i].rust_name@, eval_read(arms[i].value, m, m.slots[n], from_wire, defaults, type_defaults)))
        } else {
            None
        },
    }
}

/// The round trip of an enum with payloads: the variant written is the
/// variant read, with its payload unchanged. Every variant has a generated
/// variant of its own (`variant_of` names the generated variant of each
/// schema field, as the schema compiler does).
pub proof fn lemma_enum_round_trip(
    e: EnumInfo,
    g: GeneratedImpls,
    i: int,
    v: Val,
    variant_of: spec_fn(Seq<char>) -> Seq<char>,
    to_wire: spec_fn(int) -> int,
    from_wire: spec_fn(int) -> int,
    defaults: spec_fn(ExprPath) -> Val,
    type_defaults: spec_fn(PathId) -> Val,
)
    requires
        impls_ok(g, ItemInfo::Enum(e)),
        e.is_union_spec(),
        enum_supported(e),
        forall|k: int|
            0 <= k < e.fields@.len() ==> !((#[trigger] e.fields@[k]).field_type is UnnamedUnion)
                && !e.fields@[k].is_optional && !e.fields@[k].skip_read && !e.fields@[k].skip_write
                && variant_of(snake_name(e.fields@[k])) == upper_camel_case_of(
                snake_case_of(e.fields@[k].capnp_base_name()),
            ),
        forall|k: int, l: int|
            0 <= k < e.fields@.len() && 0 <= l < e.fields@.len() && k != l ==> upper_camel_case_of(
                snake_case_of((#[trigger] e.fields@[k]).capnp_base_name()),
            ) != upper_camel_case_of(snake_case_of((#[trigger] e.fields@[l]).capnp_base_name())),
        0 <= i < e.fields@.len(),
        conforms(v, e.fields@[i].field_type),
        inverse(to_wire, from_wire),
    ensures
        g.impls is UnionEnum,
        eval_enum_read(
            g.impls->variant_readers@,
            eval_enum_write(g.impls->variant_writers@, i, v, empty_message(), to_wire),
            variant_of,
            from_wire,
            defaults,
            type_defaults,
        ) == Some((e.fields@[i].rust_name@, v)),
{
    let fs = e.fields@;
    let writers = g.impls->variant_writers@;
    let readers = g.impls->variant_readers@;
    let f = fs[i];
    let n = snake_name(f);
    lemma_slot_of(n);
    assert(supported_type(f.field_type));
    assert(field_write_ok(writers[i].write, f, false));
    let m = eval_enum_write(writers, i, v, empty_message(), to_wire);
    assert(m.which == Some(n));
    assert(readers[i].capnp_variant@ == variant_of(n));
    let kc = choose|kc: int| 0 <= kc < readers.len() && (#[trigger] readers[kc]).capnp_variant@ == variant_of(n);
    assert(kc == i) by {
        if kc != i {
            assert(readers[kc].capnp_variant@ == upper_camel_case_of(snake_case_of(fs[kc].capnp_base_name())));
        }
    }
    lemma_value_round_trip(f.field_type, v, to_wire, from_wire);
}

} // verus!
