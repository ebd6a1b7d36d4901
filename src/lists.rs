//! Bulk conversion between a Rust sequence and a typed wire list of a
//! primitive width, with a checked variant for narrowing conversions.
//!
//! A wire list is initialized with its length before it is filled, so the
//! writers take a list of the input's length and fill it index by index.
use vstd::prelude::*;
use vstd::string::*;

verus! {

/// `v` fits in an `i16`.
pub open spec fn fits_i16(v: i64) -> bool {
    i16::MIN as i64 <= v && v <= i16::MAX as i64
}

/// Copies `input` into the wire list `list` (of the input's length), item by
/// item: primitives, generated enums and plain structs.
pub fn write_list<T: Copy>(list: &mut Vec<T>, input: &Vec<T>)
    requires
        old(list)@.len() == input@.len(),
    ensures
        final(list)@ == input@,
{
    let mut i: usize = 0;
    while i < input.len()
        invariant
            0 <= i <= input@.len(),
            list@.len() == input@.len(),
            forall|k: int| 0 <= k < i ==> list@[k] == input@[k],
        decreases input@.len() - i,
    {
        list.set(i, input[i]);
        i = i + 1;
    }
    proof {
        assert(list@ == input@);
    }
}

/// Reads the wire list `list` into a new sequence, item by item.
pub fn read_list<T: Copy>(list: &Vec<T>) -> (r: Vec<T>)
    ensures
        r@ == list@,
{
    let mut out: Vec<T> = Vec::new();
    let mut i: usize = 0;
    while i < list.len()
        invariant
            0 <= i <= list@.len(),
            out@ == list@.take(i as int),
        decreases list@.len() - i,
    {
        out.push(list[i]);
        proof {
            assert(list@.take(i + 1) == list@.take(i as int).push(list@[i as int]));
        }
        i = i + 1;
    }
    proof {
        assert(list@.take(i as int) == list@);
    }
    out
}

/// Copies each blob of `input` into the wire list `list`.
pub fn write_data_list(list: &mut Vec<Vec<u8>>, input: &Vec<Vec<u8>>)
    requires
        old(list)@.len() == input@.len(),
    ensures
        final(list)@.len() == input@.len(),
        forall|i: int| 0 <= i < input@.len() ==> (#[trigger] final(list)@[i])@ == input@[i]@,
{
    let mut i: usize = 0;
    while i < input.len()
        invariant
            0 <= i <= input@.len(),
            list@.len() == input@.len(),
            forall|k: int| 0 <= k < i ==> (#[trigger] list@[k])@ == input@[k]@,
        decreases input@.len() - i,
    {
        let item = input[i].clone();
        list.set(i, item);
        i = i + 1;
    }
}

/// Reads each blob of the wire list `list` into an owned buffer.
pub fn read_data_list(list: &Vec<Vec<u8>>) -> (r: Vec<Vec<u8>>)
    ensures
        r@.len() == list@.len(),
        forall|i: int| 0 <= i < list@.len() ==> (#[trigger] r@[i])@ == list@[i]@,
{
    let mut out: Vec<Vec<u8>> = Vec::new();
    let mut i: usize = 0;
    while i < list.len()
        invariant
            0 <= i <= list@.len(),
            out@.len() == i,
            forall|k: int| 0 <= k < i ==> (#[trigger] out@[k])@ == list@[k]@,
        decreases list@.len() - i,
    {
        out.push(list[i].clone());
        i = i + 1;
    }
    out
}

/// Copies each text of `input` into the wire list `list`.
pub fn write_text_list(list: &mut Vec<String>, input: &Vec<&str>)
    requires
        old(list)@.len() == input@.len(),
    ensures
        final(list)@.len() == input@.len(),
        forall|i: int| 0 <= i < input@.len() ==> (#[trigger] final(list)@[i])@ == input@[i]@,
{
    let mut i: usize = 0;
    while i < input.len()
        invariant
            0 <= i <= input@.len(),
            list@.len() == input@.len(),
            forall|k: int| 0 <= k < i ==> (#[trigger] list@[k])@ == input@[k]@,
        decreases input@.len() - i,
    {
        list.set(i, String::from_str(input[i]));
        i = i + 1;
    }
}

/// Reads each text of the wire list `list` into an owned string.
pub fn read_text_list(list: &Vec<String>) -> (r: Vec<String>)
    ensures
        r@.len() == list@.len(),
        forall|i: int| 0 <= i < list@.len() ==> (#[trigger] r@[i])@ == list@[i]@,
{
    let mut out: Vec<String> = Vec::new();
    let mut i: usize = 0;
    while i < list.len()
        invariant
            0 <= i <= list@.len(),
            out@.len() == i,
            forall|k: int| 0 <= k < i ==> (#[trigger] out@[k])@ == list@[k]@,
        decreases list@.len() - i,
    {
        out.push(list[i].clone());
        i = i + 1;
    }
    out
}

/// Writes `input` into the 16-bit wire list `list`, converting each item.
/// At the first item that does not fit, stops and returns its index: the
/// items before it are written and the rest of the list is untouched.
pub fn try_write(list: &mut Vec<i16>, input: &Vec<i64>) -> (r: Result<(), usize>)
    requires
        old(list)@.len() == input@.len(),
    ensures
        final(list)@.len() == input@.len(),
        r is Ok <==> forall|i: int| 0 <= i < input@.len() ==> fits_i16(#[trigger] input@[i]),
        r is Ok ==> forall|i: int| 0 <= i < input@.len() ==> (#[trigger] final(list)@[i]) as int == input@[i] as int,
        r is Err ==> {
            let k = r->Err_0 as int;
            &&& 0 <= k < input@.len()
            &&& !fits_i16(input@[k])
            &&& forall|i: int| 0 <= i < k ==> fits_i16(#[trigger] input@[i]) && final(list)@[i] as int == input@[i] as int
            &&& forall|i: int| k <= i < input@.len() ==> #[trigger] final(list)@[i] == old(list)@[i]
        },
{
    let mut i: usize = 0;
    while i < input.len()
        invariant
            0 <= i <= input@.len(),
            list@.len() == input@.len(),
            forall|k: int| 0 <= k < i ==> fits_i16(#[trigger] input@[k]) && list@[k] as int == input@[k] as int,
            forall|k: int| i <= k < input@.len() ==> #[trigger] list@[k] == old(list)@[k],
        decreases input@.len() - i,
    {
        let v = input[i];
        if v < i16::MIN as i64 || v > i16::MAX as i64 {
            return Err(i);
        }
        list.set(i, v as i16);
        i = i + 1;
    }
    Ok(())
}

/// Reads the 64-bit wire list `list` into 16-bit values. At the first item
/// that does not fit, stops and returns its index.
pub fn try_read(list: &Vec<i64>) -> (r: Result<Vec<i16>, usize>)
    ensures
        r is Ok <==> forall|i: int| 0 <= i < list@.len() ==> fits_i16(#[trigger] list@[i]),
        r is Ok ==> r->Ok_0@.len() == list@.len() && forall|i: int|
            0 <= i < list@.len() ==> (#[trigger] r->Ok_0@[i]) as int == list@[i] as int,
        r is Err ==> {
            let k = r->Err_0 as int;
            &&& 0 <= k < list@.len()
            &&& !fits_i16(list@[k])
            &&& forall|i: int| 0 <= i < k ==> fits_i16(#[trigger] list@[i])
        },
{
    let mut out: Vec<i16> = Vec::new();
    let mut i: usize = 0;
    while i < list.len()
        invariant
            0 <= i <= list@.len(),
            out@.len() == i,
            forall|k: int| 0 <= k < i ==> fits_i16(#[trigger] list@[k]) && out@[k] as int == list@[k] as int,
        decreases list@.len() - i,
    {
        let v = list[i];
        if v < i16::MIN as i64 || v > i16::MAX as i64 {
            return Err(i);
        }
        out.push(v as i16);
        i = i + 1;
    }
    Ok(out)
}

/// Widens 16-bit values back to 64 bits.
pub fn widen(values: &Vec<i16>) -> (r: Vec<i64>)
    ensures
        r@.len() == values@.len(),
        forall|i: int| 0 <= i < values@.len() ==> (#[trigger] r@[i]) as int == values@[i] as int,
{
    let mut out: Vec<i64> = Vec::new();
    let mut i: usize = 0;
    while i < values.len()
        invariant
            0 <= i <= values@.len(),
            out@.len() == i,
            forall|k: int| 0 <= k < i ==> (#[trigger] out@[k]) as int == values@[k] as int,
        decreases values@.len() - i,
    {
        out.push(values[i] as i64);
        i = i + 1;
    }
    out
}

/// Values written through a 16-bit list with `try_write` and widened back
/// are the values written, when every value fits: the narrowing loses
/// nothing.
pub proof fn lemma_narrowing_round_trip(input: Seq<i64>, list: Seq<i16>, back: Seq<i64>)
    requires
        forall|i: int| 0 <= i < input.len() ==> fits_i16(#[trigger] input[i]),
        list.len() == input.len(),
        forall|i: int| 0 <= i < input.len() ==> (#[trigger] list[i]) as int == input[i] as int,
        back.len() == list.len(),
        forall|i: int| 0 <= i < list.len() ==> (#[trigger] back[i]) as int == list[i] as int,
    ensures
        back == input,
{
    assert(back =~= input);
}

} // verus!
