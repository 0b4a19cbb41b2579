//! Buffer discipline shared by every read and write: a declared capacity
//! bounds what is sent, and what does not fit is dropped and counted, never
//! written.

use vstd::prelude::*;

verus! {

/// The bit pattern of a 32-bit float. The library moves floats between
/// buffers and never computes with them.
#[derive(Debug, Clone, Copy, PartialEq, Eq, Structural)]
pub struct F32Bits(pub u32);

/// The bit pattern of a 64-bit float.
#[derive(Debug, Clone, Copy, PartialEq, Eq, Structural)]
pub struct F64Bits(pub u64);

/// The number of values that a declared size admits: none if it is negative.
pub open spec fn room(size: int) -> nat {
    if size < 0 {
        0
    } else {
        size as nat
    }
}

/// The number of values in `tuple_size * count`, none if either is negative.
pub open spec fn capacity_of(tuple_size: int, count: int) -> nat {
    room(tuple_size) * room(count)
}

/// How many of `len` values fit into `capacity`.
pub open spec fn fitting(len: nat, capacity: nat) -> nat {
    if len <= capacity {
        len
    } else {
        capacity
    }
}

/// Values cut to a capacity: those that are kept, in their order, and the
/// number of those that were dropped from the end.
pub struct Clamped<T> {
    pub kept: Vec<T>,
    pub dropped: usize,
}

/// Cuts `values` to `capacity`. What exceeds the capacity is dropped and
/// counted, so that the caller can report it; what is kept is a prefix of
/// what was given and never longer than the capacity.
pub fn clamp<T>(values: Vec<T>, capacity: usize) -> (r: Clamped<T>)
    ensures
        r.kept@ == values@.take(fitting(values@.len(), capacity as nat) as int),
        r.kept@.len() <= capacity,
        r.dropped == values@.len() - r.kept@.len(),
        r.dropped > 0 <==> values@.len() > capacity,
{
    let mut kept = values;
    let len = kept.len();
    if len > capacity {
        kept.truncate(capacity);
        proof {
            assert(kept@ =~= values@.take(capacity as int));
        }
        Clamped { kept, dropped: len - capacity }
    } else {
        proof {
            assert(kept@ =~= values@.take(len as int));
        }
        Clamped { kept, dropped: 0 }
    }
}

/// The number of values that a declared size admits, as a length.
pub fn room_of(size: i32) -> (n: usize)
    ensures
        n == room(size as int),
{
    if size < 0 {
        0
    } else {
        size as usize
    }
}

/// The length of the buffer for `count` elements of `tuple_size` values each,
/// or `None` where it does not fit the engine's 32-bit lengths.
pub fn capacity(tuple_size: i32, count: i32) -> (n: Option<usize>)
    ensures
        n is Some <==> capacity_of(tuple_size as int, count as int) <= i32::MAX,
        n matches Some(c) ==> c == capacity_of(tuple_size as int, count as int),
{
    let t: u64 = if tuple_size < 0 {
        0
    } else {
        tuple_size as u64
    };
    let c: u64 = if count < 0 {
        0
    } else {
        count as u64
    };
    assert(t * c <= 0x7fff_ffff * 0x7fff_ffff) by (nonlinear_arith)
        requires
            t <= 0x7fff_ffff,
            c <= 0x7fff_ffff,
    ;
    let total: u64 = t * c;
    if total <= 0x7fff_ffff {
        Some(total as usize)
    } else {
        None
    }
}

/// What the engine answered, as far as a size-then-fetch exchange has come.
#[derive(Debug)]
pub enum Reply<T> {
    /// Nothing yet: the exchange begins.
    Start,
    /// The answer to the size query: the result code and the length.
    Size { code: i32, length: i32 },
    /// The answer to the fetch: the result code, the length that was asked
    /// for, and the buffer.
    Data { code: i32, length: i32, values: Vec<T> },
}

/// What an exchange does next: make a call, or end with a value.
#[derive(Debug)]
pub enum Step<C, T> {
    Call(C),
    Done(T),
}

/// The first `n` values of a buffer, all of them where it is shorter, none
/// where `n` is negative.
pub open spec fn prefix<T>(values: Seq<T>, n: int) -> Seq<T> {
    if n <= 0 {
        Seq::empty()
    } else if n >= values.len() {
        values
    } else {
        values.take(n)
    }
}

/// Keeps of a buffer what was asked for: its first `length` values.
pub fn keep<T>(buffer: Vec<T>, length: i32) -> (kept: Vec<T>)
    ensures
        kept@ == prefix(buffer@, length as int),
{
    let mut kept = buffer;
    if length <= 0 {
        kept.truncate(0);
    } else if (length as usize) < kept.len() {
        kept.truncate(length as usize);
    }
    proof {
        assert(kept@ =~= prefix(buffer@, length as int));
    }
    kept
}

} // verus!
