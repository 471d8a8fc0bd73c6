//! Reads of the game's memory, as the verified logic asks for them and as the
//! caller hands their results back.
use vstd::prelude::*;

verus! {

/// What a read takes from the game's memory.
#[derive(PartialEq, Eq, Structural, Clone, Copy, Debug)]
pub enum ReadKind {
    U8,
    I32,
    U32,
    Usize,
    /// That many raw bytes.
    Bytes(usize),
}

/// A read of the game's memory: what to read, and where.
#[derive(PartialEq, Eq, Structural, Clone, Copy, Debug)]
pub struct ReadRequest {
    pub address: usize,
    pub kind: ReadKind,
}

/// The value a read gave.
#[derive(Debug)]
pub enum Word {
    U8(u8),
    I32(i32),
    U32(u32),
    Usize(usize),
    Bytes(Vec<u8>),
}

/// The `u8` a read gave, if it gave one.
pub open spec fn as_u8(w: Option<Word>) -> Option<u8> {
    match w {
        Some(Word::U8(v)) => Some(v),
        _ => None,
    }
}

/// The `i32` a read gave, if it gave one.
pub open spec fn as_i32(w: Option<Word>) -> Option<i32> {
    match w {
        Some(Word::I32(v)) => Some(v),
        _ => None,
    }
}

/// The `u32` a read gave, if it gave one.
pub open spec fn as_u32(w: Option<Word>) -> Option<u32> {
    match w {
        Some(Word::U32(v)) => Some(v),
        _ => None,
    }
}

/// The `usize` a read gave, if it gave one.
pub open spec fn as_usize(w: Option<Word>) -> Option<usize> {
    match w {
        Some(Word::Usize(v)) => Some(v),
        _ => None,
    }
}

/// The bytes a read gave, if it gave bytes.
pub open spec fn as_bytes(w: Option<Word>) -> Option<Seq<u8>> {
    match w {
        Some(Word::Bytes(v)) => Some(v@),
        _ => None,
    }
}

/// `base + offset` as an address, or nothing when the sum does not fit in `usize`.
pub open spec fn offset_address(base: usize, offset: int) -> Option<usize> {
    if 0 <= base + offset <= usize::MAX {
        Some((base + offset) as usize)
    } else {
        None
    }
}

/// `base + offset`, or nothing when the sum does not fit in `usize`.
pub fn add_offset(base: usize, offset: usize) -> (res: Option<usize>)
    ensures
        res == offset_address(base, offset as int),
{
    base.checked_add(offset)
}

/// The `u8` that a read gave, if it gave one.
pub fn word_u8(w: &Option<Word>) -> (res: Option<u8>)
    ensures
        res == as_u8(*w),
{
    match w {
        Some(Word::U8(v)) => Some(*v),
        _ => None,
    }
}

/// The `i32` that a read gave, if it gave one.
pub fn word_i32(w: &Option<Word>) -> (res: Option<i32>)
    ensures
        res == as_i32(*w),
{
    match w {
        Some(Word::I32(v)) => Some(*v),
        _ => None,
    }
}

/// The `u32` that a read gave, if it gave one.
pub fn word_u32(w: &Option<Word>) -> (res: Option<u32>)
    ensures
        res == as_u32(*w),
{
    match w {
        Some(Word::U32(v)) => Some(*v),
        _ => None,
    }
}

/// The `usize` that a read gave, if it gave one.
pub fn word_usize(w: &Option<Word>) -> (res: Option<usize>)
    ensures
        res == as_usize(*w),
{
    match w {
        Some(Word::Usize(v)) => Some(*v),
        _ => None,
    }
}

} // verus!
