//! The bytes that a run of integers occupies in memory, as a GPU buffer
//! receives them.

use vstd::prelude::*;

verus! {

/// The two bytes at `at` hold `v`, low byte first.
pub open spec fn low_first_u16(bytes: Seq<u8>, at: int, v: u16) -> bool {
    bytes[at] + 0x100 * bytes[at + 1] == v
}

/// The two bytes at `at` hold `v`, high byte first.
pub open spec fn high_first_u16(bytes: Seq<u8>, at: int, v: u16) -> bool {
    0x100 * bytes[at] + bytes[at + 1] == v
}

/// The four bytes at `at` hold `v`, low byte first.
pub open spec fn low_first_u32(bytes: Seq<u8>, at: int, v: u32) -> bool {
    bytes[at] + 0x100 * bytes[at + 1] + 0x1_0000 * bytes[at + 2] + 0x100_0000 * bytes[at + 3] == v
}

/// The four bytes at `at` hold `v`, high byte first.
pub open spec fn high_first_u32(bytes: Seq<u8>, at: int, v: u32) -> bool {
    0x100_0000 * bytes[at] + 0x1_0000 * bytes[at + 1] + 0x100 * bytes[at + 2] + bytes[at + 3] == v
}

/// `bytes` is `values` laid out in memory: two bytes for each value, one
/// after the other, all in the same byte order.
pub open spec fn holds_u16(bytes: Seq<u8>, values: Seq<u16>) -> bool {
    &&& bytes.len() == 2 * values.len()
    &&& {
        ||| forall|i: int|
            0 <= i < values.len() ==> low_first_u16(bytes, 2 * i, #[trigger] values[i])
        ||| forall|i: int|
            0 <= i < values.len() ==> high_first_u16(bytes, 2 * i, #[trigger] values[i])
    }
}

/// `bytes` is `values` laid out in memory: four bytes for each value, one
/// after the other, all in the same byte order.
pub open spec fn holds_u32(bytes: Seq<u8>, values: Seq<u32>) -> bool {
    &&& bytes.len() == 4 * values.len()
    &&& {
        ||| forall|i: int|
            0 <= i < values.len() ==> low_first_u32(bytes, 4 * i, #[trigger] values[i])
        ||| forall|i: int|
            0 <= i < values.len() ==> high_first_u32(bytes, 4 * i, #[trigger] values[i])
    }
}

/// Calls `bytemuck::cast_slice` from `u16` to `u8` and copies what it hands
/// back. The cast reads the same memory byte by byte, so each value gives
/// its two bytes in the machine's byte order, and it cannot fail towards
/// bytes. Not proved: believed of bytemuck.
#[verifier::external_body]
pub(crate) fn bytes_of_u16(values: &Vec<u16>) -> (bytes: Vec<u8>)
    ensures
        holds_u16(bytes@, values@),
{
    bytemuck::cast_slice::<u16, u8>(values.as_slice()).to_vec()
}

/// Calls `bytemuck::cast_slice` from `u32` to `u8` and copies what it hands
/// back. The cast reads the same memory byte by byte, so each value gives
/// its four bytes in the machine's byte order, and it cannot fail towards
/// bytes. Not proved: believed of bytemuck.
#[verifier::external_body]
pub(crate) fn bytes_of_u32(values: &Vec<u32>) -> (bytes: Vec<u8>)
    ensures
        holds_u32(bytes@, values@),
{
    bytemuck::cast_slice::<u32, u8>(values.as_slice()).to_vec()
}

} // verus!
