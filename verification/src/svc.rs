//! Supervisor calls of the user tasks: the request that prints a string,
//! and the results that a call hands back.
use vstd::prelude::*;
use vstd::string::StringSliceAdditionalSpecFns;

verus! {

/// What a supervisor call hands back: nothing, or a character read.
#[derive(Clone, Copy, PartialEq, Eq, Structural, Debug)]
pub enum SvcResult {
    Empty,
    Char(u8),
}

/// Length of the buffer that carries a string to the kernel.
pub const SPRINT_LEN: usize = 32;

/// The buffer that carries `text` to the kernel: its first 32 bytes, then
/// zero bytes (a string of 32 bytes or more has no terminating zero).
pub open spec fn sprint_bytes(text: Seq<u8>) -> Seq<u8> {
    Seq::new(
        32,
        |i: int|
            if i < text.len() {
                text[i]
            } else {
                0u8
            },
    )
}

/// Fills the 32-byte buffer with which `sprint` hands `text` to the kernel.
pub fn sprint_buffer(text: &str) -> (buffer: Vec<u8>)
    ensures
        buffer@ == sprint_bytes(text.spec_bytes()),
{
    let bytes = text.as_bytes();
    let mut tmp_array: Vec<u8> = Vec::new();
    let mut index: usize = 0;
    while index < SPRINT_LEN
        invariant
            bytes@ == text.spec_bytes(),
            index <= SPRINT_LEN,
            tmp_array@.len() == index,
            forall|j: int| 0 <= j < index ==> tmp_array@[j] == sprint_bytes(bytes@)[j],
        decreases SPRINT_LEN - index,
    {
        if index < bytes.len() {
            tmp_array.push(bytes[index]);
        } else {
            tmp_array.push(0u8);
        }
        index = index + 1;
    }
    assert(tmp_array@ == sprint_bytes(text.spec_bytes()));
    tmp_array
}

/// The buffer of `sprint` has 32 bytes: the text's bytes, as many as fit,
/// then zero bytes.
pub proof fn law_sprint_bytes_layout(text: Seq<u8>)
    ensures
        sprint_bytes(text).len() == 32,
        forall|i: int| 0 <= i < 32 && i < text.len() ==> #[trigger] sprint_bytes(text)[i] == text[i],
        forall|i: int| text.len() <= i < 32 ==> #[trigger] sprint_bytes(text)[i] == 0,
{
}

} // verus!
