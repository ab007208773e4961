//! The search for the ACPI root system description pointer (RSDP) in a stretch
//! of memory.
//!
//! The pointer starts on a 16-byte boundary with the signature `"RSD PTR "`.
//! Its first 20 bytes sum to zero modulo 256; from revision 1 on it names its
//! own length, and all its bytes sum to zero modulo 256.

use vstd::prelude::*;
use vstd::slice::slice_subrange;
use vstd::utf8::valid_utf8;

verus! {

/// The length of an RSDP of revision 0.
pub const RSDP_V1_LENGTH: usize = 20;

/// The number of bytes that an RSDP of revision 1 or later has more than one
/// of revision 0.
pub const RSDP_EXTENSION_LENGTH: usize = 16;

/// The distance between two places at which an RSDP may start.
pub const RSDP_ALIGNMENT: usize = 16;

/// The signature `"RSD PTR "`.
pub open spec fn rsdp_signature() -> Seq<u8> {
    seq![0x52u8, 0x53u8, 0x44u8, 0x20u8, 0x50u8, 0x54u8, 0x52u8, 0x20u8]
}

/// The sum of the bytes.
pub open spec fn byte_sum(bytes: Seq<u8>) -> int
    decreases bytes.len(),
{
    if bytes.len() == 0 {
        0
    } else {
        byte_sum(bytes.drop_last()) + bytes.last()
    }
}

/// The 32-bit number that the four bytes from `at` on hold, lowest byte first.
pub open spec fn le_u32(bytes: Seq<u8>, at: int) -> int {
    bytes[at] + bytes[at + 1] * 0x100 + bytes[at + 2] * 0x1_0000 + bytes[at + 3] * 0x100_0000
}

/// The memory holds a valid RSDP at offset `at`: the signature, an OEM
/// identifier that is text, and bytes that lie within the memory and sum to
/// zero modulo 256 (the first 20 in revision 0, as many as the length field
/// says in later revisions).
pub open spec fn valid_rsdp_at(memory: Seq<u8>, at: int) -> bool {
    &&& 0 <= at
    &&& at + RSDP_V1_LENGTH <= memory.len()
    &&& memory.subrange(at, at + 8) == rsdp_signature()
    &&& valid_utf8(memory.subrange(at + 9, at + 15))
    &&& if memory[at + 15] == 0 {
        byte_sum(memory.subrange(at, at + RSDP_V1_LENGTH)) % 256 == 0
    } else {
        &&& at + 24 <= memory.len()
        &&& at + le_u32(memory, at + 20) <= memory.len()
        &&& byte_sum(memory.subrange(at, at + le_u32(memory, at + 20))) % 256 == 0
    }
}

/// The lowest offset that is a multiple of 16 and at which the memory holds a
/// valid RSDP is `found`; or `found` is nothing and there is no such offset.
pub open spec fn is_first_rsdp(memory: Seq<u8>, found: Option<usize>) -> bool {
    match found {
        Some(at) => {
            &&& at % RSDP_ALIGNMENT == 0
            &&& valid_rsdp_at(memory, at as int)
            &&& forall|k: int|
                0 <= k < at && k % (RSDP_ALIGNMENT as int) == 0 ==> !#[trigger] valid_rsdp_at(
                    memory,
                    k,
                )
        },
        None => forall|k: int|
            k % (RSDP_ALIGNMENT as int) == 0 ==> !#[trigger] valid_rsdp_at(memory, k),
    }
}

/// The search of the memory that starts at physical address `base` ends with
/// `address`: the address of the first valid RSDP on a 16-byte boundary of
/// the memory, or nothing where the memory holds none.
pub open spec fn rsdp_found_in(base: u64, memory: Seq<u8>, address: Option<u64>) -> bool {
    match address {
        Some(a) => a >= base && a - base <= usize::MAX && is_first_rsdp(
            memory,
            Some((a - base) as usize),
        ),
        None => is_first_rsdp(memory, None),
    }
}

/// `core::str::from_utf8` of std: it accepts the bytes exactly where they are
/// valid UTF-8.
#[verifier::external_body]
fn is_utf8(bytes: &[u8]) -> (ok: bool)
    ensures
        ok == valid_utf8(bytes@),
{
    core::str::from_utf8(bytes).is_ok()
}

/// The sum modulo 256 of the bytes from `start` up to `end`.
pub fn checksum(memory: &[u8], start: usize, end: usize) -> (sum: u8)
    requires
        start <= end <= memory@.len(),
    ensures
        sum == byte_sum(memory@.subrange(start as int, end as int)) % 256,
{
    let mut sum: u8 = 0;
    let mut i: usize = start;
    assert(memory@.subrange(start as int, start as int) =~= Seq::<u8>::empty());
    while i < end
        invariant
            start <= i <= end <= memory@.len(),
            sum == byte_sum(memory@.subrange(start as int, i as int)) % 256,
        decreases end - i,
    {
        assert(memory@.subrange(start as int, i + 1).drop_last() =~= memory@.subrange(
            start as int,
            i as int,
        ));
        sum = sum.wrapping_add(memory[i]);
        i += 1;
    }
    sum
}

/// Whether the eight bytes from `at` on are the signature.
fn has_signature(memory: &[u8], at: usize) -> (found: bool)
    requires
        at + 8 <= memory@.len(),
    ensures
        found == (memory@.subrange(at as int, at + 8) == rsdp_signature()),
{
    let found: bool = memory[at] == 0x52 && memory[at + 1] == 0x53 && memory[at + 2] == 0x44
        && memory[at + 3] == 0x20 && memory[at + 4] == 0x50 && memory[at + 5] == 0x54 && memory[at
        + 6] == 0x52 && memory[at + 7] == 0x20;
    proof {
        let part = memory@.subrange(at as int, at + 8);
        if found {
            assert(part =~= rsdp_signature());
        } else {
            assert(part[0] == memory@[at + 0] && part[1] == memory@[at + 1] && part[2] == memory@[at
                + 2] && part[3] == memory@[at + 3] && part[4] == memory@[at + 4] && part[5]
                == memory@[at + 5] && part[6] == memory@[at + 6] && part[7] == memory@[at + 7]);
        }
    }
    found
}

/// Whether the memory holds a valid RSDP at offset `at`.
pub fn is_valid_rsdp(memory: &[u8], at: usize) -> (valid: bool)
    ensures
        valid == valid_rsdp_at(memory@, at as int),
{
    let len: usize = memory.len();
    if len < RSDP_V1_LENGTH || at > len - RSDP_V1_LENGTH {
        return false;
    }
    if !has_signature(memory, at) {
        return false;
    }
    if !is_utf8(slice_subrange(memory, at + 9, at + 15)) {
        return false;
    }
    if memory[at + 15] == 0 {
        checksum(memory, at, at + RSDP_V1_LENGTH) == 0
    } else {
        if len - at < 24 {
            return false;
        }
        let length: u64 = memory[at + 20] as u64 + memory[at + 21] as u64 * 0x100 + memory[at
            + 22] as u64 * 0x1_0000 + memory[at + 23] as u64 * 0x100_0000;
        if length > (len - at) as u64 {
            return false;
        }
        checksum(memory, at, at + length as usize) == 0
    }
}

/// Searches the memory for an RSDP, from its start upward in steps of 16
/// bytes, and returns the offset of the first valid one.
pub fn find_rsdp(memory: &[u8]) -> (found: Option<usize>)
    ensures
        is_first_rsdp(memory@, found),
{
    let len: usize = memory.len();
    if len < RSDP_V1_LENGTH {
        return None;
    }
    let count: usize = (len - RSDP_V1_LENGTH) / RSDP_ALIGNMENT + 1;
    let mut index: usize = 0;
    while index < count
        invariant
            len == memory@.len(),
            len >= RSDP_V1_LENGTH,
            count == (len - RSDP_V1_LENGTH) / (RSDP_ALIGNMENT as int) + 1,
            index <= count,
            forall|k: int|
                0 <= k < index * RSDP_ALIGNMENT && k % (RSDP_ALIGNMENT as int) == 0
                    ==> !#[trigger] valid_rsdp_at(memory@, k),
        decreases count - index,
    {
        let at: usize = index * RSDP_ALIGNMENT;
        if is_valid_rsdp(memory, at) {
            return Some(at);
        }
        index += 1;
    }
    None
}

/// Searches the memory that starts at physical address `base` for an RSDP and
/// returns the physical address of the first valid one.
pub fn rsdp_address(base: u64, memory: &[u8]) -> (address: Option<u64>)
    requires
        base + memory@.len() <= u64::MAX,
    ensures
        rsdp_found_in(base, memory@, address),
{
    match find_rsdp(memory) {
        Some(at) => Some(base + at as u64),
        None => None,
    }
}

/// Searches the areas in the order given, each with the physical address at
/// which it starts, and returns the address of the RSDP of the first area
/// that holds one.
pub fn first_rsdp(areas: &[(u64, Vec<u8>)]) -> (address: Option<u64>)
    requires
        forall|i: int|
            0 <= i < areas@.len() ==> (#[trigger] areas@[i]).0 + areas@[i].1@.len() <= u64::MAX,
    ensures
        match address {
            Some(a) => exists|i: int|
                {
                    &&& 0 <= i < areas@.len()
                    &&& rsdp_found_in((#[trigger] areas@[i]).0, areas@[i].1@, Some(a))
                    &&& forall|j: int|
                        0 <= j < i ==> rsdp_found_in((#[trigger] areas@[j]).0, areas@[j].1@, None)
                },
            None => forall|j: int|
                0 <= j < areas@.len() ==> rsdp_found_in(
                    (#[trigger] areas@[j]).0,
                    areas@[j].1@,
                    None,
                ),
        },
{
    let mut i: usize = 0;
    while i < areas.len()
        invariant
            i <= areas@.len(),
            forall|k: int|
                0 <= k < areas@.len() ==> (#[trigger] areas@[k]).0 + areas@[k].1@.len()
                    <= u64::MAX,
            forall|j: int|
                0 <= j < i ==> rsdp_found_in((#[trigger] areas@[j]).0, areas@[j].1@, None),
        decreases areas.len() - i,
    {
        let area = &areas[i];
        let found: Option<u64> = rsdp_address(area.0, area.1.as_slice());
        if found.is_some() {
            assert(rsdp_found_in(areas@[i as int].0, areas@[i as int].1@, found));
            return found;
        }
        i += 1;
    }
    None
}

} // verus!
