use scroll::Pread;
use scroll::Pwrite;
use vstd::prelude::*;

verus! {

/// The error of `scroll`, carried from its readers and writers to the code
/// that maps it to [`DecodeError`].
#[verifier::external_type_specification]
#[verifier::external_body]
pub struct ExScrollError(scroll::Error);

/// A byte string was too short for the fixed layout that was read from it.
#[derive(Debug, Clone, Copy, PartialEq, Eq)]
pub enum DecodeError {
    Truncated,
}

/// The number that four bytes spell in little-endian order.
pub open spec fn le_u32(b: Seq<u8>) -> u32
    recommends
        b.len() == 4,
{
    (b[0] as int + 0x100 * (b[1] as int) + 0x1_0000 * (b[2] as int) + 0x100_0000 * (
    b[3] as int)) as u32
}

/// The four bytes of a number, least significant first.
pub open spec fn le_bytes(x: u32) -> Seq<u8> {
    seq![
        (x % 0x100) as u8,
        (x / 0x100 % 0x100) as u8,
        (x / 0x1_0000 % 0x100) as u8,
        (x / 0x100_0000) as u8,
    ]
}

/// `s` with `part` laid over it from index `at` on.
pub open spec fn overwrite(s: Seq<u8>, at: int, part: Seq<u8>) -> Seq<u8>
    recommends
        0 <= at,
        at + part.len() <= s.len(),
{
    Seq::new(s.len(), |i: int| if at <= i < at + part.len() { part[i - at] } else { s[i] })
}

/// Reading back what [`le_bytes`] wrote gives the number again.
pub proof fn lemma_le_u32_of_le_bytes(x: u32)
    ensures
        le_bytes(x).len() == 4,
        le_u32(le_bytes(x)) == x,
{
}

/// Writing out what [`le_u32`] read gives the four bytes again.
pub proof fn lemma_le_bytes_of_le_u32(b: Seq<u8>)
    requires
        b.len() == 4,
    ensures
        le_bytes(le_u32(b)) == b,
{
    let b0 = b[0] as int;
    let b1 = b[1] as int;
    let b2 = b[2] as int;
    let b3 = b[3] as int;
    let q1 = b1 + 0x100 * b2 + 0x1_0000 * b3;
    let q2 = b2 + 0x100 * b3;
    assert(q2 % 0x100 == b2);
    assert(q1 % 0x100 == b1);
}

/// Calls `scroll::Pread::pread_with::<u32>` on a byte slice with `scroll::LE`.
///
/// Claimed of it: the read succeeds exactly when four bytes lie at `offset`,
/// and then yields their little-endian value.
#[verifier::external_body]
fn pread_u32_le(src: &[u8], offset: usize) -> (r: Result<u32, scroll::Error>)
    ensures
        r is Ok <==> offset + 4 <= src@.len(),
        r matches Ok(v) ==> v == le_u32(src@.subrange(offset as int, offset + 4)),
{
    src.pread_with::<u32>(offset, scroll::LE)
}

/// Calls `scroll::Pwrite::pwrite_with::<u32>` on the bytes of a vector with
/// `scroll::LE`.
///
/// Claimed of it: the write succeeds exactly when four bytes lie at `offset`;
/// it then replaces them by the little-endian bytes of `value` and returns 4;
/// a failed write leaves the bytes as they were.
#[verifier::external_body]
fn pwrite_u32_le(dst: &mut Vec<u8>, value: u32, offset: usize) -> (r: Result<usize, scroll::Error>)
    ensures
        r is Ok <==> offset + 4 <= old(dst)@.len(),
        r matches Ok(n) ==> n == 4 && final(dst)@ == overwrite(
            old(dst)@,
            offset as int,
            le_bytes(value),
        ),
        r is Err ==> final(dst)@ == old(dst)@,
{
    dst.pwrite_with::<u32>(value, offset, scroll::LE)
}

/// Reads the little-endian `u32` at `offset`.
pub(crate) fn read_u32_le(src: &[u8], offset: usize) -> (r: Result<u32, DecodeError>)
    ensures
        r == if offset + 4 <= src@.len() {
            Ok::<u32, DecodeError>(le_u32(src@.subrange(offset as int, offset + 4)))
        } else {
            Err(DecodeError::Truncated)
        },
{
    match pread_u32_le(src, offset) {
        Ok(v) => Ok(v),
        Err(_) => Err(DecodeError::Truncated),
    }
}

/// Writes `value` in little-endian order over the four bytes at `offset`.
pub(crate) fn write_u32_le(dst: &mut Vec<u8>, offset: usize, value: u32)
    requires
        offset + 4 <= old(dst).len(),
    ensures
        final(dst)@ == overwrite(old(dst)@, offset as int, le_bytes(value)),
        final(dst).len() == old(dst).len(),
{
    let _ = pwrite_u32_le(dst, value, offset);
}

/// A vector of `len` zero bytes.
pub(crate) fn zeroed(len: usize) -> (v: Vec<u8>)
    ensures
        v@ == Seq::new(len as nat, |i: int| 0u8),
{
    let mut v: Vec<u8> = Vec::new();
    let mut i: usize = 0;
    while i < len
        invariant
            i <= len,
            v@ == Seq::new(i as nat, |j: int| 0u8),
        decreases len - i,
    {
        v.push(0u8);
        i = i + 1;
    }
    v
}

} // verus!
