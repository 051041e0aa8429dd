//! Keys as text: Base58 through `bs58`, fixed-width key fields through
//! `bytemuck`.

use vstd::prelude::*;
use vstd::slice::slice_subrange;

verus! {

/// Width of a key, in bytes.
pub const KEY_BYTES: usize = 32;

/// The Base58 text (Bitcoin alphabet, no checksum) of a byte string.
pub uninterp spec fn base58_text(bytes: Seq<u8>) -> Seq<char>;

/// `bs58::encode(bytes).into_string()`: the Base58 text of `bytes` in the
/// default alphabet. The encoder is deterministic and cannot fail when it
/// writes into a fresh `String`; the text itself is not spelled out here,
/// only named.
#[verifier::external_body]
pub(crate) fn base58(bytes: &[u8]) -> (r: String)
    ensures
        r@ == base58_text(bytes@),
{
    bs58::encode(bytes).into_string()
}

/// `bytemuck::from_bytes::<[u8; 32]>`: reinterprets a slice of exactly 32
/// bytes as a 32-byte array, byte for byte. The call panics on any other
/// length, which the precondition excludes; a byte array has alignment 1, so
/// the alignment check cannot fail.
#[verifier::external_body]
fn key_from_bytes(bytes: &[u8]) -> (r: &[u8; 32])
    requires
        bytes@.len() == 32,
    ensures
        r@ == bytes@,
{
    bytemuck::from_bytes::<[u8; 32]>(bytes)
}

/// The key stored in `data` at `offset`, if the data reaches that far.
pub fn read_key(data: &[u8], offset: usize) -> (r: Option<[u8; 32]>)
    ensures
        r is Some <==> offset + KEY_BYTES <= data@.len(),
        r matches Some(key) ==> key@ == data@.subrange(offset as int, offset + KEY_BYTES),
{
    let len: usize = data.len();
    if len < KEY_BYTES || offset > len - KEY_BYTES {
        return None;
    }
    let end: usize = offset + KEY_BYTES;
    let field = slice_subrange(data, offset, end);
    let key = key_from_bytes(field);
    Some(*key)
}

/// Whether two byte strings are equal.
pub fn bytes_equal(a: &[u8], b: &[u8]) -> (r: bool)
    ensures
        r == (a@ == b@),
{
    if a.len() != b.len() {
        return false;
    }
    let mut i: usize = 0;
    while i < a.len()
        invariant
            a@.len() == b@.len(),
            i <= a@.len(),
            forall|k: int| 0 <= k < i ==> a@[k] == b@[k],
        decreases a@.len() - i,
    {
        if a[i] != b[i] {
            return false;
        }
        i += 1;
    }
    assert(a@ =~= b@);
    true
}

} // verus!
