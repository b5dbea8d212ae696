//! Frame decryption: Salsa20 with a fixed key and a nonce that each frame
//! carries inside itself.
//!
//! The keystream comes from the `salsa20` crate and is trusted; deriving the
//! nonce and combining keystream and frame are verified here.

use crate::constants::PACKET_DECRYPTION_KEY;
use crate::errors::CypherError;
use crate::wire::{le_u32, read_u32_le, u32_le_bytes};
use salsa20::cipher::generic_array::GenericArray;
use salsa20::cipher::{KeyIvInit, StreamCipher};
use salsa20::Salsa20;
use vstd::prelude::*;
use vstd::slice::slice_subrange;

verus! {

/// Offset of the nonce seed within the encrypted frame.
pub const IV_OFFSET: usize = 64;

/// Width of the nonce seed in bytes.
pub const IV_SIZE: usize = 4;

/// Length of the cipher key in bytes.
pub const EXPECTED_KEY_LEN: usize = 32;

/// Length of the nonce in bytes.
pub const NONCE_LEN: usize = 8;

/// The protocol's salt for the first half of the nonce.
pub const IV_XOR_KEY: u32 = 0xDEAD_BEAF;

/// The first `len` bytes of the Salsa20/20 keystream for `key` and `nonce`,
/// or nothing where the cipher cannot produce that many.
pub uninterp spec fn salsa20_keystream(key: Seq<u8>, nonce: Seq<u8>, len: nat) -> Option<Seq<u8>>;

/// The seed that an encrypted frame carries at [`IV_OFFSET`].
pub open spec fn nonce_seed(data: Seq<u8>) -> u32
    recommends
        data.len() >= IV_OFFSET + IV_SIZE,
{
    le_u32(data.subrange(IV_OFFSET as int, IV_OFFSET + IV_SIZE))
}

/// The nonce that belongs to `seed`: the salted seed, then the seed, each
/// little-endian.
pub open spec fn nonce_of_seed(seed: u32) -> Seq<u8> {
    u32_le_bytes(seed ^ IV_XOR_KEY) + u32_le_bytes(seed)
}

/// The nonce of an encrypted frame.
pub open spec fn frame_nonce(data: Seq<u8>) -> Seq<u8>
    recommends
        data.len() >= IV_OFFSET + IV_SIZE,
{
    nonce_of_seed(nonce_seed(data))
}

/// `data` with each byte combined by exclusive or with the byte of `stream`
/// at the same place.
pub open spec fn xor_bytes(data: Seq<u8>, stream: Seq<u8>) -> Seq<u8>
    recommends
        stream.len() >= data.len(),
{
    Seq::new(data.len(), |i: int| data[i] ^ stream[i])
}

/// What decryption makes of `data` once the cipher has answered with
/// `stream`.
pub open spec fn combine(data: Seq<u8>, stream: Option<Seq<u8>>) -> Result<Seq<u8>, CypherError> {
    match stream {
        Some(s) if s.len() == data.len() => Ok(xor_bytes(data, s)),
        _ => Err(CypherError::CipherOperationFailed),
    }
}

/// The plaintext of `data` under `key`, or the reason there is none.
pub open spec fn decrypted(data: Seq<u8>, key: Seq<u8>) -> Result<Seq<u8>, CypherError> {
    if data.len() < IV_OFFSET + IV_SIZE {
        Err(CypherError::InputTooShortForIv(data.len() as usize))
    } else if key.len() != EXPECTED_KEY_LEN {
        Err(CypherError::InvalidKeyLength(key.len() as usize))
    } else {
        combine(data, salsa20_keystream(key, frame_nonce(data), data.len()))
    }
}

/// Whether `outcome` is `expected`, contents compared by view.
pub open spec fn same_outcome(
    outcome: Result<Vec<u8>, CypherError>,
    expected: Result<Seq<u8>, CypherError>,
) -> bool {
    match outcome {
        Ok(bytes) => expected == Ok::<Seq<u8>, CypherError>(bytes@),
        Err(e) => expected == Err::<Seq<u8>, CypherError>(e),
    }
}

/// Runs `salsa20::Salsa20` (key and nonce through `KeyIvInit::new`, then
/// `StreamCipher::try_apply_keystream`) over `len` zero bytes, which leaves
/// the keystream itself in the buffer. The buffer keeps its length; the
/// cipher's refusal comes back as nothing. `GenericArray::from_slice`
/// panics on other lengths than the precondition admits.
#[verifier::external_body]
fn keystream(key: &[u8], nonce: &[u8], len: usize) -> (stream: Option<Vec<u8>>)
    requires
        key@.len() == EXPECTED_KEY_LEN,
        nonce@.len() == NONCE_LEN,
    ensures
        stream matches Some(s) ==> (s@.len() == len && salsa20_keystream(
            key@,
            nonce@,
            len as nat,
        ) == Some(s@)),
        stream is None ==> salsa20_keystream(key@, nonce@, len as nat) is None,
{
    let mut buffer = vec![0u8; len];
    let mut cipher = Salsa20::new(GenericArray::from_slice(key), GenericArray::from_slice(nonce));
    match cipher.try_apply_keystream(&mut buffer) {
        Ok(()) => Some(buffer),
        Err(_) => None,
    }
}

/// The four bytes of `value`, least significant first.
fn le_bytes_of(value: u32) -> (bytes: [u8; 4])
    ensures
        bytes@ == u32_le_bytes(value),
{
    let bytes = [
        (value & 0xff) as u8,
        ((value >> 8) & 0xff) as u8,
        ((value >> 16) & 0xff) as u8,
        ((value >> 24) & 0xff) as u8,
    ];
    assert(bytes@ =~= u32_le_bytes(value));
    bytes
}

/// Derives the nonce of an encrypted frame from the seed it carries, or
/// reports the frame's length where it ends before the seed does.
pub fn derive_nonce(data: &[u8]) -> (nonce: Result<[u8; 8], CypherError>)
    ensures
        data@.len() >= IV_OFFSET + IV_SIZE ==> (nonce matches Ok(n) && n@ == frame_nonce(data@)),
        data@.len() < IV_OFFSET + IV_SIZE ==> nonce == Err::<[u8; 8], CypherError>(
            CypherError::InputTooShortForIv(data.len()),
        ),
{
    if data.len() < IV_OFFSET + IV_SIZE {
        return Err(CypherError::InputTooShortForIv(data.len()));
    }
    let seed = read_u32_le(slice_subrange(data, IV_OFFSET, IV_OFFSET + IV_SIZE));
    let salted = le_bytes_of(seed ^ IV_XOR_KEY);
    let plain = le_bytes_of(seed);
    let nonce = [
        salted[0],
        salted[1],
        salted[2],
        salted[3],
        plain[0],
        plain[1],
        plain[2],
        plain[3],
    ];
    assert(nonce@ =~= frame_nonce(data@));
    Ok(nonce)
}

/// Combines a frame with the keystream the cipher gave for it. A missing
/// keystream, or one of another length than the frame, is a failed cipher
/// operation.
pub fn apply_keystream(data: &[u8], stream: Option<Vec<u8>>) -> (outcome: Result<
    Vec<u8>,
    CypherError,
>)
    ensures
        same_outcome(
            outcome,
            combine(
                data@,
                match stream {
                    Some(s) => Some(s@),
                    None => None,
                },
            ),
        ),
{
    let stream = match stream {
        Some(s) => s,
        None => {
            return Err(CypherError::CipherOperationFailed);
        },
    };
    if stream.len() != data.len() {
        return Err(CypherError::CipherOperationFailed);
    }
    let n = data.len();
    let mut out: Vec<u8> = Vec::with_capacity(n);
    let mut i: usize = 0;
    while i < n
        invariant
            i <= n,
            n == data@.len(),
            n == stream@.len(),
            out@.len() == i,
            forall|j: int| 0 <= j < i ==> out@[j] == data@[j] ^ stream@[j],
        decreases n - i,
    {
        out.push(data[i] ^ stream[i]);
        i += 1;
    }
    assert(out@ =~= xor_bytes(data@, stream@));
    Ok(out)
}

/// Decrypts `data` under `key`.
///
/// Fails with `InputTooShortForIv` on fewer than 68 bytes, else with
/// `InvalidKeyLength` on a key of other than 32 bytes, else with
/// `CipherOperationFailed` where the cipher gives no keystream. Otherwise
/// the plaintext has the length of `data` and is `data` combined with the
/// keystream for `key` and the frame's nonce, the seed bytes included.
pub fn decrypt_with_key(data: &[u8], key: &[u8]) -> (outcome: Result<Vec<u8>, CypherError>)
    ensures
        same_outcome(outcome, decrypted(data@, key@)),
        data@.len() < IV_OFFSET + IV_SIZE ==> outcome == Err::<Vec<u8>, CypherError>(
            CypherError::InputTooShortForIv(data.len()),
        ),
        outcome matches Ok(plain) ==> plain@.len() == data@.len(),
{
    let nonce = match derive_nonce(data) {
        Ok(nonce) => nonce,
        Err(e) => {
            return Err(e);
        },
    };
    if key.len() != EXPECTED_KEY_LEN {
        return Err(CypherError::InvalidKeyLength(key.len()));
    }
    let stream = keystream(key, nonce.as_slice(), data.len());
    apply_keystream(data, stream)
}

/// Combining twice with one keystream gives the bytes back.
pub proof fn lemma_xor_twice(data: Seq<u8>, stream: Seq<u8>)
    ensures
        xor_bytes(data, stream).len() == data.len(),
        xor_bytes(xor_bytes(data, stream), stream) == data,
{
    let once = xor_bytes(data, stream);
    let twice = xor_bytes(once, stream);
    assert forall|i: int| 0 <= i < data.len() implies twice[i] == data[i] by {
        let d = data[i];
        let s = stream[i];
        assert((d ^ s) ^ s == d) by (bit_vector);
    }
    assert(twice =~= data);
}

/// Decryption is its own inverse: where a frame decrypts under a key, the
/// plaintext combined again with the keystream for that key and the nonce
/// of the original frame is the original frame, byte for byte.
pub proof fn lemma_decrypt_self_inverse(data: Seq<u8>, key: Seq<u8>)
    ensures
        decrypted(data, key) matches Ok(plain) ==> {
            &&& plain.len() == data.len()
            &&& key.len() == EXPECTED_KEY_LEN
            &&& combine(plain, salsa20_keystream(key, frame_nonce(data), plain.len())) == Ok::<
                Seq<u8>,
                CypherError,
            >(data)
        },
{
    if let Ok(plain) = decrypted(data, key) {
        let stream = salsa20_keystream(key, frame_nonce(data), data.len());
        assert(stream is Some);
        lemma_xor_twice(data, stream->0);
    }
}

/// The cipher key: the first 32 bytes of the key phrase.
pub open spec fn fixed_key() -> Seq<u8> {
    PACKET_DECRYPTION_KEY@.subrange(0, EXPECTED_KEY_LEN as int)
}

/// Decrypts `data` under the simulator interface's fixed key.
pub fn decrypt(data: &[u8]) -> (outcome: Result<Vec<u8>, CypherError>)
    ensures
        same_outcome(outcome, decrypted(data@, fixed_key())),
{
    let phrase = PACKET_DECRYPTION_KEY;
    let key = slice_subrange(phrase.as_slice(), 0, EXPECTED_KEY_LEN);
    decrypt_with_key(data, key)
}

} // verus!
