use vstd::prelude::*;

verus! {

/// Why a frame could not be decrypted.
#[derive(Debug, Clone, Copy, PartialEq, Eq, Structural)]
pub enum CypherError {
    /// The input, of the length held, ends before the nonce seed does.
    InputTooShortForIv(usize),
    /// The key, of the length held, is not 32 bytes long.
    InvalidKeyLength(usize),
    /// The cipher could not produce the keystream.
    CipherOperationFailed,
}

/// Why a frame could not be decoded.
#[derive(Debug, Clone, Copy, PartialEq, Eq, Structural)]
pub enum ParsePacketError {
    /// The plaintext opens with the value held, not with the protocol marker.
    InvalidMagicValue(u32),
    /// The plaintext, of the length held, ends before the layout does.
    ReadError(usize),
    /// The frame could not be decrypted.
    DecryptionError(CypherError),
}

} // verus!
