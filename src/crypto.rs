//! The cryptographic primitives that frames are checked with.
//!
//! Each primitive is computed by an outside crate. Its result is a function
//! of its arguments alone, and it is given a name here; the frame codec
//! states its contracts over these names.
use aes::Aes128;
use aes_gcm::aead::Aead;
use aes_gcm::{Aes128Gcm, KeyInit};
use cmac::Cmac;
use hmac::{Hmac, Mac};
use sha2::Sha256;
use vstd::prelude::*;

verus! {

/// CRC-32 (IEEE 802.3 polynomial) of a byte sequence.
pub uninterp spec fn crc32_of(data: Seq<u8>) -> u32;

/// CMAC-AES-128 tag of `data` under `key`.
pub uninterp spec fn cmac_aes128_of(key: Seq<u8>, data: Seq<u8>) -> Seq<u8>;

/// HMAC-SHA256 tag of `data` under `key`.
pub uninterp spec fn hmac_sha256_of(key: Seq<u8>, data: Seq<u8>) -> Seq<u8>;

/// AES-128-GCM opening of `sealed` (ciphertext followed by its 16-byte tag)
/// under `key` and `nonce`, with no associated data: the plaintext, or
/// nothing when the tag does not authenticate.
pub uninterp spec fn aes128_gcm_open(key: Seq<u8>, nonce: Seq<u8>, sealed: Seq<u8>) -> Option<
    Seq<u8>,
>;

/// Relies on `crc32fast::hash`: the CRC-32 checksum of `data`.
#[verifier::external_body]
pub(crate) fn crc32(data: &[u8]) -> (r: u32)
    ensures
        r == crc32_of(data@),
{
    crc32fast::hash(data)
}

/// Relies on `cmac::Cmac<aes::Aes128>`: the 16-byte CMAC tag of `data`.
#[verifier::external_body]
pub(crate) fn cmac_aes128(key: &[u8; 16], data: &[u8]) -> (r: Vec<u8>)
    ensures
        r@ == cmac_aes128_of(key@, data@),
        r@.len() == 16,
{
    let mut mac = <Cmac<Aes128> as KeyInit>::new(key.into());
    mac.update(data);
    mac.finalize().into_bytes().to_vec()
}

/// Relies on `hmac::Hmac<sha2::Sha256>`: the 32-byte HMAC tag of `data`.
/// `new_from_slice` accepts a key of any length and never returns `Err`.
#[verifier::external_body]
pub(crate) fn hmac_sha256(key: &[u8; 32], data: &[u8]) -> (r: Vec<u8>)
    ensures
        r@ == hmac_sha256_of(key@, data@),
        r@.len() == 32,
{
    match <Hmac<Sha256> as Mac>::new_from_slice(key) {
        Ok(mut mac) => {
            mac.update(data);
            mac.finalize().into_bytes().to_vec()
        },
        Err(_) => Vec::new(),
    }
}

/// Relies on `aes_gcm::Aes128Gcm::decrypt`: the plaintext, or `None` when
/// the tag at the end of `sealed` does not authenticate it.
#[verifier::external_body]
pub(crate) fn aes128_gcm_decrypt(key: &[u8; 16], nonce: &[u8], sealed: &[u8]) -> (r: Option<
    Vec<u8>,
>)
    requires
        nonce@.len() == 12,
    ensures
        match r {
            Some(p) => aes128_gcm_open(key@, nonce@, sealed@) == Some(p@),
            None => aes128_gcm_open(key@, nonce@, sealed@) is None,
        },
{
    let cipher = Aes128Gcm::new(key.into());
    cipher.decrypt(aes_gcm::Nonce::from_slice(nonce), sealed).ok()
}

} // verus!
