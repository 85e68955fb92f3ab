//! The cryptographic primitives, random numbers and clock that the library
//! takes from other crates.
//!
//! Nothing in this file is proved. Each function states what the crate behind
//! it documents; where the result is a function of the arguments that takes
//! pages to write down, it is given a name, and the rest of the library
//! reasons about that name.

use crate::codec::be16;
use aes::cipher::block_padding::NoPadding;
use aes::cipher::generic_array::GenericArray;
use aes::cipher::{BlockDecryptMut, BlockEncrypt, BlockEncryptMut, KeyInit, KeyIvInit};
use byteorder::ByteOrder;
use ccm::aead::Aead;
use ccm::consts::{U13, U16};
use rand_os::rand_core::RngCore;
use ring::signature::KeyPair;
use subtle::ConstantTimeEq;
use vstd::prelude::*;

verus! {

/// Width of an AES block, and of an AES-128 key, in bytes.
pub const AES_BLOCK_SIZE: usize = 16;

/// Width of a SHA-256 digest, and of an HMAC-SHA256 tag, in bytes.
pub const SHA256_SIZE: usize = 32;

/// Width of an Ed25519 seed and of an Ed25519 public key, in bytes.
pub const ED25519_KEY_SIZE: usize = 32;

/// Width of an Ed25519 signature in bytes.
pub const ED25519_SIGNATURE_SIZE: usize = 64;

/// Width of the nonce of a wrapped message in bytes.
pub const WRAP_NONCE_SIZE: usize = 13;

/// Width of the tag that AES-CCM appends to a wrapped message.
pub const WRAP_TAG_SIZE: usize = 16;

/// Number of characters of a UUID in its hyphenated form.
pub const UUID_SIZE: usize = 36;

/// AES-CMAC of `msg` under the 128-bit key `key`.
pub uninterp spec fn aes128_cmac(key: Seq<u8>, msg: Seq<u8>) -> Seq<u8>;

/// The AES-128 encryption of the single block `block` under `key`.
pub uninterp spec fn aes128_block(key: Seq<u8>, block: Seq<u8>) -> Seq<u8>;

/// AES-128 in CBC mode, without padding: the encryption of `data`.
pub uninterp spec fn aes128_cbc_encrypt(key: Seq<u8>, iv: Seq<u8>, data: Seq<u8>) -> Seq<u8>;

/// AES-128 in CBC mode, without padding: the decryption of `data`.
pub uninterp spec fn aes128_cbc_decrypt(key: Seq<u8>, iv: Seq<u8>, data: Seq<u8>) -> Seq<u8>;

/// AES-128 in CCM mode with a nonce of 13 bytes and a tag of 16 bytes: the
/// ciphertext of `msg` with its tag appended, or `None` where `msg` is too
/// long to seal.
pub uninterp spec fn aes128_ccm_seal(key: Seq<u8>, nonce: Seq<u8>, msg: Seq<u8>) -> Option<Seq<u8>>;

/// AES-128 in CCM mode with a nonce of 13 bytes and a tag of 16 bytes: the
/// plaintext of `sealed`, or `None` where its tag does not verify.
pub uninterp spec fn aes128_ccm_open(key: Seq<u8>, nonce: Seq<u8>, sealed: Seq<u8>) -> Option<
    Seq<u8>,
>;

/// AES-192 in CCM mode with a nonce of 13 bytes and a tag of 16 bytes: the
/// ciphertext of `msg` with its tag appended, or `None` where `msg` is too
/// long to seal.
pub uninterp spec fn aes192_ccm_seal(key: Seq<u8>, nonce: Seq<u8>, msg: Seq<u8>) -> Option<Seq<u8>>;

/// AES-192 in CCM mode with a nonce of 13 bytes and a tag of 16 bytes: the
/// plaintext of `sealed`, or `None` where its tag does not verify.
pub uninterp spec fn aes192_ccm_open(key: Seq<u8>, nonce: Seq<u8>, sealed: Seq<u8>) -> Option<
    Seq<u8>,
>;

/// AES-256 in CCM mode with a nonce of 13 bytes and a tag of 16 bytes: the
/// ciphertext of `msg` with its tag appended, or `None` where `msg` is too
/// long to seal.
pub uninterp spec fn aes256_ccm_seal(key: Seq<u8>, nonce: Seq<u8>, msg: Seq<u8>) -> Option<Seq<u8>>;

/// AES-256 in CCM mode with a nonce of 13 bytes and a tag of 16 bytes: the
/// plaintext of `sealed`, or `None` where its tag does not verify.
pub uninterp spec fn aes256_ccm_open(key: Seq<u8>, nonce: Seq<u8>, sealed: Seq<u8>) -> Option<
    Seq<u8>,
>;

/// HMAC-SHA256 of `msg` under `key`.
pub uninterp spec fn hmac_sha256(key: Seq<u8>, msg: Seq<u8>) -> Seq<u8>;

/// The SHA-256 digest of `data`.
pub uninterp spec fn sha256(data: Seq<u8>) -> Seq<u8>;

/// PBKDF2 with HMAC-SHA256: `len` bytes derived from `password` and `salt` in
/// `rounds` iterations.
pub uninterp spec fn pbkdf2_hmac_sha256(
    password: Seq<u8>,
    salt: Seq<u8>,
    rounds: usize,
    len: usize,
) -> Seq<u8>;

/// The Ed25519 signature of `msg` under the key pair that `seed` expands to.
pub uninterp spec fn ed25519_signature(seed: Seq<u8>, msg: Seq<u8>) -> Seq<u8>;

/// The Ed25519 public key of the key pair that `seed` expands to.
pub uninterp spec fn ed25519_public(seed: Seq<u8>) -> Seq<u8>;

/// Compares two byte strings with `subtle::ConstantTimeEq::ct_eq`, which
/// answers at once where the lengths differ and otherwise looks at every byte
/// whatever it finds: the result says whether the strings are equal.
#[verifier::external_body]
pub(crate) fn ct_eq(a: &[u8], b: &[u8]) -> (r: bool)
    ensures
        r == (a@ == b@),
{
    a.ct_eq(b).into()
}

/// Computes AES-CMAC with `cmac::Cmac<aes::Aes128>`. The key must have 16
/// bytes; the tag has 16.
#[verifier::external_body]
pub(crate) fn cmac_aes128(key: &[u8], msg: &[u8]) -> (tag: Vec<u8>)
    requires
        key@.len() == AES_BLOCK_SIZE,
    ensures
        tag@ == aes128_cmac(key@, msg@),
        tag@.len() == AES_BLOCK_SIZE,
{
    let mut mac = <cmac::Cmac<aes::Aes128> as cmac::Mac>::new_from_slice(key).unwrap();
    cmac::Mac::update(&mut mac, msg);
    cmac::Mac::finalize(mac).into_bytes().to_vec()
}

/// Encrypts one block with `aes::Aes128::encrypt_block`. Key and block must
/// have 16 bytes each; so has the result.
#[verifier::external_body]
pub(crate) fn aes128_encrypt_block(key: &[u8], block: &[u8]) -> (out: Vec<u8>)
    requires
        key@.len() == AES_BLOCK_SIZE,
        block@.len() == AES_BLOCK_SIZE,
    ensures
        out@ == aes128_block(key@, block@),
        out@.len() == AES_BLOCK_SIZE,
{
    let cipher = aes::Aes128::new_from_slice(key).unwrap();
    let mut buffer = GenericArray::clone_from_slice(block);
    cipher.encrypt_block(&mut buffer);
    buffer.to_vec()
}

/// Encrypts whole blocks with `cbc::Encryptor<aes::Aes128>` and no padding.
/// Key and IV must have 16 bytes each and the data a multiple of 16; the
/// result is as long as the data.
#[verifier::external_body]
pub(crate) fn cbc_encrypt(key: &[u8], iv: &[u8], data: &[u8]) -> (out: Vec<u8>)
    requires
        key@.len() == AES_BLOCK_SIZE,
        iv@.len() == AES_BLOCK_SIZE,
        data@.len() % 16 == 0,
    ensures
        out@ == aes128_cbc_encrypt(key@, iv@, data@),
        out@.len() == data@.len(),
{
    let mut buffer = data.to_vec();
    let len = buffer.len();
    let cipher = cbc::Encryptor::<aes::Aes128>::new_from_slices(key, iv).unwrap();
    cipher.encrypt_padded_mut::<NoPadding>(&mut buffer, len).unwrap();
    buffer
}

/// Decrypts whole blocks with `cbc::Decryptor<aes::Aes128>` and no padding.
/// Key and IV must have 16 bytes each and the data a multiple of 16; the
/// result is as long as the data.
#[verifier::external_body]
pub(crate) fn cbc_decrypt(key: &[u8], iv: &[u8], data: &[u8]) -> (out: Vec<u8>)
    requires
        key@.len() == AES_BLOCK_SIZE,
        iv@.len() == AES_BLOCK_SIZE,
        data@.len() % 16 == 0,
    ensures
        out@ == aes128_cbc_decrypt(key@, iv@, data@),
        out@.len() == data@.len(),
{
    let mut buffer = data.to_vec();
    let cipher = cbc::Decryptor::<aes::Aes128>::new_from_slices(key, iv).unwrap();
    cipher.decrypt_padded_mut::<NoPadding>(&mut buffer).unwrap();
    buffer
}

/// Seals with `ccm::Ccm<aes::Aes128, U16, U13>`: key of 16 bytes, nonce of 13.
/// The crate refuses a message that is too long for the nonce's width; what it
/// returns otherwise is the message's length and 16 bytes more.
#[verifier::external_body]
pub(crate) fn ccm128_seal(key: &[u8], nonce: &[u8], msg: &[u8]) -> (r: Option<Vec<u8>>)
    requires
        key@.len() == 16,
        nonce@.len() == WRAP_NONCE_SIZE,
    ensures
        r is Some == aes128_ccm_seal(key@, nonce@, msg@) is Some,
        r matches Some(c) ==> aes128_ccm_seal(key@, nonce@, msg@) == Some(c@) && c@.len()
            == msg@.len() + WRAP_TAG_SIZE,
{
    let cipher = ccm::Ccm::<aes::Aes128, U16, U13>::new_from_slice(key).unwrap();
    cipher.encrypt(GenericArray::from_slice(nonce), msg).ok()
}

/// Seals with `ccm::Ccm<aes::Aes192, U16, U13>`: key of 24 bytes, nonce of 13.
#[verifier::external_body]
pub(crate) fn ccm192_seal(key: &[u8], nonce: &[u8], msg: &[u8]) -> (r: Option<Vec<u8>>)
    requires
        key@.len() == 24,
        nonce@.len() == WRAP_NONCE_SIZE,
    ensures
        r is Some == aes192_ccm_seal(key@, nonce@, msg@) is Some,
        r matches Some(c) ==> aes192_ccm_seal(key@, nonce@, msg@) == Some(c@) && c@.len()
            == msg@.len() + WRAP_TAG_SIZE,
{
    let cipher = ccm::Ccm::<aes::Aes192, U16, U13>::new_from_slice(key).unwrap();
    cipher.encrypt(GenericArray::from_slice(nonce), msg).ok()
}

/// Seals with `ccm::Ccm<aes::Aes256, U16, U13>`: key of 32 bytes, nonce of 13.
#[verifier::external_body]
pub(crate) fn ccm256_seal(key: &[u8], nonce: &[u8], msg: &[u8]) -> (r: Option<Vec<u8>>)
    requires
        key@.len() == 32,
        nonce@.len() == WRAP_NONCE_SIZE,
    ensures
        r is Some == aes256_ccm_seal(key@, nonce@, msg@) is Some,
        r matches Some(c) ==> aes256_ccm_seal(key@, nonce@, msg@) == Some(c@) && c@.len()
            == msg@.len() + WRAP_TAG_SIZE,
{
    let cipher = ccm::Ccm::<aes::Aes256, U16, U13>::new_from_slice(key).unwrap();
    cipher.encrypt(GenericArray::from_slice(nonce), msg).ok()
}

/// Opens with `ccm::Ccm<aes::Aes128, U16, U13>`: key of 16 bytes, nonce of 13.
/// The crate refuses input shorter than a tag and input whose tag does not
/// verify; what it returns otherwise is 16 bytes shorter than the input.
#[verifier::external_body]
pub(crate) fn ccm128_open(key: &[u8], nonce: &[u8], sealed: &[u8]) -> (r: Option<Vec<u8>>)
    requires
        key@.len() == 16,
        nonce@.len() == WRAP_NONCE_SIZE,
    ensures
        r is Some == aes128_ccm_open(key@, nonce@, sealed@) is Some,
        r matches Some(p) ==> aes128_ccm_open(key@, nonce@, sealed@) == Some(p@) && p@.len()
            + WRAP_TAG_SIZE == sealed@.len(),
{
    let cipher = ccm::Ccm::<aes::Aes128, U16, U13>::new_from_slice(key).unwrap();
    cipher.decrypt(GenericArray::from_slice(nonce), sealed).ok()
}

/// Opens with `ccm::Ccm<aes::Aes192, U16, U13>`: key of 24 bytes, nonce of 13.
#[verifier::external_body]
pub(crate) fn ccm192_open(key: &[u8], nonce: &[u8], sealed: &[u8]) -> (r: Option<Vec<u8>>)
    requires
        key@.len() == 24,
        nonce@.len() == WRAP_NONCE_SIZE,
    ensures
        r is Some == aes192_ccm_open(key@, nonce@, sealed@) is Some,
        r matches Some(p) ==> aes192_ccm_open(key@, nonce@, sealed@) == Some(p@) && p@.len()
            + WRAP_TAG_SIZE == sealed@.len(),
{
    let cipher = ccm::Ccm::<aes::Aes192, U16, U13>::new_from_slice(key).unwrap();
    cipher.decrypt(GenericArray::from_slice(nonce), sealed).ok()
}

/// Opens with `ccm::Ccm<aes::Aes256, U16, U13>`: key of 32 bytes, nonce of 13.
#[verifier::external_body]
pub(crate) fn ccm256_open(key: &[u8], nonce: &[u8], sealed: &[u8]) -> (r: Option<Vec<u8>>)
    requires
        key@.len() == 32,
        nonce@.len() == WRAP_NONCE_SIZE,
    ensures
        r is Some == aes256_ccm_open(key@, nonce@, sealed@) is Some,
        r matches Some(p) ==> aes256_ccm_open(key@, nonce@, sealed@) == Some(p@) && p@.len()
            + WRAP_TAG_SIZE == sealed@.len(),
{
    let cipher = ccm::Ccm::<aes::Aes256, U16, U13>::new_from_slice(key).unwrap();
    cipher.decrypt(GenericArray::from_slice(nonce), sealed).ok()
}

/// Computes HMAC-SHA256 with `hmac::Hmac<sha2::Sha256>`, which takes a key of
/// any length. The tag has 32 bytes.
#[verifier::external_body]
pub(crate) fn hmac_sha256_tag(key: &[u8], msg: &[u8]) -> (tag: Vec<u8>)
    ensures
        tag@ == hmac_sha256(key@, msg@),
        tag@.len() == SHA256_SIZE,
{
    let mut mac = <hmac::Hmac<sha2::Sha256> as hmac::Mac>::new_varkey(key).unwrap();
    hmac::Mac::input(&mut mac, msg);
    hmac::Mac::result(mac).code().to_vec()
}

/// Hashes with `sha2::Sha256`. The digest has 32 bytes.
#[verifier::external_body]
pub(crate) fn sha256_digest(data: &[u8]) -> (digest: Vec<u8>)
    ensures
        digest@ == sha256(data@),
        digest@.len() == SHA256_SIZE,
{
    <sha2::Sha256 as sha2::Digest>::digest(data).to_vec()
}

/// Derives `len` bytes with `pbkdf2::pbkdf2` over `hmac::Hmac<sha2::Sha256>`.
#[verifier::external_body]
pub(crate) fn pbkdf2_derive(password: &[u8], salt: &[u8], rounds: usize, len: usize) -> (out: Vec<
    u8,
>)
    ensures
        out@ == pbkdf2_hmac_sha256(password@, salt@, rounds, len),
        out@.len() == len,
{
    let mut out = vec![0u8; len];
    pbkdf2::pbkdf2::<hmac::Hmac<sha2::Sha256>>(password, salt, rounds, &mut out);
    out
}

/// Signs with `ring::signature::Ed25519KeyPair`, made from the seed alone. The
/// seed must have 32 bytes; the signature has 64.
#[verifier::external_body]
pub(crate) fn ed25519_sign(seed: &[u8], msg: &[u8]) -> (signature: Vec<u8>)
    requires
        seed@.len() == ED25519_KEY_SIZE,
    ensures
        signature@ == ed25519_signature(seed@, msg@),
        signature@.len() == ED25519_SIGNATURE_SIZE,
{
    let pair = ring::signature::Ed25519KeyPair::from_seed_unchecked(seed).unwrap();
    pair.sign(msg).as_ref().to_vec()
}

/// The public key of the `ring::signature::Ed25519KeyPair` made from the
/// seed alone. The seed must have 32 bytes; so has the public key.
#[verifier::external_body]
pub(crate) fn ed25519_public_key(seed: &[u8]) -> (public: Vec<u8>)
    requires
        seed@.len() == ED25519_KEY_SIZE,
    ensures
        public@ == ed25519_public(seed@),
        public@.len() == ED25519_KEY_SIZE,
{
    let pair = ring::signature::Ed25519KeyPair::from_seed_unchecked(seed).unwrap();
    pair.public_key().as_ref().to_vec()
}

/// Draws `n` bytes from the operating system with `rand_os::OsRng`; `None`
/// where the system's generator fails. Nothing is known of the bytes but
/// their number.
#[verifier::external_body]
pub(crate) fn random_bytes(n: usize) -> (r: Option<Vec<u8>>)
    ensures
        r matches Some(bytes) ==> bytes@.len() == n,
{
    let mut bytes = vec![0u8; n];
    match rand_os::OsRng::new() {
        Ok(mut generator) => match generator.try_fill_bytes(&mut bytes) {
            Ok(()) => Some(bytes),
            Err(_) => None,
        },
        Err(_) => None,
    }
}

/// A fresh random UUID from `uuid::Uuid::new_v4`, in its hyphenated form as
/// ASCII bytes. Nothing is known of it but its length of 36 characters.
#[verifier::external_body]
pub(crate) fn random_uuid() -> (text: Vec<u8>)
    ensures
        text@.len() == UUID_SIZE,
{
    uuid::Uuid::new_v4().to_hyphenated().to_string().into_bytes()
}

/// Writes `x` high byte first with `byteorder::BigEndian::write_u16`.
#[verifier::external_body]
pub(crate) fn write_u16_be(x: u16) -> (out: Vec<u8>)
    ensures
        out@ == be16(x),
{
    let mut buffer = [0u8; 2];
    byteorder::BigEndian::write_u16(&mut buffer, x);
    buffer.to_vec()
}

/// A point on the machine's monotonic clock.
#[verifier::external_type_specification]
#[verifier::external_body]
pub struct ExInstant(std::time::Instant);

/// Reads the clock with `std::time::Instant::now`.
#[verifier::external_body]
pub(crate) fn clock_now() -> std::time::Instant {
    std::time::Instant::now()
}

/// The time that has passed since `start`, by `std::time::Instant::elapsed`.
#[verifier::external_body]
pub(crate) fn clock_elapsed(start: &std::time::Instant) -> std::time::Duration {
    start.elapsed()
}

/// The whole nanoseconds of a duration, by `std::time::Duration::as_nanos`.
#[verifier::external_body]
pub(crate) fn duration_nanos(d: &std::time::Duration) -> u128 {
    d.as_nanos()
}

} // verus!
