//! The building blocks of the secure channel: the static authentication key,
//! the key derivation function, padding and the counter block.
//!
//! The channel is a subset of GlobalPlatform's SCP03 over AES-128. Session
//! keys and cryptograms come out of a CMAC-based key derivation function in
//! counter mode over a labelled context; messages are padded by ISO/IEC 7816-4
//! before they are encrypted.

use crate::codec::{be16, be32, put_bytes, put_u16, put_u32, put_u8, read_bytes};
use crate::crypto::{aes128_block, aes128_cmac, aes128_encrypt_block, cmac_aes128, pbkdf2_derive,
    pbkdf2_hmac_sha256, AES_BLOCK_SIZE};
use vstd::prelude::*;

verus! {

/// Width of a static authentication key: an encryption key and a MAC key of
/// 16 bytes each.
pub const AUTHENTICATION_KEY_SIZE: usize = 32;

/// Width of a challenge in bytes.
pub const CHALLENGE_SIZE: usize = 8;

/// Width of a cryptogram in bytes.
pub const CRYPTOGRAM_SIZE: usize = 8;

/// Number of PBKDF2 iterations that turn a password into a key.
pub const PBKDF2_ITERATIONS: usize = 10000;

/// Derivation constant of the card cryptogram.
pub const DERIVE_CARD_CRYPTOGRAM: u8 = 0x00;

/// Derivation constant of the host cryptogram.
pub const DERIVE_HOST_CRYPTOGRAM: u8 = 0x01;

/// Derivation constant of the session encryption key.
pub const DERIVE_ENC_KEY: u8 = 0x04;

/// Derivation constant of the session key that authenticates commands.
pub const DERIVE_MAC_KEY: u8 = 0x06;

/// Derivation constant of the session key that authenticates responses.
pub const DERIVE_RMAC_KEY: u8 = 0x07;

/// `n` zero bytes.
pub open spec fn zeros(n: nat) -> Seq<u8> {
    Seq::new(n, |i: int| 0u8)
}

/// A buffer of `n` zero bytes.
pub fn zero_bytes(n: usize) -> (out: Vec<u8>)
    ensures
        out@ == zeros(n as nat),
{
    let mut out: Vec<u8> = Vec::new();
    let mut i: usize = 0;
    while i < n
        invariant
            i <= n,
            out@ == zeros(i as nat),
        decreases n - i,
    {
        out.push(0u8);
        i += 1;
        assert(out@ =~= zeros(i as nat));
    }
    out
}

/// The salt of the password derivation: the ASCII text `Yubico`.
pub open spec fn password_salt() -> Seq<u8> {
    seq![0x59u8, 0x75u8, 0x62u8, 0x69u8, 0x63u8, 0x6fu8]
}

/// The static key that a host and the device share. Its first half encrypts,
/// its second half authenticates.
pub struct AuthenticationKey {
    /// The 32 bytes of the key.
    pub bytes: Vec<u8>,
}

impl View for AuthenticationKey {
    type V = Seq<u8>;

    open spec fn view(&self) -> Seq<u8> {
        self.bytes@
    }
}

impl AuthenticationKey {
    /// A key has exactly 32 bytes.
    pub open spec fn wf(&self) -> bool {
        self@.len() == AUTHENTICATION_KEY_SIZE
    }

    /// The half that session encryption keys are derived from.
    pub open spec fn enc_key(&self) -> Seq<u8> {
        self@.subrange(0, 16)
    }

    /// The half that session MAC keys are derived from.
    pub open spec fn mac_key(&self) -> Seq<u8> {
        self@.subrange(16, 32)
    }

    /// The key made of the given bytes; `None` unless there are exactly 32.
    pub fn from_slice(bytes: &[u8]) -> (r: Option<AuthenticationKey>)
        ensures
            r is Some <==> bytes@.len() == AUTHENTICATION_KEY_SIZE,
            r matches Some(k) ==> k.wf() && k@ == bytes@,
    {
        if bytes.len() == AUTHENTICATION_KEY_SIZE {
            let copy = read_bytes(bytes, 0, bytes.len());
            assert(copy@ =~= bytes@);
            Some(AuthenticationKey { bytes: copy })
        } else {
            None
        }
    }

    /// The key that a password stands for: 32 bytes of PBKDF2 with
    /// HMAC-SHA256, the salt `Yubico` and 10000 iterations.
    pub fn derive_from_password(password: &[u8]) -> (k: AuthenticationKey)
        ensures
            k.wf(),
            k@ == pbkdf2_hmac_sha256(
                password@,
                password_salt(),
                PBKDF2_ITERATIONS,
                AUTHENTICATION_KEY_SIZE,
            ),
    {
        let mut salt: Vec<u8> = Vec::new();
        salt.push(0x59);
        salt.push(0x75);
        salt.push(0x62);
        salt.push(0x69);
        salt.push(0x63);
        salt.push(0x6f);
        assert(salt@ =~= password_salt());
        AuthenticationKey {
            bytes: pbkdf2_derive(
                password,
                salt.as_slice(),
                PBKDF2_ITERATIONS,
                AUTHENTICATION_KEY_SIZE,
            ),
        }
    }

    /// A copy of this key.
    pub fn duplicate(&self) -> (k: AuthenticationKey)
        ensures
            k@ == self@,
    {
        let copy = read_bytes(self.bytes.as_slice(), 0, self.bytes.len());
        assert(copy@ =~= self@);
        AuthenticationKey { bytes: copy }
    }
}

/// An authentication key together with the number of the object that holds
/// it on the device.
pub struct Credentials {
    /// Number of the authentication key object on the device.
    pub authentication_key_id: u16,
    /// The key itself.
    pub authentication_key: AuthenticationKey,
}

impl Credentials {
    /// Credentials are well formed when their key is.
    pub open spec fn wf(&self) -> bool {
        self.authentication_key.wf()
    }

    /// Credentials for the given key.
    pub fn new(authentication_key_id: u16, authentication_key: AuthenticationKey) -> (c:
        Credentials)
        ensures
            c.authentication_key_id == authentication_key_id,
            c.authentication_key@ == authentication_key@,
    {
        Credentials { authentication_key_id, authentication_key }
    }

    /// Credentials whose key is derived from a password.
    pub fn from_password(authentication_key_id: u16, password: &[u8]) -> (c: Credentials)
        ensures
            c.wf(),
            c.authentication_key_id == authentication_key_id,
            c.authentication_key@ == pbkdf2_hmac_sha256(
                password@,
                password_salt(),
                PBKDF2_ITERATIONS,
                AUTHENTICATION_KEY_SIZE,
            ),
    {
        Credentials {
            authentication_key_id,
            authentication_key: AuthenticationKey::derive_from_password(password),
        }
    }

    /// A copy of these credentials.
    pub fn duplicate(&self) -> (c: Credentials)
        ensures
            c.authentication_key_id == self.authentication_key_id,
            c.authentication_key@ == self.authentication_key@,
    {
        Credentials {
            authentication_key_id: self.authentication_key_id,
            authentication_key: self.authentication_key.duplicate(),
        }
    }
}

/// The input of the key derivation function: a label of eleven zero bytes and
/// the derivation constant, a zero byte that separates, the length of the
/// output in bits, the counter 1 and the context.
pub open spec fn derivation_data(constant: u8, context: Seq<u8>, len: nat) -> Seq<u8> {
    zeros(11) + seq![constant] + seq![0u8] + be16((len * 8) as u16) + seq![1u8] + context
}

/// The key derivation function: the first `len` bytes of the CMAC of the
/// derivation data under `key`.
pub open spec fn kdf(key: Seq<u8>, constant: u8, context: Seq<u8>, len: nat) -> Seq<u8> {
    aes128_cmac(key, derivation_data(constant, context, len)).subrange(0, len as int)
}

/// Derives `len` bytes, at most 16, from `key` for the purpose that
/// `constant` names.
pub fn derive_key(key: &[u8], constant: u8, context: &[u8], len: usize) -> (out: Vec<u8>)
    requires
        key@.len() == AES_BLOCK_SIZE,
        len <= AES_BLOCK_SIZE,
    ensures
        out@ == kdf(key@, constant, context@, len as nat),
        out@.len() == len,
{
    let mut data: Vec<u8> = Vec::new();
    let mut i: usize = 0;
    while i < 11
        invariant
            i <= 11,
            data@ == zeros(i as nat),
        decreases 11 - i,
    {
        data.push(0u8);
        i += 1;
        assert(data@ =~= zeros(i as nat));
    }
    put_u8(&mut data, constant);
    put_u8(&mut data, 0u8);
    put_u16(&mut data, (len * 8) as u16);
    put_u8(&mut data, 1u8);
    put_bytes(&mut data, context);
    assert(data@ =~= derivation_data(constant, context@, len as nat));
    let full = cmac_aes128(key, data.as_slice());
    read_bytes(full.as_slice(), 0, len)
}

/// ISO/IEC 7816-4 padding: the byte 0x80, then zero bytes up to the next
/// multiple of 16.
pub open spec fn pad(msg: Seq<u8>) -> Seq<u8> {
    msg + seq![0x80u8] + zeros((15 - msg.len() % 16) as nat)
}

/// What is left of a padded message when its padding is taken off: trailing
/// zero bytes go, then the byte 0x80 must follow. `None` where it does not.
pub open spec fn unpad(padded: Seq<u8>) -> Option<Seq<u8>>
    decreases padded.len(),
{
    if padded.len() == 0 {
        None
    } else if padded.last() == 0x80u8 {
        Some(padded.drop_last())
    } else if padded.last() == 0u8 {
        unpad(padded.drop_last())
    } else {
        None
    }
}

/// Taking the padding off a message followed by 0x80 and any number of zero
/// bytes gives the message.
pub proof fn lemma_unpad_marker_zeros(msg: Seq<u8>, n: nat)
    ensures
        unpad(msg + seq![0x80u8] + zeros(n)) == Some(msg),
    decreases n,
{
    let p = msg + seq![0x80u8] + zeros(n);
    if n == 0 {
        assert(p.last() == 0x80u8);
        assert(p.drop_last() =~= msg);
    } else {
        assert(p.last() == 0u8);
        assert(p.drop_last() =~= msg + seq![0x80u8] + zeros((n - 1) as nat));
        lemma_unpad_marker_zeros(msg, (n - 1) as nat);
    }
}

/// Padding makes a message a whole number of blocks, and taking the padding
/// off gives the message again.
pub proof fn lemma_pad_round_trip(msg: Seq<u8>)
    ensures
        pad(msg).len() % 16 == 0,
        pad(msg).len() == (msg.len() / 16 + 1) * 16,
        msg.len() < pad(msg).len() <= msg.len() + 16,
        unpad(pad(msg)) == Some(msg),
{
    lemma_unpad_marker_zeros(msg, (15 - msg.len() % 16) as nat);
}

/// Pads a message.
pub fn add_padding(msg: &[u8]) -> (out: Vec<u8>)
    ensures
        out@ == pad(msg@),
        out@.len() % 16 == 0,
{
    let mut out: Vec<u8> = Vec::new();
    put_bytes(&mut out, msg);
    assert(out@ =~= msg@);
    put_u8(&mut out, 0x80u8);
    let ghost n = msg@.len();
    while out.len() % 16 != 0
        invariant
            n == msg@.len(),
            n < out@.len() <= (n / 16 + 1) * 16,
            out@ == msg@ + seq![0x80u8] + zeros((out@.len() - n - 1) as nat),
        decreases (n / 16 + 1) * 16 - out@.len(),
    {
        out.push(0u8);
        assert(out@ =~= msg@ + seq![0x80u8] + zeros((out@.len() - n - 1) as nat));
    }
    proof {
        lemma_pad_round_trip(msg@);
    }
    out
}

/// Takes the padding off a message; `None` where the buffer does not end in
/// 0x80 and zero bytes.
pub fn remove_padding(padded: &[u8]) -> (r: Option<Vec<u8>>)
    ensures
        match r {
            Some(m) => unpad(padded@) == Some(m@),
            None => unpad(padded@) is None,
        },
{
    let mut end: usize = padded.len();
    assert(padded@.subrange(0, end as int) =~= padded@);
    while end > 0 && padded[end - 1] == 0u8
        invariant
            end <= padded@.len(),
            unpad(padded@) == unpad(padded@.subrange(0, end as int)),
        decreases end,
    {
        assert(padded@.subrange(0, end as int).drop_last() =~= padded@.subrange(
            0,
            end as int - 1,
        ));
        end -= 1;
    }
    let ghost rest = padded@.subrange(0, end as int);
    if end == 0 {
        return None;
    }
    if padded[end - 1] != 0x80u8 {
        assert(rest.last() == padded@[end as int - 1]);
        return None;
    }
    assert(rest.last() == padded@[end as int - 1]);
    assert(rest.drop_last() =~= padded@.subrange(0, end as int - 1));
    Some(read_bytes(padded, 0, end - 1))
}

/// The block that the IV of a message is made from: the encryption counter
/// as an integer of 16 bytes, most significant byte first.
pub open spec fn counter_block(counter: u32) -> Seq<u8> {
    zeros(12) + be32(counter)
}

/// The IV of the messages that travel under `counter`: the counter block,
/// encrypted under the session's encryption key.
pub open spec fn message_iv(enc_key: Seq<u8>, counter: u32) -> Seq<u8> {
    aes128_block(enc_key, counter_block(counter))
}

/// Computes the IV of the messages that travel under `counter`.
pub fn compute_iv(enc_key: &[u8], counter: u32) -> (iv: Vec<u8>)
    requires
        enc_key@.len() == AES_BLOCK_SIZE,
    ensures
        iv@ == message_iv(enc_key@, counter),
        iv@.len() == AES_BLOCK_SIZE,
{
    let mut block: Vec<u8> = Vec::new();
    let mut i: usize = 0;
    while i < 12
        invariant
            i <= 12,
            block@ == zeros(i as nat),
        decreases 12 - i,
    {
        block.push(0u8);
        i += 1;
        assert(block@ =~= zeros(i as nat));
    }
    put_u32(&mut block, counter);
    aes128_encrypt_block(enc_key, block.as_slice())
}

} // verus!
