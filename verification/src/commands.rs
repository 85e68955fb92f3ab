//! Typed commands and their payloads.
//!
//! A payload is the concatenation of the command's fields in the order of
//! their declaration: integers big-endian, enumerations as one byte, byte
//! strings of known width as they stand, and a last byte string that takes
//! the rest of the payload.

use crate::algorithm::{lemma_algorithm_round_trip, Algorithm};
use crate::audit::AuditTag;
use crate::codec::{be16, be64, copy_bytes, lemma_u16_round_trip, lemma_u64_round_trip, put_bytes,
    put_u16, put_u64, put_u8, read_bytes, read_u16, read_u64, u16_at, u64_at, CodecError};
use crate::command::CommandCode;
use crate::object::{lemma_object_tags_round_trip, Capability, Domain, ObjectOrigin, ObjectType,
    LABEL_SIZE};
use vstd::prelude::*;

verus! {

/// Width of `KeyParams` on the wire.
pub const KEY_PARAMS_SIZE: usize = 53;

/// What every command that creates an object says of it.
#[derive(Debug)]
pub struct KeyParams<B = Vec<u8>> {
    /// Number of the object; 0 lets the device choose.
    pub key_id: u16,
    /// Label of the object: forty bytes.
    pub label: B,
    /// Domains in which the object is visible.
    pub domains: Domain,
    /// Operations that the object permits.
    pub capabilities: Capability,
    /// Algorithm of the object.
    pub algorithm: Algorithm,
}

impl View for KeyParams<Vec<u8>> {
    type V = KeyParams<Seq<u8>>;

    open spec fn view(&self) -> KeyParams<Seq<u8>> {
        KeyParams {
            key_id: self.key_id,
            label: self.label@,
            domains: self.domains,
            capabilities: self.capabilities,
            algorithm: self.algorithm,
        }
    }
}

impl KeyParams<Seq<u8>> {
    /// The label has forty bytes.
    pub open spec fn wf(self) -> bool {
        self.label.len() == LABEL_SIZE
    }

    /// The 53 bytes of the parameters.
    pub open spec fn wire(self) -> Seq<u8> {
        be16(self.key_id) + self.label + be16(self.domains.bits) + be64(self.capabilities.bits)
            + seq![self.algorithm.code()]
    }

    /// The parameters that stand at offset `at` of a buffer; `None` where the
    /// byte of the algorithm names none.
    pub open spec fn at(s: Seq<u8>, at: int) -> Option<KeyParams<Seq<u8>>> {
        match Algorithm::of_code(s[at + 52]) {
            Some(algorithm) => Some(
                KeyParams {
                    key_id: u16_at(s, at),
                    label: s.subrange(at + 2, at + 42),
                    domains: Domain { bits: u16_at(s, at + 42) },
                    capabilities: Capability { bits: u64_at(s, at + 44) },
                    algorithm,
                },
            ),
            None => None,
        }
    }
}

/// Reading back the bytes of well-formed parameters gives the parameters,
/// wherever in a buffer they stand.
pub proof fn lemma_key_params_round_trip(s: Seq<u8>, at: int, p: KeyParams<Seq<u8>>)
    requires
        p.wf(),
        0 <= at,
        at + KEY_PARAMS_SIZE <= s.len(),
        s.subrange(at, at + KEY_PARAMS_SIZE) == p.wire(),
    ensures
        KeyParams::at(s, at) == Some(p),
        p.wire().len() == KEY_PARAMS_SIZE,
{
    let w = s.subrange(at, at + KEY_PARAMS_SIZE);
    assert(s[at + 52] == w[52]);
    assert(s.subrange(at, at + 2) =~= w.subrange(0, 2));
    assert(w.subrange(0, 2) =~= be16(p.key_id));
    lemma_u16_round_trip(s, at, p.key_id);
    assert(s.subrange(at + 2, at + 42) =~= w.subrange(2, 42));
    assert(w.subrange(2, 42) =~= p.label);
    assert(s.subrange(at + 42, at + 44) =~= w.subrange(42, 44));
    assert(w.subrange(42, 44) =~= be16(p.domains.bits));
    lemma_u16_round_trip(s, at + 42, p.domains.bits);
    assert(s.subrange(at + 44, at + 52) =~= w.subrange(44, 52));
    assert(w.subrange(44, 52) =~= be64(p.capabilities.bits));
    lemma_u64_round_trip(s, at + 44, p.capabilities.bits);
    lemma_algorithm_round_trip(p.algorithm);
}

impl KeyParams<Vec<u8>> {
    /// Appends the 53 bytes of the parameters.
    pub fn write(&self, out: &mut Vec<u8>)
        requires
            self@.wf(),
        ensures
            final(out)@ == old(out)@ + self@.wire(),
    {
        put_u16(out, self.key_id);
        put_bytes(out, self.label.as_slice());
        put_u16(out, self.domains.bits);
        put_u64(out, self.capabilities.bits);
        put_u8(out, self.algorithm.to_u8());
        assert(out@ =~= old(out)@ + self@.wire());
    }

    /// A copy of these parameters.
    pub fn duplicate(&self) -> (copy: KeyParams)
        ensures
            copy@ == self@,
    {
        KeyParams {
            key_id: self.key_id,
            label: copy_bytes(self.label.as_slice()),
            domains: self.domains,
            capabilities: self.capabilities,
            algorithm: self.algorithm,
        }
    }

    /// Reads the parameters at offset `at` of a buffer; `None` where the byte
    /// of the algorithm names none.
    pub fn read(data: &[u8], at: usize) -> (r: Option<KeyParams>)
        requires
            at + KEY_PARAMS_SIZE <= data@.len(),
        ensures
            match r {
                Some(p) => p@.wf() && KeyParams::at(data@, at as int) == Some(p@),
                None => KeyParams::at(data@, at as int) is None,
            },
    {
        let len: usize = data.len();
        match Algorithm::from_u8(data[at + 52]) {
            Some(algorithm) => Some(
                KeyParams {
                    key_id: read_u16(data, at),
                    label: read_bytes(data, at + 2, at + 42),
                    domains: Domain::from_bits(read_u16(data, at + 42)),
                    capabilities: Capability::from_bits(read_u64(data, at + 44)),
                    algorithm,
                },
            ),
            None => None,
        }
    }
}

/// A command with its arguments. `B` is the type of a byte string: `Vec<u8>` in running code,
/// `Seq<u8>` in contracts.
#[derive(Debug)]
pub enum Command<B = Vec<u8>> {
    /// Blinks the device's light.
    BlinkDevice {
        /// For how many seconds.
        num_seconds: u8,
    },
    /// Ends the session.
    CloseSession,
    /// Begins the handshake of a new session.
    CreateSession {
        /// Number of the authentication key.
        authentication_key_id: u16,
        /// Eight random bytes of the host.
        host_challenge: B,
    },
    /// Deletes an object.
    DeleteObject {
        /// Number of the object.
        object_id: u16,
        /// Type of the object.
        object_type: ObjectType,
    },
    /// Asks for the device's version, serial number and algorithms.
    DeviceInfo,
    /// Sends bytes and has them sent back.
    Echo {
        /// The bytes.
        message: B,
    },
    /// Exports an object under a wrap key.
    ExportWrapped {
        /// Number of the wrap key.
        wrap_key_id: u16,
        /// Type of the object to export.
        object_type: ObjectType,
        /// Number of the object to export.
        object_id: u16,
    },
    /// Generates an asymmetric key.
    GenerateAsymmetricKey {
        /// Number, label, domains, capabilities and algorithm of the new object.
        params: KeyParams<B>,
    },
    /// Generates an HMAC key.
    GenerateHmacKey {
        /// Number, label, domains, capabilities and algorithm of the new object.
        params: KeyParams<B>,
    },
    /// Generates a wrap key.
    GenerateWrapKey {
        /// Number, label, domains, capabilities and algorithm of the new object.
        params: KeyParams<B>,
        /// What objects under this key may be allowed.
        delegated_capabilities: Capability,
    },
    /// Reads the audit log.
    GetLogEntries,
    /// Describes an object.
    GetObjectInfo {
        /// Number of the object.
        object_id: u16,
        /// Type of the object.
        object_type: ObjectType,
    },
    /// Reads an opaque object.
    GetOpaqueObject {
        /// Number of the object.
        object_id: u16,
    },
    /// Reads an audit setting.
    GetOption {
        /// Which setting.
        tag: AuditTag,
    },
    /// Draws pseudo-random bytes.
    GetPseudoRandom {
        /// How many.
        bytes: u16,
    },
    /// Reads the public half of an asymmetric key.
    GetPublicKey {
        /// Number of the key.
        key_id: u16,
    },
    /// Asks how much storage is free.
    GetStorageInfo,
    /// Imports an object under a wrap key.
    ImportWrapped {
        /// Number of the wrap key.
        wrap_key_id: u16,
        /// Nonce of the wrapped message.
        nonce: B,
        /// The wrapped object and its tag.
        ciphertext: B,
    },
    /// Lists the objects that match all of the given filters.
    ListObjects {
        /// The filters, one after the other.
        filters: B,
    },
    /// Stores an asymmetric key.
    PutAsymmetricKey {
        /// Number, label, domains, capabilities and algorithm of the new object.
        params: KeyParams<B>,
        /// The private key.
        data: B,
    },
    /// Stores an authentication key.
    PutAuthenticationKey {
        /// Number, label, domains, capabilities and algorithm of the new object.
        params: KeyParams<B>,
        /// What sessions under this key may bestow.
        delegated_capabilities: Capability,
        /// The key: 32 bytes.
        authentication_key: B,
    },
    /// Stores an HMAC key.
    PutHmacKey {
        /// Number, label, domains, capabilities and algorithm of the new object.
        params: KeyParams<B>,
        /// The key.
        hmac_key: B,
    },
    /// Stores an opaque object.
    PutOpaqueObject {
        /// Number, label, domains, capabilities and algorithm of the new object.
        params: KeyParams<B>,
        /// The bytes of the object.
        data: B,
    },
    /// Stores a Yubico OTP key.
    PutOtpAeadKey {
        /// Number, label, domains, capabilities and algorithm of the new object.
        params: KeyParams<B>,
        /// The key.
        data: B,
    },
    /// Stores a wrap key.
    PutWrapKey {
        /// Number, label, domains, capabilities and algorithm of the new object.
        params: KeyParams<B>,
        /// What objects under this key may be allowed.
        delegated_capabilities: Capability,
        /// The key.
        data: B,
    },
    /// Wipes the device and restarts it.
    ResetDevice,
    /// Marks audit log entries as consumed.
    SetLogIndex {
        /// Index of the last entry consumed.
        log_index: u16,
    },
    /// Changes an audit setting.
    SetOption {
        /// Which setting.
        tag: AuditTag,
        /// The new value, which travels behind its length.
        value: B,
    },
    /// Attests an asymmetric key.
    SignAttestationCertificate {
        /// Number of the key to attest.
        key_id: u16,
        /// Number of the key that signs; 0 for the device's own.
        attestation_key_id: u16,
    },
    /// Signs a digest with ECDSA.
    SignEcdsa {
        /// Number of the key.
        key_id: u16,
        /// The digest to sign.
        digest: B,
    },
    /// Signs a message with EdDSA.
    SignEddsa {
        /// Number of the key.
        key_id: u16,
        /// The message to sign.
        data: B,
    },
    /// Computes an HMAC tag.
    SignHmac {
        /// Number of the key.
        key_id: u16,
        /// The message.
        data: B,
    },
    /// Signs a digest with RSASSA-PKCS#1 v1.5.
    SignPkcs1 {
        /// Number of the key.
        key_id: u16,
        /// The digest to sign.
        digest: B,
    },
    /// Signs a digest with RSASSA-PSS.
    SignPss {
        /// Number of the key.
        key_id: u16,
        /// Hash of the mask generation function.
        mgf1_hash_alg: Algorithm,
        /// Length of the salt.
        salt_len: u16,
        /// The digest to sign.
        digest: B,
    },
    /// Decrypts data under a wrap key.
    UnwrapData {
        /// Number of the wrap key.
        wrap_key_id: u16,
        /// Nonce of the wrapped message.
        nonce: B,
        /// The ciphertext and its tag.
        ciphertext: B,
    },
    /// Verifies an HMAC tag.
    VerifyHmac {
        /// Number of the key.
        key_id: u16,
        /// The tag, as long as the key's algorithm makes it, then the message.
        tag_and_data: B,
    },
    /// Encrypts data under a wrap key.
    WrapData {
        /// Number of the wrap key.
        wrap_key_id: u16,
        /// The data.
        plaintext: B,
    },
}

impl View for Command<Vec<u8>> {
    type V = Command<Seq<u8>>;

    open spec fn view(&self) -> Command<Seq<u8>> {
        match *self {
            Command::BlinkDevice { num_seconds } => Command::BlinkDevice { num_seconds },
            Command::CloseSession => Command::CloseSession,
            Command::CreateSession {
                authentication_key_id,
                host_challenge,
            } => Command::CreateSession {
                authentication_key_id,
                host_challenge: host_challenge@,
            },
            Command::DeleteObject {
                object_id,
                object_type,
            } => Command::DeleteObject { object_id, object_type },
            Command::DeviceInfo => Command::DeviceInfo,
            Command::Echo { message } => Command::Echo { message: message@ },
            Command::ExportWrapped {
                wrap_key_id,
                object_type,
                object_id,
            } => Command::ExportWrapped { wrap_key_id, object_type, object_id },
            Command::GenerateAsymmetricKey { params } => Command::GenerateAsymmetricKey { params: params@ },
            Command::GenerateHmacKey { params } => Command::GenerateHmacKey { params: params@ },
            Command::GenerateWrapKey {
                params,
                delegated_capabilities,
            } => Command::GenerateWrapKey {
                params: params@,
                delegated_capabilities,
            },
            Command::GetLogEntries => Command::GetLogEntries,
            Command::GetObjectInfo {
                object_id,
                object_type,
            } => Command::GetObjectInfo { object_id, object_type },
            Command::GetOpaqueObject { object_id } => Command::GetOpaqueObject { object_id },
            Command::GetOption { tag } => Command::GetOption { tag },
            Command::GetPseudoRandom { bytes } => Command::GetPseudoRandom { bytes },
            Command::GetPublicKey { key_id } => Command::GetPublicKey { key_id },
            Command::GetStorageInfo => Command::GetStorageInfo,
            Command::ImportWrapped { wrap_key_id, nonce, ciphertext } => Command::ImportWrapped {
                wrap_key_id,
                nonce: nonce@,
                ciphertext: ciphertext@,
            },
            Command::ListObjects { filters } => Command::ListObjects { filters: filters@ },
            Command::PutAsymmetricKey { params, data } => Command::PutAsymmetricKey {
                params: params@,
                data: data@,
            },
            Command::PutAuthenticationKey {
                params,
                delegated_capabilities,
                authentication_key,
            } => Command::PutAuthenticationKey {
                params: params@,
                delegated_capabilities,
                authentication_key: authentication_key@,
            },
            Command::PutHmacKey { params, hmac_key } => Command::PutHmacKey {
                params: params@,
                hmac_key: hmac_key@,
            },
            Command::PutOpaqueObject { params, data } => Command::PutOpaqueObject {
                params: params@,
                data: data@,
            },
            Command::PutOtpAeadKey { params, data } => Command::PutOtpAeadKey {
                params: params@,
                data: data@,
            },
            Command::PutWrapKey { params, delegated_capabilities, data } => Command::PutWrapKey {
                params: params@,
                delegated_capabilities,
                data: data@,
            },
            Command::ResetDevice => Command::ResetDevice,
            Command::SetLogIndex { log_index } => Command::SetLogIndex { log_index },
            Command::SetOption { tag, value } => Command::SetOption { tag, value: value@ },
            Command::SignAttestationCertificate {
                key_id,
                attestation_key_id,
            } => Command::SignAttestationCertificate { key_id, attestation_key_id },
            Command::SignEcdsa { key_id, digest } => Command::SignEcdsa { key_id, digest: digest@ },
            Command::SignEddsa { key_id, data } => Command::SignEddsa { key_id, data: data@ },
            Command::SignHmac { key_id, data } => Command::SignHmac { key_id, data: data@ },
            Command::SignPkcs1 { key_id, digest } => Command::SignPkcs1 { key_id, digest: digest@ },
            Command::SignPss { key_id, mgf1_hash_alg, salt_len, digest } => Command::SignPss {
                key_id,
                mgf1_hash_alg,
                salt_len,
                digest: digest@,
            },
            Command::UnwrapData { wrap_key_id, nonce, ciphertext } => Command::UnwrapData {
                wrap_key_id,
                nonce: nonce@,
                ciphertext: ciphertext@,
            },
            Command::VerifyHmac { key_id, tag_and_data } => Command::VerifyHmac {
                key_id,
                tag_and_data: tag_and_data@,
            },
            Command::WrapData { wrap_key_id, plaintext } => Command::WrapData {
                wrap_key_id,
                plaintext: plaintext@,
            },
        }
    }
}

impl Command<Seq<u8>> {
    /// The command that this is.
    pub open spec fn code(self) -> CommandCode {
        match self {
            Command::BlinkDevice { .. } => CommandCode::BlinkDevice,
            Command::CloseSession => CommandCode::CloseSession,
            Command::CreateSession { .. } => CommandCode::CreateSession,
            Command::DeleteObject { .. } => CommandCode::DeleteObject,
            Command::DeviceInfo => CommandCode::DeviceInfo,
            Command::Echo { .. } => CommandCode::Echo,
            Command::ExportWrapped { .. } => CommandCode::ExportWrapped,
            Command::GenerateAsymmetricKey { .. } => CommandCode::GenerateAsymmetricKey,
            Command::GenerateHmacKey { .. } => CommandCode::GenerateHmacKey,
            Command::GenerateWrapKey { .. } => CommandCode::GenerateWrapKey,
            Command::GetLogEntries => CommandCode::GetLogEntries,
            Command::GetObjectInfo { .. } => CommandCode::GetObjectInfo,
            Command::GetOpaqueObject { .. } => CommandCode::GetOpaqueObject,
            Command::GetOption { .. } => CommandCode::GetOption,
            Command::GetPseudoRandom { .. } => CommandCode::GetPseudoRandom,
            Command::GetPublicKey { .. } => CommandCode::GetPublicKey,
            Command::GetStorageInfo => CommandCode::GetStorageInfo,
            Command::ImportWrapped { .. } => CommandCode::ImportWrapped,
            Command::ListObjects { .. } => CommandCode::ListObjects,
            Command::PutAsymmetricKey { .. } => CommandCode::PutAsymmetricKey,
            Command::PutAuthenticationKey { .. } => CommandCode::PutAuthenticationKey,
            Command::PutHmacKey { .. } => CommandCode::PutHmacKey,
            Command::PutOpaqueObject { .. } => CommandCode::PutOpaqueObject,
            Command::PutOtpAeadKey { .. } => CommandCode::PutOtpAeadKey,
            Command::PutWrapKey { .. } => CommandCode::PutWrapKey,
            Command::ResetDevice => CommandCode::ResetDevice,
            Command::SetLogIndex { .. } => CommandCode::SetLogIndex,
            Command::SetOption { .. } => CommandCode::SetOption,
            Command::SignAttestationCertificate { .. } => CommandCode::SignAttestationCertificate,
            Command::SignEcdsa { .. } => CommandCode::SignEcdsa,
            Command::SignEddsa { .. } => CommandCode::SignEddsa,
            Command::SignHmac { .. } => CommandCode::SignHmac,
            Command::SignPkcs1 { .. } => CommandCode::SignPkcs1,
            Command::SignPss { .. } => CommandCode::SignPss,
            Command::UnwrapData { .. } => CommandCode::UnwrapData,
            Command::VerifyHmac { .. } => CommandCode::VerifyHmac,
            Command::WrapData { .. } => CommandCode::WrapData,
        }
    }

    /// Byte strings of fixed width have that width, and a byte string that
    /// carries its length in two bytes is short enough for them.
    pub open spec fn wf(self) -> bool {
        match self {
            Command::CreateSession { host_challenge, .. } => host_challenge.len() == 8,
            Command::GenerateAsymmetricKey { params, .. } => params.wf(),
            Command::GenerateHmacKey { params, .. } => params.wf(),
            Command::GenerateWrapKey { params, .. } => params.wf(),
            Command::ImportWrapped { nonce, .. } => nonce.len() == 13,
            Command::PutAsymmetricKey { params, .. } => params.wf(),
            Command::PutAuthenticationKey {
                params,
                authentication_key,
                ..
            } => params.wf() && authentication_key.len() == 32,
            Command::PutHmacKey { params, .. } => params.wf(),
            Command::PutOpaqueObject { params, .. } => params.wf(),
            Command::PutOtpAeadKey { params, .. } => params.wf(),
            Command::PutWrapKey { params, .. } => params.wf(),
            Command::SetOption { value, .. } => value.len() <= 0xffff,
            Command::UnwrapData { nonce, .. } => nonce.len() == 13,
            _ => true,
        }
    }

    /// The bytes of the payload: the fields in the order of their
    /// declaration.
    pub open spec fn payload(self) -> Seq<u8> {
        match self {
            Command::BlinkDevice { num_seconds } => seq![num_seconds],
            Command::CloseSession => Seq::<u8>::empty(),
            Command::CreateSession {
                authentication_key_id,
                host_challenge,
            } => be16(authentication_key_id) + host_challenge,
            Command::DeleteObject {
                object_id,
                object_type,
            } => be16(object_id) + seq![object_type.code()],
            Command::DeviceInfo => Seq::<u8>::empty(),
            Command::Echo { message } => message,
            Command::ExportWrapped {
                wrap_key_id,
                object_type,
                object_id,
            } => be16(wrap_key_id) + seq![object_type.code()] + be16(object_id),
            Command::GenerateAsymmetricKey { params } => params.wire(),
            Command::GenerateHmacKey { params } => params.wire(),
            Command::GenerateWrapKey {
                params,
                delegated_capabilities,
            } => params.wire() + be64(delegated_capabilities.bits),
            Command::GetLogEntries => Seq::<u8>::empty(),
            Command::GetObjectInfo {
                object_id,
                object_type,
            } => be16(object_id) + seq![object_type.code()],
            Command::GetOpaqueObject { object_id } => be16(object_id),
            Command::GetOption { tag } => seq![tag.code()],
            Command::GetPseudoRandom { bytes } => be16(bytes),
            Command::GetPublicKey { key_id } => be16(key_id),
            Command::GetStorageInfo => Seq::<u8>::empty(),
            Command::ImportWrapped {
                wrap_key_id,
                nonce,
                ciphertext,
            } => be16(wrap_key_id) + nonce + ciphertext,
            Command::ListObjects { filters } => filters,
            Command::PutAsymmetricKey { params, data } => params.wire() + data,
            Command::PutAuthenticationKey {
                params,
                delegated_capabilities,
                authentication_key,
            } => params.wire() + be64(delegated_capabilities.bits) + authentication_key,
            Command::PutHmacKey { params, hmac_key } => params.wire() + hmac_key,
            Command::PutOpaqueObject { params, data } => params.wire() + data,
            Command::PutOtpAeadKey { params, data } => params.wire() + data,
            Command::PutWrapKey {
                params,
                delegated_capabilities,
                data,
            } => params.wire() + be64(delegated_capabilities.bits) + data,
            Command::ResetDevice => Seq::<u8>::empty(),
            Command::SetLogIndex { log_index } => be16(log_index),
            Command::SetOption {
                tag,
                value,
            } => seq![tag.code()] + be16(value.len() as u16) + value,
            Command::SignAttestationCertificate {
                key_id,
                attestation_key_id,
            } => be16(key_id) + be16(attestation_key_id),
            Command::SignEcdsa { key_id, digest } => be16(key_id) + digest,
            Command::SignEddsa { key_id, data } => be16(key_id) + data,
            Command::SignHmac { key_id, data } => be16(key_id) + data,
            Command::SignPkcs1 { key_id, digest } => be16(key_id) + digest,
            Command::SignPss {
                key_id,
                mgf1_hash_alg,
                salt_len,
                digest,
            } => be16(key_id) + seq![mgf1_hash_alg.code()] + be16(salt_len) + digest,
            Command::UnwrapData {
                wrap_key_id,
                nonce,
                ciphertext,
            } => be16(wrap_key_id) + nonce + ciphertext,
            Command::VerifyHmac { key_id, tag_and_data } => be16(key_id) + tag_and_data,
            Command::WrapData { wrap_key_id, plaintext } => be16(wrap_key_id) + plaintext,
        }
    }

    /// The command that a payload holds, or the reason why it holds none: it is
    /// too short, bytes are left over, or a byte names no member of its
    /// enumeration.
    pub open spec fn from_payload(
        code: CommandCode,
        s: Seq<u8>,
    ) -> Result<Command<Seq<u8>>, CodecError> {
        match code {
            CommandCode::BlinkDevice => {
                if s.len() < 1 {
                    Err(CodecError::UnexpectedEof)
                } else if s.len() > 1 {
                    Err(CodecError::TrailingBytes)
                } else {
                    Ok(Command::BlinkDevice { num_seconds: s[0] })
                }
            },
            CommandCode::CloseSession => {
                if s.len() < 0 {
                    Err(CodecError::UnexpectedEof)
                } else if s.len() > 0 {
                    Err(CodecError::TrailingBytes)
                } else {
                    Ok(Command::CloseSession)
                }
            },
            CommandCode::CreateSession => {
                if s.len() < 10 {
                    Err(CodecError::UnexpectedEof)
                } else if s.len() > 10 {
                    Err(CodecError::TrailingBytes)
                } else {
                    Ok(
                        Command::CreateSession {
                            authentication_key_id: u16_at(s, 0),
                            host_challenge: s.subrange(2, 10),
                        }
                    )
                }
            },
            CommandCode::DeleteObject => {
                if s.len() < 3 {
                    Err(CodecError::UnexpectedEof)
                } else if s.len() > 3 {
                    Err(CodecError::TrailingBytes)
                } else {
                    match ObjectType::of_code(s[2]) {
                        Some(object_type) => Ok(
                            Command::DeleteObject { object_id: u16_at(s, 0), object_type }
                        ),
                        None => Err(CodecError::InvalidTag),
                    }
                }
            },
            CommandCode::DeviceInfo => {
                if s.len() < 0 {
                    Err(CodecError::UnexpectedEof)
                } else if s.len() > 0 {
                    Err(CodecError::TrailingBytes)
                } else {
                    Ok(Command::DeviceInfo)
                }
            },
            CommandCode::Echo => {
                if s.len() < 0 {
                    Err(CodecError::UnexpectedEof)
                } else {
                    Ok(Command::Echo { message: s.subrange(0, s.len() as int) })
                }
            },
            CommandCode::ExportWrapped => {
                if s.len() < 5 {
                    Err(CodecError::UnexpectedEof)
                } else if s.len() > 5 {
                    Err(CodecError::TrailingBytes)
                } else {
                    match ObjectType::of_code(s[2]) {
                        Some(object_type) => Ok(
                            Command::ExportWrapped {
                                wrap_key_id: u16_at(s, 0),
                                object_type,
                                object_id: u16_at(s, 3),
                            }
                        ),
                        None => Err(CodecError::InvalidTag),
                    }
                }
            },
            CommandCode::GenerateAsymmetricKey => {
                if s.len() < 53 {
                    Err(CodecError::UnexpectedEof)
                } else if s.len() > 53 {
                    Err(CodecError::TrailingBytes)
                } else {
                    match KeyParams::at(s, 0) {
                        Some(params) => Ok(Command::GenerateAsymmetricKey { params }),
                        None => Err(CodecError::InvalidTag),
                    }
                }
            },
            CommandCode::GenerateHmacKey => {
                if s.len() < 53 {
                    Err(CodecError::UnexpectedEof)
                } else if s.len() > 53 {
                    Err(CodecError::TrailingBytes)
                } else {
                    match KeyParams::at(s, 0) {
                        Some(params) => Ok(Command::GenerateHmacKey { params }),
                        None => Err(CodecError::InvalidTag),
                    }
                }
            },
            CommandCode::GenerateWrapKey => {
                if s.len() < 61 {
                    Err(CodecError::UnexpectedEof)
                } else if s.len() > 61 {
                    Err(CodecError::TrailingBytes)
                } else {
                    match KeyParams::at(s, 0) {
                        Some(params) => Ok(
                            Command::GenerateWrapKey {
                                params,
                                delegated_capabilities: Capability { bits: u64_at(s, 53) },
                            }
                        ),
                        None => Err(CodecError::InvalidTag),
                    }
                }
            },
            CommandCode::GetLogEntries => {
                if s.len() < 0 {
                    Err(CodecError::UnexpectedEof)
                } else if s.len() > 0 {
                    Err(CodecError::TrailingBytes)
                } else {
                    Ok(Command::GetLogEntries)
                }
            },
            CommandCode::GetObjectInfo => {
                if s.len() < 3 {
                    Err(CodecError::UnexpectedEof)
                } else if s.len() > 3 {
                    Err(CodecError::TrailingBytes)
                } else {
                    match ObjectType::of_code(s[2]) {
                        Some(object_type) => Ok(
                            Command::GetObjectInfo { object_id: u16_at(s, 0), object_type }
                        ),
                        None => Err(CodecError::InvalidTag),
                    }
                }
            },
            CommandCode::GetOpaqueObject => {
                if s.len() < 2 {
                    Err(CodecError::UnexpectedEof)
                } else if s.len() > 2 {
                    Err(CodecError::TrailingBytes)
                } else {
                    Ok(Command::GetOpaqueObject { object_id: u16_at(s, 0) })
                }
            },
            CommandCode::GetOption => {
                if s.len() < 1 {
                    Err(CodecError::UnexpectedEof)
                } else if s.len() > 1 {
                    Err(CodecError::TrailingBytes)
                } else {
                    match AuditTag::of_code(s[0]) {
                        Some(tag) => Ok(Command::GetOption { tag }),
                        None => Err(CodecError::InvalidTag),
                    }
                }
            },
            CommandCode::GetPseudoRandom => {
                if s.len() < 2 {
                    Err(CodecError::UnexpectedEof)
                } else if s.len() > 2 {
                    Err(CodecError::TrailingBytes)
                } else {
                    Ok(Command::GetPseudoRandom { bytes: u16_at(s, 0) })
                }
            },
            CommandCode::GetPublicKey => {
                if s.len() < 2 {
                    Err(CodecError::UnexpectedEof)
                } else if s.len() > 2 {
                    Err(CodecError::TrailingBytes)
                } else {
                    Ok(Command::GetPublicKey { key_id: u16_at(s, 0) })
                }
            },
            CommandCode::GetStorageInfo => {
                if s.len() < 0 {
                    Err(CodecError::UnexpectedEof)
                } else if s.len() > 0 {
                    Err(CodecError::TrailingBytes)
                } else {
                    Ok(Command::GetStorageInfo)
                }
            },
            CommandCode::ImportWrapped => {
                if s.len() < 15 {
                    Err(CodecError::UnexpectedEof)
                } else {
                    Ok(
                        Command::ImportWrapped {
                            wrap_key_id: u16_at(s, 0),
                            nonce: s.subrange(2, 15),
                            ciphertext: s.subrange(15, s.len() as int),
                        }
                    )
                }
            },
            CommandCode::ListObjects => {
                if s.len() < 0 {
                    Err(CodecError::UnexpectedEof)
                } else {
                    Ok(Command::ListObjects { filters: s.subrange(0, s.len() as int) })
                }
            },
            CommandCode::PutAsymmetricKey => {
                if s.len() < 53 {
                    Err(CodecError::UnexpectedEof)
                } else {
                    match KeyParams::at(s, 0) {
                        Some(params) => Ok(
                            Command::PutAsymmetricKey {
                                params,
                                data: s.subrange(53, s.len() as int),
                            }
                        ),
                        None => Err(CodecError::InvalidTag),
                    }
                }
            },
            CommandCode::PutAuthenticationKey => {
                if s.len() < 93 {
                    Err(CodecError::UnexpectedEof)
                } else if s.len() > 93 {
                    Err(CodecError::TrailingBytes)
                } else {
                    match KeyParams::at(s, 0) {
                        Some(params) => Ok(
                            Command::PutAuthenticationKey {
                                params,
                                delegated_capabilities: Capability { bits: u64_at(s, 53) },
                                authentication_key: s.subrange(61, 93),
                            }
                        ),
                        None => Err(CodecError::InvalidTag),
                    }
                }
            },
            CommandCode::PutHmacKey => {
                if s.len() < 53 {
                    Err(CodecError::UnexpectedEof)
                } else {
                    match KeyParams::at(s, 0) {
                        Some(params) => Ok(
                            Command::PutHmacKey { params, hmac_key: s.subrange(53, s.len() as int) }
                        ),
                        None => Err(CodecError::InvalidTag),
                    }
                }
            },
            CommandCode::PutOpaqueObject => {
                if s.len() < 53 {
                    Err(CodecError::UnexpectedEof)
                } else {
                    match KeyParams::at(s, 0) {
                        Some(params) => Ok(
                            Command::PutOpaqueObject {
                                params,
                                data: s.subrange(53, s.len() as int),
                            }
                        ),
                        None => Err(CodecError::InvalidTag),
                    }
                }
            },
            CommandCode::PutOtpAeadKey => {
                if s.len() < 53 {
                    Err(CodecError::UnexpectedEof)
                } else {
                    match KeyParams::at(s, 0) {
                        Some(params) => Ok(
                            Command::PutOtpAeadKey { params, data: s.subrange(53, s.len() as int) }
                        ),
                        None => Err(CodecError::InvalidTag),
                    }
                }
            },
            CommandCode::PutWrapKey => {
                if s.len() < 61 {
                    Err(CodecError::UnexpectedEof)
                } else {
                    match KeyParams::at(s, 0) {
                        Some(params) => Ok(
                            Command::PutWrapKey {
                                params,
                                delegated_capabilities: Capability { bits: u64_at(s, 53) },
                                data: s.subrange(61, s.len() as int),
                            }
                        ),
                        None => Err(CodecError::InvalidTag),
                    }
                }
            },
            CommandCode::ResetDevice => {
                if s.len() < 0 {
                    Err(CodecError::UnexpectedEof)
                } else if s.len() > 0 {
                    Err(CodecError::TrailingBytes)
                } else {
                    Ok(Command::ResetDevice)
                }
            },
            CommandCode::SetLogIndex => {
                if s.len() < 2 {
                    Err(CodecError::UnexpectedEof)
                } else if s.len() > 2 {
                    Err(CodecError::TrailingBytes)
                } else {
                    Ok(Command::SetLogIndex { log_index: u16_at(s, 0) })
                }
            },
            CommandCode::SetOption => {
                if s.len() < 3 {
                    Err(CodecError::UnexpectedEof)
                } else if (u16_at(s, 1) as int) > s.len() - 3 {
                    Err(CodecError::UnexpectedEof)
                } else if (u16_at(s, 1) as int) < s.len() - 3 {
                    Err(CodecError::TrailingBytes)
                } else {
                    match AuditTag::of_code(s[0]) {
                        Some(tag) => Ok(
                            Command::SetOption { tag, value: s.subrange(3, s.len() as int) }
                        ),
                        None => Err(CodecError::InvalidTag),
                    }
                }
            },
            CommandCode::SignAttestationCertificate => {
                if s.len() < 4 {
                    Err(CodecError::UnexpectedEof)
                } else if s.len() > 4 {
                    Err(CodecError::TrailingBytes)
                } else {
                    Ok(
                        Command::SignAttestationCertificate {
                            key_id: u16_at(s, 0),
                            attestation_key_id: u16_at(s, 2),
                        }
                    )
                }
            },
            CommandCode::SignEcdsa => {
                if s.len() < 2 {
                    Err(CodecError::UnexpectedEof)
                } else {
                    Ok(
                        Command::SignEcdsa {
                            key_id: u16_at(s, 0),
                            digest: s.subrange(2, s.len() as int),
                        }
                    )
                }
            },
            CommandCode::SignEddsa => {
                if s.len() < 2 {
                    Err(CodecError::UnexpectedEof)
                } else {
                    Ok(
                        Command::SignEddsa {
                            key_id: u16_at(s, 0),
                            data: s.subrange(2, s.len() as int),
                        }
                    )
                }
            },
            CommandCode::SignHmac => {
                if s.len() < 2 {
                    Err(CodecError::UnexpectedEof)
                } else {
                    Ok(
                        Command::SignHmac {
                            key_id: u16_at(s, 0),
                            data: s.subrange(2, s.len() as int),
                        }
                    )
                }
            },
            CommandCode::SignPkcs1 => {
                if s.len() < 2 {
                    Err(CodecError::UnexpectedEof)
                } else {
                    Ok(
                        Command::SignPkcs1 {
                            key_id: u16_at(s, 0),
                            digest: s.subrange(2, s.len() as int),
                        }
                    )
                }
            },
            CommandCode::SignPss => {
                if s.len() < 5 {
                    Err(CodecError::UnexpectedEof)
                } else {
                    match Algorithm::of_code(s[2]) {
                        Some(mgf1_hash_alg) => Ok(
                            Command::SignPss {
                                key_id: u16_at(s, 0),
                                mgf1_hash_alg,
                                salt_len: u16_at(s, 3),
                                digest: s.subrange(5, s.len() as int),
                            }
                        ),
                        None => Err(CodecError::InvalidTag),
                    }
                }
            },
            CommandCode::UnwrapData => {
                if s.len() < 15 {
                    Err(CodecError::UnexpectedEof)
                } else {
                    Ok(
                        Command::UnwrapData {
                            wrap_key_id: u16_at(s, 0),
                            nonce: s.subrange(2, 15),
                            ciphertext: s.subrange(15, s.len() as int),
                        }
                    )
                }
            },
            CommandCode::VerifyHmac => {
                if s.len() < 2 {
                    Err(CodecError::UnexpectedEof)
                } else {
                    Ok(
                        Command::VerifyHmac {
                            key_id: u16_at(s, 0),
                            tag_and_data: s.subrange(2, s.len() as int),
                        }
                    )
                }
            },
            CommandCode::WrapData => {
                if s.len() < 2 {
                    Err(CodecError::UnexpectedEof)
                } else {
                    Ok(
                        Command::WrapData {
                            wrap_key_id: u16_at(s, 0),
                            plaintext: s.subrange(2, s.len() as int),
                        }
                    )
                }
            },
            _ => Err(CodecError::InvalidTag),
        }
    }
}

impl Command<Vec<u8>> {
    /// The command that this is.
    pub fn command_code(&self) -> (code: CommandCode)
        ensures
            code == self@.code(),
    {
        match self {
            Command::BlinkDevice { .. } => CommandCode::BlinkDevice,
            Command::CloseSession => CommandCode::CloseSession,
            Command::CreateSession { .. } => CommandCode::CreateSession,
            Command::DeleteObject { .. } => CommandCode::DeleteObject,
            Command::DeviceInfo => CommandCode::DeviceInfo,
            Command::Echo { .. } => CommandCode::Echo,
            Command::ExportWrapped { .. } => CommandCode::ExportWrapped,
            Command::GenerateAsymmetricKey { .. } => CommandCode::GenerateAsymmetricKey,
            Command::GenerateHmacKey { .. } => CommandCode::GenerateHmacKey,
            Command::GenerateWrapKey { .. } => CommandCode::GenerateWrapKey,
            Command::GetLogEntries => CommandCode::GetLogEntries,
            Command::GetObjectInfo { .. } => CommandCode::GetObjectInfo,
            Command::GetOpaqueObject { .. } => CommandCode::GetOpaqueObject,
            Command::GetOption { .. } => CommandCode::GetOption,
            Command::GetPseudoRandom { .. } => CommandCode::GetPseudoRandom,
            Command::GetPublicKey { .. } => CommandCode::GetPublicKey,
            Command::GetStorageInfo => CommandCode::GetStorageInfo,
            Command::ImportWrapped { .. } => CommandCode::ImportWrapped,
            Command::ListObjects { .. } => CommandCode::ListObjects,
            Command::PutAsymmetricKey { .. } => CommandCode::PutAsymmetricKey,
            Command::PutAuthenticationKey { .. } => CommandCode::PutAuthenticationKey,
            Command::PutHmacKey { .. } => CommandCode::PutHmacKey,
            Command::PutOpaqueObject { .. } => CommandCode::PutOpaqueObject,
            Command::PutOtpAeadKey { .. } => CommandCode::PutOtpAeadKey,
            Command::PutWrapKey { .. } => CommandCode::PutWrapKey,
            Command::ResetDevice => CommandCode::ResetDevice,
            Command::SetLogIndex { .. } => CommandCode::SetLogIndex,
            Command::SetOption { .. } => CommandCode::SetOption,
            Command::SignAttestationCertificate { .. } => CommandCode::SignAttestationCertificate,
            Command::SignEcdsa { .. } => CommandCode::SignEcdsa,
            Command::SignEddsa { .. } => CommandCode::SignEddsa,
            Command::SignHmac { .. } => CommandCode::SignHmac,
            Command::SignPkcs1 { .. } => CommandCode::SignPkcs1,
            Command::SignPss { .. } => CommandCode::SignPss,
            Command::UnwrapData { .. } => CommandCode::UnwrapData,
            Command::VerifyHmac { .. } => CommandCode::VerifyHmac,
            Command::WrapData { .. } => CommandCode::WrapData,
        }
    }

    /// A copy of this command.
    pub fn duplicate(&self) -> (copy: Command)
        ensures
            copy@ == self@,
    {
        match self {
            Command::BlinkDevice { num_seconds } => Command::BlinkDevice { num_seconds: *num_seconds },
            Command::CloseSession => Command::CloseSession,
            Command::CreateSession {
                authentication_key_id,
                host_challenge,
            } => Command::CreateSession {
                authentication_key_id: *authentication_key_id,
                host_challenge: copy_bytes(host_challenge.as_slice()),
            },
            Command::DeleteObject { object_id, object_type } => Command::DeleteObject {
                object_id: *object_id,
                object_type: *object_type,
            },
            Command::DeviceInfo => Command::DeviceInfo,
            Command::Echo { message } => Command::Echo { message: copy_bytes(message.as_slice()) },
            Command::ExportWrapped {
                wrap_key_id,
                object_type,
                object_id,
            } => Command::ExportWrapped {
                wrap_key_id: *wrap_key_id,
                object_type: *object_type,
                object_id: *object_id,
            },
            Command::GenerateAsymmetricKey { params } => Command::GenerateAsymmetricKey { params: params.duplicate() },
            Command::GenerateHmacKey { params } => Command::GenerateHmacKey { params: params.duplicate() },
            Command::GenerateWrapKey {
                params,
                delegated_capabilities,
            } => Command::GenerateWrapKey {
                params: params.duplicate(),
                delegated_capabilities: *delegated_capabilities,
            },
            Command::GetLogEntries => Command::GetLogEntries,
            Command::GetObjectInfo { object_id, object_type } => Command::GetObjectInfo {
                object_id: *object_id,
                object_type: *object_type,
            },
            Command::GetOpaqueObject { object_id } => Command::GetOpaqueObject { object_id: *object_id },
            Command::GetOption { tag } => Command::GetOption { tag: *tag },
            Command::GetPseudoRandom { bytes } => Command::GetPseudoRandom { bytes: *bytes },
            Command::GetPublicKey { key_id } => Command::GetPublicKey { key_id: *key_id },
            Command::GetStorageInfo => Command::GetStorageInfo,
            Command::ImportWrapped { wrap_key_id, nonce, ciphertext } => Command::ImportWrapped {
                wrap_key_id: *wrap_key_id,
                nonce: copy_bytes(nonce.as_slice()),
                ciphertext: copy_bytes(ciphertext.as_slice()),
            },
            Command::ListObjects { filters } => Command::ListObjects { filters: copy_bytes(filters.as_slice()) },
            Command::PutAsymmetricKey { params, data } => Command::PutAsymmetricKey {
                params: params.duplicate(),
                data: copy_bytes(data.as_slice()),
            },
            Command::PutAuthenticationKey {
                params,
                delegated_capabilities,
                authentication_key,
            } => Command::PutAuthenticationKey {
                params: params.duplicate(),
                delegated_capabilities: *delegated_capabilities,
                authentication_key: copy_bytes(authentication_key.as_slice()),
            },
            Command::PutHmacKey { params, hmac_key } => Command::PutHmacKey {
                params: params.duplicate(),
                hmac_key: copy_bytes(hmac_key.as_slice()),
            },
            Command::PutOpaqueObject { params, data } => Command::PutOpaqueObject {
                params: params.duplicate(),
                data: copy_bytes(data.as_slice()),
            },
            Command::PutOtpAeadKey { params, data } => Command::PutOtpAeadKey {
                params: params.duplicate(),
                data: copy_bytes(data.as_slice()),
            },
            Command::PutWrapKey { params, delegated_capabilities, data } => Command::PutWrapKey {
                params: params.duplicate(),
                delegated_capabilities: *delegated_capabilities,
                data: copy_bytes(data.as_slice()),
            },
            Command::ResetDevice => Command::ResetDevice,
            Command::SetLogIndex { log_index } => Command::SetLogIndex { log_index: *log_index },
            Command::SetOption { tag, value } => Command::SetOption {
                tag: *tag,
                value: copy_bytes(value.as_slice()),
            },
            Command::SignAttestationCertificate {
                key_id,
                attestation_key_id,
            } => Command::SignAttestationCertificate {
                key_id: *key_id,
                attestation_key_id: *attestation_key_id,
            },
            Command::SignEcdsa { key_id, digest } => Command::SignEcdsa {
                key_id: *key_id,
                digest: copy_bytes(digest.as_slice()),
            },
            Command::SignEddsa { key_id, data } => Command::SignEddsa {
                key_id: *key_id,
                data: copy_bytes(data.as_slice()),
            },
            Command::SignHmac { key_id, data } => Command::SignHmac {
                key_id: *key_id,
                data: copy_bytes(data.as_slice()),
            },
            Command::SignPkcs1 { key_id, digest } => Command::SignPkcs1 {
                key_id: *key_id,
                digest: copy_bytes(digest.as_slice()),
            },
            Command::SignPss { key_id, mgf1_hash_alg, salt_len, digest } => Command::SignPss {
                key_id: *key_id,
                mgf1_hash_alg: *mgf1_hash_alg,
                salt_len: *salt_len,
                digest: copy_bytes(digest.as_slice()),
            },
            Command::UnwrapData { wrap_key_id, nonce, ciphertext } => Command::UnwrapData {
                wrap_key_id: *wrap_key_id,
                nonce: copy_bytes(nonce.as_slice()),
                ciphertext: copy_bytes(ciphertext.as_slice()),
            },
            Command::VerifyHmac { key_id, tag_and_data } => Command::VerifyHmac {
                key_id: *key_id,
                tag_and_data: copy_bytes(tag_and_data.as_slice()),
            },
            Command::WrapData { wrap_key_id, plaintext } => Command::WrapData {
                wrap_key_id: *wrap_key_id,
                plaintext: copy_bytes(plaintext.as_slice()),
            },
        }
    }

    /// The bytes of the payload.
    pub fn serialize(&self) -> (out: Vec<u8>)
        requires
            self@.wf(),
        ensures
            out@ == self@.payload(),
    {
        let mut out: Vec<u8> = Vec::new();
        match self {
            Command::BlinkDevice { num_seconds } => {
                put_u8(&mut out, *num_seconds);
            },
            Command::CloseSession => {},
            Command::CreateSession { authentication_key_id, host_challenge } => {
                put_u16(&mut out, *authentication_key_id);
                put_bytes(&mut out, host_challenge.as_slice());
            },
            Command::DeleteObject { object_id, object_type } => {
                put_u16(&mut out, *object_id);
                put_u8(&mut out, object_type.to_u8());
            },
            Command::DeviceInfo => {},
            Command::Echo { message } => {
                put_bytes(&mut out, message.as_slice());
            },
            Command::ExportWrapped { wrap_key_id, object_type, object_id } => {
                put_u16(&mut out, *wrap_key_id);
                put_u8(&mut out, object_type.to_u8());
                put_u16(&mut out, *object_id);
            },
            Command::GenerateAsymmetricKey { params } => {
                params.write(&mut out);
            },
            Command::GenerateHmacKey { params } => {
                params.write(&mut out);
            },
            Command::GenerateWrapKey { params, delegated_capabilities } => {
                params.write(&mut out);
                put_u64(&mut out, delegated_capabilities.bits);
            },
            Command::GetLogEntries => {},
            Command::GetObjectInfo { object_id, object_type } => {
                put_u16(&mut out, *object_id);
                put_u8(&mut out, object_type.to_u8());
            },
            Command::GetOpaqueObject { object_id } => {
                put_u16(&mut out, *object_id);
            },
            Command::GetOption { tag } => {
                put_u8(&mut out, tag.to_u8());
            },
            Command::GetPseudoRandom { bytes } => {
                put_u16(&mut out, *bytes);
            },
            Command::GetPublicKey { key_id } => {
                put_u16(&mut out, *key_id);
            },
            Command::GetStorageInfo => {},
            Command::ImportWrapped { wrap_key_id, nonce, ciphertext } => {
                put_u16(&mut out, *wrap_key_id);
                put_bytes(&mut out, nonce.as_slice());
                put_bytes(&mut out, ciphertext.as_slice());
            },
            Command::ListObjects { filters } => {
                put_bytes(&mut out, filters.as_slice());
            },
            Command::PutAsymmetricKey { params, data } => {
                params.write(&mut out);
                put_bytes(&mut out, data.as_slice());
            },
            Command::PutAuthenticationKey {
                params,
                delegated_capabilities,
                authentication_key,
            } => {
                params.write(&mut out);
                put_u64(&mut out, delegated_capabilities.bits);
                put_bytes(&mut out, authentication_key.as_slice());
            },
            Command::PutHmacKey { params, hmac_key } => {
                params.write(&mut out);
                put_bytes(&mut out, hmac_key.as_slice());
            },
            Command::PutOpaqueObject { params, data } => {
                params.write(&mut out);
                put_bytes(&mut out, data.as_slice());
            },
            Command::PutOtpAeadKey { params, data } => {
                params.write(&mut out);
                put_bytes(&mut out, data.as_slice());
            },
            Command::PutWrapKey { params, delegated_capabilities, data } => {
                params.write(&mut out);
                put_u64(&mut out, delegated_capabilities.bits);
                put_bytes(&mut out, data.as_slice());
            },
            Command::ResetDevice => {},
            Command::SetLogIndex { log_index } => {
                put_u16(&mut out, *log_index);
            },
            Command::SetOption { tag, value } => {
                put_u8(&mut out, tag.to_u8());
                put_u16(&mut out, value.len() as u16);
                put_bytes(&mut out, value.as_slice());
            },
            Command::SignAttestationCertificate { key_id, attestation_key_id } => {
                put_u16(&mut out, *key_id);
                put_u16(&mut out, *attestation_key_id);
            },
            Command::SignEcdsa { key_id, digest } => {
                put_u16(&mut out, *key_id);
                put_bytes(&mut out, digest.as_slice());
            },
            Command::SignEddsa { key_id, data } => {
                put_u16(&mut out, *key_id);
                put_bytes(&mut out, data.as_slice());
            },
            Command::SignHmac { key_id, data } => {
                put_u16(&mut out, *key_id);
                put_bytes(&mut out, data.as_slice());
            },
            Command::SignPkcs1 { key_id, digest } => {
                put_u16(&mut out, *key_id);
                put_bytes(&mut out, digest.as_slice());
            },
            Command::SignPss { key_id, mgf1_hash_alg, salt_len, digest } => {
                put_u16(&mut out, *key_id);
                put_u8(&mut out, mgf1_hash_alg.to_u8());
                put_u16(&mut out, *salt_len);
                put_bytes(&mut out, digest.as_slice());
            },
            Command::UnwrapData { wrap_key_id, nonce, ciphertext } => {
                put_u16(&mut out, *wrap_key_id);
                put_bytes(&mut out, nonce.as_slice());
                put_bytes(&mut out, ciphertext.as_slice());
            },
            Command::VerifyHmac { key_id, tag_and_data } => {
                put_u16(&mut out, *key_id);
                put_bytes(&mut out, tag_and_data.as_slice());
            },
            Command::WrapData { wrap_key_id, plaintext } => {
                put_u16(&mut out, *wrap_key_id);
                put_bytes(&mut out, plaintext.as_slice());
            },
        }
        assert(out@ =~= self@.payload());
        out
    }

    /// Reads the command of the given command from a payload.
    pub fn deserialize(code: CommandCode, data: &[u8]) -> (r: Result<Command, CodecError>)
        ensures
            match r {
                Ok(c) => c@.wf() && Command::from_payload(
                    code,
                    data@,
                ) == Ok::<Command<Seq<u8>>, CodecError>(c@),
                Err(e) => Command::from_payload(
                    code,
                    data@,
                ) == Err::<Command<Seq<u8>>, CodecError>(e),
            },
    {
        match code {
            CommandCode::BlinkDevice => {
                if data.len() < 1 {
                    return Err(CodecError::UnexpectedEof);
                }
                if data.len() > 1 {
                    return Err(CodecError::TrailingBytes);
                }
                Ok(Command::BlinkDevice { num_seconds: data[0] })
            },
            CommandCode::CloseSession => {
                if data.len() < 0 {
                    return Err(CodecError::UnexpectedEof);
                }
                if data.len() > 0 {
                    return Err(CodecError::TrailingBytes);
                }
                Ok(Command::CloseSession)
            },
            CommandCode::CreateSession => {
                if data.len() < 10 {
                    return Err(CodecError::UnexpectedEof);
                }
                if data.len() > 10 {
                    return Err(CodecError::TrailingBytes);
                }
                Ok(
                    Command::CreateSession {
                        authentication_key_id: read_u16(data, 0),
                        host_challenge: read_bytes(data, 2, 10),
                    }
                )
            },
            CommandCode::DeleteObject => {
                if data.len() < 3 {
                    return Err(CodecError::UnexpectedEof);
                }
                if data.len() > 3 {
                    return Err(CodecError::TrailingBytes);
                }
                let object_type = ObjectType::from_u8(data[2]);
                match object_type {
                    Some(object_type) => Ok(
                        Command::DeleteObject { object_id: read_u16(data, 0), object_type }
                    ),
                    None => Err(CodecError::InvalidTag),
                }
            },
            CommandCode::DeviceInfo => {
                if data.len() < 0 {
                    return Err(CodecError::UnexpectedEof);
                }
                if data.len() > 0 {
                    return Err(CodecError::TrailingBytes);
                }
                Ok(Command::DeviceInfo)
            },
            CommandCode::Echo => {
                if data.len() < 0 {
                    return Err(CodecError::UnexpectedEof);
                }
                Ok(Command::Echo { message: read_bytes(data, 0, data.len()) })
            },
            CommandCode::ExportWrapped => {
                if data.len() < 5 {
                    return Err(CodecError::UnexpectedEof);
                }
                if data.len() > 5 {
                    return Err(CodecError::TrailingBytes);
                }
                let object_type = ObjectType::from_u8(data[2]);
                match object_type {
                    Some(object_type) => Ok(
                        Command::ExportWrapped {
                            wrap_key_id: read_u16(data, 0),
                            object_type,
                            object_id: read_u16(data, 3),
                        }
                    ),
                    None => Err(CodecError::InvalidTag),
                }
            },
            CommandCode::GenerateAsymmetricKey => {
                if data.len() < 53 {
                    return Err(CodecError::UnexpectedEof);
                }
                if data.len() > 53 {
                    return Err(CodecError::TrailingBytes);
                }
                let params = KeyParams::read(data, 0);
                match params {
                    Some(params) => Ok(Command::GenerateAsymmetricKey { params }),
                    None => Err(CodecError::InvalidTag),
                }
            },
            CommandCode::GenerateHmacKey => {
                if data.len() < 53 {
                    return Err(CodecError::UnexpectedEof);
                }
                if data.len() > 53 {
                    return Err(CodecError::TrailingBytes);
                }
                let params = KeyParams::read(data, 0);
                match params {
                    Some(params) => Ok(Command::GenerateHmacKey { params }),
                    None => Err(CodecError::InvalidTag),
                }
            },
            CommandCode::GenerateWrapKey => {
                if data.len() < 61 {
                    return Err(CodecError::UnexpectedEof);
                }
                if data.len() > 61 {
                    return Err(CodecError::TrailingBytes);
                }
                let params = KeyParams::read(data, 0);
                match params {
                    Some(params) => Ok(
                        Command::GenerateWrapKey {
                            params,
                            delegated_capabilities: Capability::from_bits(read_u64(data, 53)),
                        }
                    ),
                    None => Err(CodecError::InvalidTag),
                }
            },
            CommandCode::GetLogEntries => {
                if data.len() < 0 {
                    return Err(CodecError::UnexpectedEof);
                }
                if data.len() > 0 {
                    return Err(CodecError::TrailingBytes);
                }
                Ok(Command::GetLogEntries)
            },
            CommandCode::GetObjectInfo => {
                if data.len() < 3 {
                    return Err(CodecError::UnexpectedEof);
                }
                if data.len() > 3 {
                    return Err(CodecError::TrailingBytes);
                }
                let object_type = ObjectType::from_u8(data[2]);
                match object_type {
                    Some(object_type) => Ok(
                        Command::GetObjectInfo { object_id: read_u16(data, 0), object_type }
                    ),
                    None => Err(CodecError::InvalidTag),
                }
            },
            CommandCode::GetOpaqueObject => {
                if data.len() < 2 {
                    return Err(CodecError::UnexpectedEof);
                }
                if data.len() > 2 {
                    return Err(CodecError::TrailingBytes);
                }
                Ok(Command::GetOpaqueObject { object_id: read_u16(data, 0) })
            },
            CommandCode::GetOption => {
                if data.len() < 1 {
                    return Err(CodecError::UnexpectedEof);
                }
                if data.len() > 1 {
                    return Err(CodecError::TrailingBytes);
                }
                let tag = AuditTag::from_u8(data[0]);
                match tag {
                    Some(tag) => Ok(Command::GetOption { tag }),
                    None => Err(CodecError::InvalidTag),
                }
            },
            CommandCode::GetPseudoRandom => {
                if data.len() < 2 {
                    return Err(CodecError::UnexpectedEof);
                }
                if data.len() > 2 {
                    return Err(CodecError::TrailingBytes);
                }
                Ok(Command::GetPseudoRandom { bytes: read_u16(data, 0) })
            },
            CommandCode::GetPublicKey => {
                if data.len() < 2 {
                    return Err(CodecError::UnexpectedEof);
                }
                if data.len() > 2 {
                    return Err(CodecError::TrailingBytes);
                }
                Ok(Command::GetPublicKey { key_id: read_u16(data, 0) })
            },
            CommandCode::GetStorageInfo => {
                if data.len() < 0 {
                    return Err(CodecError::UnexpectedEof);
                }
                if data.len() > 0 {
                    return Err(CodecError::TrailingBytes);
                }
                Ok(Command::GetStorageInfo)
            },
            CommandCode::ImportWrapped => {
                if data.len() < 15 {
                    return Err(CodecError::UnexpectedEof);
                }
                Ok(
                    Command::ImportWrapped {
                        wrap_key_id: read_u16(data, 0),
                        nonce: read_bytes(data, 2, 15),
                        ciphertext: read_bytes(data, 15, data.len()),
                    }
                )
            },
            CommandCode::ListObjects => {
                if data.len() < 0 {
                    return Err(CodecError::UnexpectedEof);
                }
                Ok(Command::ListObjects { filters: read_bytes(data, 0, data.len()) })
            },
            CommandCode::PutAsymmetricKey => {
                if data.len() < 53 {
                    return Err(CodecError::UnexpectedEof);
                }
                let params = KeyParams::read(data, 0);
                match params {
                    Some(params) => Ok(
                        Command::PutAsymmetricKey { params, data: read_bytes(data, 53, data.len()) }
                    ),
                    None => Err(CodecError::InvalidTag),
                }
            },
            CommandCode::PutAuthenticationKey => {
                if data.len() < 93 {
                    return Err(CodecError::UnexpectedEof);
                }
                if data.len() > 93 {
                    return Err(CodecError::TrailingBytes);
                }
                let params = KeyParams::read(data, 0);
                match params {
                    Some(params) => Ok(
                        Command::PutAuthenticationKey {
                            params,
                            delegated_capabilities: Capability::from_bits(read_u64(data, 53)),
                            authentication_key: read_bytes(data, 61, 93),
                        }
                    ),
                    None => Err(CodecError::InvalidTag),
                }
            },
            CommandCode::PutHmacKey => {
                if data.len() < 53 {
                    return Err(CodecError::UnexpectedEof);
                }
                let params = KeyParams::read(data, 0);
                match params {
                    Some(params) => Ok(
                        Command::PutHmacKey { params, hmac_key: read_bytes(data, 53, data.len()) }
                    ),
                    None => Err(CodecError::InvalidTag),
                }
            },
            CommandCode::PutOpaqueObject => {
                if data.len() < 53 {
                    return Err(CodecError::UnexpectedEof);
                }
                let params = KeyParams::read(data, 0);
                match params {
                    Some(params) => Ok(
                        Command::PutOpaqueObject { params, data: read_bytes(data, 53, data.len()) }
                    ),
                    None => Err(CodecError::InvalidTag),
                }
            },
            CommandCode::PutOtpAeadKey => {
                if data.len() < 53 {
                    return Err(CodecError::UnexpectedEof);
                }
                let params = KeyParams::read(data, 0);
                match params {
                    Some(params) => Ok(
                        Command::PutOtpAeadKey { params, data: read_bytes(data, 53, data.len()) }
                    ),
                    None => Err(CodecError::InvalidTag),
                }
            },
            CommandCode::PutWrapKey => {
                if data.len() < 61 {
                    return Err(CodecError::UnexpectedEof);
                }
                let params = KeyParams::read(data, 0);
                match params {
                    Some(params) => Ok(
                        Command::PutWrapKey {
                            params,
                            delegated_capabilities: Capability::from_bits(read_u64(data, 53)),
                            data: read_bytes(data, 61, data.len()),
                        }
                    ),
                    None => Err(CodecError::InvalidTag),
                }
            },
            CommandCode::ResetDevice => {
                if data.len() < 0 {
                    return Err(CodecError::UnexpectedEof);
                }
                if data.len() > 0 {
                    return Err(CodecError::TrailingBytes);
                }
                Ok(Command::ResetDevice)
            },
            CommandCode::SetLogIndex => {
                if data.len() < 2 {
                    return Err(CodecError::UnexpectedEof);
                }
                if data.len() > 2 {
                    return Err(CodecError::TrailingBytes);
                }
                Ok(Command::SetLogIndex { log_index: read_u16(data, 0) })
            },
            CommandCode::SetOption => {
                if data.len() < 3 {
                    return Err(CodecError::UnexpectedEof);
                }
                let announced: usize = read_u16(data, 1) as usize;
                if announced > data.len() - 3 {
                    return Err(CodecError::UnexpectedEof);
                }
                if announced < data.len() - 3 {
                    return Err(CodecError::TrailingBytes);
                }
                let tag = AuditTag::from_u8(data[0]);
                match tag {
                    Some(tag) => Ok(
                        Command::SetOption { tag, value: read_bytes(data, 3, data.len()) }
                    ),
                    None => Err(CodecError::InvalidTag),
                }
            },
            CommandCode::SignAttestationCertificate => {
                if data.len() < 4 {
                    return Err(CodecError::UnexpectedEof);
                }
                if data.len() > 4 {
                    return Err(CodecError::TrailingBytes);
                }
                Ok(
                    Command::SignAttestationCertificate {
                        key_id: read_u16(data, 0),
                        attestation_key_id: read_u16(data, 2),
                    }
                )
            },
            CommandCode::SignEcdsa => {
                if data.len() < 2 {
                    return Err(CodecError::UnexpectedEof);
                }
                Ok(
                    Command::SignEcdsa {
                        key_id: read_u16(data, 0),
                        digest: read_bytes(data, 2, data.len()),
                    }
                )
            },
            CommandCode::SignEddsa => {
                if data.len() < 2 {
                    return Err(CodecError::UnexpectedEof);
                }
                Ok(
                    Command::SignEddsa {
                        key_id: read_u16(data, 0),
                        data: read_bytes(data, 2, data.len()),
                    }
                )
            },
            CommandCode::SignHmac => {
                if data.len() < 2 {
                    return Err(CodecError::UnexpectedEof);
                }
                Ok(
                    Command::SignHmac {
                        key_id: read_u16(data, 0),
                        data: read_bytes(data, 2, data.len()),
                    }
                )
            },
            CommandCode::SignPkcs1 => {
                if data.len() < 2 {
                    return Err(CodecError::UnexpectedEof);
                }
                Ok(
                    Command::SignPkcs1 {
                        key_id: read_u16(data, 0),
                        digest: read_bytes(data, 2, data.len()),
                    }
                )
            },
            CommandCode::SignPss => {
                if data.len() < 5 {
                    return Err(CodecError::UnexpectedEof);
                }
                let mgf1_hash_alg = Algorithm::from_u8(data[2]);
                match mgf1_hash_alg {
                    Some(mgf1_hash_alg) => Ok(
                        Command::SignPss {
                            key_id: read_u16(data, 0),
                            mgf1_hash_alg,
                            salt_len: read_u16(data, 3),
                            digest: read_bytes(data, 5, data.len()),
                        }
                    ),
                    None => Err(CodecError::InvalidTag),
                }
            },
            CommandCode::UnwrapData => {
                if data.len() < 15 {
                    return Err(CodecError::UnexpectedEof);
                }
                Ok(
                    Command::UnwrapData {
                        wrap_key_id: read_u16(data, 0),
                        nonce: read_bytes(data, 2, 15),
                        ciphertext: read_bytes(data, 15, data.len()),
                    }
                )
            },
            CommandCode::VerifyHmac => {
                if data.len() < 2 {
                    return Err(CodecError::UnexpectedEof);
                }
                Ok(
                    Command::VerifyHmac {
                        key_id: read_u16(data, 0),
                        tag_and_data: read_bytes(data, 2, data.len()),
                    }
                )
            },
            CommandCode::WrapData => {
                if data.len() < 2 {
                    return Err(CodecError::UnexpectedEof);
                }
                Ok(
                    Command::WrapData {
                        wrap_key_id: read_u16(data, 0),
                        plaintext: read_bytes(data, 2, data.len()),
                    }
                )
            },
            _ => Err(CodecError::InvalidTag),
        }
    }
}

/// The round trip of `Command::BlinkDevice`.
proof fn lemma_command_blink_device_round_trip(c: Command<Seq<u8>>)
    requires
        c.wf(),
        c is BlinkDevice,
    ensures
        Command::from_payload(c.code(), c.payload()) == Ok::<Command<Seq<u8>>, CodecError>(c),
{
    let s = c.payload();
    if let Command::BlinkDevice { num_seconds } = c {
    }
}

/// The round trip of `Command::CreateSession`.
proof fn lemma_command_create_session_round_trip(c: Command<Seq<u8>>)
    requires
        c.wf(),
        c is CreateSession,
    ensures
        Command::from_payload(c.code(), c.payload()) == Ok::<Command<Seq<u8>>, CodecError>(c),
{
    let s = c.payload();
    if let Command::CreateSession { authentication_key_id, host_challenge } = c {
        assert(s.subrange(0, 2) =~= be16(authentication_key_id));
        lemma_u16_round_trip(s, 0, authentication_key_id);
        assert(s.subrange(2, 10) =~= host_challenge);
    }
}

/// The round trip of `Command::DeleteObject`.
proof fn lemma_command_delete_object_round_trip(c: Command<Seq<u8>>)
    requires
        c.wf(),
        c is DeleteObject,
    ensures
        Command::from_payload(c.code(), c.payload()) == Ok::<Command<Seq<u8>>, CodecError>(c),
{
    let s = c.payload();
    if let Command::DeleteObject { object_id, object_type } = c {
        assert(s.subrange(0, 2) =~= be16(object_id));
        lemma_u16_round_trip(s, 0, object_id);
        lemma_object_tags_round_trip(object_type, ObjectOrigin::Generated);
    }
}

/// The round trip of `Command::Echo`.
proof fn lemma_command_echo_round_trip(c: Command<Seq<u8>>)
    requires
        c.wf(),
        c is Echo,
    ensures
        Command::from_payload(c.code(), c.payload()) == Ok::<Command<Seq<u8>>, CodecError>(c),
{
    let s = c.payload();
    if let Command::Echo { message } = c {
        assert(s.subrange(0, s.len() as int) =~= message);
    }
}

/// The round trip of `Command::ExportWrapped`.
proof fn lemma_command_export_wrapped_round_trip(c: Command<Seq<u8>>)
    requires
        c.wf(),
        c is ExportWrapped,
    ensures
        Command::from_payload(c.code(), c.payload()) == Ok::<Command<Seq<u8>>, CodecError>(c),
{
    let s = c.payload();
    if let Command::ExportWrapped { wrap_key_id, object_type, object_id } = c {
        assert(s.subrange(0, 2) =~= be16(wrap_key_id));
        lemma_u16_round_trip(s, 0, wrap_key_id);
        lemma_object_tags_round_trip(object_type, ObjectOrigin::Generated);
        assert(s.subrange(3, 5) =~= be16(object_id));
        lemma_u16_round_trip(s, 3, object_id);
    }
}

/// The round trip of `Command::GenerateAsymmetricKey`.
proof fn lemma_command_generate_asymmetric_key_round_trip(c: Command<Seq<u8>>)
    requires
        c.wf(),
        c is GenerateAsymmetricKey,
    ensures
        Command::from_payload(c.code(), c.payload()) == Ok::<Command<Seq<u8>>, CodecError>(c),
{
    let s = c.payload();
    if let Command::GenerateAsymmetricKey { params } = c {
        assert(s.subrange(0, 53) =~= params.wire());
        lemma_key_params_round_trip(s, 0, params);
    }
}

/// The round trip of `Command::GenerateHmacKey`.
proof fn lemma_command_generate_hmac_key_round_trip(c: Command<Seq<u8>>)
    requires
        c.wf(),
        c is GenerateHmacKey,
    ensures
        Command::from_payload(c.code(), c.payload()) == Ok::<Command<Seq<u8>>, CodecError>(c),
{
    let s = c.payload();
    if let Command::GenerateHmacKey { params } = c {
        assert(s.subrange(0, 53) =~= params.wire());
        lemma_key_params_round_trip(s, 0, params);
    }
}

/// The round trip of `Command::GenerateWrapKey`.
proof fn lemma_command_generate_wrap_key_round_trip(c: Command<Seq<u8>>)
    requires
        c.wf(),
        c is GenerateWrapKey,
    ensures
        Command::from_payload(c.code(), c.payload()) == Ok::<Command<Seq<u8>>, CodecError>(c),
{
    let s = c.payload();
    if let Command::GenerateWrapKey { params, delegated_capabilities } = c {
        assert(s.subrange(0, 53) =~= params.wire());
        lemma_key_params_round_trip(s, 0, params);
        assert(s.subrange(53, 61) =~= be64(delegated_capabilities.bits));
        lemma_u64_round_trip(s, 53, delegated_capabilities.bits);
    }
}

/// The round trip of `Command::GetObjectInfo`.
proof fn lemma_command_get_object_info_round_trip(c: Command<Seq<u8>>)
    requires
        c.wf(),
        c is GetObjectInfo,
    ensures
        Command::from_payload(c.code(), c.payload()) == Ok::<Command<Seq<u8>>, CodecError>(c),
{
    let s = c.payload();
    if let Command::GetObjectInfo { object_id, object_type } = c {
        assert(s.subrange(0, 2) =~= be16(object_id));
        lemma_u16_round_trip(s, 0, object_id);
        lemma_object_tags_round_trip(object_type, ObjectOrigin::Generated);
    }
}

/// The round trip of `Command::GetOpaqueObject`.
proof fn lemma_command_get_opaque_object_round_trip(c: Command<Seq<u8>>)
    requires
        c.wf(),
        c is GetOpaqueObject,
    ensures
        Command::from_payload(c.code(), c.payload()) == Ok::<Command<Seq<u8>>, CodecError>(c),
{
    let s = c.payload();
    if let Command::GetOpaqueObject { object_id } = c {
        assert(s.subrange(0, 2) =~= be16(object_id));
        lemma_u16_round_trip(s, 0, object_id);
    }
}

/// The round trip of `Command::GetOption`.
proof fn lemma_command_get_option_round_trip(c: Command<Seq<u8>>)
    requires
        c.wf(),
        c is GetOption,
    ensures
        Command::from_payload(c.code(), c.payload()) == Ok::<Command<Seq<u8>>, CodecError>(c),
{
    let s = c.payload();
    if let Command::GetOption { tag } = c {
        assert(AuditTag::of_code(tag.code()) == Some(tag));
    }
}

/// The round trip of `Command::GetPseudoRandom`.
proof fn lemma_command_get_pseudo_random_round_trip(c: Command<Seq<u8>>)
    requires
        c.wf(),
        c is GetPseudoRandom,
    ensures
        Command::from_payload(c.code(), c.payload()) == Ok::<Command<Seq<u8>>, CodecError>(c),
{
    let s = c.payload();
    if let Command::GetPseudoRandom { bytes } = c {
        assert(s.subrange(0, 2) =~= be16(bytes));
        lemma_u16_round_trip(s, 0, bytes);
    }
}

/// The round trip of `Command::GetPublicKey`.
proof fn lemma_command_get_public_key_round_trip(c: Command<Seq<u8>>)
    requires
        c.wf(),
        c is GetPublicKey,
    ensures
        Command::from_payload(c.code(), c.payload()) == Ok::<Command<Seq<u8>>, CodecError>(c),
{
    let s = c.payload();
    if let Command::GetPublicKey { key_id } = c {
        assert(s.subrange(0, 2) =~= be16(key_id));
        lemma_u16_round_trip(s, 0, key_id);
    }
}

/// The round trip of `Command::ImportWrapped`.
proof fn lemma_command_import_wrapped_round_trip(c: Command<Seq<u8>>)
    requires
        c.wf(),
        c is ImportWrapped,
    ensures
        Command::from_payload(c.code(), c.payload()) == Ok::<Command<Seq<u8>>, CodecError>(c),
{
    let s = c.payload();
    if let Command::ImportWrapped { wrap_key_id, nonce, ciphertext } = c {
        assert(s.subrange(0, 2) =~= be16(wrap_key_id));
        lemma_u16_round_trip(s, 0, wrap_key_id);
        assert(s.subrange(2, 15) =~= nonce);
        assert(s.subrange(15, s.len() as int) =~= ciphertext);
    }
}

/// The round trip of `Command::ListObjects`.
proof fn lemma_command_list_objects_round_trip(c: Command<Seq<u8>>)
    requires
        c.wf(),
        c is ListObjects,
    ensures
        Command::from_payload(c.code(), c.payload()) == Ok::<Command<Seq<u8>>, CodecError>(c),
{
    let s = c.payload();
    if let Command::ListObjects { filters } = c {
        assert(s.subrange(0, s.len() as int) =~= filters);
    }
}

/// The round trip of `Command::PutAsymmetricKey`.
proof fn lemma_command_put_asymmetric_key_round_trip(c: Command<Seq<u8>>)
    requires
        c.wf(),
        c is PutAsymmetricKey,
    ensures
        Command::from_payload(c.code(), c.payload()) == Ok::<Command<Seq<u8>>, CodecError>(c),
{
    let s = c.payload();
    if let Command::PutAsymmetricKey { params, data } = c {
        assert(s.subrange(0, 53) =~= params.wire());
        lemma_key_params_round_trip(s, 0, params);
        assert(s.subrange(53, s.len() as int) =~= data);
    }
}

/// The round trip of `Command::PutAuthenticationKey`.
proof fn lemma_command_put_authentication_key_round_trip(c: Command<Seq<u8>>)
    requires
        c.wf(),
        c is PutAuthenticationKey,
    ensures
        Command::from_payload(c.code(), c.payload()) == Ok::<Command<Seq<u8>>, CodecError>(c),
{
    let s = c.payload();
    if let Command::PutAuthenticationKey {
        params,
        delegated_capabilities,
        authentication_key,
    } = c {
        assert(s.subrange(0, 53) =~= params.wire());
        lemma_key_params_round_trip(s, 0, params);
        assert(s.subrange(53, 61) =~= be64(delegated_capabilities.bits));
        lemma_u64_round_trip(s, 53, delegated_capabilities.bits);
        assert(s.subrange(61, 93) =~= authentication_key);
    }
}

/// The round trip of `Command::PutHmacKey`.
proof fn lemma_command_put_hmac_key_round_trip(c: Command<Seq<u8>>)
    requires
        c.wf(),
        c is PutHmacKey,
    ensures
        Command::from_payload(c.code(), c.payload()) == Ok::<Command<Seq<u8>>, CodecError>(c),
{
    let s = c.payload();
    if let Command::PutHmacKey { params, hmac_key } = c {
        assert(s.subrange(0, 53) =~= params.wire());
        lemma_key_params_round_trip(s, 0, params);
        assert(s.subrange(53, s.len() as int) =~= hmac_key);
    }
}

/// The round trip of `Command::PutOpaqueObject`.
proof fn lemma_command_put_opaque_object_round_trip(c: Command<Seq<u8>>)
    requires
        c.wf(),
        c is PutOpaqueObject,
    ensures
        Command::from_payload(c.code(), c.payload()) == Ok::<Command<Seq<u8>>, CodecError>(c),
{
    let s = c.payload();
    if let Command::PutOpaqueObject { params, data } = c {
        assert(s.subrange(0, 53) =~= params.wire());
        lemma_key_params_round_trip(s, 0, params);
        assert(s.subrange(53, s.len() as int) =~= data);
    }
}

/// The round trip of `Command::PutOtpAeadKey`.
proof fn lemma_command_put_otp_aead_key_round_trip(c: Command<Seq<u8>>)
    requires
        c.wf(),
        c is PutOtpAeadKey,
    ensures
        Command::from_payload(c.code(), c.payload()) == Ok::<Command<Seq<u8>>, CodecError>(c),
{
    let s = c.payload();
    if let Command::PutOtpAeadKey { params, data } = c {
        assert(s.subrange(0, 53) =~= params.wire());
        lemma_key_params_round_trip(s, 0, params);
        assert(s.subrange(53, s.len() as int) =~= data);
    }
}

/// The round trip of `Command::PutWrapKey`.
proof fn lemma_command_put_wrap_key_round_trip(c: Command<Seq<u8>>)
    requires
        c.wf(),
        c is PutWrapKey,
    ensures
        Command::from_payload(c.code(), c.payload()) == Ok::<Command<Seq<u8>>, CodecError>(c),
{
    let s = c.payload();
    if let Command::PutWrapKey { params, delegated_capabilities, data } = c {
        assert(s.subrange(0, 53) =~= params.wire());
        lemma_key_params_round_trip(s, 0, params);
        assert(s.subrange(53, 61) =~= be64(delegated_capabilities.bits));
        lemma_u64_round_trip(s, 53, delegated_capabilities.bits);
        assert(s.subrange(61, s.len() as int) =~= data);
    }
}

/// The round trip of `Command::SetLogIndex`.
proof fn lemma_command_set_log_index_round_trip(c: Command<Seq<u8>>)
    requires
        c.wf(),
        c is SetLogIndex,
    ensures
        Command::from_payload(c.code(), c.payload()) == Ok::<Command<Seq<u8>>, CodecError>(c),
{
    let s = c.payload();
    if let Command::SetLogIndex { log_index } = c {
        assert(s.subrange(0, 2) =~= be16(log_index));
        lemma_u16_round_trip(s, 0, log_index);
    }
}

/// The round trip of `Command::SetOption`.
proof fn lemma_command_set_option_round_trip(c: Command<Seq<u8>>)
    requires
        c.wf(),
        c is SetOption,
    ensures
        Command::from_payload(c.code(), c.payload()) == Ok::<Command<Seq<u8>>, CodecError>(c),
{
    let s = c.payload();
    if let Command::SetOption { tag, value } = c {
        assert(AuditTag::of_code(tag.code()) == Some(tag));
        assert(s.subrange(1, 3) =~= be16(value.len() as u16));
        lemma_u16_round_trip(s, 1, value.len() as u16);
        assert(s.subrange(3, s.len() as int) =~= value);
    }
}

/// The round trip of `Command::SignAttestationCertificate`.
proof fn lemma_command_sign_attestation_certificate_round_trip(c: Command<Seq<u8>>)
    requires
        c.wf(),
        c is SignAttestationCertificate,
    ensures
        Command::from_payload(c.code(), c.payload()) == Ok::<Command<Seq<u8>>, CodecError>(c),
{
    let s = c.payload();
    if let Command::SignAttestationCertificate { key_id, attestation_key_id } = c {
        assert(s.subrange(0, 2) =~= be16(key_id));
        lemma_u16_round_trip(s, 0, key_id);
        assert(s.subrange(2, 4) =~= be16(attestation_key_id));
        lemma_u16_round_trip(s, 2, attestation_key_id);
    }
}

/// The round trip of `Command::SignEcdsa`.
proof fn lemma_command_sign_ecdsa_round_trip(c: Command<Seq<u8>>)
    requires
        c.wf(),
        c is SignEcdsa,
    ensures
        Command::from_payload(c.code(), c.payload()) == Ok::<Command<Seq<u8>>, CodecError>(c),
{
    let s = c.payload();
    if let Command::SignEcdsa { key_id, digest } = c {
        assert(s.subrange(0, 2) =~= be16(key_id));
        lemma_u16_round_trip(s, 0, key_id);
        assert(s.subrange(2, s.len() as int) =~= digest);
    }
}

/// The round trip of `Command::SignEddsa`.
proof fn lemma_command_sign_eddsa_round_trip(c: Command<Seq<u8>>)
    requires
        c.wf(),
        c is SignEddsa,
    ensures
        Command::from_payload(c.code(), c.payload()) == Ok::<Command<Seq<u8>>, CodecError>(c),
{
    let s = c.payload();
    if let Command::SignEddsa { key_id, data } = c {
        assert(s.subrange(0, 2) =~= be16(key_id));
        lemma_u16_round_trip(s, 0, key_id);
        assert(s.subrange(2, s.len() as int) =~= data);
    }
}

/// The round trip of `Command::SignHmac`.
proof fn lemma_command_sign_hmac_round_trip(c: Command<Seq<u8>>)
    requires
        c.wf(),
        c is SignHmac,
    ensures
        Command::from_payload(c.code(), c.payload()) == Ok::<Command<Seq<u8>>, CodecError>(c),
{
    let s = c.payload();
    if let Command::SignHmac { key_id, data } = c {
        assert(s.subrange(0, 2) =~= be16(key_id));
        lemma_u16_round_trip(s, 0, key_id);
        assert(s.subrange(2, s.len() as int) =~= data);
    }
}

/// The round trip of `Command::SignPkcs1`.
proof fn lemma_command_sign_pkcs1_round_trip(c: Command<Seq<u8>>)
    requires
        c.wf(),
        c is SignPkcs1,
    ensures
        Command::from_payload(c.code(), c.payload()) == Ok::<Command<Seq<u8>>, CodecError>(c),
{
    let s = c.payload();
    if let Command::SignPkcs1 { key_id, digest } = c {
        assert(s.subrange(0, 2) =~= be16(key_id));
        lemma_u16_round_trip(s, 0, key_id);
        assert(s.subrange(2, s.len() as int) =~= digest);
    }
}

/// The round trip of `Command::SignPss`.
proof fn lemma_command_sign_pss_round_trip(c: Command<Seq<u8>>)
    requires
        c.wf(),
        c is SignPss,
    ensures
        Command::from_payload(c.code(), c.payload()) == Ok::<Command<Seq<u8>>, CodecError>(c),
{
    let s = c.payload();
    if let Command::SignPss { key_id, mgf1_hash_alg, salt_len, digest } = c {
        assert(s.subrange(0, 2) =~= be16(key_id));
        lemma_u16_round_trip(s, 0, key_id);
        lemma_algorithm_round_trip(mgf1_hash_alg);
        assert(s.subrange(3, 5) =~= be16(salt_len));
        lemma_u16_round_trip(s, 3, salt_len);
        assert(s.subrange(5, s.len() as int) =~= digest);
    }
}

/// The round trip of `Command::UnwrapData`.
proof fn lemma_command_unwrap_data_round_trip(c: Command<Seq<u8>>)
    requires
        c.wf(),
        c is UnwrapData,
    ensures
        Command::from_payload(c.code(), c.payload()) == Ok::<Command<Seq<u8>>, CodecError>(c),
{
    let s = c.payload();
    if let Command::UnwrapData { wrap_key_id, nonce, ciphertext } = c {
        assert(s.subrange(0, 2) =~= be16(wrap_key_id));
        lemma_u16_round_trip(s, 0, wrap_key_id);
        assert(s.subrange(2, 15) =~= nonce);
        assert(s.subrange(15, s.len() as int) =~= ciphertext);
    }
}

/// The round trip of `Command::VerifyHmac`.
proof fn lemma_command_verify_hmac_round_trip(c: Command<Seq<u8>>)
    requires
        c.wf(),
        c is VerifyHmac,
    ensures
        Command::from_payload(c.code(), c.payload()) == Ok::<Command<Seq<u8>>, CodecError>(c),
{
    let s = c.payload();
    if let Command::VerifyHmac { key_id, tag_and_data } = c {
        assert(s.subrange(0, 2) =~= be16(key_id));
        lemma_u16_round_trip(s, 0, key_id);
        assert(s.subrange(2, s.len() as int) =~= tag_and_data);
    }
}

/// The round trip of `Command::WrapData`.
proof fn lemma_command_wrap_data_round_trip(c: Command<Seq<u8>>)
    requires
        c.wf(),
        c is WrapData,
    ensures
        Command::from_payload(c.code(), c.payload()) == Ok::<Command<Seq<u8>>, CodecError>(c),
{
    let s = c.payload();
    if let Command::WrapData { wrap_key_id, plaintext } = c {
        assert(s.subrange(0, 2) =~= be16(wrap_key_id));
        lemma_u16_round_trip(s, 0, wrap_key_id);
        assert(s.subrange(2, s.len() as int) =~= plaintext);
    }
}

/// Decoding the payload of a well-formed command, under the command's code,
/// gives the command again.
pub proof fn lemma_command_round_trip(c: Command<Seq<u8>>)
    requires
        c.wf(),
    ensures
        Command::from_payload(c.code(), c.payload()) == Ok::<Command<Seq<u8>>, CodecError>(c),
{
    match c {
        Command::BlinkDevice { .. } => {
            lemma_command_blink_device_round_trip(c);
        },
        Command::CloseSession => {},
        Command::CreateSession { .. } => {
            lemma_command_create_session_round_trip(c);
        },
        Command::DeleteObject { .. } => {
            lemma_command_delete_object_round_trip(c);
        },
        Command::DeviceInfo => {},
        Command::Echo { .. } => {
            lemma_command_echo_round_trip(c);
        },
        Command::ExportWrapped { .. } => {
            lemma_command_export_wrapped_round_trip(c);
        },
        Command::GenerateAsymmetricKey { .. } => {
            lemma_command_generate_asymmetric_key_round_trip(c);
        },
        Command::GenerateHmacKey { .. } => {
            lemma_command_generate_hmac_key_round_trip(c);
        },
        Command::GenerateWrapKey { .. } => {
            lemma_command_generate_wrap_key_round_trip(c);
        },
        Command::GetLogEntries => {},
        Command::GetObjectInfo { .. } => {
            lemma_command_get_object_info_round_trip(c);
        },
        Command::GetOpaqueObject { .. } => {
            lemma_command_get_opaque_object_round_trip(c);
        },
        Command::GetOption { .. } => {
            lemma_command_get_option_round_trip(c);
        },
        Command::GetPseudoRandom { .. } => {
            lemma_command_get_pseudo_random_round_trip(c);
        },
        Command::GetPublicKey { .. } => {
            lemma_command_get_public_key_round_trip(c);
        },
        Command::GetStorageInfo => {},
        Command::ImportWrapped { .. } => {
            lemma_command_import_wrapped_round_trip(c);
        },
        Command::ListObjects { .. } => {
            lemma_command_list_objects_round_trip(c);
        },
        Command::PutAsymmetricKey { .. } => {
            lemma_command_put_asymmetric_key_round_trip(c);
        },
        Command::PutAuthenticationKey { .. } => {
            lemma_command_put_authentication_key_round_trip(c);
        },
        Command::PutHmacKey { .. } => {
            lemma_command_put_hmac_key_round_trip(c);
        },
        Command::PutOpaqueObject { .. } => {
            lemma_command_put_opaque_object_round_trip(c);
        },
        Command::PutOtpAeadKey { .. } => {
            lemma_command_put_otp_aead_key_round_trip(c);
        },
        Command::PutWrapKey { .. } => {
            lemma_command_put_wrap_key_round_trip(c);
        },
        Command::ResetDevice => {},
        Command::SetLogIndex { .. } => {
            lemma_command_set_log_index_round_trip(c);
        },
        Command::SetOption { .. } => {
            lemma_command_set_option_round_trip(c);
        },
        Command::SignAttestationCertificate { .. } => {
            lemma_command_sign_attestation_certificate_round_trip(c);
        },
        Command::SignEcdsa { .. } => {
            lemma_command_sign_ecdsa_round_trip(c);
        },
        Command::SignEddsa { .. } => {
            lemma_command_sign_eddsa_round_trip(c);
        },
        Command::SignHmac { .. } => {
            lemma_command_sign_hmac_round_trip(c);
        },
        Command::SignPkcs1 { .. } => {
            lemma_command_sign_pkcs1_round_trip(c);
        },
        Command::SignPss { .. } => {
            lemma_command_sign_pss_round_trip(c);
        },
        Command::UnwrapData { .. } => {
            lemma_command_unwrap_data_round_trip(c);
        },
        Command::VerifyHmac { .. } => {
            lemma_command_verify_hmac_round_trip(c);
        },
        Command::WrapData { .. } => {
            lemma_command_wrap_data_round_trip(c);
        },
    }
}

} // verus!
