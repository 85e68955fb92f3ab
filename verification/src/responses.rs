//! Typed responses and their payloads.
//!
//! The payload of a response is laid out as the payload of a command is: the
//! fields in the order of their declaration, with a last byte string that
//! takes the rest.

use crate::algorithm::{lemma_algorithm_round_trip, Algorithm};
use crate::codec::{be16, be32, lemma_u16_round_trip, lemma_u32_round_trip, put_bytes, put_u16,
    put_u32, put_u8, read_bytes, read_u16, read_u32, u16_at, u32_at, CodecError};
use crate::command::CommandCode;
use crate::object::{lemma_object_info_round_trip, lemma_object_tags_round_trip, ObjectInfo,
    ObjectOrigin, ObjectType};
use vstd::prelude::*;

verus! {

/// The answer to a command. `B` is the type of a byte string: `Vec<u8>` in running code,
/// `Seq<u8>` in contracts.
#[derive(Debug)]
pub enum Response<B = Vec<u8>> {
    /// The light blinks.
    BlinkDevice,
    /// The session has ended.
    CloseSession,
    /// The device's half of the handshake.
    CreateSession {
        /// Eight random bytes of the device.
        card_challenge: B,
        /// Proof that the device holds the key.
        card_cryptogram: B,
    },
    /// The object is gone.
    DeleteObject,
    /// Version, serial number and algorithms of the device.
    DeviceInfo {
        /// Major version of the firmware.
        major_version: u8,
        /// Minor version of the firmware.
        minor_version: u8,
        /// Build of the firmware.
        build_version: u8,
        /// Serial number of the device.
        serial_number: u32,
        /// Number of entries the audit log holds.
        log_store_capacity: u8,
        /// Number of entries in the audit log.
        log_store_used: u8,
        /// The identifiers of the algorithms the device supports, one byte each.
        algorithms: B,
    },
    /// The bytes that were sent.
    Echo {
        /// The bytes.
        message: B,
    },
    /// An object, encrypted under a wrap key.
    ExportWrapped {
        /// Nonce of the wrapped message.
        nonce: B,
        /// The wrapped object and its tag.
        ciphertext: B,
    },
    /// A new asymmetric key.
    GenerateAsymmetricKey {
        /// Number of the new key.
        key_id: u16,
    },
    /// A new HMAC key.
    GenerateHmacKey {
        /// Number of the new key.
        key_id: u16,
    },
    /// A new wrap key.
    GenerateWrapKey {
        /// Number of the new key.
        key_id: u16,
    },
    /// The audit log.
    GetLogEntries {
        /// Number of boots that were not logged.
        unlogged_boot_events: u16,
        /// Number of authentications that were not logged.
        unlogged_auth_events: u16,
        /// Number of entries that follow.
        num_entries: u8,
        /// The entries, 32 bytes each.
        entries: B,
    },
    /// The description of an object.
    GetObjectInfo {
        /// The description.
        info: ObjectInfo<B>,
    },
    /// An opaque object.
    GetOpaqueObject {
        /// The bytes of the object.
        data: B,
    },
    /// An audit setting.
    GetOption {
        /// The value of the setting.
        value: B,
    },
    /// Pseudo-random bytes.
    GetPseudoRandom {
        /// The bytes.
        bytes: B,
    },
    /// The public half of an asymmetric key.
    GetPublicKey {
        /// Algorithm of the key.
        algorithm: Algorithm,
        /// The public key.
        bytes: B,
    },
    /// How much storage is free.
    GetStorageInfo {
        /// Number of object records in all.
        total_records: u16,
        /// Number of object records that are free.
        free_records: u16,
        /// Number of pages in all.
        total_pages: u16,
        /// Number of pages that are free.
        free_pages: u16,
        /// Size of a page in bytes.
        page_size: u16,
    },
    /// The object that was imported.
    ImportWrapped {
        /// Type of the object.
        object_type: ObjectType,
        /// Number of the object.
        object_id: u16,
    },
    /// The objects that match.
    ListObjects {
        /// Number, type and sequence of each object: four bytes each.
        entries: B,
    },
    /// The asymmetric key is stored.
    PutAsymmetricKey {
        /// Number of the new key.
        key_id: u16,
    },
    /// The authentication key is stored.
    PutAuthenticationKey {
        /// Number of the new key.
        key_id: u16,
    },
    /// The HMAC key is stored.
    PutHmacKey {
        /// Number of the new key.
        key_id: u16,
    },
    /// The opaque object is stored.
    PutOpaqueObject {
        /// Number of the new object.
        object_id: u16,
    },
    /// The Yubico OTP key is stored.
    PutOtpAeadKey {
        /// Number of the new key.
        key_id: u16,
    },
    /// The wrap key is stored.
    PutWrapKey {
        /// Number of the new key.
        key_id: u16,
    },
    /// The device is about to restart.
    ResetDevice {
        /// The byte 1.
        status: u8,
    },
    /// The entries are marked.
    SetLogIndex,
    /// The setting is changed.
    SetOption,
    /// An attestation certificate.
    SignAttestationCertificate {
        /// The X.509 certificate in DER.
        certificate: B,
    },
    /// An ECDSA signature.
    SignEcdsa {
        /// The signature in DER.
        signature: B,
    },
    /// An Ed25519 signature.
    SignEddsa {
        /// The 64 bytes of the signature.
        signature: B,
    },
    /// An HMAC tag.
    SignHmac {
        /// The tag.
        tag: B,
    },
    /// An RSASSA-PKCS#1 v1.5 signature.
    SignPkcs1 {
        /// The signature.
        signature: B,
    },
    /// An RSASSA-PSS signature.
    SignPss {
        /// The signature.
        signature: B,
    },
    /// Data, decrypted under a wrap key.
    UnwrapData {
        /// The data.
        data: B,
    },
    /// Whether an HMAC tag is right.
    VerifyHmac {
        /// 1 where the tag is right, 0 where it is not.
        result: u8,
    },
    /// Data, encrypted under a wrap key.
    WrapData {
        /// Nonce of the wrapped message.
        nonce: B,
        /// The ciphertext and its tag.
        ciphertext: B,
    },
}

impl View for Response<Vec<u8>> {
    type V = Response<Seq<u8>>;

    open spec fn view(&self) -> Response<Seq<u8>> {
        match *self {
            Response::BlinkDevice => Response::BlinkDevice,
            Response::CloseSession => Response::CloseSession,
            Response::CreateSession { card_challenge, card_cryptogram } => Response::CreateSession {
                card_challenge: card_challenge@,
                card_cryptogram: card_cryptogram@,
            },
            Response::DeleteObject => Response::DeleteObject,
            Response::DeviceInfo {
                major_version,
                minor_version,
                build_version,
                serial_number,
                log_store_capacity,
                log_store_used,
                algorithms,
            } => Response::DeviceInfo {
                major_version,
                minor_version,
                build_version,
                serial_number,
                log_store_capacity,
                log_store_used,
                algorithms: algorithms@,
            },
            Response::Echo { message } => Response::Echo { message: message@ },
            Response::ExportWrapped { nonce, ciphertext } => Response::ExportWrapped {
                nonce: nonce@,
                ciphertext: ciphertext@,
            },
            Response::GenerateAsymmetricKey { key_id } => Response::GenerateAsymmetricKey { key_id },
            Response::GenerateHmacKey { key_id } => Response::GenerateHmacKey { key_id },
            Response::GenerateWrapKey { key_id } => Response::GenerateWrapKey { key_id },
            Response::GetLogEntries {
                unlogged_boot_events,
                unlogged_auth_events,
                num_entries,
                entries,
            } => Response::GetLogEntries {
                unlogged_boot_events,
                unlogged_auth_events,
                num_entries,
                entries: entries@,
            },
            Response::GetObjectInfo { info } => Response::GetObjectInfo { info: info@ },
            Response::GetOpaqueObject { data } => Response::GetOpaqueObject { data: data@ },
            Response::GetOption { value } => Response::GetOption { value: value@ },
            Response::GetPseudoRandom { bytes } => Response::GetPseudoRandom { bytes: bytes@ },
            Response::GetPublicKey { algorithm, bytes } => Response::GetPublicKey {
                algorithm,
                bytes: bytes@,
            },
            Response::GetStorageInfo {
                total_records,
                free_records,
                total_pages,
                free_pages,
                page_size,
            } => Response::GetStorageInfo {
                total_records,
                free_records,
                total_pages,
                free_pages,
                page_size,
            },
            Response::ImportWrapped {
                object_type,
                object_id,
            } => Response::ImportWrapped { object_type, object_id },
            Response::ListObjects { entries } => Response::ListObjects { entries: entries@ },
            Response::PutAsymmetricKey { key_id } => Response::PutAsymmetricKey { key_id },
            Response::PutAuthenticationKey { key_id } => Response::PutAuthenticationKey { key_id },
            Response::PutHmacKey { key_id } => Response::PutHmacKey { key_id },
            Response::PutOpaqueObject { object_id } => Response::PutOpaqueObject { object_id },
            Response::PutOtpAeadKey { key_id } => Response::PutOtpAeadKey { key_id },
            Response::PutWrapKey { key_id } => Response::PutWrapKey { key_id },
            Response::ResetDevice { status } => Response::ResetDevice { status },
            Response::SetLogIndex => Response::SetLogIndex,
            Response::SetOption => Response::SetOption,
            Response::SignAttestationCertificate { certificate } => Response::SignAttestationCertificate { certificate: certificate@ },
            Response::SignEcdsa { signature } => Response::SignEcdsa { signature: signature@ },
            Response::SignEddsa { signature } => Response::SignEddsa { signature: signature@ },
            Response::SignHmac { tag } => Response::SignHmac { tag: tag@ },
            Response::SignPkcs1 { signature } => Response::SignPkcs1 { signature: signature@ },
            Response::SignPss { signature } => Response::SignPss { signature: signature@ },
            Response::UnwrapData { data } => Response::UnwrapData { data: data@ },
            Response::VerifyHmac { result } => Response::VerifyHmac { result },
            Response::WrapData { nonce, ciphertext } => Response::WrapData {
                nonce: nonce@,
                ciphertext: ciphertext@,
            },
        }
    }
}

impl Response<Seq<u8>> {
    /// The command that this answers.
    pub open spec fn code(self) -> CommandCode {
        match self {
            Response::BlinkDevice => CommandCode::BlinkDevice,
            Response::CloseSession => CommandCode::CloseSession,
            Response::CreateSession { .. } => CommandCode::CreateSession,
            Response::DeleteObject => CommandCode::DeleteObject,
            Response::DeviceInfo { .. } => CommandCode::DeviceInfo,
            Response::Echo { .. } => CommandCode::Echo,
            Response::ExportWrapped { .. } => CommandCode::ExportWrapped,
            Response::GenerateAsymmetricKey { .. } => CommandCode::GenerateAsymmetricKey,
            Response::GenerateHmacKey { .. } => CommandCode::GenerateHmacKey,
            Response::GenerateWrapKey { .. } => CommandCode::GenerateWrapKey,
            Response::GetLogEntries { .. } => CommandCode::GetLogEntries,
            Response::GetObjectInfo { .. } => CommandCode::GetObjectInfo,
            Response::GetOpaqueObject { .. } => CommandCode::GetOpaqueObject,
            Response::GetOption { .. } => CommandCode::GetOption,
            Response::GetPseudoRandom { .. } => CommandCode::GetPseudoRandom,
            Response::GetPublicKey { .. } => CommandCode::GetPublicKey,
            Response::GetStorageInfo { .. } => CommandCode::GetStorageInfo,
            Response::ImportWrapped { .. } => CommandCode::ImportWrapped,
            Response::ListObjects { .. } => CommandCode::ListObjects,
            Response::PutAsymmetricKey { .. } => CommandCode::PutAsymmetricKey,
            Response::PutAuthenticationKey { .. } => CommandCode::PutAuthenticationKey,
            Response::PutHmacKey { .. } => CommandCode::PutHmacKey,
            Response::PutOpaqueObject { .. } => CommandCode::PutOpaqueObject,
            Response::PutOtpAeadKey { .. } => CommandCode::PutOtpAeadKey,
            Response::PutWrapKey { .. } => CommandCode::PutWrapKey,
            Response::ResetDevice { .. } => CommandCode::ResetDevice,
            Response::SetLogIndex => CommandCode::SetLogIndex,
            Response::SetOption => CommandCode::SetOption,
            Response::SignAttestationCertificate { .. } => CommandCode::SignAttestationCertificate,
            Response::SignEcdsa { .. } => CommandCode::SignEcdsa,
            Response::SignEddsa { .. } => CommandCode::SignEddsa,
            Response::SignHmac { .. } => CommandCode::SignHmac,
            Response::SignPkcs1 { .. } => CommandCode::SignPkcs1,
            Response::SignPss { .. } => CommandCode::SignPss,
            Response::UnwrapData { .. } => CommandCode::UnwrapData,
            Response::VerifyHmac { .. } => CommandCode::VerifyHmac,
            Response::WrapData { .. } => CommandCode::WrapData,
        }
    }

    /// Byte strings of fixed width have that width, and a byte string that
    /// carries its length in two bytes is short enough for them.
    pub open spec fn wf(self) -> bool {
        match self {
            Response::CreateSession {
                card_challenge,
                card_cryptogram,
                ..
            } => card_challenge.len() == 8 && card_cryptogram.len() == 8,
            Response::ExportWrapped { nonce, .. } => nonce.len() == 13,
            Response::GetObjectInfo { info, .. } => info.wf(),
            Response::SignEddsa { signature, .. } => signature.len() == 64,
            Response::WrapData { nonce, .. } => nonce.len() == 13,
            _ => true,
        }
    }

    /// The bytes of the payload: the fields in the order of their
    /// declaration.
    pub open spec fn payload(self) -> Seq<u8> {
        match self {
            Response::BlinkDevice => Seq::<u8>::empty(),
            Response::CloseSession => Seq::<u8>::empty(),
            Response::CreateSession {
                card_challenge,
                card_cryptogram,
            } => card_challenge + card_cryptogram,
            Response::DeleteObject => Seq::<u8>::empty(),
            Response::DeviceInfo {
                major_version,
                minor_version,
                build_version,
                serial_number,
                log_store_capacity,
                log_store_used,
                algorithms,
            } => seq![major_version] + seq![minor_version] + seq![build_version] + be32(serial_number) + seq![log_store_capacity] + seq![log_store_used] + algorithms,
            Response::Echo { message } => message,
            Response::ExportWrapped { nonce, ciphertext } => nonce + ciphertext,
            Response::GenerateAsymmetricKey { key_id } => be16(key_id),
            Response::GenerateHmacKey { key_id } => be16(key_id),
            Response::GenerateWrapKey { key_id } => be16(key_id),
            Response::GetLogEntries {
                unlogged_boot_events,
                unlogged_auth_events,
                num_entries,
                entries,
            } => be16(unlogged_boot_events) + be16(unlogged_auth_events) + seq![num_entries] + entries,
            Response::GetObjectInfo { info } => info.wire(),
            Response::GetOpaqueObject { data } => data,
            Response::GetOption { value } => value,
            Response::GetPseudoRandom { bytes } => bytes,
            Response::GetPublicKey { algorithm, bytes } => seq![algorithm.code()] + bytes,
            Response::GetStorageInfo {
                total_records,
                free_records,
                total_pages,
                free_pages,
                page_size,
            } => be16(total_records) + be16(free_records) + be16(total_pages) + be16(free_pages) + be16(page_size),
            Response::ImportWrapped {
                object_type,
                object_id,
            } => seq![object_type.code()] + be16(object_id),
            Response::ListObjects { entries } => entries,
            Response::PutAsymmetricKey { key_id } => be16(key_id),
            Response::PutAuthenticationKey { key_id } => be16(key_id),
            Response::PutHmacKey { key_id } => be16(key_id),
            Response::PutOpaqueObject { object_id } => be16(object_id),
            Response::PutOtpAeadKey { key_id } => be16(key_id),
            Response::PutWrapKey { key_id } => be16(key_id),
            Response::ResetDevice { status } => seq![status],
            Response::SetLogIndex => Seq::<u8>::empty(),
            Response::SetOption => Seq::<u8>::empty(),
            Response::SignAttestationCertificate { certificate } => certificate,
            Response::SignEcdsa { signature } => signature,
            Response::SignEddsa { signature } => signature,
            Response::SignHmac { tag } => tag,
            Response::SignPkcs1 { signature } => signature,
            Response::SignPss { signature } => signature,
            Response::UnwrapData { data } => data,
            Response::VerifyHmac { result } => seq![result],
            Response::WrapData { nonce, ciphertext } => nonce + ciphertext,
        }
    }

    /// The response that a payload holds, or the reason why it holds none: it is
    /// too short, bytes are left over, or a byte names no member of its
    /// enumeration.
    pub open spec fn from_payload(
        code: CommandCode,
        s: Seq<u8>,
    ) -> Result<Response<Seq<u8>>, CodecError> {
        match code {
            CommandCode::BlinkDevice => {
                if s.len() < 0 {
                    Err(CodecError::UnexpectedEof)
                } else if s.len() > 0 {
                    Err(CodecError::TrailingBytes)
                } else {
                    Ok(Response::BlinkDevice)
                }
            },
            CommandCode::CloseSession => {
                if s.len() < 0 {
                    Err(CodecError::UnexpectedEof)
                } else if s.len() > 0 {
                    Err(CodecError::TrailingBytes)
                } else {
                    Ok(Response::CloseSession)
                }
            },
            CommandCode::CreateSession => {
                if s.len() < 16 {
                    Err(CodecError::UnexpectedEof)
                } else if s.len() > 16 {
                    Err(CodecError::TrailingBytes)
                } else {
                    Ok(
                        Response::CreateSession {
                            card_challenge: s.subrange(0, 8),
                            card_cryptogram: s.subrange(8, 16),
                        }
                    )
                }
            },
            CommandCode::DeleteObject => {
                if s.len() < 0 {
                    Err(CodecError::UnexpectedEof)
                } else if s.len() > 0 {
                    Err(CodecError::TrailingBytes)
                } else {
                    Ok(Response::DeleteObject)
                }
            },
            CommandCode::DeviceInfo => {
                if s.len() < 9 {
                    Err(CodecError::UnexpectedEof)
                } else {
                    Ok(
                        Response::DeviceInfo {
                            major_version: s[0],
                            minor_version: s[1],
                            build_version: s[2],
                            serial_number: u32_at(s, 3),
                            log_store_capacity: s[7],
                            log_store_used: s[8],
                            algorithms: s.subrange(9, s.len() as int),
                        }
                    )
                }
            },
            CommandCode::Echo => {
                if s.len() < 0 {
                    Err(CodecError::UnexpectedEof)
                } else {
                    Ok(Response::Echo { message: s.subrange(0, s.len() as int) })
                }
            },
            CommandCode::ExportWrapped => {
                if s.len() < 13 {
                    Err(CodecError::UnexpectedEof)
                } else {
                    Ok(
                        Response::ExportWrapped {
                            nonce: s.subrange(0, 13),
                            ciphertext: s.subrange(13, s.len() as int),
                        }
                    )
                }
            },
            CommandCode::GenerateAsymmetricKey => {
                if s.len() < 2 {
                    Err(CodecError::UnexpectedEof)
                } else if s.len() > 2 {
                    Err(CodecError::TrailingBytes)
                } else {
                    Ok(Response::GenerateAsymmetricKey { key_id: u16_at(s, 0) })
                }
            },
            CommandCode::GenerateHmacKey => {
                if s.len() < 2 {
                    Err(CodecError::UnexpectedEof)
                } else if s.len() > 2 {
                    Err(CodecError::TrailingBytes)
                } else {
                    Ok(Response::GenerateHmacKey { key_id: u16_at(s, 0) })
                }
            },
            CommandCode::GenerateWrapKey => {
                if s.len() < 2 {
                    Err(CodecError::UnexpectedEof)
                } else if s.len() > 2 {
                    Err(CodecError::TrailingBytes)
                } else {
                    Ok(Response::GenerateWrapKey { key_id: u16_at(s, 0) })
                }
            },
            CommandCode::GetLogEntries => {
                if s.len() < 5 {
                    Err(CodecError::UnexpectedEof)
                } else {
                    Ok(
                        Response::GetLogEntries {
                            unlogged_boot_events: u16_at(s, 0),
                            unlogged_auth_events: u16_at(s, 2),
                            num_entries: s[4],
                            entries: s.subrange(5, s.len() as int),
                        }
                    )
                }
            },
            CommandCode::GetObjectInfo => {
                if s.len() < 66 {
                    Err(CodecError::UnexpectedEof)
                } else if s.len() > 66 {
                    Err(CodecError::TrailingBytes)
                } else {
                    match ObjectInfo::at(s, 0) {
                        Some(info) => Ok(Response::GetObjectInfo { info }),
                        None => Err(CodecError::InvalidTag),
                    }
                }
            },
            CommandCode::GetOpaqueObject => {
                if s.len() < 0 {
                    Err(CodecError::UnexpectedEof)
                } else {
                    Ok(Response::GetOpaqueObject { data: s.subrange(0, s.len() as int) })
                }
            },
            CommandCode::GetOption => {
                if s.len() < 0 {
                    Err(CodecError::UnexpectedEof)
                } else {
                    Ok(Response::GetOption { value: s.subrange(0, s.len() as int) })
                }
            },
            CommandCode::GetPseudoRandom => {
                if s.len() < 0 {
                    Err(CodecError::UnexpectedEof)
                } else {
                    Ok(Response::GetPseudoRandom { bytes: s.subrange(0, s.len() as int) })
                }
            },
            CommandCode::GetPublicKey => {
                if s.len() < 1 {
                    Err(CodecError::UnexpectedEof)
                } else {
                    match Algorithm::of_code(s[0]) {
                        Some(algorithm) => Ok(
                            Response::GetPublicKey {
                                algorithm,
                                bytes: s.subrange(1, s.len() as int),
                            }
                        ),
                        None => Err(CodecError::InvalidTag),
                    }
                }
            },
            CommandCode::GetStorageInfo => {
                if s.len() < 10 {
                    Err(CodecError::UnexpectedEof)
                } else if s.len() > 10 {
                    Err(CodecError::TrailingBytes)
                } else {
                    Ok(
                        Response::GetStorageInfo {
                            total_records: u16_at(s, 0),
                            free_records: u16_at(s, 2),
                            total_pages: u16_at(s, 4),
                            free_pages: u16_at(s, 6),
                            page_size: u16_at(s, 8),
                        }
                    )
                }
            },
            CommandCode::ImportWrapped => {
                if s.len() < 3 {
                    Err(CodecError::UnexpectedEof)
                } else if s.len() > 3 {
                    Err(CodecError::TrailingBytes)
                } else {
                    match ObjectType::of_code(s[0]) {
                        Some(object_type) => Ok(
                            Response::ImportWrapped { object_type, object_id: u16_at(s, 1) }
                        ),
                        None => Err(CodecError::InvalidTag),
                    }
                }
            },
            CommandCode::ListObjects => {
                if s.len() < 0 {
                    Err(CodecError::UnexpectedEof)
                } else {
                    Ok(Response::ListObjects { entries: s.subrange(0, s.len() as int) })
                }
            },
            CommandCode::PutAsymmetricKey => {
                if s.len() < 2 {
                    Err(CodecError::UnexpectedEof)
                } else if s.len() > 2 {
                    Err(CodecError::TrailingBytes)
                } else {
                    Ok(Response::PutAsymmetricKey { key_id: u16_at(s, 0) })
                }
            },
            CommandCode::PutAuthenticationKey => {
                if s.len() < 2 {
                    Err(CodecError::UnexpectedEof)
                } else if s.len() > 2 {
                    Err(CodecError::TrailingBytes)
                } else {
                    Ok(Response::PutAuthenticationKey { key_id: u16_at(s, 0) })
                }
            },
            CommandCode::PutHmacKey => {
                if s.len() < 2 {
                    Err(CodecError::UnexpectedEof)
                } else if s.len() > 2 {
                    Err(CodecError::TrailingBytes)
                } else {
                    Ok(Response::PutHmacKey { key_id: u16_at(s, 0) })
                }
            },
            CommandCode::PutOpaqueObject => {
                if s.len() < 2 {
                    Err(CodecError::UnexpectedEof)
                } else if s.len() > 2 {
                    Err(CodecError::TrailingBytes)
                } else {
                    Ok(Response::PutOpaqueObject { object_id: u16_at(s, 0) })
                }
            },
            CommandCode::PutOtpAeadKey => {
                if s.len() < 2 {
                    Err(CodecError::UnexpectedEof)
                } else if s.len() > 2 {
                    Err(CodecError::TrailingBytes)
                } else {
                    Ok(Response::PutOtpAeadKey { key_id: u16_at(s, 0) })
                }
            },
            CommandCode::PutWrapKey => {
                if s.len() < 2 {
                    Err(CodecError::UnexpectedEof)
                } else if s.len() > 2 {
                    Err(CodecError::TrailingBytes)
                } else {
                    Ok(Response::PutWrapKey { key_id: u16_at(s, 0) })
                }
            },
            CommandCode::ResetDevice => {
                if s.len() < 1 {
                    Err(CodecError::UnexpectedEof)
                } else if s.len() > 1 {
                    Err(CodecError::TrailingBytes)
                } else {
                    Ok(Response::ResetDevice { status: s[0] })
                }
            },
            CommandCode::SetLogIndex => {
                if s.len() < 0 {
                    Err(CodecError::UnexpectedEof)
                } else if s.len() > 0 {
                    Err(CodecError::TrailingBytes)
                } else {
                    Ok(Response::SetLogIndex)
                }
            },
            CommandCode::SetOption => {
                if s.len() < 0 {
                    Err(CodecError::UnexpectedEof)
                } else if s.len() > 0 {
                    Err(CodecError::TrailingBytes)
                } else {
                    Ok(Response::SetOption)
                }
            },
            CommandCode::SignAttestationCertificate => {
                if s.len() < 0 {
                    Err(CodecError::UnexpectedEof)
                } else {
                    Ok(
                        Response::SignAttestationCertificate { certificate: s.subrange(0, s.len() as int) }
                    )
                }
            },
            CommandCode::SignEcdsa => {
                if s.len() < 0 {
                    Err(CodecError::UnexpectedEof)
                } else {
                    Ok(Response::SignEcdsa { signature: s.subrange(0, s.len() as int) })
                }
            },
            CommandCode::SignEddsa => {
                if s.len() < 64 {
                    Err(CodecError::UnexpectedEof)
                } else if s.len() > 64 {
                    Err(CodecError::TrailingBytes)
                } else {
                    Ok(Response::SignEddsa { signature: s.subrange(0, 64) })
                }
            },
            CommandCode::SignHmac => {
                if s.len() < 0 {
                    Err(CodecError::UnexpectedEof)
                } else {
                    Ok(Response::SignHmac { tag: s.subrange(0, s.len() as int) })
                }
            },
            CommandCode::SignPkcs1 => {
                if s.len() < 0 {
                    Err(CodecError::UnexpectedEof)
                } else {
                    Ok(Response::SignPkcs1 { signature: s.subrange(0, s.len() as int) })
                }
            },
            CommandCode::SignPss => {
                if s.len() < 0 {
                    Err(CodecError::UnexpectedEof)
                } else {
                    Ok(Response::SignPss { signature: s.subrange(0, s.len() as int) })
                }
            },
            CommandCode::UnwrapData => {
                if s.len() < 0 {
                    Err(CodecError::UnexpectedEof)
                } else {
                    Ok(Response::UnwrapData { data: s.subrange(0, s.len() as int) })
                }
            },
            CommandCode::VerifyHmac => {
                if s.len() < 1 {
                    Err(CodecError::UnexpectedEof)
                } else if s.len() > 1 {
                    Err(CodecError::TrailingBytes)
                } else {
                    Ok(Response::VerifyHmac { result: s[0] })
                }
            },
            CommandCode::WrapData => {
                if s.len() < 13 {
                    Err(CodecError::UnexpectedEof)
                } else {
                    Ok(
                        Response::WrapData {
                            nonce: s.subrange(0, 13),
                            ciphertext: s.subrange(13, s.len() as int),
                        }
                    )
                }
            },
            _ => Err(CodecError::InvalidTag),
        }
    }
}

impl Response<Vec<u8>> {
    /// The command that this answers.
    pub fn command_code(&self) -> (code: CommandCode)
        ensures
            code == self@.code(),
    {
        match self {
            Response::BlinkDevice => CommandCode::BlinkDevice,
            Response::CloseSession => CommandCode::CloseSession,
            Response::CreateSession { .. } => CommandCode::CreateSession,
            Response::DeleteObject => CommandCode::DeleteObject,
            Response::DeviceInfo { .. } => CommandCode::DeviceInfo,
            Response::Echo { .. } => CommandCode::Echo,
            Response::ExportWrapped { .. } => CommandCode::ExportWrapped,
            Response::GenerateAsymmetricKey { .. } => CommandCode::GenerateAsymmetricKey,
            Response::GenerateHmacKey { .. } => CommandCode::GenerateHmacKey,
            Response::GenerateWrapKey { .. } => CommandCode::GenerateWrapKey,
            Response::GetLogEntries { .. } => CommandCode::GetLogEntries,
            Response::GetObjectInfo { .. } => CommandCode::GetObjectInfo,
            Response::GetOpaqueObject { .. } => CommandCode::GetOpaqueObject,
            Response::GetOption { .. } => CommandCode::GetOption,
            Response::GetPseudoRandom { .. } => CommandCode::GetPseudoRandom,
            Response::GetPublicKey { .. } => CommandCode::GetPublicKey,
            Response::GetStorageInfo { .. } => CommandCode::GetStorageInfo,
            Response::ImportWrapped { .. } => CommandCode::ImportWrapped,
            Response::ListObjects { .. } => CommandCode::ListObjects,
            Response::PutAsymmetricKey { .. } => CommandCode::PutAsymmetricKey,
            Response::PutAuthenticationKey { .. } => CommandCode::PutAuthenticationKey,
            Response::PutHmacKey { .. } => CommandCode::PutHmacKey,
            Response::PutOpaqueObject { .. } => CommandCode::PutOpaqueObject,
            Response::PutOtpAeadKey { .. } => CommandCode::PutOtpAeadKey,
            Response::PutWrapKey { .. } => CommandCode::PutWrapKey,
            Response::ResetDevice { .. } => CommandCode::ResetDevice,
            Response::SetLogIndex => CommandCode::SetLogIndex,
            Response::SetOption => CommandCode::SetOption,
            Response::SignAttestationCertificate { .. } => CommandCode::SignAttestationCertificate,
            Response::SignEcdsa { .. } => CommandCode::SignEcdsa,
            Response::SignEddsa { .. } => CommandCode::SignEddsa,
            Response::SignHmac { .. } => CommandCode::SignHmac,
            Response::SignPkcs1 { .. } => CommandCode::SignPkcs1,
            Response::SignPss { .. } => CommandCode::SignPss,
            Response::UnwrapData { .. } => CommandCode::UnwrapData,
            Response::VerifyHmac { .. } => CommandCode::VerifyHmac,
            Response::WrapData { .. } => CommandCode::WrapData,
        }
    }

    /// The bytes of the payload.
    pub fn serialize(&self) -> (out: Vec<u8>)
        requires
            self@.wf(),
        ensures
            out@ == self@.payload(),
    {
        let mut out: Vec<u8> = Vec::new();
        match self {
            Response::BlinkDevice => {},
            Response::CloseSession => {},
            Response::CreateSession { card_challenge, card_cryptogram } => {
                put_bytes(&mut out, card_challenge.as_slice());
                put_bytes(&mut out, card_cryptogram.as_slice());
            },
            Response::DeleteObject => {},
            Response::DeviceInfo {
                major_version,
                minor_version,
                build_version,
                serial_number,
                log_store_capacity,
                log_store_used,
                algorithms,
            } => {
                put_u8(&mut out, *major_version);
                put_u8(&mut out, *minor_version);
                put_u8(&mut out, *build_version);
                put_u32(&mut out, *serial_number);
                put_u8(&mut out, *log_store_capacity);
                put_u8(&mut out, *log_store_used);
                put_bytes(&mut out, algorithms.as_slice());
            },
            Response::Echo { message } => {
                put_bytes(&mut out, message.as_slice());
            },
            Response::ExportWrapped { nonce, ciphertext } => {
                put_bytes(&mut out, nonce.as_slice());
                put_bytes(&mut out, ciphertext.as_slice());
            },
            Response::GenerateAsymmetricKey { key_id } => {
                put_u16(&mut out, *key_id);
            },
            Response::GenerateHmacKey { key_id } => {
                put_u16(&mut out, *key_id);
            },
            Response::GenerateWrapKey { key_id } => {
                put_u16(&mut out, *key_id);
            },
            Response::GetLogEntries {
                unlogged_boot_events,
                unlogged_auth_events,
                num_entries,
                entries,
            } => {
                put_u16(&mut out, *unlogged_boot_events);
                put_u16(&mut out, *unlogged_auth_events);
                put_u8(&mut out, *num_entries);
                put_bytes(&mut out, entries.as_slice());
            },
            Response::GetObjectInfo { info } => {
                info.write(&mut out);
            },
            Response::GetOpaqueObject { data } => {
                put_bytes(&mut out, data.as_slice());
            },
            Response::GetOption { value } => {
                put_bytes(&mut out, value.as_slice());
            },
            Response::GetPseudoRandom { bytes } => {
                put_bytes(&mut out, bytes.as_slice());
            },
            Response::GetPublicKey { algorithm, bytes } => {
                put_u8(&mut out, algorithm.to_u8());
                put_bytes(&mut out, bytes.as_slice());
            },
            Response::GetStorageInfo {
                total_records,
                free_records,
                total_pages,
                free_pages,
                page_size,
            } => {
                put_u16(&mut out, *total_records);
                put_u16(&mut out, *free_records);
                put_u16(&mut out, *total_pages);
                put_u16(&mut out, *free_pages);
                put_u16(&mut out, *page_size);
            },
            Response::ImportWrapped { object_type, object_id } => {
                put_u8(&mut out, object_type.to_u8());
                put_u16(&mut out, *object_id);
            },
            Response::ListObjects { entries } => {
                put_bytes(&mut out, entries.as_slice());
            },
            Response::PutAsymmetricKey { key_id } => {
                put_u16(&mut out, *key_id);
            },
            Response::PutAuthenticationKey { key_id } => {
                put_u16(&mut out, *key_id);
            },
            Response::PutHmacKey { key_id } => {
                put_u16(&mut out, *key_id);
            },
            Response::PutOpaqueObject { object_id } => {
                put_u16(&mut out, *object_id);
            },
            Response::PutOtpAeadKey { key_id } => {
                put_u16(&mut out, *key_id);
            },
            Response::PutWrapKey { key_id } => {
                put_u16(&mut out, *key_id);
            },
            Response::ResetDevice { status } => {
                put_u8(&mut out, *status);
            },
            Response::SetLogIndex => {},
            Response::SetOption => {},
            Response::SignAttestationCertificate { certificate } => {
                put_bytes(&mut out, certificate.as_slice());
            },
            Response::SignEcdsa { signature } => {
                put_bytes(&mut out, signature.as_slice());
            },
            Response::SignEddsa { signature } => {
                put_bytes(&mut out, signature.as_slice());
            },
            Response::SignHmac { tag } => {
                put_bytes(&mut out, tag.as_slice());
            },
            Response::SignPkcs1 { signature } => {
                put_bytes(&mut out, signature.as_slice());
            },
            Response::SignPss { signature } => {
                put_bytes(&mut out, signature.as_slice());
            },
            Response::UnwrapData { data } => {
                put_bytes(&mut out, data.as_slice());
            },
            Response::VerifyHmac { result } => {
                put_u8(&mut out, *result);
            },
            Response::WrapData { nonce, ciphertext } => {
                put_bytes(&mut out, nonce.as_slice());
                put_bytes(&mut out, ciphertext.as_slice());
            },
        }
        assert(out@ =~= self@.payload());
        out
    }

    /// Reads the response of the given command from a payload.
    pub fn deserialize(code: CommandCode, data: &[u8]) -> (r: Result<Response, CodecError>)
        ensures
            match r {
                Ok(c) => c@.wf() && Response::from_payload(
                    code,
                    data@,
                ) == Ok::<Response<Seq<u8>>, CodecError>(c@),
                Err(e) => Response::from_payload(
                    code,
                    data@,
                ) == Err::<Response<Seq<u8>>, CodecError>(e),
            },
    {
        match code {
            CommandCode::BlinkDevice => {
                if data.len() < 0 {
                    return Err(CodecError::UnexpectedEof);
                }
                if data.len() > 0 {
                    return Err(CodecError::TrailingBytes);
                }
                Ok(Response::BlinkDevice)
            },
            CommandCode::CloseSession => {
                if data.len() < 0 {
                    return Err(CodecError::UnexpectedEof);
                }
                if data.len() > 0 {
                    return Err(CodecError::TrailingBytes);
                }
                Ok(Response::CloseSession)
            },
            CommandCode::CreateSession => {
                if data.len() < 16 {
                    return Err(CodecError::UnexpectedEof);
                }
                if data.len() > 16 {
                    return Err(CodecError::TrailingBytes);
                }
                Ok(
                    Response::CreateSession {
                        card_challenge: read_bytes(data, 0, 8),
                        card_cryptogram: read_bytes(data, 8, 16),
                    }
                )
            },
            CommandCode::DeleteObject => {
                if data.len() < 0 {
                    return Err(CodecError::UnexpectedEof);
                }
                if data.len() > 0 {
                    return Err(CodecError::TrailingBytes);
                }
                Ok(Response::DeleteObject)
            },
            CommandCode::DeviceInfo => {
                if data.len() < 9 {
                    return Err(CodecError::UnexpectedEof);
                }
                Ok(
                    Response::DeviceInfo {
                        major_version: data[0],
                        minor_version: data[1],
                        build_version: data[2],
                        serial_number: read_u32(data, 3),
                        log_store_capacity: data[7],
                        log_store_used: data[8],
                        algorithms: read_bytes(data, 9, data.len()),
                    }
                )
            },
            CommandCode::Echo => {
                if data.len() < 0 {
                    return Err(CodecError::UnexpectedEof);
                }
                Ok(Response::Echo { message: read_bytes(data, 0, data.len()) })
            },
            CommandCode::ExportWrapped => {
                if data.len() < 13 {
                    return Err(CodecError::UnexpectedEof);
                }
                Ok(
                    Response::ExportWrapped {
                        nonce: read_bytes(data, 0, 13),
                        ciphertext: read_bytes(data, 13, data.len()),
                    }
                )
            },
            CommandCode::GenerateAsymmetricKey => {
                if data.len() < 2 {
                    return Err(CodecError::UnexpectedEof);
                }
                if data.len() > 2 {
                    return Err(CodecError::TrailingBytes);
                }
                Ok(Response::GenerateAsymmetricKey { key_id: read_u16(data, 0) })
            },
            CommandCode::GenerateHmacKey => {
                if data.len() < 2 {
                    return Err(CodecError::UnexpectedEof);
                }
                if data.len() > 2 {
                    return Err(CodecError::TrailingBytes);
                }
                Ok(Response::GenerateHmacKey { key_id: read_u16(data, 0) })
            },
            CommandCode::GenerateWrapKey => {
                if data.len() < 2 {
                    return Err(CodecError::UnexpectedEof);
                }
                if data.len() > 2 {
                    return Err(CodecError::TrailingBytes);
                }
                Ok(Response::GenerateWrapKey { key_id: read_u16(data, 0) })
            },
            CommandCode::GetLogEntries => {
                if data.len() < 5 {
                    return Err(CodecError::UnexpectedEof);
                }
                Ok(
                    Response::GetLogEntries {
                        unlogged_boot_events: read_u16(data, 0),
                        unlogged_auth_events: read_u16(data, 2),
                        num_entries: data[4],
                        entries: read_bytes(data, 5, data.len()),
                    }
                )
            },
            CommandCode::GetObjectInfo => {
                if data.len() < 66 {
                    return Err(CodecError::UnexpectedEof);
                }
                if data.len() > 66 {
                    return Err(CodecError::TrailingBytes);
                }
                let info = ObjectInfo::read(data, 0);
                match info {
                    Some(info) => Ok(Response::GetObjectInfo { info }),
                    None => Err(CodecError::InvalidTag),
                }
            },
            CommandCode::GetOpaqueObject => {
                if data.len() < 0 {
                    return Err(CodecError::UnexpectedEof);
                }
                Ok(Response::GetOpaqueObject { data: read_bytes(data, 0, data.len()) })
            },
            CommandCode::GetOption => {
                if data.len() < 0 {
                    return Err(CodecError::UnexpectedEof);
                }
                Ok(Response::GetOption { value: read_bytes(data, 0, data.len()) })
            },
            CommandCode::GetPseudoRandom => {
                if data.len() < 0 {
                    return Err(CodecError::UnexpectedEof);
                }
                Ok(Response::GetPseudoRandom { bytes: read_bytes(data, 0, data.len()) })
            },
            CommandCode::GetPublicKey => {
                if data.len() < 1 {
                    return Err(CodecError::UnexpectedEof);
                }
                let algorithm = Algorithm::from_u8(data[0]);
                match algorithm {
                    Some(algorithm) => Ok(
                        Response::GetPublicKey { algorithm, bytes: read_bytes(data, 1, data.len()) }
                    ),
                    None => Err(CodecError::InvalidTag),
                }
            },
            CommandCode::GetStorageInfo => {
                if data.len() < 10 {
                    return Err(CodecError::UnexpectedEof);
                }
                if data.len() > 10 {
                    return Err(CodecError::TrailingBytes);
                }
                Ok(
                    Response::GetStorageInfo {
                        total_records: read_u16(data, 0),
                        free_records: read_u16(data, 2),
                        total_pages: read_u16(data, 4),
                        free_pages: read_u16(data, 6),
                        page_size: read_u16(data, 8),
                    }
                )
            },
            CommandCode::ImportWrapped => {
                if data.len() < 3 {
                    return Err(CodecError::UnexpectedEof);
                }
                if data.len() > 3 {
                    return Err(CodecError::TrailingBytes);
                }
                let object_type = ObjectType::from_u8(data[0]);
                match object_type {
                    Some(object_type) => Ok(
                        Response::ImportWrapped { object_type, object_id: read_u16(data, 1) }
                    ),
                    None => Err(CodecError::InvalidTag),
                }
            },
            CommandCode::ListObjects => {
                if data.len() < 0 {
                    return Err(CodecError::UnexpectedEof);
                }
                Ok(Response::ListObjects { entries: read_bytes(data, 0, data.len()) })
            },
            CommandCode::PutAsymmetricKey => {
                if data.len() < 2 {
                    return Err(CodecError::UnexpectedEof);
                }
                if data.len() > 2 {
                    return Err(CodecError::TrailingBytes);
                }
                Ok(Response::PutAsymmetricKey { key_id: read_u16(data, 0) })
            },
            CommandCode::PutAuthenticationKey => {
                if data.len() < 2 {
                    return Err(CodecError::UnexpectedEof);
                }
                if data.len() > 2 {
                    return Err(CodecError::TrailingBytes);
                }
                Ok(Response::PutAuthenticationKey { key_id: read_u16(data, 0) })
            },
            CommandCode::PutHmacKey => {
                if data.len() < 2 {
                    return Err(CodecError::UnexpectedEof);
                }
                if data.len() > 2 {
                    return Err(CodecError::TrailingBytes);
                }
                Ok(Response::PutHmacKey { key_id: read_u16(data, 0) })
            },
            CommandCode::PutOpaqueObject => {
                if data.len() < 2 {
                    return Err(CodecError::UnexpectedEof);
                }
                if data.len() > 2 {
                    return Err(CodecError::TrailingBytes);
                }
                Ok(Response::PutOpaqueObject { object_id: read_u16(data, 0) })
            },
            CommandCode::PutOtpAeadKey => {
                if data.len() < 2 {
                    return Err(CodecError::UnexpectedEof);
                }
                if data.len() > 2 {
                    return Err(CodecError::TrailingBytes);
                }
                Ok(Response::PutOtpAeadKey { key_id: read_u16(data, 0) })
            },
            CommandCode::PutWrapKey => {
                if data.len() < 2 {
                    return Err(CodecError::UnexpectedEof);
                }
                if data.len() > 2 {
                    return Err(CodecError::TrailingBytes);
                }
                Ok(Response::PutWrapKey { key_id: read_u16(data, 0) })
            },
            CommandCode::ResetDevice => {
                if data.len() < 1 {
                    return Err(CodecError::UnexpectedEof);
                }
                if data.len() > 1 {
                    return Err(CodecError::TrailingBytes);
                }
                Ok(Response::ResetDevice { status: data[0] })
            },
            CommandCode::SetLogIndex => {
                if data.len() < 0 {
                    return Err(CodecError::UnexpectedEof);
                }
                if data.len() > 0 {
                    return Err(CodecError::TrailingBytes);
                }
                Ok(Response::SetLogIndex)
            },
            CommandCode::SetOption => {
                if data.len() < 0 {
                    return Err(CodecError::UnexpectedEof);
                }
                if data.len() > 0 {
                    return Err(CodecError::TrailingBytes);
                }
                Ok(Response::SetOption)
            },
            CommandCode::SignAttestationCertificate => {
                if data.len() < 0 {
                    return Err(CodecError::UnexpectedEof);
                }
                Ok(
                    Response::SignAttestationCertificate { certificate: read_bytes(data, 0, data.len()) }
                )
            },
            CommandCode::SignEcdsa => {
                if data.len() < 0 {
                    return Err(CodecError::UnexpectedEof);
                }
                Ok(Response::SignEcdsa { signature: read_bytes(data, 0, data.len()) })
            },
            CommandCode::SignEddsa => {
                if data.len() < 64 {
                    return Err(CodecError::UnexpectedEof);
                }
                if data.len() > 64 {
                    return Err(CodecError::TrailingBytes);
                }
                Ok(Response::SignEddsa { signature: read_bytes(data, 0, 64) })
            },
            CommandCode::SignHmac => {
                if data.len() < 0 {
                    return Err(CodecError::UnexpectedEof);
                }
                Ok(Response::SignHmac { tag: read_bytes(data, 0, data.len()) })
            },
            CommandCode::SignPkcs1 => {
                if data.len() < 0 {
                    return Err(CodecError::UnexpectedEof);
                }
                Ok(Response::SignPkcs1 { signature: read_bytes(data, 0, data.len()) })
            },
            CommandCode::SignPss => {
                if data.len() < 0 {
                    return Err(CodecError::UnexpectedEof);
                }
                Ok(Response::SignPss { signature: read_bytes(data, 0, data.len()) })
            },
            CommandCode::UnwrapData => {
                if data.len() < 0 {
                    return Err(CodecError::UnexpectedEof);
                }
                Ok(Response::UnwrapData { data: read_bytes(data, 0, data.len()) })
            },
            CommandCode::VerifyHmac => {
                if data.len() < 1 {
                    return Err(CodecError::UnexpectedEof);
                }
                if data.len() > 1 {
                    return Err(CodecError::TrailingBytes);
                }
                Ok(Response::VerifyHmac { result: data[0] })
            },
            CommandCode::WrapData => {
                if data.len() < 13 {
                    return Err(CodecError::UnexpectedEof);
                }
                Ok(
                    Response::WrapData {
                        nonce: read_bytes(data, 0, 13),
                        ciphertext: read_bytes(data, 13, data.len()),
                    }
                )
            },
            _ => Err(CodecError::InvalidTag),
        }
    }
}

/// The round trip of `Response::CreateSession`.
proof fn lemma_response_create_session_round_trip(c: Response<Seq<u8>>)
    requires
        c.wf(),
        c is CreateSession,
    ensures
        Response::from_payload(c.code(), c.payload()) == Ok::<Response<Seq<u8>>, CodecError>(c),
{
    let s = c.payload();
    if let Response::CreateSession { card_challenge, card_cryptogram } = c {
        assert(s.subrange(0, 8) =~= card_challenge);
        assert(s.subrange(8, 16) =~= card_cryptogram);
    }
}

/// The round trip of `Response::DeviceInfo`.
proof fn lemma_response_device_info_round_trip(c: Response<Seq<u8>>)
    requires
        c.wf(),
        c is DeviceInfo,
    ensures
        Response::from_payload(c.code(), c.payload()) == Ok::<Response<Seq<u8>>, CodecError>(c),
{
    let s = c.payload();
    if let Response::DeviceInfo {
        major_version,
        minor_version,
        build_version,
        serial_number,
        log_store_capacity,
        log_store_used,
        algorithms,
    } = c {
        assert(s.subrange(3, 7) =~= be32(serial_number));
        lemma_u32_round_trip(s, 3, serial_number);
        assert(s.subrange(9, s.len() as int) =~= algorithms);
    }
}

/// The round trip of `Response::Echo`.
proof fn lemma_response_echo_round_trip(c: Response<Seq<u8>>)
    requires
        c.wf(),
        c is Echo,
    ensures
        Response::from_payload(c.code(), c.payload()) == Ok::<Response<Seq<u8>>, CodecError>(c),
{
    let s = c.payload();
    if let Response::Echo { message } = c {
        assert(s.subrange(0, s.len() as int) =~= message);
    }
}

/// The round trip of `Response::ExportWrapped`.
proof fn lemma_response_export_wrapped_round_trip(c: Response<Seq<u8>>)
    requires
        c.wf(),
        c is ExportWrapped,
    ensures
        Response::from_payload(c.code(), c.payload()) == Ok::<Response<Seq<u8>>, CodecError>(c),
{
    let s = c.payload();
    if let Response::ExportWrapped { nonce, ciphertext } = c {
        assert(s.subrange(0, 13) =~= nonce);
        assert(s.subrange(13, s.len() as int) =~= ciphertext);
    }
}

/// The round trip of `Response::GenerateAsymmetricKey`.
proof fn lemma_response_generate_asymmetric_key_round_trip(c: Response<Seq<u8>>)
    requires
        c.wf(),
        c is GenerateAsymmetricKey,
    ensures
        Response::from_payload(c.code(), c.payload()) == Ok::<Response<Seq<u8>>, CodecError>(c),
{
    let s = c.payload();
    if let Response::GenerateAsymmetricKey { key_id } = c {
        assert(s.subrange(0, 2) =~= be16(key_id));
        lemma_u16_round_trip(s, 0, key_id);
    }
}

/// The round trip of `Response::GenerateHmacKey`.
proof fn lemma_response_generate_hmac_key_round_trip(c: Response<Seq<u8>>)
    requires
        c.wf(),
        c is GenerateHmacKey,
    ensures
        Response::from_payload(c.code(), c.payload()) == Ok::<Response<Seq<u8>>, CodecError>(c),
{
    let s = c.payload();
    if let Response::GenerateHmacKey { key_id } = c {
        assert(s.subrange(0, 2) =~= be16(key_id));
        lemma_u16_round_trip(s, 0, key_id);
    }
}

/// The round trip of `Response::GenerateWrapKey`.
proof fn lemma_response_generate_wrap_key_round_trip(c: Response<Seq<u8>>)
    requires
        c.wf(),
        c is GenerateWrapKey,
    ensures
        Response::from_payload(c.code(), c.payload()) == Ok::<Response<Seq<u8>>, CodecError>(c),
{
    let s = c.payload();
    if let Response::GenerateWrapKey { key_id } = c {
        assert(s.subrange(0, 2) =~= be16(key_id));
        lemma_u16_round_trip(s, 0, key_id);
    }
}

/// The round trip of `Response::GetLogEntries`.
proof fn lemma_response_get_log_entries_round_trip(c: Response<Seq<u8>>)
    requires
        c.wf(),
        c is GetLogEntries,
    ensures
        Response::from_payload(c.code(), c.payload()) == Ok::<Response<Seq<u8>>, CodecError>(c),
{
    let s = c.payload();
    if let Response::GetLogEntries {
        unlogged_boot_events,
        unlogged_auth_events,
        num_entries,
        entries,
    } = c {
        assert(s.subrange(0, 2) =~= be16(unlogged_boot_events));
        lemma_u16_round_trip(s, 0, unlogged_boot_events);
        assert(s.subrange(2, 4) =~= be16(unlogged_auth_events));
        lemma_u16_round_trip(s, 2, unlogged_auth_events);
        assert(s.subrange(5, s.len() as int) =~= entries);
    }
}

/// The round trip of `Response::GetObjectInfo`.
proof fn lemma_response_get_object_info_round_trip(c: Response<Seq<u8>>)
    requires
        c.wf(),
        c is GetObjectInfo,
    ensures
        Response::from_payload(c.code(), c.payload()) == Ok::<Response<Seq<u8>>, CodecError>(c),
{
    let s = c.payload();
    if let Response::GetObjectInfo { info } = c {
        assert(s.subrange(0, 66) =~= info.wire());
        lemma_object_info_round_trip(s, 0, info);
    }
}

/// The round trip of `Response::GetOpaqueObject`.
proof fn lemma_response_get_opaque_object_round_trip(c: Response<Seq<u8>>)
    requires
        c.wf(),
        c is GetOpaqueObject,
    ensures
        Response::from_payload(c.code(), c.payload()) == Ok::<Response<Seq<u8>>, CodecError>(c),
{
    let s = c.payload();
    if let Response::GetOpaqueObject { data } = c {
        assert(s.subrange(0, s.len() as int) =~= data);
    }
}

/// The round trip of `Response::GetOption`.
proof fn lemma_response_get_option_round_trip(c: Response<Seq<u8>>)
    requires
        c.wf(),
        c is GetOption,
    ensures
        Response::from_payload(c.code(), c.payload()) == Ok::<Response<Seq<u8>>, CodecError>(c),
{
    let s = c.payload();
    if let Response::GetOption { value } = c {
        assert(s.subrange(0, s.len() as int) =~= value);
    }
}

/// The round trip of `Response::GetPseudoRandom`.
proof fn lemma_response_get_pseudo_random_round_trip(c: Response<Seq<u8>>)
    requires
        c.wf(),
        c is GetPseudoRandom,
    ensures
        Response::from_payload(c.code(), c.payload()) == Ok::<Response<Seq<u8>>, CodecError>(c),
{
    let s = c.payload();
    if let Response::GetPseudoRandom { bytes } = c {
        assert(s.subrange(0, s.len() as int) =~= bytes);
    }
}

/// The round trip of `Response::GetPublicKey`.
proof fn lemma_response_get_public_key_round_trip(c: Response<Seq<u8>>)
    requires
        c.wf(),
        c is GetPublicKey,
    ensures
        Response::from_payload(c.code(), c.payload()) == Ok::<Response<Seq<u8>>, CodecError>(c),
{
    let s = c.payload();
    if let Response::GetPublicKey { algorithm, bytes } = c {
        lemma_algorithm_round_trip(algorithm);
        assert(s.subrange(1, s.len() as int) =~= bytes);
    }
}

/// The round trip of `Response::GetStorageInfo`.
proof fn lemma_response_get_storage_info_round_trip(c: Response<Seq<u8>>)
    requires
        c.wf(),
        c is GetStorageInfo,
    ensures
        Response::from_payload(c.code(), c.payload()) == Ok::<Response<Seq<u8>>, CodecError>(c),
{
    let s = c.payload();
    if let Response::GetStorageInfo {
        total_records,
        free_records,
        total_pages,
        free_pages,
        page_size,
    } = c {
        assert(s.subrange(0, 2) =~= be16(total_records));
        lemma_u16_round_trip(s, 0, total_records);
        assert(s.subrange(2, 4) =~= be16(free_records));
        lemma_u16_round_trip(s, 2, free_records);
        assert(s.subrange(4, 6) =~= be16(total_pages));
        lemma_u16_round_trip(s, 4, total_pages);
        assert(s.subrange(6, 8) =~= be16(free_pages));
        lemma_u16_round_trip(s, 6, free_pages);
        assert(s.subrange(8, 10) =~= be16(page_size));
        lemma_u16_round_trip(s, 8, page_size);
    }
}

/// The round trip of `Response::ImportWrapped`.
proof fn lemma_response_import_wrapped_round_trip(c: Response<Seq<u8>>)
    requires
        c.wf(),
        c is ImportWrapped,
    ensures
        Response::from_payload(c.code(), c.payload()) == Ok::<Response<Seq<u8>>, CodecError>(c),
{
    let s = c.payload();
    if let Response::ImportWrapped { object_type, object_id } = c {
        lemma_object_tags_round_trip(object_type, ObjectOrigin::Generated);
        assert(s.subrange(1, 3) =~= be16(object_id));
        lemma_u16_round_trip(s, 1, object_id);
    }
}

/// The round trip of `Response::ListObjects`.
proof fn lemma_response_list_objects_round_trip(c: Response<Seq<u8>>)
    requires
        c.wf(),
        c is ListObjects,
    ensures
        Response::from_payload(c.code(), c.payload()) == Ok::<Response<Seq<u8>>, CodecError>(c),
{
    let s = c.payload();
    if let Response::ListObjects { entries } = c {
        assert(s.subrange(0, s.len() as int) =~= entries);
    }
}

/// The round trip of `Response::PutAsymmetricKey`.
proof fn lemma_response_put_asymmetric_key_round_trip(c: Response<Seq<u8>>)
    requires
        c.wf(),
        c is PutAsymmetricKey,
    ensures
        Response::from_payload(c.code(), c.payload()) == Ok::<Response<Seq<u8>>, CodecError>(c),
{
    let s = c.payload();
    if let Response::PutAsymmetricKey { key_id } = c {
        assert(s.subrange(0, 2) =~= be16(key_id));
        lemma_u16_round_trip(s, 0, key_id);
    }
}

/// The round trip of `Response::PutAuthenticationKey`.
proof fn lemma_response_put_authentication_key_round_trip(c: Response<Seq<u8>>)
    requires
        c.wf(),
        c is PutAuthenticationKey,
    ensures
        Response::from_payload(c.code(), c.payload()) == Ok::<Response<Seq<u8>>, CodecError>(c),
{
    let s = c.payload();
    if let Response::PutAuthenticationKey { key_id } = c {
        assert(s.subrange(0, 2) =~= be16(key_id));
        lemma_u16_round_trip(s, 0, key_id);
    }
}

/// The round trip of `Response::PutHmacKey`.
proof fn lemma_response_put_hmac_key_round_trip(c: Response<Seq<u8>>)
    requires
        c.wf(),
        c is PutHmacKey,
    ensures
        Response::from_payload(c.code(), c.payload()) == Ok::<Response<Seq<u8>>, CodecError>(c),
{
    let s = c.payload();
    if let Response::PutHmacKey { key_id } = c {
        assert(s.subrange(0, 2) =~= be16(key_id));
        lemma_u16_round_trip(s, 0, key_id);
    }
}

/// The round trip of `Response::PutOpaqueObject`.
proof fn lemma_response_put_opaque_object_round_trip(c: Response<Seq<u8>>)
    requires
        c.wf(),
        c is PutOpaqueObject,
    ensures
        Response::from_payload(c.code(), c.payload()) == Ok::<Response<Seq<u8>>, CodecError>(c),
{
    let s = c.payload();
    if let Response::PutOpaqueObject { object_id } = c {
        assert(s.subrange(0, 2) =~= be16(object_id));
        lemma_u16_round_trip(s, 0, object_id);
    }
}

/// The round trip of `Response::PutOtpAeadKey`.
proof fn lemma_response_put_otp_aead_key_round_trip(c: Response<Seq<u8>>)
    requires
        c.wf(),
        c is PutOtpAeadKey,
    ensures
        Response::from_payload(c.code(), c.payload()) == Ok::<Response<Seq<u8>>, CodecError>(c),
{
    let s = c.payload();
    if let Response::PutOtpAeadKey { key_id } = c {
        assert(s.subrange(0, 2) =~= be16(key_id));
        lemma_u16_round_trip(s, 0, key_id);
    }
}

/// The round trip of `Response::PutWrapKey`.
proof fn lemma_response_put_wrap_key_round_trip(c: Response<Seq<u8>>)
    requires
        c.wf(),
        c is PutWrapKey,
    ensures
        Response::from_payload(c.code(), c.payload()) == Ok::<Response<Seq<u8>>, CodecError>(c),
{
    let s = c.payload();
    if let Response::PutWrapKey { key_id } = c {
        assert(s.subrange(0, 2) =~= be16(key_id));
        lemma_u16_round_trip(s, 0, key_id);
    }
}

/// The round trip of `Response::ResetDevice`.
proof fn lemma_response_reset_device_round_trip(c: Response<Seq<u8>>)
    requires
        c.wf(),
        c is ResetDevice,
    ensures
        Response::from_payload(c.code(), c.payload()) == Ok::<Response<Seq<u8>>, CodecError>(c),
{
    let s = c.payload();
    if let Response::ResetDevice { status } = c {
    }
}

/// The round trip of `Response::SignAttestationCertificate`.
proof fn lemma_response_sign_attestation_certificate_round_trip(c: Response<Seq<u8>>)
    requires
        c.wf(),
        c is SignAttestationCertificate,
    ensures
        Response::from_payload(c.code(), c.payload()) == Ok::<Response<Seq<u8>>, CodecError>(c),
{
    let s = c.payload();
    if let Response::SignAttestationCertificate { certificate } = c {
        assert(s.subrange(0, s.len() as int) =~= certificate);
    }
}

/// The round trip of `Response::SignEcdsa`.
proof fn lemma_response_sign_ecdsa_round_trip(c: Response<Seq<u8>>)
    requires
        c.wf(),
        c is SignEcdsa,
    ensures
        Response::from_payload(c.code(), c.payload()) == Ok::<Response<Seq<u8>>, CodecError>(c),
{
    let s = c.payload();
    if let Response::SignEcdsa { signature } = c {
        assert(s.subrange(0, s.len() as int) =~= signature);
    }
}

/// The round trip of `Response::SignEddsa`.
proof fn lemma_response_sign_eddsa_round_trip(c: Response<Seq<u8>>)
    requires
        c.wf(),
        c is SignEddsa,
    ensures
        Response::from_payload(c.code(), c.payload()) == Ok::<Response<Seq<u8>>, CodecError>(c),
{
    let s = c.payload();
    if let Response::SignEddsa { signature } = c {
        assert(s.subrange(0, 64) =~= signature);
    }
}

/// The round trip of `Response::SignHmac`.
proof fn lemma_response_sign_hmac_round_trip(c: Response<Seq<u8>>)
    requires
        c.wf(),
        c is SignHmac,
    ensures
        Response::from_payload(c.code(), c.payload()) == Ok::<Response<Seq<u8>>, CodecError>(c),
{
    let s = c.payload();
    if let Response::SignHmac { tag } = c {
        assert(s.subrange(0, s.len() as int) =~= tag);
    }
}

/// The round trip of `Response::SignPkcs1`.
proof fn lemma_response_sign_pkcs1_round_trip(c: Response<Seq<u8>>)
    requires
        c.wf(),
        c is SignPkcs1,
    ensures
        Response::from_payload(c.code(), c.payload()) == Ok::<Response<Seq<u8>>, CodecError>(c),
{
    let s = c.payload();
    if let Response::SignPkcs1 { signature } = c {
        assert(s.subrange(0, s.len() as int) =~= signature);
    }
}

/// The round trip of `Response::SignPss`.
proof fn lemma_response_sign_pss_round_trip(c: Response<Seq<u8>>)
    requires
        c.wf(),
        c is SignPss,
    ensures
        Response::from_payload(c.code(), c.payload()) == Ok::<Response<Seq<u8>>, CodecError>(c),
{
    let s = c.payload();
    if let Response::SignPss { signature } = c {
        assert(s.subrange(0, s.len() as int) =~= signature);
    }
}

/// The round trip of `Response::UnwrapData`.
proof fn lemma_response_unwrap_data_round_trip(c: Response<Seq<u8>>)
    requires
        c.wf(),
        c is UnwrapData,
    ensures
        Response::from_payload(c.code(), c.payload()) == Ok::<Response<Seq<u8>>, CodecError>(c),
{
    let s = c.payload();
    if let Response::UnwrapData { data } = c {
        assert(s.subrange(0, s.len() as int) =~= data);
    }
}

/// The round trip of `Response::VerifyHmac`.
proof fn lemma_response_verify_hmac_round_trip(c: Response<Seq<u8>>)
    requires
        c.wf(),
        c is VerifyHmac,
    ensures
        Response::from_payload(c.code(), c.payload()) == Ok::<Response<Seq<u8>>, CodecError>(c),
{
    let s = c.payload();
    if let Response::VerifyHmac { result } = c {
    }
}

/// The round trip of `Response::WrapData`.
proof fn lemma_response_wrap_data_round_trip(c: Response<Seq<u8>>)
    requires
        c.wf(),
        c is WrapData,
    ensures
        Response::from_payload(c.code(), c.payload()) == Ok::<Response<Seq<u8>>, CodecError>(c),
{
    let s = c.payload();
    if let Response::WrapData { nonce, ciphertext } = c {
        assert(s.subrange(0, 13) =~= nonce);
        assert(s.subrange(13, s.len() as int) =~= ciphertext);
    }
}

/// A response that decodes under a command's code is one of that command.
pub proof fn lemma_response_code_of_payload(code: CommandCode, s: Seq<u8>)
    ensures
        Response::from_payload(code, s) matches Ok(c) ==> c.code() == code && c.wf(),
{
}

/// Decoding the payload of a well-formed response, under the code of the
/// command it answers, gives the response again.
pub proof fn lemma_response_round_trip(c: Response<Seq<u8>>)
    requires
        c.wf(),
    ensures
        Response::from_payload(c.code(), c.payload()) == Ok::<Response<Seq<u8>>, CodecError>(c),
{
    match c {
        Response::BlinkDevice => {},
        Response::CloseSession => {},
        Response::CreateSession { .. } => {
            lemma_response_create_session_round_trip(c);
        },
        Response::DeleteObject => {},
        Response::DeviceInfo { .. } => {
            lemma_response_device_info_round_trip(c);
        },
        Response::Echo { .. } => {
            lemma_response_echo_round_trip(c);
        },
        Response::ExportWrapped { .. } => {
            lemma_response_export_wrapped_round_trip(c);
        },
        Response::GenerateAsymmetricKey { .. } => {
            lemma_response_generate_asymmetric_key_round_trip(c);
        },
        Response::GenerateHmacKey { .. } => {
            lemma_response_generate_hmac_key_round_trip(c);
        },
        Response::GenerateWrapKey { .. } => {
            lemma_response_generate_wrap_key_round_trip(c);
        },
        Response::GetLogEntries { .. } => {
            lemma_response_get_log_entries_round_trip(c);
        },
        Response::GetObjectInfo { .. } => {
            lemma_response_get_object_info_round_trip(c);
        },
        Response::GetOpaqueObject { .. } => {
            lemma_response_get_opaque_object_round_trip(c);
        },
        Response::GetOption { .. } => {
            lemma_response_get_option_round_trip(c);
        },
        Response::GetPseudoRandom { .. } => {
            lemma_response_get_pseudo_random_round_trip(c);
        },
        Response::GetPublicKey { .. } => {
            lemma_response_get_public_key_round_trip(c);
        },
        Response::GetStorageInfo { .. } => {
            lemma_response_get_storage_info_round_trip(c);
        },
        Response::ImportWrapped { .. } => {
            lemma_response_import_wrapped_round_trip(c);
        },
        Response::ListObjects { .. } => {
            lemma_response_list_objects_round_trip(c);
        },
        Response::PutAsymmetricKey { .. } => {
            lemma_response_put_asymmetric_key_round_trip(c);
        },
        Response::PutAuthenticationKey { .. } => {
            lemma_response_put_authentication_key_round_trip(c);
        },
        Response::PutHmacKey { .. } => {
            lemma_response_put_hmac_key_round_trip(c);
        },
        Response::PutOpaqueObject { .. } => {
            lemma_response_put_opaque_object_round_trip(c);
        },
        Response::PutOtpAeadKey { .. } => {
            lemma_response_put_otp_aead_key_round_trip(c);
        },
        Response::PutWrapKey { .. } => {
            lemma_response_put_wrap_key_round_trip(c);
        },
        Response::ResetDevice { .. } => {
            lemma_response_reset_device_round_trip(c);
        },
        Response::SetLogIndex => {},
        Response::SetOption => {},
        Response::SignAttestationCertificate { .. } => {
            lemma_response_sign_attestation_certificate_round_trip(c);
        },
        Response::SignEcdsa { .. } => {
            lemma_response_sign_ecdsa_round_trip(c);
        },
        Response::SignEddsa { .. } => {
            lemma_response_sign_eddsa_round_trip(c);
        },
        Response::SignHmac { .. } => {
            lemma_response_sign_hmac_round_trip(c);
        },
        Response::SignPkcs1 { .. } => {
            lemma_response_sign_pkcs1_round_trip(c);
        },
        Response::SignPss { .. } => {
            lemma_response_sign_pss_round_trip(c);
        },
        Response::UnwrapData { .. } => {
            lemma_response_unwrap_data_round_trip(c);
        },
        Response::VerifyHmac { .. } => {
            lemma_response_verify_hmac_round_trip(c);
        },
        Response::WrapData { .. } => {
            lemma_response_wrap_data_round_trip(c);
        },
    }
}

} // verus!
