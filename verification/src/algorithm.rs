//! Algorithm identifiers.
//!
//! Every algorithm the device knows has a one-byte identifier. They are
//! grouped by purpose; `Algorithm` is their union.

use vstd::prelude::*;

verus! {

/// RSA signature and encryption schemes.
#[allow(non_camel_case_types)]
#[derive(Clone, Copy, Debug, PartialEq, Eq, Structural)]
pub enum RsaAlg {
    /// RSASSA-PKCS#1 v1.5 with SHA-1.
    PKCS1_SHA1,
    /// RSASSA-PKCS#1 v1.5 with SHA-256.
    PKCS1_SHA256,
    /// RSASSA-PKCS#1 v1.5 with SHA-384.
    PKCS1_SHA384,
    /// RSASSA-PKCS#1 v1.5 with SHA-512.
    PKCS1_SHA512,
    /// RSASSA-PSS with SHA-1.
    PSS_SHA1,
    /// RSASSA-PSS with SHA-256.
    PSS_SHA256,
    /// RSASSA-PSS with SHA-384.
    PSS_SHA384,
    /// RSASSA-PSS with SHA-512.
    PSS_SHA512,
    /// RSAES-OAEP with SHA-1.
    OAEP_SHA1,
    /// RSAES-OAEP with SHA-256.
    OAEP_SHA256,
    /// RSAES-OAEP with SHA-384.
    OAEP_SHA384,
    /// RSAES-OAEP with SHA-512.
    OAEP_SHA512,
}

impl RsaAlg {
    /// The identifier on the wire.
    pub open spec fn code(self) -> u8 {
        match self {
            RsaAlg::PKCS1_SHA1 => 1,
            RsaAlg::PKCS1_SHA256 => 2,
            RsaAlg::PKCS1_SHA384 => 3,
            RsaAlg::PKCS1_SHA512 => 4,
            RsaAlg::PSS_SHA1 => 5,
            RsaAlg::PSS_SHA256 => 6,
            RsaAlg::PSS_SHA384 => 7,
            RsaAlg::PSS_SHA512 => 8,
            RsaAlg::OAEP_SHA1 => 25,
            RsaAlg::OAEP_SHA256 => 26,
            RsaAlg::OAEP_SHA384 => 27,
            RsaAlg::OAEP_SHA512 => 28,
        }
    }

    /// The identifier on the wire.
    pub fn to_u8(self) -> (b: u8)
        ensures
            b == self.code(),
    {
        match self {
            RsaAlg::PKCS1_SHA1 => 1,
            RsaAlg::PKCS1_SHA256 => 2,
            RsaAlg::PKCS1_SHA384 => 3,
            RsaAlg::PKCS1_SHA512 => 4,
            RsaAlg::PSS_SHA1 => 5,
            RsaAlg::PSS_SHA256 => 6,
            RsaAlg::PSS_SHA384 => 7,
            RsaAlg::PSS_SHA512 => 8,
            RsaAlg::OAEP_SHA1 => 25,
            RsaAlg::OAEP_SHA256 => 26,
            RsaAlg::OAEP_SHA384 => 27,
            RsaAlg::OAEP_SHA512 => 28,
        }
    }
}

/// Kinds of asymmetric key.
#[allow(non_camel_case_types)]
#[derive(Clone, Copy, Debug, PartialEq, Eq, Structural)]
pub enum AsymmetricAlg {
    /// 2048-bit RSA.
    RSA_2048,
    /// 3072-bit RSA.
    RSA_3072,
    /// 4096-bit RSA.
    RSA_4096,
    /// NIST P-256.
    EC_P256,
    /// NIST P-384.
    EC_P384,
    /// NIST P-521.
    EC_P521,
    /// secp256k1.
    EC_K256,
    /// Brainpool P256r1.
    EC_BP256,
    /// Brainpool P384r1.
    EC_BP384,
    /// Brainpool P512r1.
    EC_BP512,
    /// Ed25519.
    Ed25519,
    /// NIST P-224.
    EC_P224,
}

impl AsymmetricAlg {
    /// The identifier on the wire.
    pub open spec fn code(self) -> u8 {
        match self {
            AsymmetricAlg::RSA_2048 => 9,
            AsymmetricAlg::RSA_3072 => 10,
            AsymmetricAlg::RSA_4096 => 11,
            AsymmetricAlg::EC_P256 => 12,
            AsymmetricAlg::EC_P384 => 13,
            AsymmetricAlg::EC_P521 => 14,
            AsymmetricAlg::EC_K256 => 15,
            AsymmetricAlg::EC_BP256 => 16,
            AsymmetricAlg::EC_BP384 => 17,
            AsymmetricAlg::EC_BP512 => 18,
            AsymmetricAlg::Ed25519 => 46,
            AsymmetricAlg::EC_P224 => 47,
        }
    }

    /// The identifier on the wire.
    pub fn to_u8(self) -> (b: u8)
        ensures
            b == self.code(),
    {
        match self {
            AsymmetricAlg::RSA_2048 => 9,
            AsymmetricAlg::RSA_3072 => 10,
            AsymmetricAlg::RSA_4096 => 11,
            AsymmetricAlg::EC_P256 => 12,
            AsymmetricAlg::EC_P384 => 13,
            AsymmetricAlg::EC_P521 => 14,
            AsymmetricAlg::EC_K256 => 15,
            AsymmetricAlg::EC_BP256 => 16,
            AsymmetricAlg::EC_BP384 => 17,
            AsymmetricAlg::EC_BP512 => 18,
            AsymmetricAlg::Ed25519 => 46,
            AsymmetricAlg::EC_P224 => 47,
        }
    }
}

/// HMAC constructions.
#[allow(non_camel_case_types)]
#[derive(Clone, Copy, Debug, PartialEq, Eq, Structural)]
pub enum HmacAlg {
    /// HMAC-SHA1.
    SHA1,
    /// HMAC-SHA256.
    SHA256,
    /// HMAC-SHA384.
    SHA384,
    /// HMAC-SHA512.
    SHA512,
}

impl HmacAlg {
    /// The identifier on the wire.
    pub open spec fn code(self) -> u8 {
        match self {
            HmacAlg::SHA1 => 19,
            HmacAlg::SHA256 => 20,
            HmacAlg::SHA384 => 21,
            HmacAlg::SHA512 => 22,
        }
    }

    /// The identifier on the wire.
    pub fn to_u8(self) -> (b: u8)
        ensures
            b == self.code(),
    {
        match self {
            HmacAlg::SHA1 => 19,
            HmacAlg::SHA256 => 20,
            HmacAlg::SHA384 => 21,
            HmacAlg::SHA512 => 22,
        }
    }
}

/// ECDSA digests.
#[allow(non_camel_case_types)]
#[derive(Clone, Copy, Debug, PartialEq, Eq, Structural)]
pub enum EcdsaAlg {
    /// ECDSA with SHA-1.
    SHA1,
    /// ECDSA with SHA-256.
    SHA256,
    /// ECDSA with SHA-384.
    SHA384,
    /// ECDSA with SHA-512.
    SHA512,
}

impl EcdsaAlg {
    /// The identifier on the wire.
    pub open spec fn code(self) -> u8 {
        match self {
            EcdsaAlg::SHA1 => 23,
            EcdsaAlg::SHA256 => 43,
            EcdsaAlg::SHA384 => 44,
            EcdsaAlg::SHA512 => 45,
        }
    }

    /// The identifier on the wire.
    pub fn to_u8(self) -> (b: u8)
        ensures
            b == self.code(),
    {
        match self {
            EcdsaAlg::SHA1 => 23,
            EcdsaAlg::SHA256 => 43,
            EcdsaAlg::SHA384 => 44,
            EcdsaAlg::SHA512 => 45,
        }
    }
}

/// Key exchange.
#[allow(non_camel_case_types)]
#[derive(Clone, Copy, Debug, PartialEq, Eq, Structural)]
pub enum KexAlg {
    /// Elliptic curve Diffie-Hellman.
    ECDH,
}

impl KexAlg {
    /// The identifier on the wire.
    pub open spec fn code(self) -> u8 {
        match self {
            KexAlg::ECDH => 24,
        }
    }

    /// The identifier on the wire.
    pub fn to_u8(self) -> (b: u8)
        ensures
            b == self.code(),
    {
        match self {
            KexAlg::ECDH => 24,
        }
    }
}

/// Key wrapping ciphers.
#[allow(non_camel_case_types)]
#[derive(Clone, Copy, Debug, PartialEq, Eq, Structural)]
pub enum WrapAlg {
    /// AES-128 in CCM mode.
    AES128_CCM,
    /// AES-192 in CCM mode.
    AES192_CCM,
    /// AES-256 in CCM mode.
    AES256_CCM,
}

impl WrapAlg {
    /// The identifier on the wire.
    pub open spec fn code(self) -> u8 {
        match self {
            WrapAlg::AES128_CCM => 29,
            WrapAlg::AES192_CCM => 41,
            WrapAlg::AES256_CCM => 42,
        }
    }

    /// The identifier on the wire.
    pub fn to_u8(self) -> (b: u8)
        ensures
            b == self.code(),
    {
        match self {
            WrapAlg::AES128_CCM => 29,
            WrapAlg::AES192_CCM => 41,
            WrapAlg::AES256_CCM => 42,
        }
    }
}

/// Kinds of opaque object.
#[allow(non_camel_case_types)]
#[derive(Clone, Copy, Debug, PartialEq, Eq, Structural)]
pub enum OpaqueAlg {
    /// Arbitrary data.
    DATA,
    /// An X.509 certificate.
    X509_CERTIFICATE,
}

impl OpaqueAlg {
    /// The identifier on the wire.
    pub open spec fn code(self) -> u8 {
        match self {
            OpaqueAlg::DATA => 30,
            OpaqueAlg::X509_CERTIFICATE => 31,
        }
    }

    /// The identifier on the wire.
    pub fn to_u8(self) -> (b: u8)
        ensures
            b == self.code(),
    {
        match self {
            OpaqueAlg::DATA => 30,
            OpaqueAlg::X509_CERTIFICATE => 31,
        }
    }
}

/// Mask generation functions.
#[allow(non_camel_case_types)]
#[derive(Clone, Copy, Debug, PartialEq, Eq, Structural)]
pub enum MgfAlg {
    /// MGF1 with SHA-1.
    SHA1,
    /// MGF1 with SHA-256.
    SHA256,
    /// MGF1 with SHA-384.
    SHA384,
    /// MGF1 with SHA-512.
    SHA512,
}

impl MgfAlg {
    /// The identifier on the wire.
    pub open spec fn code(self) -> u8 {
        match self {
            MgfAlg::SHA1 => 32,
            MgfAlg::SHA256 => 33,
            MgfAlg::SHA384 => 34,
            MgfAlg::SHA512 => 35,
        }
    }

    /// The identifier on the wire.
    pub fn to_u8(self) -> (b: u8)
        ensures
            b == self.code(),
    {
        match self {
            MgfAlg::SHA1 => 32,
            MgfAlg::SHA256 => 33,
            MgfAlg::SHA384 => 34,
            MgfAlg::SHA512 => 35,
        }
    }
}

/// Templates.
#[allow(non_camel_case_types)]
#[derive(Clone, Copy, Debug, PartialEq, Eq, Structural)]
pub enum TemplateAlg {
    /// SSH certificate template.
    SSH,
}

impl TemplateAlg {
    /// The identifier on the wire.
    pub open spec fn code(self) -> u8 {
        match self {
            TemplateAlg::SSH => 36,
        }
    }

    /// The identifier on the wire.
    pub fn to_u8(self) -> (b: u8)
        ensures
            b == self.code(),
    {
        match self {
            TemplateAlg::SSH => 36,
        }
    }
}

/// Yubico OTP ciphers.
#[allow(non_camel_case_types)]
#[derive(Clone, Copy, Debug, PartialEq, Eq, Structural)]
pub enum YubicoOtpAlg {
    /// Yubico OTP with AES-128.
    AES128,
    /// Yubico OTP with AES-192.
    AES192,
    /// Yubico OTP with AES-256.
    AES256,
}

impl YubicoOtpAlg {
    /// The identifier on the wire.
    pub open spec fn code(self) -> u8 {
        match self {
            YubicoOtpAlg::AES128 => 37,
            YubicoOtpAlg::AES192 => 39,
            YubicoOtpAlg::AES256 => 40,
        }
    }

    /// The identifier on the wire.
    pub fn to_u8(self) -> (b: u8)
        ensures
            b == self.code(),
    {
        match self {
            YubicoOtpAlg::AES128 => 37,
            YubicoOtpAlg::AES192 => 39,
            YubicoOtpAlg::AES256 => 40,
        }
    }
}

/// Session authentication.
#[allow(non_camel_case_types)]
#[derive(Clone, Copy, Debug, PartialEq, Eq, Structural)]
pub enum AuthenticationAlg {
    /// Yubico AES authentication.
    YUBICO_AES,
}

impl AuthenticationAlg {
    /// The identifier on the wire.
    pub open spec fn code(self) -> u8 {
        match self {
            AuthenticationAlg::YUBICO_AES => 38,
        }
    }

    /// The identifier on the wire.
    pub fn to_u8(self) -> (b: u8)
        ensures
            b == self.code(),
    {
        match self {
            AuthenticationAlg::YUBICO_AES => 38,
        }
    }
}

/// Any algorithm of the device.
#[derive(Clone, Copy, Debug, PartialEq, Eq, Structural)]
pub enum Algorithm {
    /// RSA signature and encryption schemes.
    Rsa(RsaAlg),
    /// Kinds of asymmetric key.
    Asymmetric(AsymmetricAlg),
    /// HMAC constructions.
    Hmac(HmacAlg),
    /// ECDSA digests.
    Ecdsa(EcdsaAlg),
    /// Key exchange.
    Kex(KexAlg),
    /// Key wrapping ciphers.
    Wrap(WrapAlg),
    /// Kinds of opaque object.
    Opaque(OpaqueAlg),
    /// Mask generation functions.
    Mgf(MgfAlg),
    /// Templates.
    Template(TemplateAlg),
    /// Yubico OTP ciphers.
    YubicoOtp(YubicoOtpAlg),
    /// Session authentication.
    Auth(AuthenticationAlg),
}

impl Algorithm {
    /// The identifier on the wire: that of the member inside.
    pub open spec fn code(self) -> u8 {
        match self {
            Algorithm::Rsa(a) => a.code(),
            Algorithm::Asymmetric(a) => a.code(),
            Algorithm::Hmac(a) => a.code(),
            Algorithm::Ecdsa(a) => a.code(),
            Algorithm::Kex(a) => a.code(),
            Algorithm::Wrap(a) => a.code(),
            Algorithm::Opaque(a) => a.code(),
            Algorithm::Mgf(a) => a.code(),
            Algorithm::Template(a) => a.code(),
            Algorithm::YubicoOtp(a) => a.code(),
            Algorithm::Auth(a) => a.code(),
        }
    }

    /// The algorithm that an identifier names, if it names one.
    pub open spec fn of_code(b: u8) -> Option<Algorithm> {
        if b == 1 {
            Some(Algorithm::Rsa(RsaAlg::PKCS1_SHA1))
        } else if b == 2 {
            Some(Algorithm::Rsa(RsaAlg::PKCS1_SHA256))
        } else if b == 3 {
            Some(Algorithm::Rsa(RsaAlg::PKCS1_SHA384))
        } else if b == 4 {
            Some(Algorithm::Rsa(RsaAlg::PKCS1_SHA512))
        } else if b == 5 {
            Some(Algorithm::Rsa(RsaAlg::PSS_SHA1))
        } else if b == 6 {
            Some(Algorithm::Rsa(RsaAlg::PSS_SHA256))
        } else if b == 7 {
            Some(Algorithm::Rsa(RsaAlg::PSS_SHA384))
        } else if b == 8 {
            Some(Algorithm::Rsa(RsaAlg::PSS_SHA512))
        } else if b == 9 {
            Some(Algorithm::Asymmetric(AsymmetricAlg::RSA_2048))
        } else if b == 10 {
            Some(Algorithm::Asymmetric(AsymmetricAlg::RSA_3072))
        } else if b == 11 {
            Some(Algorithm::Asymmetric(AsymmetricAlg::RSA_4096))
        } else if b == 12 {
            Some(Algorithm::Asymmetric(AsymmetricAlg::EC_P256))
        } else if b == 13 {
            Some(Algorithm::Asymmetric(AsymmetricAlg::EC_P384))
        } else if b == 14 {
            Some(Algorithm::Asymmetric(AsymmetricAlg::EC_P521))
        } else if b == 15 {
            Some(Algorithm::Asymmetric(AsymmetricAlg::EC_K256))
        } else if b == 16 {
            Some(Algorithm::Asymmetric(AsymmetricAlg::EC_BP256))
        } else if b == 17 {
            Some(Algorithm::Asymmetric(AsymmetricAlg::EC_BP384))
        } else if b == 18 {
            Some(Algorithm::Asymmetric(AsymmetricAlg::EC_BP512))
        } else if b == 19 {
            Some(Algorithm::Hmac(HmacAlg::SHA1))
        } else if b == 20 {
            Some(Algorithm::Hmac(HmacAlg::SHA256))
        } else if b == 21 {
            Some(Algorithm::Hmac(HmacAlg::SHA384))
        } else if b == 22 {
            Some(Algorithm::Hmac(HmacAlg::SHA512))
        } else if b == 23 {
            Some(Algorithm::Ecdsa(EcdsaAlg::SHA1))
        } else if b == 24 {
            Some(Algorithm::Kex(KexAlg::ECDH))
        } else if b == 25 {
            Some(Algorithm::Rsa(RsaAlg::OAEP_SHA1))
        } else if b == 26 {
            Some(Algorithm::Rsa(RsaAlg::OAEP_SHA256))
        } else if b == 27 {
            Some(Algorithm::Rsa(RsaAlg::OAEP_SHA384))
        } else if b == 28 {
            Some(Algorithm::Rsa(RsaAlg::OAEP_SHA512))
        } else if b == 29 {
            Some(Algorithm::Wrap(WrapAlg::AES128_CCM))
        } else if b == 30 {
            Some(Algorithm::Opaque(OpaqueAlg::DATA))
        } else if b == 31 {
            Some(Algorithm::Opaque(OpaqueAlg::X509_CERTIFICATE))
        } else if b == 32 {
            Some(Algorithm::Mgf(MgfAlg::SHA1))
        } else if b == 33 {
            Some(Algorithm::Mgf(MgfAlg::SHA256))
        } else if b == 34 {
            Some(Algorithm::Mgf(MgfAlg::SHA384))
        } else if b == 35 {
            Some(Algorithm::Mgf(MgfAlg::SHA512))
        } else if b == 36 {
            Some(Algorithm::Template(TemplateAlg::SSH))
        } else if b == 37 {
            Some(Algorithm::YubicoOtp(YubicoOtpAlg::AES128))
        } else if b == 38 {
            Some(Algorithm::Auth(AuthenticationAlg::YUBICO_AES))
        } else if b == 39 {
            Some(Algorithm::YubicoOtp(YubicoOtpAlg::AES192))
        } else if b == 40 {
            Some(Algorithm::YubicoOtp(YubicoOtpAlg::AES256))
        } else if b == 41 {
            Some(Algorithm::Wrap(WrapAlg::AES192_CCM))
        } else if b == 42 {
            Some(Algorithm::Wrap(WrapAlg::AES256_CCM))
        } else if b == 43 {
            Some(Algorithm::Ecdsa(EcdsaAlg::SHA256))
        } else if b == 44 {
            Some(Algorithm::Ecdsa(EcdsaAlg::SHA384))
        } else if b == 45 {
            Some(Algorithm::Ecdsa(EcdsaAlg::SHA512))
        } else if b == 46 {
            Some(Algorithm::Asymmetric(AsymmetricAlg::Ed25519))
        } else if b == 47 {
            Some(Algorithm::Asymmetric(AsymmetricAlg::EC_P224))
        } else {
            None
        }
    }

    /// The identifier on the wire.
    pub fn to_u8(self) -> (b: u8)
        ensures
            b == self.code(),
    {
        match self {
            Algorithm::Rsa(a) => a.to_u8(),
            Algorithm::Asymmetric(a) => a.to_u8(),
            Algorithm::Hmac(a) => a.to_u8(),
            Algorithm::Ecdsa(a) => a.to_u8(),
            Algorithm::Kex(a) => a.to_u8(),
            Algorithm::Wrap(a) => a.to_u8(),
            Algorithm::Opaque(a) => a.to_u8(),
            Algorithm::Mgf(a) => a.to_u8(),
            Algorithm::Template(a) => a.to_u8(),
            Algorithm::YubicoOtp(a) => a.to_u8(),
            Algorithm::Auth(a) => a.to_u8(),
        }
    }

    /// Decodes an identifier; `None` for a byte that names no algorithm.
    pub fn from_u8(b: u8) -> (r: Option<Algorithm>)
        ensures
            r == Algorithm::of_code(b),
    {
        match b {
            1 => Some(Algorithm::Rsa(RsaAlg::PKCS1_SHA1)),
            2 => Some(Algorithm::Rsa(RsaAlg::PKCS1_SHA256)),
            3 => Some(Algorithm::Rsa(RsaAlg::PKCS1_SHA384)),
            4 => Some(Algorithm::Rsa(RsaAlg::PKCS1_SHA512)),
            5 => Some(Algorithm::Rsa(RsaAlg::PSS_SHA1)),
            6 => Some(Algorithm::Rsa(RsaAlg::PSS_SHA256)),
            7 => Some(Algorithm::Rsa(RsaAlg::PSS_SHA384)),
            8 => Some(Algorithm::Rsa(RsaAlg::PSS_SHA512)),
            9 => Some(Algorithm::Asymmetric(AsymmetricAlg::RSA_2048)),
            10 => Some(Algorithm::Asymmetric(AsymmetricAlg::RSA_3072)),
            11 => Some(Algorithm::Asymmetric(AsymmetricAlg::RSA_4096)),
            12 => Some(Algorithm::Asymmetric(AsymmetricAlg::EC_P256)),
            13 => Some(Algorithm::Asymmetric(AsymmetricAlg::EC_P384)),
            14 => Some(Algorithm::Asymmetric(AsymmetricAlg::EC_P521)),
            15 => Some(Algorithm::Asymmetric(AsymmetricAlg::EC_K256)),
            16 => Some(Algorithm::Asymmetric(AsymmetricAlg::EC_BP256)),
            17 => Some(Algorithm::Asymmetric(AsymmetricAlg::EC_BP384)),
            18 => Some(Algorithm::Asymmetric(AsymmetricAlg::EC_BP512)),
            19 => Some(Algorithm::Hmac(HmacAlg::SHA1)),
            20 => Some(Algorithm::Hmac(HmacAlg::SHA256)),
            21 => Some(Algorithm::Hmac(HmacAlg::SHA384)),
            22 => Some(Algorithm::Hmac(HmacAlg::SHA512)),
            23 => Some(Algorithm::Ecdsa(EcdsaAlg::SHA1)),
            24 => Some(Algorithm::Kex(KexAlg::ECDH)),
            25 => Some(Algorithm::Rsa(RsaAlg::OAEP_SHA1)),
            26 => Some(Algorithm::Rsa(RsaAlg::OAEP_SHA256)),
            27 => Some(Algorithm::Rsa(RsaAlg::OAEP_SHA384)),
            28 => Some(Algorithm::Rsa(RsaAlg::OAEP_SHA512)),
            29 => Some(Algorithm::Wrap(WrapAlg::AES128_CCM)),
            30 => Some(Algorithm::Opaque(OpaqueAlg::DATA)),
            31 => Some(Algorithm::Opaque(OpaqueAlg::X509_CERTIFICATE)),
            32 => Some(Algorithm::Mgf(MgfAlg::SHA1)),
            33 => Some(Algorithm::Mgf(MgfAlg::SHA256)),
            34 => Some(Algorithm::Mgf(MgfAlg::SHA384)),
            35 => Some(Algorithm::Mgf(MgfAlg::SHA512)),
            36 => Some(Algorithm::Template(TemplateAlg::SSH)),
            37 => Some(Algorithm::YubicoOtp(YubicoOtpAlg::AES128)),
            38 => Some(Algorithm::Auth(AuthenticationAlg::YUBICO_AES)),
            39 => Some(Algorithm::YubicoOtp(YubicoOtpAlg::AES192)),
            40 => Some(Algorithm::YubicoOtp(YubicoOtpAlg::AES256)),
            41 => Some(Algorithm::Wrap(WrapAlg::AES192_CCM)),
            42 => Some(Algorithm::Wrap(WrapAlg::AES256_CCM)),
            43 => Some(Algorithm::Ecdsa(EcdsaAlg::SHA256)),
            44 => Some(Algorithm::Ecdsa(EcdsaAlg::SHA384)),
            45 => Some(Algorithm::Ecdsa(EcdsaAlg::SHA512)),
            46 => Some(Algorithm::Asymmetric(AsymmetricAlg::Ed25519)),
            47 => Some(Algorithm::Asymmetric(AsymmetricAlg::EC_P224)),
            _ => None,
        }
    }

    /// The member inside, if this is one of the group `Asymmetric`.
    pub fn asymmetric(self) -> (r: Option<AsymmetricAlg>)
        ensures
            r == (match self {
                Algorithm::Asymmetric(a) => Some(a),
                _ => None,
            }),
    {
        match self {
            Algorithm::Asymmetric(a) => Some(a),
            _ => None,
        }
    }

    /// The member inside, if this is one of the group `Hmac`.
    pub fn hmac(self) -> (r: Option<HmacAlg>)
        ensures
            r == (match self {
                Algorithm::Hmac(a) => Some(a),
                _ => None,
            }),
    {
        match self {
            Algorithm::Hmac(a) => Some(a),
            _ => None,
        }
    }

    /// The member inside, if this is one of the group `Wrap`.
    pub fn wrap(self) -> (r: Option<WrapAlg>)
        ensures
            r == (match self {
                Algorithm::Wrap(a) => Some(a),
                _ => None,
            }),
    {
        match self {
            Algorithm::Wrap(a) => Some(a),
            _ => None,
        }
    }

    /// The member inside, if this is one of the group `Opaque`.
    pub fn opaque(self) -> (r: Option<OpaqueAlg>)
        ensures
            r == (match self {
                Algorithm::Opaque(a) => Some(a),
                _ => None,
            }),
    {
        match self {
            Algorithm::Opaque(a) => Some(a),
            _ => None,
        }
    }

    /// The member inside, if this is one of the group `Mgf`.
    pub fn mgf(self) -> (r: Option<MgfAlg>)
        ensures
            r == (match self {
                Algorithm::Mgf(a) => Some(a),
                _ => None,
            }),
    {
        match self {
            Algorithm::Mgf(a) => Some(a),
            _ => None,
        }
    }

    /// The member inside, if this is one of the group `YubicoOtp`.
    pub fn yubico_otp(self) -> (r: Option<YubicoOtpAlg>)
        ensures
            r == (match self {
                Algorithm::YubicoOtp(a) => Some(a),
                _ => None,
            }),
    {
        match self {
            Algorithm::YubicoOtp(a) => Some(a),
            _ => None,
        }
    }

    /// The member inside, if this is one of the group `Auth`.
    pub fn auth(self) -> (r: Option<AuthenticationAlg>)
        ensures
            r == (match self {
                Algorithm::Auth(a) => Some(a),
                _ => None,
            }),
    {
        match self {
            Algorithm::Auth(a) => Some(a),
            _ => None,
        }
    }

}

/// Decoding the identifier of an algorithm gives that algorithm, and every
/// identifier is one byte.
pub proof fn lemma_algorithm_round_trip(a: Algorithm)
    ensures
        Algorithm::of_code(a.code()) == Some(a),
        1 <= a.code() <= 47,
{
}

/// An identifier that decodes at all decodes to the algorithm that encodes to it.
pub proof fn lemma_algorithm_of_code(b: u8)
    ensures
        Algorithm::of_code(b) matches Some(a) ==> a.code() == b,
        Algorithm::of_code(b) is Some <==> 1 <= b <= 47,
{
}

impl AsymmetricAlg {
    /// Length in bytes of a private key of this kind.
    pub open spec fn spec_key_len(self) -> nat {
        match self {
            AsymmetricAlg::RSA_2048 => 256,
            AsymmetricAlg::RSA_3072 => 384,
            AsymmetricAlg::RSA_4096 => 512,
            AsymmetricAlg::Ed25519 => 32,
            AsymmetricAlg::EC_P224 => 28,
            AsymmetricAlg::EC_P256 => 32,
            AsymmetricAlg::EC_K256 => 32,
            AsymmetricAlg::EC_BP256 => 32,
            AsymmetricAlg::EC_P384 => 48,
            AsymmetricAlg::EC_BP384 => 48,
            AsymmetricAlg::EC_BP512 => 64,
            AsymmetricAlg::EC_P521 => 66,
        }
    }

    /// Length in bytes of a private key of this kind.
    pub fn key_len(self) -> (n: usize)
        ensures
            n == self.spec_key_len(),
    {
        match self {
            AsymmetricAlg::RSA_2048 => 256,
            AsymmetricAlg::RSA_3072 => 384,
            AsymmetricAlg::RSA_4096 => 512,
            AsymmetricAlg::Ed25519 => 32,
            AsymmetricAlg::EC_P224 => 28,
            AsymmetricAlg::EC_P256 => 32,
            AsymmetricAlg::EC_K256 => 32,
            AsymmetricAlg::EC_BP256 => 32,
            AsymmetricAlg::EC_P384 => 48,
            AsymmetricAlg::EC_BP384 => 48,
            AsymmetricAlg::EC_BP512 => 64,
            AsymmetricAlg::EC_P521 => 66,
        }
    }
}

impl HmacAlg {
    /// Recommended key length in bytes: the digest's output size.
    pub open spec fn spec_key_len(self) -> nat {
        match self {
            HmacAlg::SHA1 => 20,
            HmacAlg::SHA256 => 32,
            HmacAlg::SHA384 => 48,
            HmacAlg::SHA512 => 64,
        }
    }

    /// Longest key in bytes that the device accepts: the digest's block size.
    pub open spec fn spec_max_key_len(self) -> nat {
        match self {
            HmacAlg::SHA1 => 64,
            HmacAlg::SHA256 => 64,
            HmacAlg::SHA384 => 128,
            HmacAlg::SHA512 => 128,
        }
    }

    /// Recommended key length in bytes, which is also the length of a tag.
    pub fn key_len(self) -> (n: usize)
        ensures
            n == self.spec_key_len(),
    {
        match self {
            HmacAlg::SHA1 => 20,
            HmacAlg::SHA256 => 32,
            HmacAlg::SHA384 => 48,
            HmacAlg::SHA512 => 64,
        }
    }

    /// Longest key in bytes that the device accepts.
    pub fn max_key_len(self) -> (n: usize)
        ensures
            n == self.spec_max_key_len(),
    {
        match self {
            HmacAlg::SHA1 => 64,
            HmacAlg::SHA256 => 64,
            HmacAlg::SHA384 => 128,
            HmacAlg::SHA512 => 128,
        }
    }
}

impl WrapAlg {
    /// Length in bytes of a wrap key of this kind.
    pub open spec fn spec_key_len(self) -> nat {
        match self {
            WrapAlg::AES128_CCM => 16,
            WrapAlg::AES192_CCM => 24,
            WrapAlg::AES256_CCM => 32,
        }
    }

    /// Length in bytes of a wrap key of this kind.
    pub fn key_len(self) -> (n: usize)
        ensures
            n == self.spec_key_len(),
    {
        match self {
            WrapAlg::AES128_CCM => 16,
            WrapAlg::AES192_CCM => 24,
            WrapAlg::AES256_CCM => 32,
        }
    }
}

impl YubicoOtpAlg {
    /// Length in bytes of an OTP key of this kind.
    pub open spec fn spec_key_len(self) -> nat {
        match self {
            YubicoOtpAlg::AES128 => 16,
            YubicoOtpAlg::AES192 => 24,
            YubicoOtpAlg::AES256 => 32,
        }
    }

    /// Length in bytes of an OTP key of this kind.
    pub fn key_len(self) -> (n: usize)
        ensures
            n == self.spec_key_len(),
    {
        match self {
            YubicoOtpAlg::AES128 => 16,
            YubicoOtpAlg::AES192 => 24,
            YubicoOtpAlg::AES256 => 32,
        }
    }
}

} // verus!
