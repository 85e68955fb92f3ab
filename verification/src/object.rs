//! Objects: the device's persistent unit, and the attributes that describe one.

use crate::algorithm::Algorithm;
use crate::codec::{be16, be64, put_bytes, put_u16, put_u64, put_u8, read_bytes, read_u16,
    read_u64, u16_at, u64_at, lemma_u16_round_trip, lemma_u64_round_trip};
use vstd::prelude::*;

verus! {

/// Number of an object. It is unique only together with the object's type.
pub type ObjectId = u16;

/// How often the slot of an object has been filled; wraps at 256.
pub type SequenceId = u8;

/// Width of a label on the wire.
pub const LABEL_SIZE: usize = 40;

/// Width of an `ObjectInfo` on the wire.
pub const OBJECT_INFO_SIZE: usize = 66;

/// Kinds of object.
#[derive(Clone, Copy, Debug, PartialEq, Eq, Structural)]
pub enum ObjectType {
    /// Raw data or an X.509 certificate.
    Opaque,
    /// A key that opens sessions.
    AuthenticationKey,
    /// The private half of an asymmetric key pair.
    AsymmetricKey,
    /// A key that exports and imports other objects.
    WrapKey,
    /// An HMAC key.
    HmacKey,
    /// A template for SSH certificates.
    Template,
    /// A key that decrypts Yubico OTPs.
    OtpAeadKey,
}

impl ObjectType {
    /// The identifier on the wire.
    pub open spec fn code(self) -> u8 {
        match self {
            ObjectType::Opaque => 1,
            ObjectType::AuthenticationKey => 2,
            ObjectType::AsymmetricKey => 3,
            ObjectType::WrapKey => 4,
            ObjectType::HmacKey => 5,
            ObjectType::Template => 6,
            ObjectType::OtpAeadKey => 7,
        }
    }

    /// The type that an identifier names, if it names one.
    pub open spec fn of_code(b: u8) -> Option<ObjectType> {
        if b == 1 {
            Some(ObjectType::Opaque)
        } else if b == 2 {
            Some(ObjectType::AuthenticationKey)
        } else if b == 3 {
            Some(ObjectType::AsymmetricKey)
        } else if b == 4 {
            Some(ObjectType::WrapKey)
        } else if b == 5 {
            Some(ObjectType::HmacKey)
        } else if b == 6 {
            Some(ObjectType::Template)
        } else if b == 7 {
            Some(ObjectType::OtpAeadKey)
        } else {
            None
        }
    }

    /// The identifier on the wire.
    pub fn to_u8(self) -> (b: u8)
        ensures
            b == self.code(),
    {
        match self {
            ObjectType::Opaque => 1,
            ObjectType::AuthenticationKey => 2,
            ObjectType::AsymmetricKey => 3,
            ObjectType::WrapKey => 4,
            ObjectType::HmacKey => 5,
            ObjectType::Template => 6,
            ObjectType::OtpAeadKey => 7,
        }
    }

    /// Decodes an identifier; `None` for a byte that names no type.
    pub fn from_u8(b: u8) -> (r: Option<ObjectType>)
        ensures
            r == ObjectType::of_code(b),
    {
        match b {
            1 => Some(ObjectType::Opaque),
            2 => Some(ObjectType::AuthenticationKey),
            3 => Some(ObjectType::AsymmetricKey),
            4 => Some(ObjectType::WrapKey),
            5 => Some(ObjectType::HmacKey),
            6 => Some(ObjectType::Template),
            7 => Some(ObjectType::OtpAeadKey),
            _ => None,
        }
    }
}

/// Where an object came from.
#[derive(Clone, Copy, Debug, PartialEq, Eq, Structural)]
pub enum ObjectOrigin {
    /// Generated on the device.
    Generated,
    /// Put into the device from outside.
    Imported,
    /// Generated on a device, then imported here under a wrap key.
    WrappedGenerated,
    /// Put into a device from outside, then imported here under a wrap key.
    WrappedImported,
}

impl ObjectOrigin {
    /// The identifier on the wire.
    pub open spec fn code(self) -> u8 {
        match self {
            ObjectOrigin::Generated => 0x01,
            ObjectOrigin::Imported => 0x02,
            ObjectOrigin::WrappedGenerated => 0x11,
            ObjectOrigin::WrappedImported => 0x12,
        }
    }

    /// The origin that an identifier names, if it names one.
    pub open spec fn of_code(b: u8) -> Option<ObjectOrigin> {
        if b == 0x01 {
            Some(ObjectOrigin::Generated)
        } else if b == 0x02 {
            Some(ObjectOrigin::Imported)
        } else if b == 0x11 {
            Some(ObjectOrigin::WrappedGenerated)
        } else if b == 0x12 {
            Some(ObjectOrigin::WrappedImported)
        } else {
            None
        }
    }

    /// The origin of this object once it has been exported and imported again.
    pub open spec fn spec_wrapped(self) -> ObjectOrigin {
        match self {
            ObjectOrigin::Generated => ObjectOrigin::WrappedGenerated,
            ObjectOrigin::Imported => ObjectOrigin::WrappedImported,
            other => other,
        }
    }

    /// The identifier on the wire.
    pub fn to_u8(self) -> (b: u8)
        ensures
            b == self.code(),
    {
        match self {
            ObjectOrigin::Generated => 0x01,
            ObjectOrigin::Imported => 0x02,
            ObjectOrigin::WrappedGenerated => 0x11,
            ObjectOrigin::WrappedImported => 0x12,
        }
    }

    /// Decodes an identifier; `None` for a byte that names no origin.
    pub fn from_u8(b: u8) -> (r: Option<ObjectOrigin>)
        ensures
            r == ObjectOrigin::of_code(b),
    {
        match b {
            0x01 => Some(ObjectOrigin::Generated),
            0x02 => Some(ObjectOrigin::Imported),
            0x11 => Some(ObjectOrigin::WrappedGenerated),
            0x12 => Some(ObjectOrigin::WrappedImported),
            _ => None,
        }
    }

    /// The origin of this object once it has been exported and imported again.
    pub fn wrapped(self) -> (r: ObjectOrigin)
        ensures
            r == self.spec_wrapped(),
    {
        match self {
            ObjectOrigin::Generated => ObjectOrigin::WrappedGenerated,
            ObjectOrigin::Imported => ObjectOrigin::WrappedImported,
            other => other,
        }
    }
}

/// Decoding the identifier of a type or of an origin gives it back.
pub proof fn lemma_object_tags_round_trip(t: ObjectType, o: ObjectOrigin)
    ensures
        ObjectType::of_code(t.code()) == Some(t),
        ObjectOrigin::of_code(o.code()) == Some(o),
{
}

/// A set of permitted operations, one bit each.
#[derive(Clone, Copy, Debug, PartialEq, Eq, Structural)]
pub struct Capability {
    /// The bits of the set.
    pub bits: u64,
}

/// May read opaque objects.
pub const CAPABILITY_GET_OPAQUE: u64 = 0x0000_0000_0000_0001;
/// May store opaque objects.
pub const CAPABILITY_PUT_OPAQUE: u64 = 0x0000_0000_0000_0002;
/// May store authentication keys.
pub const CAPABILITY_PUT_AUTHENTICATION_KEY: u64 = 0x0000_0000_0000_0004;
/// May store asymmetric keys.
pub const CAPABILITY_PUT_ASYMMETRIC_KEY: u64 = 0x0000_0000_0000_0008;
/// May generate asymmetric keys.
pub const CAPABILITY_GENERATE_ASYMMETRIC_KEY: u64 = 0x0000_0000_0000_0010;
/// May sign with RSASSA-PKCS#1 v1.5.
pub const CAPABILITY_SIGN_PKCS: u64 = 0x0000_0000_0000_0020;
/// May sign with RSASSA-PSS.
pub const CAPABILITY_SIGN_PSS: u64 = 0x0000_0000_0000_0040;
/// May sign with ECDSA.
pub const CAPABILITY_SIGN_ECDSA: u64 = 0x0000_0000_0000_0080;
/// May sign with EdDSA.
pub const CAPABILITY_SIGN_EDDSA: u64 = 0x0000_0000_0000_0100;
/// May export other objects under a wrap key.
pub const CAPABILITY_EXPORT_WRAPPED: u64 = 0x0000_0000_0000_1000;
/// May import objects under a wrap key.
pub const CAPABILITY_IMPORT_WRAPPED: u64 = 0x0000_0000_0000_2000;
/// May store wrap keys.
pub const CAPABILITY_PUT_WRAP_KEY: u64 = 0x0000_0000_0000_4000;
/// May generate wrap keys.
pub const CAPABILITY_GENERATE_WRAP_KEY: u64 = 0x0000_0000_0000_8000;
/// May be exported under a wrap key.
pub const CAPABILITY_EXPORTABLE_UNDER_WRAP: u64 = 0x0000_0000_0001_0000;
/// May change device options.
pub const CAPABILITY_SET_OPTION: u64 = 0x0000_0000_0002_0000;
/// May read device options.
pub const CAPABILITY_GET_OPTION: u64 = 0x0000_0000_0004_0000;
/// May draw pseudo-random bytes.
pub const CAPABILITY_GET_PSEUDO_RANDOM: u64 = 0x0000_0000_0008_0000;
/// May store HMAC keys.
pub const CAPABILITY_PUT_HMAC_KEY: u64 = 0x0000_0000_0010_0000;
/// May generate HMAC keys.
pub const CAPABILITY_GENERATE_HMAC_KEY: u64 = 0x0000_0000_0020_0000;
/// May compute HMAC tags.
pub const CAPABILITY_SIGN_HMAC: u64 = 0x0000_0000_0040_0000;
/// May verify HMAC tags.
pub const CAPABILITY_VERIFY_HMAC: u64 = 0x0000_0000_0080_0000;
/// May read the audit log.
pub const CAPABILITY_GET_LOG_ENTRIES: u64 = 0x0000_0000_0100_0000;
/// May reset the device.
pub const CAPABILITY_RESET_DEVICE: u64 = 0x0000_0000_1000_0000;
/// May sign attestation certificates.
pub const CAPABILITY_SIGN_ATTESTATION_CERTIFICATE: u64 = 0x0000_0004_0000_0000;
/// May encrypt data under a wrap key.
pub const CAPABILITY_WRAP_DATA: u64 = 0x0000_0020_0000_0000;
/// May decrypt data under a wrap key.
pub const CAPABILITY_UNWRAP_DATA: u64 = 0x0000_0040_0000_0000;
/// May delete opaque objects.
pub const CAPABILITY_DELETE_OPAQUE: u64 = 0x0000_0080_0000_0000;
/// May delete authentication keys.
pub const CAPABILITY_DELETE_AUTHENTICATION_KEY: u64 = 0x0000_0100_0000_0000;
/// May delete asymmetric keys.
pub const CAPABILITY_DELETE_ASYMMETRIC_KEY: u64 = 0x0000_0200_0000_0000;
/// May delete wrap keys.
pub const CAPABILITY_DELETE_WRAP_KEY: u64 = 0x0000_0400_0000_0000;
/// May delete HMAC keys.
pub const CAPABILITY_DELETE_HMAC_KEY: u64 = 0x0000_0800_0000_0000;
/// May replace authentication keys.
pub const CAPABILITY_CHANGE_AUTHENTICATION_KEY: u64 = 0x0000_4000_0000_0000;
/// Every capability the device defines.
pub const CAPABILITY_ALL: u64 = 0x0000_7fff_ffff_ffff;

impl Capability {
    /// Whether every operation of `self` is also one of `other`.
    pub open spec fn subset_of(self, other: Capability) -> bool {
        self.bits & other.bits == self.bits
    }

    /// The set with the given bits.
    pub fn from_bits(bits: u64) -> (c: Capability)
        ensures
            c.bits == bits,
    {
        Capability { bits }
    }

    /// The empty set.
    pub fn none() -> (c: Capability)
        ensures
            c.bits == 0,
    {
        Capability { bits: 0 }
    }

    /// Every capability the device defines.
    pub fn all() -> (c: Capability)
        ensures
            c.bits == CAPABILITY_ALL,
    {
        Capability { bits: CAPABILITY_ALL }
    }

    /// Whether every operation of `other` is also one of `self`.
    pub fn contains(self, other: Capability) -> (r: bool)
        ensures
            r == other.subset_of(self),
    {
        other.bits & self.bits == other.bits
    }

    /// Whether every operation of `self` is also one of `other`.
    pub fn is_subset_of(self, other: Capability) -> (r: bool)
        ensures
            r == self.subset_of(other),
    {
        self.bits & other.bits == self.bits
    }
}

/// A set of the device's sixteen logical domains, one bit each.
#[derive(Clone, Copy, Debug, PartialEq, Eq, Structural)]
pub struct Domain {
    /// The bits of the set; bit `n - 1` stands for domain `n`.
    pub bits: u16,
}

impl Domain {
    /// Whether every domain of `self` is also one of `other`.
    pub open spec fn subset_of(self, other: Domain) -> bool {
        self.bits & other.bits == self.bits
    }

    /// Whether the two sets share a domain.
    pub open spec fn spec_intersects(self, other: Domain) -> bool {
        self.bits & other.bits != 0
    }

    /// The set with the given bits.
    pub fn from_bits(bits: u16) -> (d: Domain)
        ensures
            d.bits == bits,
    {
        Domain { bits }
    }

    /// All sixteen domains.
    pub fn all() -> (d: Domain)
        ensures
            d.bits == 0xffff,
    {
        Domain { bits: 0xffff }
    }

    /// The set that holds only domain `n`, for `n` from 1 to 16.
    pub fn at(n: u8) -> (r: Option<Domain>)
        ensures
            r is Some <==> 1 <= n <= 16,
            r matches Some(d) ==> d.bits == 1u16 << ((n - 1) as u16),
    {
        if 1 <= n && n <= 16 {
            Some(Domain { bits: 1u16 << ((n - 1) as u16) })
        } else {
            None
        }
    }

    /// Whether every domain of `other` is also one of `self`.
    pub fn contains(self, other: Domain) -> (r: bool)
        ensures
            r == other.subset_of(self),
    {
        other.bits & self.bits == other.bits
    }

    /// Whether the two sets share a domain: an object is visible to a caller
    /// exactly when its domains and the caller's do.
    pub fn intersects(self, other: Domain) -> (r: bool)
        ensures
            r == self.spec_intersects(other),
    {
        self.bits & other.bits != 0
    }
}

/// The laws of set inclusion that the capability rules rest on.
pub proof fn lemma_capability_subset(a: Capability, b: Capability, c: Capability)
    ensures
        a.subset_of(a),
        (Capability { bits: 0 }).subset_of(a),
        a.subset_of(b) && b.subset_of(c) ==> a.subset_of(c),
        a.subset_of(b) && b.subset_of(a) ==> a == b,
{
    let x: u64 = a.bits;
    let y: u64 = b.bits;
    let z: u64 = c.bits;
    assert(x & x == x) by (bit_vector);
    assert(0u64 & x == 0u64) by (bit_vector);
    assert((x & y == x && y & z == y) ==> x & z == x) by (bit_vector);
    assert((x & y == x && y & x == y) ==> x == y) by (bit_vector);
}

/// Every attribute of an object has a constant width on the wire: a type, an
/// origin and an algorithm take one byte, a set of domains two, and a set of
/// capabilities eight.
pub proof fn lemma_attribute_widths(
    t: ObjectType,
    o: ObjectOrigin,
    a: Algorithm,
    d: Domain,
    c: Capability,
)
    ensures
        seq![t.code()].len() == 1,
        seq![o.code()].len() == 1,
        seq![a.code()].len() == 1,
        be16(d.bits).len() == 2,
        be64(c.bits).len() == 8,
{
}

/// A tag of forty bytes that names an object for its owner.
#[derive(Debug)]
pub struct Label {
    /// The bytes of the tag, padded with zero bytes.
    pub bytes: Vec<u8>,
}

impl View for Label {
    type V = Seq<u8>;

    open spec fn view(&self) -> Seq<u8> {
        self.bytes@
    }
}

/// `text` followed by zero bytes up to the width of a label.
pub open spec fn padded_label(text: Seq<u8>) -> Seq<u8> {
    text + Seq::new((LABEL_SIZE - text.len()) as nat, |i: int| 0u8)
}

impl Label {
    /// A label is exactly forty bytes wide.
    pub open spec fn wf(&self) -> bool {
        self@.len() == LABEL_SIZE
    }

    /// The label that reads `text`; `None` where `text` has more than forty
    /// bytes.
    pub fn new(text: &[u8]) -> (r: Option<Label>)
        ensures
            r is Some <==> text@.len() <= LABEL_SIZE,
            r matches Some(l) ==> l.wf() && l@ == padded_label(text@),
    {
        if text.len() > LABEL_SIZE {
            return None;
        }
        let mut bytes: Vec<u8> = Vec::new();
        put_bytes(&mut bytes, text);
        while bytes.len() < LABEL_SIZE
            invariant
                text@.len() <= bytes@.len() <= LABEL_SIZE,
                bytes@ == text@ + Seq::new((bytes@.len() - text@.len()) as nat, |i: int| 0u8),
            decreases LABEL_SIZE - bytes@.len(),
        {
            bytes.push(0u8);
            assert(bytes@ =~= text@ + Seq::new(
                (bytes@.len() - text@.len()) as nat,
                |i: int| 0u8,
            ));
        }
        Some(Label { bytes })
    }

    /// A copy of this label.
    pub fn duplicate(&self) -> (r: Label)
        ensures
            r@ == self@,
    {
        Label { bytes: read_bytes(self.bytes.as_slice(), 0, self.bytes.len()) }
    }
}

/// What the device tells about an object.
#[derive(Debug)]
pub struct ObjectInfo<B = Vec<u8>> {
    /// Operations that the object permits.
    pub capabilities: Capability,
    /// Number of the object.
    pub object_id: ObjectId,
    /// Length of the object's payload in bytes.
    pub length: u16,
    /// Domains in which the object is visible.
    pub domains: Domain,
    /// Type of the object.
    pub object_type: ObjectType,
    /// Algorithm of the object.
    pub algorithm: Algorithm,
    /// How often the object's slot has been filled.
    pub sequence: SequenceId,
    /// Where the object came from.
    pub origin: ObjectOrigin,
    /// Label of the object: forty bytes.
    pub label: B,
    /// What the object may bestow on objects it authenticates or imports.
    pub delegated_capabilities: Capability,
}

impl View for ObjectInfo<Vec<u8>> {
    type V = ObjectInfo<Seq<u8>>;

    open spec fn view(&self) -> ObjectInfo<Seq<u8>> {
        ObjectInfo {
            capabilities: self.capabilities,
            object_id: self.object_id,
            length: self.length,
            domains: self.domains,
            object_type: self.object_type,
            algorithm: self.algorithm,
            sequence: self.sequence,
            origin: self.origin,
            label: self.label@,
            delegated_capabilities: self.delegated_capabilities,
        }
    }
}

impl ObjectInfo<Seq<u8>> {
    /// The label has forty bytes.
    pub open spec fn wf(self) -> bool {
        self.label.len() == LABEL_SIZE
    }

    /// The 66 bytes of the description.
    pub open spec fn wire(self) -> Seq<u8> {
        be64(self.capabilities.bits) + be16(self.object_id) + be16(self.length) + be16(
            self.domains.bits,
        ) + seq![self.object_type.code()] + seq![self.algorithm.code()] + seq![self.sequence]
            + seq![self.origin.code()] + self.label + be64(self.delegated_capabilities.bits)
    }

    /// The description that stands at offset `at` of a buffer; `None` where a
    /// byte names no type, algorithm or origin.
    pub open spec fn at(s: Seq<u8>, at: int) -> Option<ObjectInfo<Seq<u8>>> {
        match (
            ObjectType::of_code(s[at + 14]),
            Algorithm::of_code(s[at + 15]),
            ObjectOrigin::of_code(s[at + 17]),
        ) {
            (Some(object_type), Some(algorithm), Some(origin)) => Some(
                ObjectInfo {
                    capabilities: Capability { bits: u64_at(s, at) },
                    object_id: u16_at(s, at + 8),
                    length: u16_at(s, at + 10),
                    domains: Domain { bits: u16_at(s, at + 12) },
                    object_type,
                    algorithm,
                    sequence: s[at + 16],
                    origin,
                    label: s.subrange(at + 18, at + 58),
                    delegated_capabilities: Capability { bits: u64_at(s, at + 58) },
                },
            ),
            _ => None,
        }
    }
}

/// Reading back the bytes of a well-formed description gives the description,
/// wherever in a buffer they stand.
pub proof fn lemma_object_info_round_trip(s: Seq<u8>, at: int, info: ObjectInfo<Seq<u8>>)
    requires
        info.wf(),
        0 <= at,
        at + OBJECT_INFO_SIZE <= s.len(),
        s.subrange(at, at + OBJECT_INFO_SIZE) == info.wire(),
    ensures
        ObjectInfo::at(s, at) == Some(info),
        info.wire().len() == OBJECT_INFO_SIZE,
{
    let w = s.subrange(at, at + OBJECT_INFO_SIZE);
    assert(s[at + 14] == w[14] && s[at + 15] == w[15] && s[at + 16] == w[16] && s[at + 17]
        == w[17]);
    assert(s.subrange(at, at + 8) =~= w.subrange(0, 8));
    assert(w.subrange(0, 8) =~= be64(info.capabilities.bits));
    lemma_u64_round_trip(s, at, info.capabilities.bits);
    assert(s.subrange(at + 8, at + 10) =~= w.subrange(8, 10));
    assert(w.subrange(8, 10) =~= be16(info.object_id));
    lemma_u16_round_trip(s, at + 8, info.object_id);
    assert(s.subrange(at + 10, at + 12) =~= w.subrange(10, 12));
    assert(w.subrange(10, 12) =~= be16(info.length));
    lemma_u16_round_trip(s, at + 10, info.length);
    assert(s.subrange(at + 12, at + 14) =~= w.subrange(12, 14));
    assert(w.subrange(12, 14) =~= be16(info.domains.bits));
    lemma_u16_round_trip(s, at + 12, info.domains.bits);
    assert(s.subrange(at + 18, at + 58) =~= w.subrange(18, 58));
    assert(w.subrange(18, 58) =~= info.label);
    assert(s.subrange(at + 58, at + 66) =~= w.subrange(58, 66));
    assert(w.subrange(58, 66) =~= be64(info.delegated_capabilities.bits));
    lemma_u64_round_trip(s, at + 58, info.delegated_capabilities.bits);
    lemma_object_tags_round_trip(info.object_type, info.origin);
    crate::algorithm::lemma_algorithm_round_trip(info.algorithm);
}

impl ObjectInfo<Vec<u8>> {
    /// Appends the 66 bytes of the description.
    pub fn write(&self, out: &mut Vec<u8>)
        requires
            self@.wf(),
        ensures
            final(out)@ == old(out)@ + self@.wire(),
    {
        put_u64(out, self.capabilities.bits);
        put_u16(out, self.object_id);
        put_u16(out, self.length);
        put_u16(out, self.domains.bits);
        put_u8(out, self.object_type.to_u8());
        put_u8(out, self.algorithm.to_u8());
        put_u8(out, self.sequence);
        put_u8(out, self.origin.to_u8());
        put_bytes(out, self.label.as_slice());
        put_u64(out, self.delegated_capabilities.bits);
        assert(out@ =~= old(out)@ + self@.wire());
    }

    /// Reads the description at offset `at` of a buffer; `None` where a byte
    /// names no type, algorithm or origin.
    pub fn read(data: &[u8], at: usize) -> (r: Option<ObjectInfo>)
        requires
            at + OBJECT_INFO_SIZE <= data@.len(),
        ensures
            match r {
                Some(info) => info@.wf() && ObjectInfo::at(data@, at as int) == Some(info@),
                None => ObjectInfo::at(data@, at as int) is None,
            },
    {
        let len: usize = data.len();
        match (
            ObjectType::from_u8(data[at + 14]),
            Algorithm::from_u8(data[at + 15]),
            ObjectOrigin::from_u8(data[at + 17]),
        ) {
            (Some(object_type), Some(algorithm), Some(origin)) => Some(
                ObjectInfo {
                    capabilities: Capability::from_bits(read_u64(data, at)),
                    object_id: read_u16(data, at + 8),
                    length: read_u16(data, at + 10),
                    domains: Domain::from_bits(read_u16(data, at + 12)),
                    object_type,
                    algorithm,
                    sequence: data[at + 16],
                    origin,
                    label: read_bytes(data, at + 18, at + 58),
                    delegated_capabilities: Capability::from_bits(read_u64(data, at + 58)),
                },
            ),
            _ => None,
        }
    }

    /// A copy of this description.
    pub fn duplicate(&self) -> (r: ObjectInfo)
        ensures
            r@ == self@,
    {
        ObjectInfo {
            capabilities: self.capabilities,
            object_id: self.object_id,
            length: self.length,
            domains: self.domains,
            object_type: self.object_type,
            algorithm: self.algorithm,
            sequence: self.sequence,
            origin: self.origin,
            label: crate::codec::copy_bytes(self.label.as_slice()),
            delegated_capabilities: self.delegated_capabilities,
        }
    }
}

} // verus!
