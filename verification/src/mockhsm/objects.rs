//! The objects that the simulated device holds.
//!
//! An object is found by its number together with its type. The store keeps
//! the objects in the order in which they came, and never two of the same
//! number and type.

use crate::algorithm::{Algorithm, WrapAlg};
use crate::codec::{copy_bytes, put_bytes, put_u8, read_bytes};
use crate::crypto::{aes128_ccm_open, aes128_ccm_seal, aes192_ccm_open, aes192_ccm_seal,
    aes256_ccm_open, aes256_ccm_seal, ccm128_open, ccm128_seal, ccm192_open, ccm192_seal,
    ccm256_open, ccm256_seal, random_bytes, WRAP_NONCE_SIZE};
use crate::object::{Capability, Domain, ObjectInfo, ObjectOrigin, ObjectType, LABEL_SIZE,
    OBJECT_INFO_SIZE};
use crate::response::HsmErrorKind;
use vstd::prelude::*;

verus! {

/// An object: its description and its payload. `B` is the type of a byte
/// string: `Vec<u8>` in running code, `Seq<u8>` in contracts.
pub struct Object<B = Vec<u8>> {
    /// The description of the object.
    pub info: ObjectInfo<B>,
    /// Key material or opaque bytes.
    pub payload: B,
}

impl View for Object<Vec<u8>> {
    type V = Object<Seq<u8>>;

    open spec fn view(&self) -> Object<Seq<u8>> {
        Object { info: self.info@, payload: self.payload@ }
    }
}

impl Object<Seq<u8>> {
    /// The description is well formed and tells the payload's length.
    pub open spec fn wf(self) -> bool {
        self.info.wf() && self.payload.len() == self.info.length
    }
}

/// Whether the object at index `i` has the given number and type.
pub open spec fn matches_at(objs: Seq<Object<Seq<u8>>>, i: int, id: u16, ty: ObjectType) -> bool {
    0 <= i < objs.len() && objs[i].info.object_id == id && objs[i].info.object_type == ty
}

/// Whether an object of the given number and type is there.
pub open spec fn holds(objs: Seq<Object<Seq<u8>>>, id: u16, ty: ObjectType) -> bool {
    exists|i: int| matches_at(objs, i, id, ty)
}

/// The index of the object of the given number and type, where there is one.
pub open spec fn index_of(objs: Seq<Object<Seq<u8>>>, id: u16, ty: ObjectType) -> int {
    choose|i: int| matches_at(objs, i, id, ty)
}

/// The object of the given number and type, if there is one.
pub open spec fn lookup(objs: Seq<Object<Seq<u8>>>, id: u16, ty: ObjectType) -> Option<
    Object<Seq<u8>>,
> {
    if holds(objs, id, ty) {
        Some(objs[index_of(objs, id, ty)])
    } else {
        None
    }
}

/// No two objects have the same number and type.
pub open spec fn distinct(objs: Seq<Object<Seq<u8>>>) -> bool {
    forall|i: int, j: int, id: u16, ty: ObjectType|
        #![trigger matches_at(objs, i, id, ty), matches_at(objs, j, id, ty)]
        matches_at(objs, i, id, ty) && matches_at(objs, j, id, ty) ==> i == j
}

/// Every object is well formed.
pub open spec fn all_wf(objs: Seq<Object<Seq<u8>>>) -> bool {
    forall|i: int| 0 <= i < objs.len() ==> (#[trigger] objs[i]).wf()
}

/// Whether `c` is the number that the device chooses for a new object of
/// type `ty`: the smallest number from 1 on that is free.
pub open spec fn is_free_id(objs: Seq<Object<Seq<u8>>>, ty: ObjectType, c: u16) -> bool {
    &&& c >= 1
    &&& !holds(objs, c, ty)
    &&& forall|j: u16| 1 <= j < c ==> #[trigger] holds(objs, j, ty)
}

/// Whether every number from 1 on is taken by an object of type `ty`.
pub open spec fn full(objs: Seq<Object<Seq<u8>>>, ty: ObjectType) -> bool {
    forall|j: u16| 1 <= j ==> #[trigger] holds(objs, j, ty)
}

/// The object that a creating command describes.
pub open spec fn created(
    id: u16,
    ty: ObjectType,
    algorithm: Algorithm,
    label: Seq<u8>,
    capabilities: Capability,
    delegated_capabilities: Capability,
    domains: Domain,
    origin: ObjectOrigin,
    data: Seq<u8>,
) -> Object<Seq<u8>> {
    Object {
        info: ObjectInfo {
            capabilities,
            object_id: id,
            length: data.len() as u16,
            domains,
            object_type: ty,
            algorithm,
            sequence: 0,
            origin,
            label,
            delegated_capabilities,
        },
        payload: data,
    }
}

/// The number under which a new object of `len` bytes is stored, or the
/// reason why it is not stored. The label must have forty bytes and the
/// payload must fit a length of two bytes; a number other than 0 must be
/// free; for the number 0 the device chooses the smallest free number.
pub open spec fn slot(
    objs: Seq<Object<Seq<u8>>>,
    id: u16,
    ty: ObjectType,
    label: Seq<u8>,
    len: nat,
) -> Result<u16, HsmErrorKind> {
    if label.len() != LABEL_SIZE || len > 0xffff {
        Err(HsmErrorKind::InvalidData)
    } else if id != 0 {
        if holds(objs, id, ty) {
            Err(HsmErrorKind::InvalidData)
        } else {
            Ok(id)
        }
    } else if full(objs, ty) {
        Err(HsmErrorKind::StorageFailed)
    } else {
        Ok(choose|c: u16| is_free_id(objs, ty, c))
    }
}

/// The smallest free number is the one that the device chooses.
pub proof fn lemma_free_id_unique(objs: Seq<Object<Seq<u8>>>, ty: ObjectType, c: u16)
    requires
        is_free_id(objs, ty, c),
    ensures
        !full(objs, ty),
        c == (choose|c: u16| is_free_id(objs, ty, c)),
{
    let chosen = choose|c: u16| is_free_id(objs, ty, c);
    assert(is_free_id(objs, ty, chosen));
    if chosen < c {
        assert(holds(objs, chosen, ty));
    }
    if c < chosen {
        assert(holds(objs, c, ty));
    }
    if full(objs, ty) {
        assert(holds(objs, c, ty));
    }
}

/// The store of the simulated device.
pub struct Objects {
    /// The objects, in the order in which they came.
    pub items: Vec<Object>,
}

impl View for Objects {
    type V = Seq<Object<Seq<u8>>>;

    open spec fn view(&self) -> Seq<Object<Seq<u8>>> {
        Seq::new(self.items@.len(), |i: int| self.items@[i]@)
    }
}

impl Objects {
    /// No two objects have the same number and type, and every object is well
    /// formed.
    pub open spec fn wf(&self) -> bool {
        distinct(self@) && all_wf(self@)
    }

    /// An empty store.
    pub fn new() -> (objects: Objects)
        ensures
            objects@ == Seq::<Object<Seq<u8>>>::empty(),
            objects.wf(),
    {
        let objects = Objects { items: Vec::new() };
        assert(objects@ =~= Seq::<Object<Seq<u8>>>::empty());
        objects
    }

    /// The number of objects.
    pub fn len(&self) -> (n: usize)
        ensures
            n == self@.len(),
    {
        self.items.len()
    }

    /// The index of the object of the given number and type.
    pub fn find(&self, id: u16, ty: ObjectType) -> (r: Option<usize>)
        ensures
            match r {
                Some(i) => matches_at(self@, i as int, id, ty),
                None => !holds(self@, id, ty),
            },
            self.wf() ==> (r matches Some(i) ==> i == index_of(self@, id, ty)),
    {
        let mut i: usize = 0;
        while i < self.items.len()
            invariant
                i <= self.items@.len(),
                forall|k: int| 0 <= k < i ==> !matches_at(self@, k, id, ty),
            decreases self.items@.len() - i,
        {
            if self.items[i].info.object_id == id && self.items[i].info.object_type == ty {
                assert(matches_at(self@, i as int, id, ty));
                return Some(i);
            }
            i += 1;
        }
        None
    }

    /// The object of the given number and type.
    pub fn get(&self, id: u16, ty: ObjectType) -> (r: Option<&Object>)
        requires
            self.wf(),
        ensures
            match r {
                Some(object) => lookup(self@, id, ty) == Some(object@) && object@.wf(),
                None => lookup(self@, id, ty) is None,
            },
    {
        match self.find(id, ty) {
            Some(i) => {
                assert(self@[i as int] == self.items@[i as int]@);
                Some(&self.items[i])
            },
            None => None,
        }
    }

    /// The object at index `i`.
    pub fn at(&self, i: usize) -> (object: &Object)
        requires
            i < self@.len(),
        ensures
            object@ == self@[i as int],
    {
        &self.items[i]
    }

    /// Takes the object of the given number and type out of the store.
    pub fn remove(&mut self, id: u16, ty: ObjectType) -> (r: Option<Object>)
        requires
            old(self).wf(),
        ensures
            final(self).wf(),
            match r {
                Some(object) => lookup(old(self)@, id, ty) == Some(object@) && final(self)@ == old(
                    self,
                )@.remove(index_of(old(self)@, id, ty)),
                None => !holds(old(self)@, id, ty) && final(self)@ == old(self)@,
            },
            !holds(final(self)@, id, ty),
    {
        match self.find(id, ty) {
            Some(i) => {
                let object = self.items.remove(i);
                proof {
                    let before = old(self)@;
                    let after = self@;
                    assert(after =~= before.remove(i as int));
                    assert forall|a: int, b: int, n: u16, t: ObjectType|
                        #![trigger matches_at(after, a, n, t), matches_at(after, b, n, t)]
                        matches_at(after, a, n, t) && matches_at(after, b, n, t) implies a
                        == b by {
                        let a0 = if a < i {
                            a
                        } else {
                            a + 1
                        };
                        let b0 = if b < i {
                            b
                        } else {
                            b + 1
                        };
                        assert(matches_at(before, a0, n, t));
                        assert(matches_at(before, b0, n, t));
                    }
                    assert forall|k: int| 0 <= k < after.len() implies (#[trigger] after[k]).wf() by {
                        let k0 = if k < i {
                            k
                        } else {
                            k + 1
                        };
                        assert(before[k0].wf());
                    }
                    assert forall|k: int| !matches_at(after, k, id, ty) by {
                        if matches_at(after, k, id, ty) {
                            let k0 = if k < i {
                                k
                            } else {
                                k + 1
                            };
                            assert(matches_at(before, k0, id, ty));
                            assert(matches_at(before, i as int, id, ty));
                        }
                    }
                }
                Some(object)
            },
            None => None,
        }
    }

    /// Stores a new object. On success the object is appended to the store
    /// under the number returned; on failure the store stays as it is.
    pub fn store(
        &mut self,
        id: u16,
        ty: ObjectType,
        algorithm: Algorithm,
        label: Vec<u8>,
        capabilities: Capability,
        delegated_capabilities: Capability,
        domains: Domain,
        origin: ObjectOrigin,
        data: Vec<u8>,
    ) -> (r: Result<u16, HsmErrorKind>)
        requires
            old(self).wf(),
        ensures
            final(self).wf(),
            r == slot(old(self)@, id, ty, label@, data@.len()),
            match r {
                Ok(c) => final(self)@ == old(self)@.push(
                    created(
                        c,
                        ty,
                        algorithm,
                        label@,
                        capabilities,
                        delegated_capabilities,
                        domains,
                        origin,
                        data@,
                    ),
                ),
                Err(_) => final(self)@ == old(self)@,
            },
    {
        if label.len() != LABEL_SIZE || data.len() > 0xffff {
            return Err(HsmErrorKind::InvalidData);
        }
        let chosen: u16 = if id != 0 {
            if self.find(id, ty).is_some() {
                return Err(HsmErrorKind::InvalidData);
            }
            id
        } else {
            let mut candidate: u16 = 1;
            loop
                invariant
                    candidate >= 1,
                    forall|j: u16| 1 <= j < candidate ==> #[trigger] holds(self@, j, ty),
                    self@ == old(self)@,
                    self.wf(),
                    id == 0,
                    label@.len() == LABEL_SIZE,
                    data@.len() <= 0xffff,
                ensures
                    is_free_id(self@, ty, candidate),
                decreases 0x1_0000 - candidate,
            {
                if self.find(candidate, ty).is_none() {
                    break ;
                }
                if candidate == 0xffff {
                    return Err(HsmErrorKind::StorageFailed);
                }
                candidate = candidate + 1;
            }
            proof {
                lemma_free_id_unique(self@, ty, candidate);
            }
            candidate
        };
        let object = Object {
            info: ObjectInfo {
                capabilities,
                object_id: chosen,
                length: data.len() as u16,
                domains,
                object_type: ty,
                algorithm,
                sequence: 0,
                origin,
                label,
                delegated_capabilities,
            },
            payload: data,
        };
        self.items.push(object);
        proof {
            let before = old(self)@;
            let after = self@;
            let fresh = created(
                chosen,
                ty,
                algorithm,
                label@,
                capabilities,
                delegated_capabilities,
                domains,
                origin,
                data@,
            );
            assert(after =~= before.push(fresh));
            assert forall|a: int, b: int, n: u16, t: ObjectType|
                #![trigger matches_at(after, a, n, t), matches_at(after, b, n, t)]
                matches_at(after, a, n, t) && matches_at(after, b, n, t) implies a == b by {
                if a < before.len() {
                    assert(matches_at(before, a, n, t));
                }
                if b < before.len() {
                    assert(matches_at(before, b, n, t));
                }
            }
            assert forall|k: int| 0 <= k < after.len() implies (#[trigger] after[k]).wf() by {
                if k < before.len() {
                    assert(before[k].wf());
                }
            }
        }
        Ok(chosen)
    }
}

/// Length of the key that the device generates for an algorithm; `None` for
/// an algorithm that has no keys of its own.
pub open spec fn generated_len(algorithm: Algorithm) -> Option<nat> {
    match algorithm {
        Algorithm::Asymmetric(a) => Some(a.spec_key_len()),
        Algorithm::Hmac(a) => Some(a.spec_key_len()),
        Algorithm::Wrap(a) => Some(a.spec_key_len()),
        Algorithm::YubicoOtp(a) => Some(a.spec_key_len()),
        _ => None,
    }
}

/// Length of the key that the device generates for an algorithm.
pub fn generated_key_len(algorithm: Algorithm) -> (r: Option<usize>)
    ensures
        match r {
            Some(n) => generated_len(algorithm) == Some(n as nat),
            None => generated_len(algorithm) is None,
        },
{
    match algorithm {
        Algorithm::Asymmetric(a) => Some(a.key_len()),
        Algorithm::Hmac(a) => Some(a.key_len()),
        Algorithm::Wrap(a) => Some(a.key_len()),
        Algorithm::YubicoOtp(a) => Some(a.key_len()),
        _ => None,
    }
}

/// A message sealed with AES-CCM under a key of the given wrap algorithm.
pub open spec fn ccm_seal(algorithm: WrapAlg, key: Seq<u8>, nonce: Seq<u8>, msg: Seq<u8>) -> Option<
    Seq<u8>,
> {
    match algorithm {
        WrapAlg::AES128_CCM => aes128_ccm_seal(key, nonce, msg),
        WrapAlg::AES192_CCM => aes192_ccm_seal(key, nonce, msg),
        WrapAlg::AES256_CCM => aes256_ccm_seal(key, nonce, msg),
    }
}

/// The plaintext of a message sealed with AES-CCM under a key of the given
/// wrap algorithm; `None` where its tag does not verify.
pub open spec fn ccm_open(
    algorithm: WrapAlg,
    key: Seq<u8>,
    nonce: Seq<u8>,
    sealed: Seq<u8>,
) -> Option<
    Seq<u8>,
> {
    match algorithm {
        WrapAlg::AES128_CCM => aes128_ccm_open(key, nonce, sealed),
        WrapAlg::AES192_CCM => aes192_ccm_open(key, nonce, sealed),
        WrapAlg::AES256_CCM => aes256_ccm_open(key, nonce, sealed),
    }
}

/// What travels inside a wrapped message: the wrap key's algorithm, the
/// description of the object and its payload.
pub open spec fn wrapped_plaintext(algorithm: WrapAlg, object: Object<Seq<u8>>) -> Seq<u8> {
    seq![algorithm.code()] + object.info.wire() + object.payload
}

/// The object inside the plaintext of a wrapped message; `None` where the
/// plaintext does not begin with a wrap algorithm and a description, or the
/// description tells another length than the payload has.
pub open spec fn unwrapped(plain: Seq<u8>) -> Option<Object<Seq<u8>>> {
    if plain.len() < 1 + OBJECT_INFO_SIZE {
        None
    } else {
        match (Algorithm::of_code(plain[0]), ObjectInfo::at(plain, 1)) {
            (Some(Algorithm::Wrap(_)), Some(info)) => if info.length as int == plain.len() - 1
                - OBJECT_INFO_SIZE {
                Some(Object { info, payload: plain.subrange(67, plain.len() as int) })
            } else {
                None
            },
            _ => None,
        }
    }
}

/// The object that an import stores: the imported object, new in its slot,
/// with an origin that tells of the wrapping.
pub open spec fn imported(object: Object<Seq<u8>>) -> Object<Seq<u8>> {
    created(
        object.info.object_id,
        object.info.object_type,
        object.info.algorithm,
        object.info.label,
        object.info.capabilities,
        object.info.delegated_capabilities,
        object.info.domains,
        object.info.origin.spec_wrapped(),
        object.payload,
    )
}

/// The wrap key of the given number: its algorithm, its key and what it may
/// bestow. The key must be as long as its algorithm asks.
pub open spec fn wrap_key(objs: Seq<Object<Seq<u8>>>, id: u16) -> Result<
    (WrapAlg, Seq<u8>, Capability),
    HsmErrorKind,
> {
    match lookup(objs, id, ObjectType::WrapKey) {
        None => Err(HsmErrorKind::ObjectNotFound),
        Some(key) => match key.info.algorithm {
            Algorithm::Wrap(a) => if key.payload.len() == a.spec_key_len() {
                Ok((a, key.payload, key.info.delegated_capabilities))
            } else {
                Err(HsmErrorKind::InvalidData)
            },
            _ => Err(HsmErrorKind::InvalidData),
        },
    }
}

/// What exporting an object under a wrap key gives: the object, sealed with
/// AES-CCM under the wrap key and the nonce.
pub open spec fn export_result(
    objs: Seq<Object<Seq<u8>>>,
    wrap_key_id: u16,
    object_id: u16,
    object_type: ObjectType,
    nonce: Seq<u8>,
) -> Result<Seq<u8>, HsmErrorKind> {
    if nonce.len() != WRAP_NONCE_SIZE {
        Err(HsmErrorKind::InvalidData)
    } else {
        match wrap_key(objs, wrap_key_id) {
            Err(e) => Err(e),
            Ok((algorithm, key, _)) => match lookup(objs, object_id, object_type) {
                None => Err(HsmErrorKind::ObjectNotFound),
                Some(object) => match ccm_seal(
                    algorithm,
                    key,
                    nonce,
                    wrapped_plaintext(algorithm, object),
                ) {
                    Some(sealed) => Ok(sealed),
                    None => Err(HsmErrorKind::InvalidData),
                },
            },
        }
    }
}

/// What opening a wrapped message gives: the capabilities that the wrap key
/// may bestow, and the plaintext.
pub open spec fn opening(
    objs: Seq<Object<Seq<u8>>>,
    wrap_key_id: u16,
    nonce: Seq<u8>,
    ciphertext: Seq<u8>,
) -> Result<(Capability, Seq<u8>), HsmErrorKind> {
    if nonce.len() != WRAP_NONCE_SIZE {
        Err(HsmErrorKind::InvalidData)
    } else {
        match wrap_key(objs, wrap_key_id) {
            Err(e) => Err(e),
            Ok((algorithm, key, delegated)) => match ccm_open(algorithm, key, nonce, ciphertext) {
                Some(plain) => Ok((delegated, plain)),
                None => Err(HsmErrorKind::InvalidData),
            },
        }
    }
}

/// What importing the plaintext of a wrapped message gives, under a wrap key
/// that may bestow `delegated`. The plaintext must hold an object; the
/// object's capabilities must all be among `delegated`; and its number must
/// not be 0 nor taken.
pub open spec fn import_result(
    objs: Seq<Object<Seq<u8>>>,
    delegated: Capability,
    plain: Seq<u8>,
) -> Result<(ObjectType, u16), HsmErrorKind> {
    match unwrapped(plain) {
        None => Err(HsmErrorKind::InvalidData),
        Some(object) => if !object.info.capabilities.subset_of(delegated) {
            Err(HsmErrorKind::InsufficientPermissions)
        } else if object.info.object_id == 0 || holds(
            objs,
            object.info.object_id,
            object.info.object_type,
        ) {
            Err(HsmErrorKind::InvalidData)
        } else {
            Ok((object.info.object_type, object.info.object_id))
        },
    }
}

/// The capability rule of imports: an import whose plaintext holds an object
/// with a number that is free succeeds exactly if the object's capabilities
/// are all among those that the wrap key may bestow.
pub proof fn lemma_import_capability_rule(
    objs: Seq<Object<Seq<u8>>>,
    delegated: Capability,
    plain: Seq<u8>,
)
    requires
        unwrapped(plain) matches Some(object) && object.info.object_id != 0 && !holds(
            objs,
            object.info.object_id,
            object.info.object_type,
        ),
    ensures
        import_result(objs, delegated, plain) is Ok <==> (unwrapped(
            plain,
        )->0).info.capabilities.subset_of(delegated),
{
}

impl Objects {
    /// Stores an object that comes from outside the device.
    pub fn put(
        &mut self,
        id: u16,
        ty: ObjectType,
        algorithm: Algorithm,
        label: Vec<u8>,
        capabilities: Capability,
        delegated_capabilities: Capability,
        domains: Domain,
        data: Vec<u8>,
    ) -> (r: Result<u16, HsmErrorKind>)
        requires
            old(self).wf(),
        ensures
            final(self).wf(),
            r == slot(old(self)@, id, ty, label@, data@.len()),
            match r {
                Ok(c) => final(self)@ == old(self)@.push(
                    created(
                        c,
                        ty,
                        algorithm,
                        label@,
                        capabilities,
                        delegated_capabilities,
                        domains,
                        ObjectOrigin::Imported,
                        data@,
                    ),
                ),
                Err(_) => final(self)@ == old(self)@,
            },
    {
        self.store(
            id,
            ty,
            algorithm,
            label,
            capabilities,
            delegated_capabilities,
            domains,
            ObjectOrigin::Imported,
            data,
        )
    }

    /// Generates an object on the device: its payload is a fresh random key
    /// of the length the algorithm asks for. An algorithm without keys is
    /// invalid data; where the random generator fails, the command is not
    /// executed. On success the object is appended to the store; on failure
    /// the store stays as it is.
    pub fn generate(
        &mut self,
        id: u16,
        ty: ObjectType,
        algorithm: Algorithm,
        label: Vec<u8>,
        capabilities: Capability,
        delegated_capabilities: Capability,
        domains: Domain,
    ) -> (r: Result<u16, HsmErrorKind>)
        requires
            old(self).wf(),
        ensures
            final(self).wf(),
            match r {
                Ok(c) => {
                    let key = final(self)@.last().payload;
                    &&& generated_len(algorithm) == Some(key.len())
                    &&& slot(old(self)@, id, ty, label@, key.len()) == Ok::<u16, HsmErrorKind>(c)
                    &&& final(self)@ == old(self)@.push(
                        created(
                            c,
                            ty,
                            algorithm,
                            label@,
                            capabilities,
                            delegated_capabilities,
                            domains,
                            ObjectOrigin::Generated,
                            key,
                        ),
                    )
                },
                Err(e) => {
                    &&& final(self)@ == old(self)@
                    &&& match generated_len(algorithm) {
                        None => e == HsmErrorKind::InvalidData,
                        Some(n) => e == HsmErrorKind::CommandUnexecuted || slot(
                            old(self)@,
                            id,
                            ty,
                            label@,
                            n,
                        ) == Err::<u16, HsmErrorKind>(e),
                    }
                },
            },
    {
        let len = match generated_key_len(algorithm) {
            Some(len) => len,
            None => {
                return Err(HsmErrorKind::InvalidData);
            },
        };
        let key = match random_bytes(len) {
            Some(key) => key,
            None => {
                return Err(HsmErrorKind::CommandUnexecuted);
            },
        };
        self.store(
            id,
            ty,
            algorithm,
            label,
            capabilities,
            delegated_capabilities,
            domains,
            ObjectOrigin::Generated,
            key,
        )
    }

    /// The wrap key of the given number: its algorithm, a copy of its key and
    /// what it may bestow.
    pub fn wrap_key(&self, id: u16) -> (r: Result<(WrapAlg, Vec<u8>, Capability), HsmErrorKind>)
        requires
            self.wf(),
        ensures
            match r {
                Ok((a, key, d)) => wrap_key(self@, id) == Ok::<
                    (WrapAlg, Seq<u8>, Capability),
                    HsmErrorKind,
                >((a, key@, d)) && key@.len() == a.spec_key_len(),
                Err(e) => wrap_key(self@, id) == Err::<
                    (WrapAlg, Seq<u8>, Capability),
                    HsmErrorKind,
                >(e),
            },
    {
        match self.get(id, ObjectType::WrapKey) {
            None => Err(HsmErrorKind::ObjectNotFound),
            Some(key) => match key.info.algorithm {
                Algorithm::Wrap(a) => if key.payload.len() == a.key_len() {
                    Ok((a, copy_bytes(key.payload.as_slice()), key.info.delegated_capabilities))
                } else {
                    Err(HsmErrorKind::InvalidData)
                },
                _ => Err(HsmErrorKind::InvalidData),
            },
        }
    }

    /// Exports an object under a wrap key: the object's description and
    /// payload, sealed with AES-CCM under the wrap key and the given nonce.
    pub fn wrap(&self, wrap_key_id: u16, object_id: u16, object_type: ObjectType, nonce: &[u8]) -> (r:
        Result<Vec<u8>, HsmErrorKind>)
        requires
            self.wf(),
        ensures
            match r {
                Ok(sealed) => export_result(self@, wrap_key_id, object_id, object_type, nonce@)
                    == Ok::<Seq<u8>, HsmErrorKind>(sealed@),
                Err(e) => export_result(self@, wrap_key_id, object_id, object_type, nonce@)
                    == Err::<Seq<u8>, HsmErrorKind>(e),
            },
    {
        if nonce.len() != WRAP_NONCE_SIZE {
            return Err(HsmErrorKind::InvalidData);
        }
        let (algorithm, key, _) = match self.wrap_key(wrap_key_id) {
            Ok(found) => found,
            Err(e) => {
                return Err(e);
            },
        };
        let object = match self.get(object_id, object_type) {
            Some(object) => object,
            None => {
                return Err(HsmErrorKind::ObjectNotFound);
            },
        };
        let mut plain: Vec<u8> = Vec::new();
        put_u8(&mut plain, algorithm.to_u8());
        object.info.write(&mut plain);
        put_bytes(&mut plain, object.payload.as_slice());
        assert(plain@ =~= wrapped_plaintext(algorithm, object@));
        let sealed = match algorithm {
            WrapAlg::AES128_CCM => ccm128_seal(key.as_slice(), nonce, plain.as_slice()),
            WrapAlg::AES192_CCM => ccm192_seal(key.as_slice(), nonce, plain.as_slice()),
            WrapAlg::AES256_CCM => ccm256_seal(key.as_slice(), nonce, plain.as_slice()),
        };
        match sealed {
            Some(sealed) => Ok(sealed),
            None => Err(HsmErrorKind::InvalidData),
        }
    }

    /// Imports the object that the plaintext of a wrapped message holds, under
    /// a wrap key that may bestow `delegated`. On success the object is
    /// appended to the store; on failure the store stays as it is.
    pub fn import(&mut self, delegated: Capability, plain: &[u8]) -> (r: Result<
        (ObjectType, u16),
        HsmErrorKind,
    >)
        requires
            old(self).wf(),
        ensures
            final(self).wf(),
            r == import_result(old(self)@, delegated, plain@),
            match r {
                Ok(_) => final(self)@ == old(self)@.push(imported(unwrapped(plain@)->0)),
                Err(_) => final(self)@ == old(self)@,
            },
    {
        if plain.len() < 1 + OBJECT_INFO_SIZE {
            return Err(HsmErrorKind::InvalidData);
        }
        let wrapping = match Algorithm::from_u8(plain[0]) {
            Some(Algorithm::Wrap(_)) => true,
            _ => false,
        };
        let info = match ObjectInfo::read(plain, 1) {
            Some(info) => info,
            None => {
                return Err(HsmErrorKind::InvalidData);
            },
        };
        if !wrapping || info.length as usize != plain.len() - 1 - OBJECT_INFO_SIZE {
            return Err(HsmErrorKind::InvalidData);
        }
        if !info.capabilities.is_subset_of(delegated) {
            return Err(HsmErrorKind::InsufficientPermissions);
        }
        if info.object_id == 0 {
            return Err(HsmErrorKind::InvalidData);
        }
        let payload = read_bytes(plain, 1 + OBJECT_INFO_SIZE, plain.len());
        let object_type = info.object_type;
        match self.store(
            info.object_id,
            info.object_type,
            info.algorithm,
            info.label,
            info.capabilities,
            info.delegated_capabilities,
            info.domains,
            info.origin.wrapped(),
            payload,
        ) {
            Ok(id) => Ok((object_type, id)),
            Err(e) => Err(e),
        }
    }

    /// Opens a wrapped message under a wrap key and imports the object
    /// inside.
    pub fn unwrap(&mut self, wrap_key_id: u16, nonce: &[u8], ciphertext: &[u8]) -> (r: Result<
        (ObjectType, u16),
        HsmErrorKind,
    >)
        requires
            old(self).wf(),
        ensures
            final(self).wf(),
            match opening(old(self)@, wrap_key_id, nonce@, ciphertext@) {
                Err(e) => r == Err::<(ObjectType, u16), HsmErrorKind>(e) && final(self)@ == old(
                    self,
                )@,
                Ok((delegated, plain)) => r == import_result(old(self)@, delegated, plain)
                    && match r {
                    Ok(_) => final(self)@ == old(self)@.push(imported(unwrapped(plain)->0)),
                    Err(_) => final(self)@ == old(self)@,
                },
            },
    {
        if nonce.len() != WRAP_NONCE_SIZE {
            return Err(HsmErrorKind::InvalidData);
        }
        let (algorithm, key, delegated) = match self.wrap_key(wrap_key_id) {
            Ok(found) => found,
            Err(e) => {
                return Err(e);
            },
        };
        let opened = match algorithm {
            WrapAlg::AES128_CCM => ccm128_open(key.as_slice(), nonce, ciphertext),
            WrapAlg::AES192_CCM => ccm192_open(key.as_slice(), nonce, ciphertext),
            WrapAlg::AES256_CCM => ccm256_open(key.as_slice(), nonce, ciphertext),
        };
        match opened {
            Some(plain) => self.import(delegated, plain.as_slice()),
            None => Err(HsmErrorKind::InvalidData),
        }
    }
}

} // verus!
