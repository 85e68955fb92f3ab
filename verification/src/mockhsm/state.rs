//! The state of the simulated device: its objects, its sessions and its
//! audit settings.

use crate::algorithm::{Algorithm, AuthenticationAlg};
use crate::audit::{AuditCommand, AuditOption};
use crate::crypto::random_bytes;
use crate::mockhsm::objects::{created, holds, lookup, Object, Objects};
use crate::object::{padded_label, Capability, Domain, Label, ObjectOrigin, ObjectType,
    CAPABILITY_ALL};
use crate::response::HsmErrorKind;
use crate::scp03::{password_salt, AuthenticationKey, AUTHENTICATION_KEY_SIZE, CHALLENGE_SIZE,
    PBKDF2_ITERATIONS};
use crate::securechannel::Channel;
use vstd::prelude::*;

verus! {

/// Number of sessions that the device holds at a time.
pub const MAX_SESSIONS: usize = 16;

/// Number of the authentication key that a fresh device holds.
pub const DEFAULT_AUTHENTICATION_KEY_ID: u16 = 1;

/// The device's end of a session.
pub struct HsmSession {
    /// Number of the session.
    pub id: u8,
    /// Number of the authentication key that opened the session.
    pub authentication_key_id: u16,
    /// The challenge that the device chose.
    pub card_challenge: Vec<u8>,
    /// The device's end of the secure channel.
    pub channel: Channel,
}

impl HsmSession {
    /// The channel is well formed and carries the session's number, which is
    /// below 16; the challenge has eight bytes.
    pub open spec fn wf(&self) -> bool {
        &&& self.channel@.wf()
        &&& self.channel@.id == self.id
        &&& self.id < MAX_SESSIONS
        &&& self.card_challenge@.len() == CHALLENGE_SIZE
    }
}

/// Whether the session at index `i` has the given number.
pub open spec fn session_at(sessions: Seq<HsmSession>, i: int, id: u8) -> bool {
    0 <= i < sessions.len() && sessions[i].id == id
}

/// Whether a session of the given number is there.
pub open spec fn has_session(sessions: Seq<HsmSession>, id: u8) -> bool {
    exists|i: int| session_at(sessions, i, id)
}

/// The index of the session of the given number, where there is one.
pub open spec fn session_index(sessions: Seq<HsmSession>, id: u8) -> int {
    choose|i: int| session_at(sessions, i, id)
}

/// Every session is well formed, and no two have the same number.
pub open spec fn sessions_wf(sessions: Seq<HsmSession>) -> bool {
    &&& forall|i: int| 0 <= i < sessions.len() ==> (#[trigger] sessions[i]).wf()
    &&& forall|i: int, j: int, id: u8|
        #![trigger session_at(sessions, i, id), session_at(sessions, j, id)]
        session_at(sessions, i, id) && session_at(sessions, j, id) ==> i == j
}

/// Whether `id` is the number that the device gives to a new session: the
/// smallest that is free.
pub open spec fn is_free_session(sessions: Seq<HsmSession>, id: u8) -> bool {
    &&& id < MAX_SESSIONS
    &&& !has_session(sessions, id)
    &&& forall|j: u8| j < id ==> #[trigger] has_session(sessions, j)
}

/// The label of the authentication key that a fresh device holds.
pub open spec fn default_label() -> Seq<u8> {
    padded_label(
        seq![
            0x44u8, 0x45u8, 0x46u8, 0x41u8, 0x55u8, 0x4cu8, 0x54u8, 0x20u8, 0x41u8, 0x55u8,
            0x54u8, 0x48u8, 0x4bu8, 0x45u8, 0x59u8,
        ],
    )
}

/// The authentication key object that a fresh device holds: number 1, every
/// capability, every domain, and the key that the password `password`
/// stands for.
pub open spec fn default_authentication_key() -> Object<Seq<u8>> {
    created(
        DEFAULT_AUTHENTICATION_KEY_ID,
        ObjectType::AuthenticationKey,
        Algorithm::Auth(AuthenticationAlg::YUBICO_AES),
        default_label(),
        Capability { bits: CAPABILITY_ALL },
        Capability { bits: CAPABILITY_ALL },
        Domain { bits: 0xffff },
        ObjectOrigin::Imported,
        crate::crypto::pbkdf2_hmac_sha256(
            seq![0x70u8, 0x61u8, 0x73u8, 0x73u8, 0x77u8, 0x6fu8, 0x72u8, 0x64u8],
            password_salt(),
            PBKDF2_ITERATIONS,
            AUTHENTICATION_KEY_SIZE,
        ),
    )
}

/// The state of the simulated device.
pub struct State {
    /// The sessions that are open or being opened.
    pub sessions: Vec<HsmSession>,
    /// The objects.
    pub objects: Objects,
    /// The audit settings that have been made for single commands.
    pub command_audit_options: Vec<AuditCommand>,
    /// Whether the device refuses commands once the audit log is full.
    pub force_audit: AuditOption,
    /// What the session whose command is being handled may bestow on the
    /// objects it creates.
    pub authority: Capability,
}

impl State {
    /// Objects and sessions are well formed, and there are at most sixteen
    /// sessions.
    pub open spec fn wf(&self) -> bool {
        &&& self.objects.wf()
        &&& sessions_wf(self.sessions@)
    }

    /// Whether this is the state of a fresh device: the default
    /// authentication key and nothing else.
    pub open spec fn is_fresh(&self) -> bool {
        &&& self.objects@ == seq![default_authentication_key()]
        &&& self.sessions@.len() == 0
        &&& self.command_audit_options@.len() == 0
        &&& self.force_audit == AuditOption::Off
        &&& self.authority == (Capability { bits: CAPABILITY_ALL })
    }

    /// The state of a fresh device.
    pub fn new() -> (state: State)
        ensures
            state.wf(),
            state.is_fresh(),
    {
        let mut objects = Objects::new();
        let mut text: Vec<u8> = Vec::new();
        text.push(0x44);
        text.push(0x45);
        text.push(0x46);
        text.push(0x41);
        text.push(0x55);
        text.push(0x4c);
        text.push(0x54);
        text.push(0x20);
        text.push(0x41);
        text.push(0x55);
        text.push(0x54);
        text.push(0x48);
        text.push(0x4b);
        text.push(0x45);
        text.push(0x59);
        assert(text@ =~= seq![
            0x44u8, 0x45u8, 0x46u8, 0x41u8, 0x55u8, 0x4cu8, 0x54u8, 0x20u8, 0x41u8, 0x55u8,
            0x54u8, 0x48u8, 0x4bu8, 0x45u8, 0x59u8,
        ]);
        let label = match Label::new(text.as_slice()) {
            Some(label) => label,
            None => Label { bytes: Vec::new() },
        };
        let mut password: Vec<u8> = Vec::new();
        password.push(0x70);
        password.push(0x61);
        password.push(0x73);
        password.push(0x73);
        password.push(0x77);
        password.push(0x6f);
        password.push(0x72);
        password.push(0x64);
        assert(password@ =~= seq![
            0x70u8, 0x61u8, 0x73u8, 0x73u8, 0x77u8, 0x6fu8, 0x72u8, 0x64u8,
        ]);
        let key = AuthenticationKey::derive_from_password(password.as_slice());
        let stored = objects.put(
            DEFAULT_AUTHENTICATION_KEY_ID,
            ObjectType::AuthenticationKey,
            Algorithm::Auth(AuthenticationAlg::YUBICO_AES),
            label.bytes,
            Capability::all(),
            Capability::all(),
            Domain::all(),
            key.bytes,
        );
        assert(!holds(
            Seq::<Object<Seq<u8>>>::empty(),
            DEFAULT_AUTHENTICATION_KEY_ID,
            ObjectType::AuthenticationKey,
        ));
        assert(objects@ =~= seq![default_authentication_key()]);
        State {
            sessions: Vec::new(),
            objects,
            command_audit_options: Vec::new(),
            force_audit: AuditOption::Off,
            authority: Capability::all(),
        }
    }

    /// The index of the session of the given number.
    pub fn find_session(&self, id: u8) -> (r: Option<usize>)
        ensures
            match r {
                Some(i) => session_at(self.sessions@, i as int, id),
                None => !has_session(self.sessions@, id),
            },
            sessions_wf(self.sessions@) ==> (r matches Some(i) ==> i == session_index(
                self.sessions@,
                id,
            )),
    {
        let mut i: usize = 0;
        while i < self.sessions.len()
            invariant
                i <= self.sessions@.len(),
                forall|k: int| 0 <= k < i ==> !session_at(self.sessions@, k, id),
            decreases self.sessions@.len() - i,
        {
            if self.sessions[i].id == id {
                assert(session_at(self.sessions@, i as int, id));
                return Some(i);
            }
            i += 1;
        }
        None
    }

    /// What opening a session gives: the number of the new session, or the
    /// reason why none is opened. The host challenge must have eight bytes;
    /// the authentication key must be there and have 32 bytes; and one of the
    /// sixteen session numbers must be free.
    pub open spec fn open_result(
        &self,
        authentication_key_id: u16,
        host_challenge: Seq<u8>,
    ) -> Result<
        u8,
        HsmErrorKind,
    > {
        if host_challenge.len() != CHALLENGE_SIZE {
            Err(HsmErrorKind::InvalidData)
        } else {
            match lookup(self.objects@, authentication_key_id, ObjectType::AuthenticationKey) {
                None => Err(HsmErrorKind::ObjectNotFound),
                Some(key) => if key.payload.len() != AUTHENTICATION_KEY_SIZE {
                    Err(HsmErrorKind::InvalidData)
                } else if forall|j: u8| j < MAX_SESSIONS ==> #[trigger] has_session(
                    self.sessions@,
                    j,
                ) {
                    Err(HsmErrorKind::SessionsFull)
                } else {
                    Ok(choose|id: u8| is_free_session(self.sessions@, id))
                },
            }
        }
    }

    /// Opens a session with the given card challenge. On success a session
    /// with the smallest free number is appended, whose channel is derived
    /// from the authentication key and the two challenges; on failure the
    /// state stays as it is.
    #[verifier::loop_isolation(false)]
    pub fn open_session(
        &mut self,
        authentication_key_id: u16,
        host_challenge: &[u8],
        card_challenge: Vec<u8>,
    ) -> (r: Result<u8, HsmErrorKind>)
        requires
            old(self).wf(),
            card_challenge@.len() == CHALLENGE_SIZE,
        ensures
            final(self).wf(),
            r == old(self).open_result(authentication_key_id, host_challenge@),
            final(self).objects == old(self).objects,
            final(self).command_audit_options == old(self).command_audit_options,
            final(self).force_audit == old(self).force_audit,
            final(self).authority == old(self).authority,
            match r {
                Ok(id) => {
                    let session = final(self).sessions@.last();
                    &&& is_free_session(old(self).sessions@, id)
                    &&& final(self).sessions@.len() == old(self).sessions@.len() + 1
                    &&& final(self).sessions@.drop_last() == old(self).sessions@
                    &&& session.id == id
                    &&& session.authentication_key_id == authentication_key_id
                    &&& session.card_challenge@ == card_challenge@
                    &&& session.channel@ == Channel::established(
                        id,
                        lookup(
                            old(self).objects@,
                            authentication_key_id,
                            ObjectType::AuthenticationKey,
                        )->0.payload,
                        host_challenge@,
                        card_challenge@,
                    )
                },
                Err(_) => final(self).sessions@ == old(self).sessions@,
            },
    {
        if host_challenge.len() != CHALLENGE_SIZE {
            return Err(HsmErrorKind::InvalidData);
        }
        let key = match self.objects.get(
            authentication_key_id,
            ObjectType::AuthenticationKey,
        ) {
            None => {
                return Err(HsmErrorKind::ObjectNotFound);
            },
            Some(object) => match AuthenticationKey::from_slice(object.payload.as_slice()) {
                Some(key) => key,
                None => {
                    return Err(HsmErrorKind::InvalidData);
                },
            },
        };
        let mut id: u8 = 0;
        let mut free = false;
        while !free && (id as usize) < MAX_SESSIONS
            invariant
                id <= MAX_SESSIONS,
                forall|j: u8| j < id ==> #[trigger] has_session(self.sessions@, j),
                free ==> is_free_session(self.sessions@, id),
            decreases MAX_SESSIONS - id + (if free { 0int } else { 1int }),
        {
            if self.find_session(id).is_none() {
                free = true;
            } else {
                id = id + 1;
            }
        }
        if !free {
            return Err(HsmErrorKind::SessionsFull);
        }
        proof {
            let found = choose|c: u8| is_free_session(self.sessions@, c);
            assert(is_free_session(self.sessions@, found));
            if found < id {
                assert(has_session(self.sessions@, found));
            }
            if id < found {
                assert(has_session(self.sessions@, id));
            }
            assert(found == id);
        }
        let channel = Channel::new(id, &key, host_challenge, card_challenge.as_slice());
        let ghost before = self.sessions@;
        self.sessions.push(
            HsmSession { id, authentication_key_id, card_challenge, channel },
        );
        proof {
            let after = self.sessions@;
            assert(after.drop_last() =~= before);
            assert forall|a: int, b: int, n: u8|
                #![trigger session_at(after, a, n), session_at(after, b, n)]
                session_at(after, a, n) && session_at(after, b, n) implies a == b by {
                if a < before.len() {
                    assert(session_at(before, a, n));
                }
                if b < before.len() {
                    assert(session_at(before, b, n));
                }
            }
            assert forall|k: int| 0 <= k < after.len() implies (#[trigger] after[k]).wf() by {
                if k < before.len() {
                    assert(before[k].wf());
                }
            }
        }
        Ok(id)
    }

    /// Opens a session with a card challenge of eight fresh random bytes.
    /// Where the random generator fails the session fails, and the state
    /// stays as it is; otherwise this is `open_session` with the challenge
    /// drawn.
    pub fn create_session(&mut self, authentication_key_id: u16, host_challenge: &[u8]) -> (r:
        Result<u8, HsmErrorKind>)
        requires
            old(self).wf(),
        ensures
            final(self).wf(),
            final(self).objects == old(self).objects,
            final(self).command_audit_options == old(self).command_audit_options,
            final(self).force_audit == old(self).force_audit,
            final(self).authority == old(self).authority,
            match r {
                Ok(id) => {
                    let session = final(self).sessions@.last();
                    &&& old(self).open_result(authentication_key_id, host_challenge@) == Ok::<
                        u8,
                        HsmErrorKind,
                    >(id)
                    &&& final(self).sessions@.len() == old(self).sessions@.len() + 1
                    &&& final(self).sessions@.drop_last() == old(self).sessions@
                    &&& session.id == id
                    &&& session.authentication_key_id == authentication_key_id
                    &&& session.card_challenge@.len() == CHALLENGE_SIZE
                    &&& session.channel@ == Channel::established(
                        id,
                        lookup(
                            old(self).objects@,
                            authentication_key_id,
                            ObjectType::AuthenticationKey,
                        )->0.payload,
                        host_challenge@,
                        session.card_challenge@,
                    )
                },
                Err(e) => {
                    &&& final(self).sessions@ == old(self).sessions@
                    &&& e == HsmErrorKind::SessionFailed || old(self).open_result(
                        authentication_key_id,
                        host_challenge@,
                    ) == Err::<u8, HsmErrorKind>(e)
                },
            },
    {
        match random_bytes(CHALLENGE_SIZE) {
            Some(card_challenge) => self.open_session(
                authentication_key_id,
                host_challenge,
                card_challenge,
            ),
            None => Err(HsmErrorKind::SessionFailed),
        }
    }

    /// Takes the session at index `i` out of the state.
    pub fn take_session(&mut self, i: usize) -> (session: HsmSession)
        requires
            old(self).wf(),
            i < old(self).sessions@.len(),
        ensures
            final(self).wf(),
            session == old(self).sessions@[i as int],
            session.wf(),
            final(self).sessions@ == old(self).sessions@.remove(i as int),
            !has_session(final(self).sessions@, session.id),
            final(self).objects == old(self).objects,
            final(self).command_audit_options == old(self).command_audit_options,
            final(self).force_audit == old(self).force_audit,
            final(self).authority == old(self).authority,
    {
        let ghost before = self.sessions@;
        assert(before[i as int].wf());
        let session = self.sessions.remove(i);
        proof {
            let after = self.sessions@;
            assert forall|a: int, b: int, n: u8|
                #![trigger session_at(after, a, n), session_at(after, b, n)]
                session_at(after, a, n) && session_at(after, b, n) implies a == b by {
                let a0 = if a < i {
                    a
                } else {
                    a + 1
                };
                let b0 = if b < i {
                    b
                } else {
                    b + 1
                };
                assert(session_at(before, a0, n));
                assert(session_at(before, b0, n));
            }
            assert forall|k: int| 0 <= k < after.len() implies (#[trigger] after[k]).wf() by {
                let k0 = if k < i {
                    k
                } else {
                    k + 1
                };
                assert(before[k0].wf());
            }
            assert forall|k: int| !session_at(after, k, session.id) by {
                if session_at(after, k, session.id) {
                    let k0 = if k < i {
                        k
                    } else {
                        k + 1
                    };
                    assert(session_at(before, k0, session.id));
                    assert(session_at(before, i as int, session.id));
                }
            }
        }
        session
    }

    /// Puts a session, whose number is free, back into the state.
    pub fn put_session(&mut self, session: HsmSession)
        requires
            old(self).wf(),
            session.wf(),
            !has_session(old(self).sessions@, session.id),
        ensures
            final(self).wf(),
            final(self).sessions@ == old(self).sessions@.push(session),
            final(self).objects == old(self).objects,
            final(self).command_audit_options == old(self).command_audit_options,
            final(self).force_audit == old(self).force_audit,
            final(self).authority == old(self).authority,
    {
        let ghost before = self.sessions@;
        self.sessions.push(session);
        proof {
            let after = self.sessions@;
            assert forall|a: int, b: int, n: u8|
                #![trigger session_at(after, a, n), session_at(after, b, n)]
                session_at(after, a, n) && session_at(after, b, n) implies a == b by {
                if a < before.len() {
                    assert(session_at(before, a, n));
                }
                if b < before.len() {
                    assert(session_at(before, b, n));
                }
            }
            assert forall|k: int| 0 <= k < after.len() implies (#[trigger] after[k]).wf() by {
                if k < before.len() {
                    assert(before[k].wf());
                }
            }
        }
    }

    /// Ends the session of the given number, if there is one.
    pub fn close_session(&mut self, id: u8)
        requires
            old(self).wf(),
        ensures
            final(self).wf(),
            !has_session(final(self).sessions@, id),
            if has_session(old(self).sessions@, id) {
                final(self).sessions@ == old(self).sessions@.remove(
                    session_index(old(self).sessions@, id),
                )
            } else {
                final(self).sessions@ == old(self).sessions@
            },
            final(self).objects == old(self).objects,
            final(self).command_audit_options == old(self).command_audit_options,
            final(self).force_audit == old(self).force_audit,
            final(self).authority == old(self).authority,
    {
        match self.find_session(id) {
            Some(i) => {
                let mut session = self.take_session(i);
                session.channel.terminate();
            },
            None => {},
        }
    }

    /// Puts the device back into the state in which it left the factory.
    pub fn reset(&mut self)
        ensures
            final(self).wf(),
            final(self).is_fresh(),
    {
        *self = State::new();
    }
}

} // verus!
