//! The commands that the simulated device carries out.
//!
//! Every handler takes the payload of a command and answers with a response:
//! the success of the command with its payload, or a failure of the device.
//! A payload that does not parse is an invalid command.

use crate::algorithm::{Algorithm, AsymmetricAlg, HmacAlg};
use crate::audit::{AuditCommand, AuditOption, AuditTag};
use crate::codec::{be16, copy_bytes, put_u16, put_u8, read_bytes};
use crate::command::{CommandCode, CommandMessage, MAC_SIZE};
use crate::commands::{Command, KeyParams};
use crate::crypto::{ct_eq, ed25519_public, ed25519_public_key, ed25519_sign, ed25519_signature,
    hmac_sha256, hmac_sha256_tag, random_bytes, ED25519_KEY_SIZE, ED25519_SIGNATURE_SIZE,
    WRAP_NONCE_SIZE};
use crate::filter::{admits_all, filter_views, filters_at, matches_all, parse_filters, Filter};
use crate::mockhsm::objects::{created, export_result, generated_len, holds, import_result,
    imported, index_of, lookup, opening, slot, unwrapped, Object};
use crate::object::ObjectOrigin;
use crate::error::ConnectionError;
use crate::mockhsm::state::{has_session, session_index, HsmSession, State};
use crate::scp03::{lemma_pad_round_trip, pad, CRYPTOGRAM_SIZE};
use crate::securechannel::{Channel, SecurityLevel};
use crate::object::{Capability, ObjectInfo, ObjectType};
use crate::response::{HsmErrorKind, ResponseCode, ResponseMessage};
use crate::responses::Response;
use vstd::prelude::*;

verus! {

/// The message that reports the success of a command with its payload.
pub open spec fn reply(response: Response<Seq<u8>>) -> ResponseMessage<Seq<u8>> {
    ResponseMessage {
        code: ResponseCode::Success(response.code()),
        session_id: None,
        data: response.payload(),
        mac: None,
    }
}

/// The message that reports a failure of the device.
pub open spec fn failure(kind: HsmErrorKind) -> ResponseMessage<Seq<u8>> {
    ResponseMessage {
        code: ResponseCode::DeviceError,
        session_id: None,
        data: seq![kind.code()],
        mac: None,
    }
}

/// Whether two states differ in nothing but their objects.
pub open spec fn same_but_objects(old: State, new: State) -> bool {
    &&& new.sessions == old.sessions
    &&& new.command_audit_options == old.command_audit_options
    &&& new.force_audit == old.force_audit
    &&& new.authority == old.authority
}

/// Makes the message that reports the success of a command.
pub fn respond(response: Response) -> (message: ResponseMessage)
    requires
        response@.wf(),
    ensures
        message@ == reply(response@),
{
    ResponseMessage::success(response.command_code(), response.serialize())
}

/// What the device answers to a request to blink.
pub open spec fn blink_device_answer(data: Seq<u8>) -> ResponseMessage<Seq<u8>> {
    match Command::from_payload(CommandCode::BlinkDevice, data) {
        Ok(Command::BlinkDevice { .. }) => reply(Response::BlinkDevice),
        _ => failure(HsmErrorKind::InvalidCommand),
    }
}

/// Blinks the light, which the simulator has not.
pub fn blink_device(cmd_data: &[u8]) -> (response: ResponseMessage)
    ensures
        response@ == blink_device_answer(cmd_data@),
{
    match Command::deserialize(CommandCode::BlinkDevice, cmd_data) {
        Ok(Command::BlinkDevice { .. }) => respond(Response::BlinkDevice),
        _ => ResponseMessage::error(HsmErrorKind::InvalidCommand),
    }
}

/// What the device answers to a mark in the audit log.
pub open spec fn set_log_index_answer(data: Seq<u8>) -> ResponseMessage<Seq<u8>> {
    match Command::from_payload(CommandCode::SetLogIndex, data) {
        Ok(Command::SetLogIndex { .. }) => reply(Response::SetLogIndex),
        _ => failure(HsmErrorKind::InvalidCommand),
    }
}

/// Marks entries of the audit log, which the simulator does not keep.
pub fn set_log_index(cmd_data: &[u8]) -> (response: ResponseMessage)
    ensures
        response@ == set_log_index_answer(cmd_data@),
{
    match Command::deserialize(CommandCode::SetLogIndex, cmd_data) {
        Ok(Command::SetLogIndex { .. }) => respond(Response::SetLogIndex),
        _ => ResponseMessage::error(HsmErrorKind::InvalidCommand),
    }
}

/// What deleting an object does: the object of the given number and type
/// leaves the store, or the device reports that there is none.
pub open spec fn delete_object_effect(
    old: State,
    data: Seq<u8>,
    response: ResponseMessage<Seq<u8>>,
    new: State,
) -> bool {
    match Command::from_payload(CommandCode::DeleteObject, data) {
        Ok(Command::DeleteObject { object_id, object_type }) => if holds(
            old.objects@,
            object_id,
            object_type,
        ) {
            &&& response == reply(Response::DeleteObject)
            &&& new.objects@ == old.objects@.remove(index_of(old.objects@, object_id, object_type))
            &&& same_but_objects(old, new)
        } else {
            response == failure(HsmErrorKind::ObjectNotFound) && new.objects@ == old.objects@
                && same_but_objects(old, new)
        },
        _ => response == failure(HsmErrorKind::InvalidCommand) && new.objects@ == old.objects@
            && same_but_objects(old, new),
    }
}

/// Deletes an object.
pub fn delete_object(state: &mut State, cmd_data: &[u8]) -> (response: ResponseMessage)
    requires
        old(state).wf(),
    ensures
        final(state).wf(),
        delete_object_effect(*old(state), cmd_data@, response@, *final(state)),
{
    match Command::deserialize(CommandCode::DeleteObject, cmd_data) {
        Ok(Command::DeleteObject { object_id, object_type }) => {
            match state.objects.remove(object_id, object_type) {
                Some(_) => respond(Response::DeleteObject),
                None => ResponseMessage::error(HsmErrorKind::ObjectNotFound),
            }
        },
        _ => ResponseMessage::error(HsmErrorKind::InvalidCommand),
    }
}

/// The identifiers of the algorithms that the simulated device reports: all
/// of them, from 1 to 47.
pub open spec fn supported_algorithm_codes() -> Seq<u8> {
    Seq::new(47, |i: int| (i + 1) as u8)
}

/// The algorithms that the simulated device reports, in the order of their
/// identifiers.
pub fn supported_algorithms() -> (algorithms: Vec<Algorithm>)
    ensures
        algorithms@.len() == 47,
        forall|i: int| 0 <= i < 47 ==> (#[trigger] algorithms@[i]).code() == i + 1,
{
    let mut algorithms: Vec<Algorithm> = Vec::new();
    let mut code: u8 = 1;
    while code <= 47
        invariant
            1 <= code <= 48,
            algorithms@.len() == code - 1,
            forall|i: int| 0 <= i < code - 1 ==> (#[trigger] algorithms@[i]).code() == i + 1,
        decreases 48 - code,
    {
        proof {
            crate::algorithm::lemma_algorithm_of_code(code);
        }
        match Algorithm::from_u8(code) {
            Some(algorithm) => {
                algorithms.push(algorithm);
            },
            None => {},
        }
        code = code + 1;
    }
    algorithms
}

/// The identifiers of a list of algorithms, one byte each.
pub fn algorithm_codes(algorithms: &Vec<Algorithm>) -> (codes: Vec<u8>)
    ensures
        codes@.len() == algorithms@.len(),
        forall|i: int| 0 <= i < codes@.len() ==> codes@[i] == (#[trigger] algorithms@[i]).code(),
{
    let mut codes: Vec<u8> = Vec::new();
    let mut i: usize = 0;
    while i < algorithms.len()
        invariant
            i <= algorithms@.len(),
            codes@.len() == i,
            forall|k: int| 0 <= k < i ==> codes@[k] == (#[trigger] algorithms@[k]).code(),
        decreases algorithms@.len() - i,
    {
        codes.push(algorithms[i].to_u8());
        i += 1;
    }
    codes
}

/// What the simulated device tells of itself: version 2.0.0, serial number
/// 2000000, an audit log of 62 entries that is full, and every algorithm.
pub open spec fn device_info_answer() -> ResponseMessage<Seq<u8>> {
    reply(
        Response::DeviceInfo {
            major_version: 2,
            minor_version: 0,
            build_version: 0,
            serial_number: 2_000_000,
            log_store_capacity: 62,
            log_store_used: 62,
            algorithms: supported_algorithm_codes(),
        },
    )
}

/// Reports version, serial number and algorithms of the simulated device.
pub fn device_info() -> (response: ResponseMessage)
    ensures
        response@ == device_info_answer(),
{
    let supported = supported_algorithms();
    let algorithms = algorithm_codes(&supported);
    assert forall|i: int| 0 <= i < 47 implies algorithms@[i] == (i + 1) as u8 by {
        assert(supported@[i].code() == i + 1);
    }
    assert(algorithms@ =~= supported_algorithm_codes());
    respond(
        Response::DeviceInfo {
            major_version: 2,
            minor_version: 0,
            build_version: 0,
            serial_number: 2_000_000,
            log_store_capacity: 62,
            log_store_used: 62,
            algorithms,
        },
    )
}

/// Sends the message back.
pub fn echo(cmd_data: &[u8]) -> (response: ResponseMessage)
    ensures
        response@ == reply(Response::Echo { message: cmd_data@ }),
{
    respond(Response::Echo { message: copy_bytes(cmd_data) })
}

/// The audit log of the simulated device: always empty.
pub open spec fn get_log_entries_answer() -> ResponseMessage<Seq<u8>> {
    reply(
        Response::GetLogEntries {
            unlogged_boot_events: 0,
            unlogged_auth_events: 0,
            num_entries: 0,
            entries: Seq::<u8>::empty(),
        },
    )
}

/// Reports the audit log.
pub fn get_log_entries() -> (response: ResponseMessage)
    ensures
        response@ == get_log_entries_answer(),
{
    respond(
        Response::GetLogEntries {
            unlogged_boot_events: 0,
            unlogged_auth_events: 0,
            num_entries: 0,
            entries: Vec::new(),
        },
    )
}

/// The storage of the simulated device: 256 records and 1024 pages of 126
/// bytes, all free.
pub open spec fn get_storage_info_answer() -> ResponseMessage<Seq<u8>> {
    reply(
        Response::GetStorageInfo {
            total_records: 256,
            free_records: 256,
            total_pages: 1024,
            free_pages: 1024,
            page_size: 126,
        },
    )
}

/// Reports how much storage is free.
pub fn get_storage_info() -> (response: ResponseMessage)
    ensures
        response@ == get_storage_info_answer(),
{
    respond(
        Response::GetStorageInfo {
            total_records: 256,
            free_records: 256,
            total_pages: 1024,
            free_pages: 1024,
            page_size: 126,
        },
    )
}

/// What the device answers to a request for the description of an object.
pub open spec fn get_object_info_answer(state: State, data: Seq<u8>) -> ResponseMessage<Seq<u8>> {
    match Command::from_payload(CommandCode::GetObjectInfo, data) {
        Ok(Command::GetObjectInfo { object_id, object_type }) => match lookup(
            state.objects@,
            object_id,
            object_type,
        ) {
            Some(object) => reply(Response::GetObjectInfo { info: object.info }),
            None => failure(HsmErrorKind::ObjectNotFound),
        },
        _ => failure(HsmErrorKind::InvalidCommand),
    }
}

/// Describes an object.
pub fn get_object_info(state: &State, cmd_data: &[u8]) -> (response: ResponseMessage)
    requires
        state.wf(),
    ensures
        response@ == get_object_info_answer(*state, cmd_data@),
{
    match Command::deserialize(CommandCode::GetObjectInfo, cmd_data) {
        Ok(Command::GetObjectInfo { object_id, object_type }) => {
            match state.objects.get(object_id, object_type) {
                Some(object) => respond(Response::GetObjectInfo { info: object.info.duplicate() }),
                None => ResponseMessage::error(HsmErrorKind::ObjectNotFound),
            }
        },
        _ => ResponseMessage::error(HsmErrorKind::InvalidCommand),
    }
}

/// What the device answers to a request for an opaque object.
pub open spec fn get_opaque_answer(state: State, data: Seq<u8>) -> ResponseMessage<Seq<u8>> {
    match Command::from_payload(CommandCode::GetOpaqueObject, data) {
        Ok(Command::GetOpaqueObject { object_id }) => match lookup(
            state.objects@,
            object_id,
            ObjectType::Opaque,
        ) {
            Some(object) => reply(Response::GetOpaqueObject { data: object.payload }),
            None => failure(HsmErrorKind::ObjectNotFound),
        },
        _ => failure(HsmErrorKind::InvalidCommand),
    }
}

/// Reads an opaque object.
pub fn get_opaque(state: &State, cmd_data: &[u8]) -> (response: ResponseMessage)
    requires
        state.wf(),
    ensures
        response@ == get_opaque_answer(*state, cmd_data@),
{
    match Command::deserialize(CommandCode::GetOpaqueObject, cmd_data) {
        Ok(Command::GetOpaqueObject { object_id }) => {
            match state.objects.get(object_id, ObjectType::Opaque) {
                Some(object) => respond(
                    Response::GetOpaqueObject { data: copy_bytes(object.payload.as_slice()) },
                ),
                None => ResponseMessage::error(HsmErrorKind::ObjectNotFound),
            }
        },
        _ => ResponseMessage::error(HsmErrorKind::InvalidCommand),
    }
}

/// The bytes of a list of audit settings: two for each.
pub open spec fn audit_wire(options: Seq<AuditCommand>) -> Seq<u8>
    decreases options.len(),
{
    if options.len() == 0 {
        Seq::<u8>::empty()
    } else {
        audit_wire(options.drop_last()) + options.last().wire()
    }
}

/// A list of audit settings without those of the given command.
pub open spec fn audit_without(options: Seq<AuditCommand>, command: CommandCode) -> Seq<
    AuditCommand,
>
    decreases options.len(),
{
    if options.len() == 0 {
        Seq::<AuditCommand>::empty()
    } else if options.last().command == command {
        audit_without(options.drop_last(), command)
    } else {
        audit_without(options.drop_last(), command).push(options.last())
    }
}

/// Writes a list of audit settings.
pub fn serialize_audit_options(options: &Vec<AuditCommand>) -> (out: Vec<u8>)
    ensures
        out@ == audit_wire(options@),
{
    let mut out: Vec<u8> = Vec::new();
    let mut i: usize = 0;
    while i < options.len()
        invariant
            i <= options@.len(),
            out@ == audit_wire(options@.subrange(0, i as int)),
        decreases options@.len() - i,
    {
        put_u8(&mut out, options[i].command.to_u8());
        put_u8(&mut out, options[i].option.to_u8());
        i += 1;
        proof {
            let now = options@.subrange(0, i as int);
            assert(now.drop_last() =~= options@.subrange(0, i as int - 1));
            assert(out@ =~= audit_wire(now.drop_last()) + now.last().wire());
        }
    }
    assert(options@.subrange(0, i as int) =~= options@);
    out
}

/// What the device answers to a request for an audit setting: the settings of
/// the single commands, or the one byte of the forced setting.
pub open spec fn get_option_answer(state: State, data: Seq<u8>) -> ResponseMessage<Seq<u8>> {
    match Command::from_payload(CommandCode::GetOption, data) {
        Ok(Command::GetOption { tag }) => match tag {
            AuditTag::Command => reply(
                Response::GetOption { value: audit_wire(state.command_audit_options@) },
            ),
            AuditTag::Force => reply(Response::GetOption { value: seq![state.force_audit.code()] }),
        },
        _ => failure(HsmErrorKind::InvalidCommand),
    }
}

/// Reads an audit setting.
pub fn get_option(state: &State, cmd_data: &[u8]) -> (response: ResponseMessage)
    ensures
        response@ == get_option_answer(*state, cmd_data@),
{
    match Command::deserialize(CommandCode::GetOption, cmd_data) {
        Ok(Command::GetOption { tag }) => {
            let value = match tag {
                AuditTag::Command => serialize_audit_options(&state.command_audit_options),
                AuditTag::Force => {
                    let mut value: Vec<u8> = Vec::new();
                    value.push(state.force_audit.to_u8());
                    assert(value@ =~= seq![state.force_audit.code()]);
                    value
                },
            };
            respond(Response::GetOption { value })
        },
        _ => ResponseMessage::error(HsmErrorKind::InvalidCommand),
    }
}

/// What changing an audit setting does. The forced setting takes a value of
/// one byte that names an option; the setting of a command takes two bytes,
/// the command and the option, and replaces what was set for that command.
/// Any other value is an invalid command.
pub open spec fn put_option_effect(
    old: State,
    data: Seq<u8>,
    response: ResponseMessage<Seq<u8>>,
    new: State,
) -> bool {
    &&& new.sessions == old.sessions
    &&& new.objects == old.objects
    &&& new.authority == old.authority
    &&& match Command::from_payload(CommandCode::SetOption, data) {
        Ok(Command::SetOption { tag: AuditTag::Force, value }) => if value.len() == 1
            && AuditOption::of_code(value[0]) is Some {
            &&& response == reply(Response::SetOption)
            &&& new.force_audit == AuditOption::of_code(value[0])->0
            &&& new.command_audit_options == old.command_audit_options
        } else {
            &&& response == failure(HsmErrorKind::InvalidCommand)
            &&& new.force_audit == old.force_audit
            &&& new.command_audit_options == old.command_audit_options
        },
        Ok(Command::SetOption { tag: AuditTag::Command, value }) => match AuditCommand::from_wire(
            value,
        ) {
            Ok(setting) => {
                &&& response == reply(Response::SetOption)
                &&& new.force_audit == old.force_audit
                &&& new.command_audit_options@ == audit_without(
                    old.command_audit_options@,
                    setting.command,
                ).push(setting)
            },
            Err(_) => {
                &&& response == failure(HsmErrorKind::InvalidCommand)
                &&& new.force_audit == old.force_audit
                &&& new.command_audit_options == old.command_audit_options
            },
        },
        _ => {
            &&& response == failure(HsmErrorKind::InvalidCommand)
            &&& new.force_audit == old.force_audit
            &&& new.command_audit_options == old.command_audit_options
        },
    }
}

/// Changes an audit setting.
pub fn put_option(state: &mut State, cmd_data: &[u8]) -> (response: ResponseMessage)
    requires
        old(state).wf(),
    ensures
        final(state).wf(),
        put_option_effect(*old(state), cmd_data@, response@, *final(state)),
{
    match Command::deserialize(CommandCode::SetOption, cmd_data) {
        Ok(Command::SetOption { tag, value }) => match tag {
            AuditTag::Force => {
                if value.len() != 1 {
                    return ResponseMessage::error(HsmErrorKind::InvalidCommand);
                }
                match AuditOption::from_u8(value[0]) {
                    Some(option) => {
                        state.force_audit = option;
                        respond(Response::SetOption)
                    },
                    None => ResponseMessage::error(HsmErrorKind::InvalidCommand),
                }
            },
            AuditTag::Command => match AuditCommand::deserialize(value.as_slice()) {
                Ok(setting) => {
                    let mut options: Vec<AuditCommand> = Vec::new();
                    let mut i: usize = 0;
                    while i < state.command_audit_options.len()
                        invariant
                            i <= state.command_audit_options@.len(),
                            options@ == audit_without(
                                state.command_audit_options@.subrange(0, i as int),
                                setting.command,
                            ),
                        decreases state.command_audit_options@.len() - i,
                    {
                        let entry = state.command_audit_options[i];
                        if entry.command != setting.command {
                            options.push(entry);
                        }
                        i += 1;
                        proof {
                            let now = state.command_audit_options@.subrange(0, i as int);
                            assert(now.drop_last() =~= state.command_audit_options@.subrange(
                                0,
                                i as int - 1,
                            ));
                        }
                    }
                    assert(state.command_audit_options@.subrange(0, i as int)
                        =~= state.command_audit_options@);
                    options.push(setting);
                    state.command_audit_options = options;
                    respond(Response::SetOption)
                },
                Err(_) => ResponseMessage::error(HsmErrorKind::InvalidCommand),
            },
        },
        _ => ResponseMessage::error(HsmErrorKind::InvalidCommand),
    }
}

/// The message that reports the creation of an object: the number of the new
/// object, in the response of the command that created it.
pub open spec fn created_reply(code: CommandCode, id: u16) -> ResponseMessage<Seq<u8>> {
    match code {
        CommandCode::GenerateAsymmetricKey => reply(Response::GenerateAsymmetricKey { key_id: id }),
        CommandCode::GenerateHmacKey => reply(Response::GenerateHmacKey { key_id: id }),
        CommandCode::GenerateWrapKey => reply(Response::GenerateWrapKey { key_id: id }),
        CommandCode::PutAsymmetricKey => reply(Response::PutAsymmetricKey { key_id: id }),
        CommandCode::PutAuthenticationKey => reply(Response::PutAuthenticationKey { key_id: id }),
        CommandCode::PutHmacKey => reply(Response::PutHmacKey { key_id: id }),
        CommandCode::PutOpaqueObject => reply(Response::PutOpaqueObject { object_id: id }),
        CommandCode::PutWrapKey => reply(Response::PutWrapKey { key_id: id }),
        _ => failure(HsmErrorKind::InvalidCommand),
    }
}

/// Makes the message that reports the creation of an object.
fn created_response(code: CommandCode, id: u16) -> (response: ResponseMessage)
    ensures
        response@ == created_reply(code, id),
{
    match code {
        CommandCode::GenerateAsymmetricKey => respond(
            Response::GenerateAsymmetricKey { key_id: id },
        ),
        CommandCode::GenerateHmacKey => respond(Response::GenerateHmacKey { key_id: id }),
        CommandCode::GenerateWrapKey => respond(Response::GenerateWrapKey { key_id: id }),
        CommandCode::PutAsymmetricKey => respond(Response::PutAsymmetricKey { key_id: id }),
        CommandCode::PutAuthenticationKey => respond(Response::PutAuthenticationKey { key_id: id }),
        CommandCode::PutHmacKey => respond(Response::PutHmacKey { key_id: id }),
        CommandCode::PutOpaqueObject => respond(Response::PutOpaqueObject { object_id: id }),
        CommandCode::PutWrapKey => respond(Response::PutWrapKey { key_id: id }),
        _ => ResponseMessage::error(HsmErrorKind::InvalidCommand),
    }
}

/// What a command that does not parse does: nothing, but for the answer.
pub open spec fn refused(old: State, response: ResponseMessage<Seq<u8>>, new: State) -> bool {
    &&& response == failure(HsmErrorKind::InvalidCommand)
    &&& new.objects@ == old.objects@
    &&& same_but_objects(old, new)
}

/// What storing an object from outside does. The object's capabilities must
/// all be among those that the session may bestow; the object then takes its
/// slot, and the answer is its number. On any failure the store stays as it
/// is.
pub open spec fn creation_effect(
    old: State,
    new: State,
    response: ResponseMessage<Seq<u8>>,
    code: CommandCode,
    ty: ObjectType,
    params: KeyParams<Seq<u8>>,
    delegated: Capability,
    data: Seq<u8>,
) -> bool {
    &&& same_but_objects(old, new)
    &&& if !params.capabilities.subset_of(old.authority) {
        response == failure(HsmErrorKind::InsufficientPermissions) && new.objects@ == old.objects@
    } else {
        match slot(old.objects@, params.key_id, ty, params.label, data.len()) {
            Ok(id) => response == created_reply(code, id) && new.objects@ == old.objects@.push(
                created(
                    id,
                    ty,
                    params.algorithm,
                    params.label,
                    params.capabilities,
                    delegated,
                    params.domains,
                    ObjectOrigin::Imported,
                    data,
                ),
            ),
            Err(e) => response == failure(e) && new.objects@ == old.objects@,
        }
    }
}

/// What generating an object does. The object's capabilities must all be
/// among those that the session may bestow, and its algorithm must have keys.
/// Where the random generator fails the command is not executed; otherwise
/// the object takes its slot with a payload of the algorithm's key length,
/// and the answer is its number. On any failure the store stays as it is.
pub open spec fn generation_effect(
    old: State,
    new: State,
    response: ResponseMessage<Seq<u8>>,
    code: CommandCode,
    ty: ObjectType,
    params: KeyParams<Seq<u8>>,
    delegated: Capability,
) -> bool {
    &&& same_but_objects(old, new)
    &&& if !params.capabilities.subset_of(old.authority) {
        response == failure(HsmErrorKind::InsufficientPermissions) && new.objects@ == old.objects@
    } else {
        match generated_len(params.algorithm) {
            None => response == failure(HsmErrorKind::InvalidData) && new.objects@ == old.objects@,
            Some(n) => (response == failure(HsmErrorKind::CommandUnexecuted) && new.objects@
                == old.objects@) || match slot(old.objects@, params.key_id, ty, params.label, n) {
                Ok(id) => {
                    &&& response == created_reply(code, id)
                    &&& new.objects@.len() == old.objects@.len() + 1
                    &&& new.objects@.last().payload.len() == n
                    &&& new.objects@ == old.objects@.push(
                        created(
                            id,
                            ty,
                            params.algorithm,
                            params.label,
                            params.capabilities,
                            delegated,
                            params.domains,
                            ObjectOrigin::Generated,
                            new.objects@.last().payload,
                        ),
                    )
                },
                Err(e) => response == failure(e) && new.objects@ == old.objects@,
            },
        }
    }
}

/// Stores an object from outside and reports its number.
fn create(
    state: &mut State,
    code: CommandCode,
    ty: ObjectType,
    params: KeyParams,
    delegated: Capability,
    data: Vec<u8>,
) -> (response: ResponseMessage)
    requires
        old(state).wf(),
        params@.wf(),
    ensures
        final(state).wf(),
        creation_effect(*old(state), *final(state), response@, code, ty, params@, delegated, data@),
{
    if !params.capabilities.is_subset_of(state.authority) {
        return ResponseMessage::error(HsmErrorKind::InsufficientPermissions);
    }
    match state.objects.put(
        params.key_id,
        ty,
        params.algorithm,
        params.label,
        params.capabilities,
        delegated,
        params.domains,
        data,
    ) {
        Ok(id) => created_response(code, id),
        Err(e) => ResponseMessage::error(e),
    }
}

/// Generates an object and reports its number.
fn generate(
    state: &mut State,
    code: CommandCode,
    ty: ObjectType,
    params: KeyParams,
    delegated: Capability,
) -> (response: ResponseMessage)
    requires
        old(state).wf(),
        params@.wf(),
    ensures
        final(state).wf(),
        generation_effect(*old(state), *final(state), response@, code, ty, params@, delegated),
{
    if !params.capabilities.is_subset_of(state.authority) {
        return ResponseMessage::error(HsmErrorKind::InsufficientPermissions);
    }
    match state.objects.generate(
        params.key_id,
        ty,
        params.algorithm,
        params.label,
        params.capabilities,
        delegated,
        params.domains,
    ) {
        Ok(id) => created_response(code, id),
        Err(e) => ResponseMessage::error(e),
    }
}

/// What generating an asymmetric key does.
pub open spec fn gen_asymmetric_key_effect(
    old: State,
    data: Seq<u8>,
    response: ResponseMessage<Seq<u8>>,
    new: State,
) -> bool {
    match Command::from_payload(CommandCode::GenerateAsymmetricKey, data) {
        Ok(Command::GenerateAsymmetricKey { params }) => generation_effect(
            old,
            new,
            response,
            CommandCode::GenerateAsymmetricKey,
            ObjectType::AsymmetricKey,
            params,
            Capability { bits: 0 },
        ),
        _ => refused(old, response, new),
    }
}

/// Generates an asymmetric key.
pub fn gen_asymmetric_key(state: &mut State, cmd_data: &[u8]) -> (response: ResponseMessage)
    requires
        old(state).wf(),
    ensures
        final(state).wf(),
        gen_asymmetric_key_effect(*old(state), cmd_data@, response@, *final(state)),
{
    match Command::deserialize(CommandCode::GenerateAsymmetricKey, cmd_data) {
        Ok(Command::GenerateAsymmetricKey { params }) => generate(
            state,
            CommandCode::GenerateAsymmetricKey,
            ObjectType::AsymmetricKey,
            params,
            Capability::none(),
        ),
        _ => ResponseMessage::error(HsmErrorKind::InvalidCommand),
    }
}

/// What generating an HMAC key does.
pub open spec fn gen_hmac_key_effect(
    old: State,
    data: Seq<u8>,
    response: ResponseMessage<Seq<u8>>,
    new: State,
) -> bool {
    match Command::from_payload(CommandCode::GenerateHmacKey, data) {
        Ok(Command::GenerateHmacKey { params }) => generation_effect(
            old,
            new,
            response,
            CommandCode::GenerateHmacKey,
            ObjectType::HmacKey,
            params,
            Capability { bits: 0 },
        ),
        _ => refused(old, response, new),
    }
}

/// Generates an HMAC key.
pub fn gen_hmac_key(state: &mut State, cmd_data: &[u8]) -> (response: ResponseMessage)
    requires
        old(state).wf(),
    ensures
        final(state).wf(),
        gen_hmac_key_effect(*old(state), cmd_data@, response@, *final(state)),
{
    match Command::deserialize(CommandCode::GenerateHmacKey, cmd_data) {
        Ok(Command::GenerateHmacKey { params }) => generate(
            state,
            CommandCode::GenerateHmacKey,
            ObjectType::HmacKey,
            params,
            Capability::none(),
        ),
        _ => ResponseMessage::error(HsmErrorKind::InvalidCommand),
    }
}

/// What generating a wrap key does.
pub open spec fn gen_wrap_key_effect(
    old: State,
    data: Seq<u8>,
    response: ResponseMessage<Seq<u8>>,
    new: State,
) -> bool {
    match Command::from_payload(CommandCode::GenerateWrapKey, data) {
        Ok(Command::GenerateWrapKey { params, delegated_capabilities }) => generation_effect(
            old,
            new,
            response,
            CommandCode::GenerateWrapKey,
            ObjectType::WrapKey,
            params,
            delegated_capabilities,
        ),
        _ => refused(old, response, new),
    }
}

/// Generates a wrap key.
pub fn gen_wrap_key(state: &mut State, cmd_data: &[u8]) -> (response: ResponseMessage)
    requires
        old(state).wf(),
    ensures
        final(state).wf(),
        gen_wrap_key_effect(*old(state), cmd_data@, response@, *final(state)),
{
    match Command::deserialize(CommandCode::GenerateWrapKey, cmd_data) {
        Ok(Command::GenerateWrapKey { params, delegated_capabilities }) => generate(
            state,
            CommandCode::GenerateWrapKey,
            ObjectType::WrapKey,
            params,
            delegated_capabilities,
        ),
        _ => ResponseMessage::error(HsmErrorKind::InvalidCommand),
    }
}

/// What storing an asymmetric key does.
pub open spec fn put_asymmetric_key_effect(
    old: State,
    data: Seq<u8>,
    response: ResponseMessage<Seq<u8>>,
    new: State,
) -> bool {
    match Command::from_payload(CommandCode::PutAsymmetricKey, data) {
        Ok(Command::PutAsymmetricKey { params, data: key }) => creation_effect(
            old,
            new,
            response,
            CommandCode::PutAsymmetricKey,
            ObjectType::AsymmetricKey,
            params,
            Capability { bits: 0 },
            key,
        ),
        _ => refused(old, response, new),
    }
}

/// Stores an asymmetric key.
pub fn put_asymmetric_key(state: &mut State, cmd_data: &[u8]) -> (response: ResponseMessage)
    requires
        old(state).wf(),
    ensures
        final(state).wf(),
        put_asymmetric_key_effect(*old(state), cmd_data@, response@, *final(state)),
{
    match Command::deserialize(CommandCode::PutAsymmetricKey, cmd_data) {
        Ok(Command::PutAsymmetricKey { params, data }) => create(
            state,
            CommandCode::PutAsymmetricKey,
            ObjectType::AsymmetricKey,
            params,
            Capability::none(),
            data,
        ),
        _ => ResponseMessage::error(HsmErrorKind::InvalidCommand),
    }
}

/// What storing an authentication key does.
pub open spec fn put_authentication_key_effect(
    old: State,
    data: Seq<u8>,
    response: ResponseMessage<Seq<u8>>,
    new: State,
) -> bool {
    match Command::from_payload(CommandCode::PutAuthenticationKey, data) {
        Ok(
            Command::PutAuthenticationKey { params, delegated_capabilities, authentication_key },
        ) => creation_effect(
            old,
            new,
            response,
            CommandCode::PutAuthenticationKey,
            ObjectType::AuthenticationKey,
            params,
            delegated_capabilities,
            authentication_key,
        ),
        _ => refused(old, response, new),
    }
}

/// Stores an authentication key.
pub fn put_authentication_key(state: &mut State, cmd_data: &[u8]) -> (response: ResponseMessage)
    requires
        old(state).wf(),
    ensures
        final(state).wf(),
        put_authentication_key_effect(*old(state), cmd_data@, response@, *final(state)),
{
    match Command::deserialize(CommandCode::PutAuthenticationKey, cmd_data) {
        Ok(
            Command::PutAuthenticationKey { params, delegated_capabilities, authentication_key },
        ) => create(
            state,
            CommandCode::PutAuthenticationKey,
            ObjectType::AuthenticationKey,
            params,
            delegated_capabilities,
            authentication_key,
        ),
        _ => ResponseMessage::error(HsmErrorKind::InvalidCommand),
    }
}

/// What storing an HMAC key does.
pub open spec fn put_hmac_key_effect(
    old: State,
    data: Seq<u8>,
    response: ResponseMessage<Seq<u8>>,
    new: State,
) -> bool {
    match Command::from_payload(CommandCode::PutHmacKey, data) {
        Ok(Command::PutHmacKey { params, hmac_key }) => creation_effect(
            old,
            new,
            response,
            CommandCode::PutHmacKey,
            ObjectType::HmacKey,
            params,
            Capability { bits: 0 },
            hmac_key,
        ),
        _ => refused(old, response, new),
    }
}

/// Stores an HMAC key.
pub fn put_hmac_key(state: &mut State, cmd_data: &[u8]) -> (response: ResponseMessage)
    requires
        old(state).wf(),
    ensures
        final(state).wf(),
        put_hmac_key_effect(*old(state), cmd_data@, response@, *final(state)),
{
    match Command::deserialize(CommandCode::PutHmacKey, cmd_data) {
        Ok(Command::PutHmacKey { params, hmac_key }) => create(
            state,
            CommandCode::PutHmacKey,
            ObjectType::HmacKey,
            params,
            Capability::none(),
            hmac_key,
        ),
        _ => ResponseMessage::error(HsmErrorKind::InvalidCommand),
    }
}

/// What storing an opaque object does.
pub open spec fn put_opaque_effect(
    old: State,
    data: Seq<u8>,
    response: ResponseMessage<Seq<u8>>,
    new: State,
) -> bool {
    match Command::from_payload(CommandCode::PutOpaqueObject, data) {
        Ok(Command::PutOpaqueObject { params, data: bytes }) => creation_effect(
            old,
            new,
            response,
            CommandCode::PutOpaqueObject,
            ObjectType::Opaque,
            params,
            Capability { bits: 0 },
            bytes,
        ),
        _ => refused(old, response, new),
    }
}

/// Stores an opaque object.
pub fn put_opaque(state: &mut State, cmd_data: &[u8]) -> (response: ResponseMessage)
    requires
        old(state).wf(),
    ensures
        final(state).wf(),
        put_opaque_effect(*old(state), cmd_data@, response@, *final(state)),
{
    match Command::deserialize(CommandCode::PutOpaqueObject, cmd_data) {
        Ok(Command::PutOpaqueObject { params, data }) => create(
            state,
            CommandCode::PutOpaqueObject,
            ObjectType::Opaque,
            params,
            Capability::none(),
            data,
        ),
        _ => ResponseMessage::error(HsmErrorKind::InvalidCommand),
    }
}

/// What storing a wrap key does.
pub open spec fn put_wrap_key_effect(
    old: State,
    data: Seq<u8>,
    response: ResponseMessage<Seq<u8>>,
    new: State,
) -> bool {
    match Command::from_payload(CommandCode::PutWrapKey, data) {
        Ok(Command::PutWrapKey { params, delegated_capabilities, data: key }) => creation_effect(
            old,
            new,
            response,
            CommandCode::PutWrapKey,
            ObjectType::WrapKey,
            params,
            delegated_capabilities,
            key,
        ),
        _ => refused(old, response, new),
    }
}

/// Stores a wrap key.
pub fn put_wrap_key(state: &mut State, cmd_data: &[u8]) -> (response: ResponseMessage)
    requires
        old(state).wf(),
    ensures
        final(state).wf(),
        put_wrap_key_effect(*old(state), cmd_data@, response@, *final(state)),
{
    match Command::deserialize(CommandCode::PutWrapKey, cmd_data) {
        Ok(Command::PutWrapKey { params, delegated_capabilities, data }) => create(
            state,
            CommandCode::PutWrapKey,
            ObjectType::WrapKey,
            params,
            delegated_capabilities,
            data,
        ),
        _ => ResponseMessage::error(HsmErrorKind::InvalidCommand),
    }
}

/// What the device answers to a request for `n` random bytes: that many
/// bytes, or, where the random generator fails, that the command is not
/// executed.
pub open spec fn get_pseudo_random_effect(data: Seq<u8>, response: ResponseMessage<Seq<u8>>) -> bool {
    match Command::from_payload(CommandCode::GetPseudoRandom, data) {
        Ok(Command::GetPseudoRandom { bytes }) => response == failure(
            HsmErrorKind::CommandUnexecuted,
        ) || (response == reply(Response::GetPseudoRandom { bytes: response.data })
            && response.data.len() == bytes),
        _ => response == failure(HsmErrorKind::InvalidCommand),
    }
}

/// Draws random bytes.
pub fn get_pseudo_random(_state: &State, cmd_data: &[u8]) -> (response: ResponseMessage)
    ensures
        get_pseudo_random_effect(cmd_data@, response@),
{
    match Command::deserialize(CommandCode::GetPseudoRandom, cmd_data) {
        Ok(Command::GetPseudoRandom { bytes }) => match random_bytes(bytes as usize) {
            Some(bytes) => respond(Response::GetPseudoRandom { bytes }),
            None => ResponseMessage::error(HsmErrorKind::CommandUnexecuted),
        },
        _ => ResponseMessage::error(HsmErrorKind::InvalidCommand),
    }
}

/// Whether an object is an Ed25519 key pair: its algorithm says so and its
/// payload is a seed of 32 bytes.
pub open spec fn is_ed25519_key(object: Object<Seq<u8>>) -> bool {
    &&& object.info.algorithm == Algorithm::Asymmetric(AsymmetricAlg::Ed25519)
    &&& object.payload.len() == ED25519_KEY_SIZE
}

/// Whether an object is an Ed25519 key pair.
fn ed25519_key(object: &Object) -> (r: bool)
    ensures
        r == is_ed25519_key(object@),
{
    let named = match object.info.algorithm {
        Algorithm::Asymmetric(AsymmetricAlg::Ed25519) => true,
        _ => false,
    };
    named && object.payload.len() == ED25519_KEY_SIZE
}

/// What the device answers to a request for a public key. The simulator
/// knows the public keys of Ed25519 keys only.
pub open spec fn get_public_key_answer(state: State, data: Seq<u8>) -> ResponseMessage<Seq<u8>> {
    match Command::from_payload(CommandCode::GetPublicKey, data) {
        Ok(Command::GetPublicKey { key_id }) => match lookup(
            state.objects@,
            key_id,
            ObjectType::AsymmetricKey,
        ) {
            None => failure(HsmErrorKind::ObjectNotFound),
            Some(key) => if is_ed25519_key(key) {
                reply(
                    Response::GetPublicKey {
                        algorithm: key.info.algorithm,
                        bytes: ed25519_public(key.payload),
                    },
                )
            } else {
                failure(HsmErrorKind::InvalidCommand)
            },
        },
        _ => failure(HsmErrorKind::InvalidCommand),
    }
}

/// Reads the public half of an asymmetric key. An answer that is no failure
/// carries an Ed25519 public key of 32 bytes.
pub fn get_public_key(state: &State, cmd_data: &[u8]) -> (response: ResponseMessage)
    requires
        state.wf(),
    ensures
        response@ == get_public_key_answer(*state, cmd_data@),
        !response@.code.spec_is_err() ==> exists|bytes: Seq<u8>|
            {
                &&& bytes.len() == ED25519_KEY_SIZE
                &&& response@ == #[trigger] reply(
                    Response::GetPublicKey {
                        algorithm: Algorithm::Asymmetric(AsymmetricAlg::Ed25519),
                        bytes,
                    },
                )
            },
{
    match Command::deserialize(CommandCode::GetPublicKey, cmd_data) {
        Ok(Command::GetPublicKey { key_id }) => {
            match state.objects.get(key_id, ObjectType::AsymmetricKey) {
                None => ResponseMessage::error(HsmErrorKind::ObjectNotFound),
                Some(key) => if ed25519_key(key) {
                    let bytes = ed25519_public_key(key.payload.as_slice());
                    proof {
                        assert(get_public_key_answer(*state, cmd_data@) == reply(
                            Response::GetPublicKey {
                                algorithm: Algorithm::Asymmetric(AsymmetricAlg::Ed25519),
                                bytes: bytes@,
                            },
                        ));
                    }
                    respond(Response::GetPublicKey { algorithm: key.info.algorithm, bytes })
                } else {
                    ResponseMessage::error(HsmErrorKind::InvalidCommand)
                },
            }
        },
        _ => ResponseMessage::error(HsmErrorKind::InvalidCommand),
    }
}

/// What the device answers to a request for an Ed25519 signature.
pub open spec fn sign_eddsa_answer(state: State, data: Seq<u8>) -> ResponseMessage<Seq<u8>> {
    match Command::from_payload(CommandCode::SignEddsa, data) {
        Ok(Command::SignEddsa { key_id, data: message }) => match lookup(
            state.objects@,
            key_id,
            ObjectType::AsymmetricKey,
        ) {
            None => failure(HsmErrorKind::ObjectNotFound),
            Some(key) => if is_ed25519_key(key) {
                reply(Response::SignEddsa { signature: ed25519_signature(key.payload, message) })
            } else {
                failure(HsmErrorKind::InvalidCommand)
            },
        },
        _ => failure(HsmErrorKind::InvalidCommand),
    }
}

/// Signs a message with an Ed25519 key. An answer that is no failure
/// carries a signature of 64 bytes.
pub fn sign_eddsa(state: &State, cmd_data: &[u8]) -> (response: ResponseMessage)
    requires
        state.wf(),
    ensures
        response@ == sign_eddsa_answer(*state, cmd_data@),
        !response@.code.spec_is_err() ==> exists|signature: Seq<u8>|
            {
                &&& signature.len() == ED25519_SIGNATURE_SIZE
                &&& response@ == #[trigger] reply(Response::SignEddsa { signature })
            },
{
    match Command::deserialize(CommandCode::SignEddsa, cmd_data) {
        Ok(Command::SignEddsa { key_id, data }) => {
            match state.objects.get(key_id, ObjectType::AsymmetricKey) {
                None => ResponseMessage::error(HsmErrorKind::ObjectNotFound),
                Some(key) => if ed25519_key(key) {
                    let signature = ed25519_sign(key.payload.as_slice(), data.as_slice());
                    proof {
                        assert(sign_eddsa_answer(*state, cmd_data@) == reply(
                            Response::SignEddsa { signature: signature@ },
                        ));
                    }
                    respond(Response::SignEddsa { signature })
                } else {
                    ResponseMessage::error(HsmErrorKind::InvalidCommand)
                },
            }
        },
        _ => ResponseMessage::error(HsmErrorKind::InvalidCommand),
    }
}

/// Whether an object is an HMAC key of the one algorithm that the simulator
/// computes: HMAC-SHA256.
pub open spec fn is_hmac_sha256_key(object: Object<Seq<u8>>) -> bool {
    object.info.algorithm == Algorithm::Hmac(HmacAlg::SHA256)
}

/// Whether an object is an HMAC-SHA256 key.
fn hmac_sha256_key(object: &Object) -> (r: bool)
    ensures
        r == is_hmac_sha256_key(object@),
{
    match object.info.algorithm {
        Algorithm::Hmac(HmacAlg::SHA256) => true,
        _ => false,
    }
}

/// What the device answers to a request for an HMAC tag.
pub open spec fn sign_hmac_answer(state: State, data: Seq<u8>) -> ResponseMessage<Seq<u8>> {
    match Command::from_payload(CommandCode::SignHmac, data) {
        Ok(Command::SignHmac { key_id, data: message }) => match lookup(
            state.objects@,
            key_id,
            ObjectType::HmacKey,
        ) {
            None => failure(HsmErrorKind::ObjectNotFound),
            Some(key) => if is_hmac_sha256_key(key) {
                reply(Response::SignHmac { tag: hmac_sha256(key.payload, message) })
            } else {
                failure(HsmErrorKind::InvalidCommand)
            },
        },
        _ => failure(HsmErrorKind::InvalidCommand),
    }
}

/// Computes the HMAC tag of a message.
pub fn sign_hmac(state: &State, cmd_data: &[u8]) -> (response: ResponseMessage)
    requires
        state.wf(),
    ensures
        response@ == sign_hmac_answer(*state, cmd_data@),
{
    match Command::deserialize(CommandCode::SignHmac, cmd_data) {
        Ok(Command::SignHmac { key_id, data }) => {
            match state.objects.get(key_id, ObjectType::HmacKey) {
                None => ResponseMessage::error(HsmErrorKind::ObjectNotFound),
                Some(key) => if hmac_sha256_key(key) {
                    respond(
                        Response::SignHmac {
                            tag: hmac_sha256_tag(key.payload.as_slice(), data.as_slice()),
                        },
                    )
                } else {
                    ResponseMessage::error(HsmErrorKind::InvalidCommand)
                },
            }
        },
        _ => ResponseMessage::error(HsmErrorKind::InvalidCommand),
    }
}

/// What the device answers to a request to verify an HMAC tag. The tag is as
/// long as the key's algorithm makes it and stands before the message; the
/// answer is 1 where it is the tag of the message and 0 where it is not.
pub open spec fn verify_hmac_answer(state: State, data: Seq<u8>) -> ResponseMessage<Seq<u8>> {
    match Command::from_payload(CommandCode::VerifyHmac, data) {
        Ok(Command::VerifyHmac { key_id, tag_and_data }) => match lookup(
            state.objects@,
            key_id,
            ObjectType::HmacKey,
        ) {
            None => failure(HsmErrorKind::ObjectNotFound),
            Some(key) => {
                let width = HmacAlg::SHA256.spec_key_len() as int;
                if !is_hmac_sha256_key(key) || tag_and_data.len() < width {
                    failure(HsmErrorKind::InvalidCommand)
                } else {
                    let tag = tag_and_data.subrange(0, width);
                    let message = tag_and_data.subrange(width, tag_and_data.len() as int);
                    reply(
                        Response::VerifyHmac {
                            result: if hmac_sha256(key.payload, message) == tag {
                                1
                            } else {
                                0
                            },
                        },
                    )
                }
            },
        },
        _ => failure(HsmErrorKind::InvalidCommand),
    }
}

/// Verifies the HMAC tag of a message, comparing in constant time.
pub fn verify_hmac(state: &State, cmd_data: &[u8]) -> (response: ResponseMessage)
    requires
        state.wf(),
    ensures
        response@ == verify_hmac_answer(*state, cmd_data@),
{
    match Command::deserialize(CommandCode::VerifyHmac, cmd_data) {
        Ok(Command::VerifyHmac { key_id, tag_and_data }) => {
            match state.objects.get(key_id, ObjectType::HmacKey) {
                None => ResponseMessage::error(HsmErrorKind::ObjectNotFound),
                Some(key) => {
                    let width = HmacAlg::SHA256.key_len();
                    if !hmac_sha256_key(key) || tag_and_data.len() < width {
                        return ResponseMessage::error(HsmErrorKind::InvalidCommand);
                    }
                    let tag = read_bytes(tag_and_data.as_slice(), 0, width);
                    let message = read_bytes(tag_and_data.as_slice(), width, tag_and_data.len());
                    let expected = hmac_sha256_tag(key.payload.as_slice(), message.as_slice());
                    let result: u8 = if ct_eq(expected.as_slice(), tag.as_slice()) {
                        1
                    } else {
                        0
                    };
                    respond(Response::VerifyHmac { result })
                },
            }
        },
        _ => ResponseMessage::error(HsmErrorKind::InvalidCommand),
    }
}

/// What the device answers to a request to export an object, given the nonce
/// that it has drawn: the nonce and the sealed object, or, where the object
/// cannot be exported, that the command is invalid.
pub open spec fn export_wrapped_answer(
    state: State,
    data: Seq<u8>,
    nonce: Seq<u8>,
) -> ResponseMessage<
    Seq<u8>,
> {
    match Command::from_payload(CommandCode::ExportWrapped, data) {
        Ok(Command::ExportWrapped { wrap_key_id, object_type, object_id }) => match export_result(
            state.objects@,
            wrap_key_id,
            object_id,
            object_type,
            nonce,
        ) {
            Ok(ciphertext) => reply(Response::ExportWrapped { nonce, ciphertext }),
            Err(_) => failure(HsmErrorKind::InvalidCommand),
        },
        _ => failure(HsmErrorKind::InvalidCommand),
    }
}

/// Exports an object under a wrap key and the given nonce.
pub fn export_wrapped_with(state: &State, cmd_data: &[u8], nonce: Vec<u8>) -> (response:
    ResponseMessage)
    requires
        state.wf(),
    ensures
        response@ == export_wrapped_answer(*state, cmd_data@, nonce@),
{
    match Command::deserialize(CommandCode::ExportWrapped, cmd_data) {
        Ok(Command::ExportWrapped { wrap_key_id, object_type, object_id }) => {
            match state.objects.wrap(wrap_key_id, object_id, object_type, nonce.as_slice()) {
                Ok(ciphertext) => respond(Response::ExportWrapped { nonce, ciphertext }),
                Err(_) => ResponseMessage::error(HsmErrorKind::InvalidCommand),
            }
        },
        _ => ResponseMessage::error(HsmErrorKind::InvalidCommand),
    }
}

/// What the device answers to a request to export an object. A request that
/// cannot be read is invalid. Otherwise the device draws a nonce of 13
/// bytes: where it cannot, the command is not executed; where it can, the
/// answer is what `export_wrapped_answer` says for that nonce.
pub open spec fn export_wrapped_outcome(
    state: State,
    data: Seq<u8>,
    response: ResponseMessage<Seq<u8>>,
) -> bool {
    match Command::from_payload(CommandCode::ExportWrapped, data) {
        Ok(Command::ExportWrapped { .. }) => response == failure(HsmErrorKind::CommandUnexecuted)
            || exists|nonce: Seq<u8>|
                nonce.len() == WRAP_NONCE_SIZE && response == #[trigger] export_wrapped_answer(
                    state,
                    data,
                    nonce,
                ),
        _ => response == failure(HsmErrorKind::InvalidCommand),
    }
}

/// Exports an object under a wrap key and a fresh random nonce. A request
/// that cannot be read is invalid, and no nonce is drawn for it. Where the
/// random generator fails, the command is not executed.
pub fn export_wrapped(state: &State, cmd_data: &[u8]) -> (response: ResponseMessage)
    requires
        state.wf(),
    ensures
        export_wrapped_outcome(*state, cmd_data@, response@),
{
    match Command::deserialize(CommandCode::ExportWrapped, cmd_data) {
        Ok(Command::ExportWrapped { .. }) => {},
        _ => {
            return ResponseMessage::error(HsmErrorKind::InvalidCommand);
        },
    }
    match random_bytes(WRAP_NONCE_SIZE) {
        Some(nonce) => export_wrapped_with(state, cmd_data, nonce),
        None => ResponseMessage::error(HsmErrorKind::CommandUnexecuted),
    }
}

/// What importing a wrapped object does. The message must open under the wrap
/// key and hold an object whose capabilities are all among those that the
/// wrap key may bestow and whose slot is free; the object is then stored, and
/// the answer is its type and number. Otherwise the command is invalid and
/// the store stays as it is.
pub open spec fn import_wrapped_effect(
    old: State,
    data: Seq<u8>,
    response: ResponseMessage<Seq<u8>>,
    new: State,
) -> bool {
    match Command::from_payload(CommandCode::ImportWrapped, data) {
        Ok(Command::ImportWrapped { wrap_key_id, nonce, ciphertext }) => match opening(
            old.objects@,
            wrap_key_id,
            nonce,
            ciphertext,
        ) {
            Err(_) => refused(old, response, new),
            Ok((delegated, plain)) => match import_result(old.objects@, delegated, plain) {
                Ok((object_type, object_id)) => {
                    &&& response == reply(Response::ImportWrapped { object_type, object_id })
                    &&& new.objects@ == old.objects@.push(imported(unwrapped(plain)->0))
                    &&& same_but_objects(old, new)
                },
                Err(_) => refused(old, response, new),
            },
        },
        _ => refused(old, response, new),
    }
}

/// Imports a wrapped object.
pub fn import_wrapped(state: &mut State, cmd_data: &[u8]) -> (response: ResponseMessage)
    requires
        old(state).wf(),
    ensures
        final(state).wf(),
        import_wrapped_effect(*old(state), cmd_data@, response@, *final(state)),
{
    match Command::deserialize(CommandCode::ImportWrapped, cmd_data) {
        Ok(Command::ImportWrapped { wrap_key_id, nonce, ciphertext }) => {
            match state.objects.unwrap(wrap_key_id, nonce.as_slice(), ciphertext.as_slice()) {
                Ok((object_type, object_id)) => respond(
                    Response::ImportWrapped { object_type, object_id },
                ),
                Err(_) => ResponseMessage::error(HsmErrorKind::InvalidCommand),
            }
        },
        _ => ResponseMessage::error(HsmErrorKind::InvalidCommand),
    }
}

/// The four bytes that list an object: its number, its type and its
/// sequence.
pub open spec fn entry_wire(info: ObjectInfo<Seq<u8>>) -> Seq<u8> {
    be16(info.object_id) + seq![info.object_type.code(), info.sequence]
}

/// The list of the objects that meet every one of the filters, in the order
/// of the store.
pub open spec fn listing(objs: Seq<Object<Seq<u8>>>, filters: Seq<Filter<Seq<u8>>>) -> Seq<u8>
    decreases objs.len(),
{
    if objs.len() == 0 {
        Seq::<u8>::empty()
    } else if admits_all(filters, objs.last().info) {
        listing(objs.drop_last(), filters) + entry_wire(objs.last().info)
    } else {
        listing(objs.drop_last(), filters)
    }
}

/// What the device answers to a request for a list of objects. Filters that
/// do not parse make the command invalid.
pub open spec fn list_objects_answer(state: State, data: Seq<u8>) -> ResponseMessage<Seq<u8>> {
    match Command::from_payload(CommandCode::ListObjects, data) {
        Ok(Command::ListObjects { filters }) => match filters_at(filters, 0) {
            Ok(parsed) => reply(Response::ListObjects { entries: listing(state.objects@, parsed) }),
            Err(_) => failure(HsmErrorKind::InvalidCommand),
        },
        _ => failure(HsmErrorKind::InvalidCommand),
    }
}

/// Lists the objects that meet every one of the given filters.
pub fn list_objects(state: &State, cmd_data: &[u8]) -> (response: ResponseMessage)
    requires
        state.wf(),
    ensures
        response@ == list_objects_answer(*state, cmd_data@),
{
    let filters = match Command::deserialize(CommandCode::ListObjects, cmd_data) {
        Ok(Command::ListObjects { filters }) => match parse_filters(filters.as_slice()) {
            Ok(parsed) => parsed,
            Err(_) => {
                return ResponseMessage::error(HsmErrorKind::InvalidCommand);
            },
        },
        _ => {
            return ResponseMessage::error(HsmErrorKind::InvalidCommand);
        },
    };
    let ghost parsed = filter_views(filters@);
    let mut entries: Vec<u8> = Vec::new();
    let mut i: usize = 0;
    while i < state.objects.len()
        invariant
            i <= state.objects@.len(),
            parsed == filter_views(filters@),
            entries@ == listing(state.objects@.subrange(0, i as int), parsed),
        decreases state.objects@.len() - i,
    {
        let object = state.objects.at(i);
        let ghost before = entries@;
        if matches_all(filters.as_slice(), &object.info) {
            put_u16(&mut entries, object.info.object_id);
            put_u8(&mut entries, object.info.object_type.to_u8());
            put_u8(&mut entries, object.info.sequence);
            assert(entries@ =~= before + entry_wire(object@.info));
        }
        i += 1;
        proof {
            let now = state.objects@.subrange(0, i as int);
            assert(now.drop_last() =~= state.objects@.subrange(0, i as int - 1));
            assert(now.last() == object@);
        }
    }
    assert(state.objects@.subrange(0, i as int) =~= state.objects@);
    respond(Response::ListObjects { entries })
}

/// What carrying out a command inside a session does to the state, and what
/// the device answers. A command that the simulator does not know is an
/// invalid command.
pub open spec fn handled(
    old: State,
    code: CommandCode,
    data: Seq<u8>,
    response: ResponseMessage<Seq<u8>>,
    new: State,
) -> bool {
    match code {
        CommandCode::BlinkDevice => response == blink_device_answer(data) && new == old,
        CommandCode::DeleteObject => delete_object_effect(old, data, response, new),
        CommandCode::DeviceInfo => response == device_info_answer() && new == old,
        CommandCode::Echo => response == reply(Response::Echo { message: data }) && new == old,
        CommandCode::ExportWrapped => export_wrapped_outcome(old, data, response) && new == old,
        CommandCode::GenerateAsymmetricKey => gen_asymmetric_key_effect(old, data, response, new),
        CommandCode::GenerateHmacKey => gen_hmac_key_effect(old, data, response, new),
        CommandCode::GenerateWrapKey => gen_wrap_key_effect(old, data, response, new),
        CommandCode::GetLogEntries => response == get_log_entries_answer() && new == old,
        CommandCode::GetObjectInfo => response == get_object_info_answer(old, data) && new == old,
        CommandCode::GetOpaqueObject => response == get_opaque_answer(old, data) && new == old,
        CommandCode::GetOption => response == get_option_answer(old, data) && new == old,
        CommandCode::GetPseudoRandom => get_pseudo_random_effect(data, response) && new == old,
        CommandCode::GetPublicKey => response == get_public_key_answer(old, data) && new == old,
        CommandCode::GetStorageInfo => response == get_storage_info_answer() && new == old,
        CommandCode::ImportWrapped => import_wrapped_effect(old, data, response, new),
        CommandCode::ListObjects => response == list_objects_answer(old, data) && new == old,
        CommandCode::PutAsymmetricKey => put_asymmetric_key_effect(old, data, response, new),
        CommandCode::PutAuthenticationKey => put_authentication_key_effect(
            old,
            data,
            response,
            new,
        ),
        CommandCode::PutHmacKey => put_hmac_key_effect(old, data, response, new),
        CommandCode::PutOpaqueObject => put_opaque_effect(old, data, response, new),
        CommandCode::PutWrapKey => put_wrap_key_effect(old, data, response, new),
        CommandCode::SetLogIndex => response == set_log_index_answer(data) && new == old,
        CommandCode::SetOption => put_option_effect(old, data, response, new),
        CommandCode::SignEddsa => response == sign_eddsa_answer(old, data) && new == old,
        CommandCode::SignHmac => response == sign_hmac_answer(old, data) && new == old,
        CommandCode::VerifyHmac => response == verify_hmac_answer(old, data) && new == old,
        _ => response == failure(HsmErrorKind::InvalidCommand) && new == old,
    }
}

/// Carries out a command that came inside a session. The sessions stay as
/// they are.
pub fn dispatch(state: &mut State, command: &CommandMessage) -> (response: ResponseMessage)
    requires
        old(state).wf(),
    ensures
        final(state).wf(),
        final(state).sessions == old(state).sessions,
        handled(*old(state), command@.command_type, command@.data, response@, *final(state)),
{
    let data = command.data.as_slice();
    match command.command_type {
        CommandCode::BlinkDevice => blink_device(data),
        CommandCode::DeleteObject => delete_object(state, data),
        CommandCode::DeviceInfo => device_info(),
        CommandCode::Echo => echo(data),
        CommandCode::ExportWrapped => export_wrapped(state, data),
        CommandCode::GenerateAsymmetricKey => gen_asymmetric_key(state, data),
        CommandCode::GenerateHmacKey => gen_hmac_key(state, data),
        CommandCode::GenerateWrapKey => gen_wrap_key(state, data),
        CommandCode::GetLogEntries => get_log_entries(),
        CommandCode::GetObjectInfo => get_object_info(state, data),
        CommandCode::GetOpaqueObject => get_opaque(state, data),
        CommandCode::GetOption => get_option(state, data),
        CommandCode::GetPseudoRandom => get_pseudo_random(state, data),
        CommandCode::GetPublicKey => get_public_key(state, data),
        CommandCode::GetStorageInfo => get_storage_info(),
        CommandCode::ImportWrapped => import_wrapped(state, data),
        CommandCode::ListObjects => list_objects(state, data),
        CommandCode::PutAsymmetricKey => put_asymmetric_key(state, data),
        CommandCode::PutAuthenticationKey => put_authentication_key(state, data),
        CommandCode::PutHmacKey => put_hmac_key(state, data),
        CommandCode::PutOpaqueObject => put_opaque(state, data),
        CommandCode::PutWrapKey => put_wrap_key(state, data),
        CommandCode::SetLogIndex => set_log_index(data),
        CommandCode::SetOption => put_option(state, data),
        CommandCode::SignEddsa => sign_eddsa(state, data),
        CommandCode::SignHmac => sign_hmac(state, data),
        CommandCode::VerifyHmac => verify_hmac(state, data),
        _ => ResponseMessage::error(HsmErrorKind::InvalidCommand),
    }
}

/// Whether two states differ in nothing but their sessions.
pub open spec fn same_but_sessions(old: State, new: State) -> bool {
    &&& new.objects == old.objects
    &&& new.command_audit_options == old.command_audit_options
    &&& new.force_audit == old.force_audit
    &&& new.authority == old.authority
}

/// The bytes of the frame that reports a failure of the device.
pub fn failure_bytes(kind: HsmErrorKind) -> (bytes: Vec<u8>)
    ensures
        bytes@ == failure(kind).wire(),
{
    ResponseMessage::error(kind).serialize()
}

/// Whether a response can travel inside a session: it is well formed, has no
/// session number and no tag of its own, and its sealed form fits the length
/// field of a frame.
pub open spec fn answerable(response: ResponseMessage<Seq<u8>>) -> bool {
    &&& response.wf()
    &&& response.session_id is None
    &&& response.mac is None
    &&& 1 + pad(response.wire()).len() + MAC_SIZE <= 0xffff
}

/// The response that travels in place of `response`: the response itself
/// where it can, and else the failure of a wrong length.
pub open spec fn answer(response: ResponseMessage<Seq<u8>>) -> ResponseMessage<Seq<u8>> {
    if answerable(response) {
        response
    } else {
        failure(HsmErrorKind::WrongLength)
    }
}

/// Replaces a response that cannot travel inside a session.
pub fn fit_answer(response: ResponseMessage) -> (fitted: ResponseMessage)
    ensures
        fitted@ == answer(response@),
        answerable(fitted@),
{
    proof {
        lemma_pad_round_trip(response@.wire());
        lemma_pad_round_trip(failure(HsmErrorKind::WrongLength).wire());
    }
    if response.is_well_formed() && response.session_id.is_none() && response.mac.is_none() {
        assert(response@.body() =~= response@.data);
        let wire_len: usize = response.data.len() + 3;
        if (wire_len / 16 + 1) * 16 + 1 + MAC_SIZE <= 0xffff {
            return response;
        }
    }
    let fitted = ResponseMessage::error(HsmErrorKind::WrongLength);
    assert(fitted@.body() =~= fitted@.data);
    fitted
}

/// What the session whose authentication key has the given number may
/// bestow: the delegated capabilities of the key, and nothing where the key
/// is gone.
pub open spec fn authority_of(state: State, authentication_key_id: u16) -> Capability {
    match lookup(state.objects@, authentication_key_id, ObjectType::AuthenticationKey) {
        Some(key) => key.info.delegated_capabilities,
        None => Capability { bits: 0 },
    }
}

/// What a request for a new session does. The payload names the
/// authentication key and brings the host challenge; the device draws its
/// own challenge, derives the session keys and answers, under the number of
/// the new session, with its challenge and its cryptogram. Where the random
/// generator fails the session fails; where no session can be opened the
/// device says why. Failures leave the state as it is.
pub open spec fn create_session_effect(
    old: State,
    command: CommandMessage<Seq<u8>>,
    bytes: Seq<u8>,
    new: State,
) -> bool {
    &&& same_but_sessions(old, new)
    &&& match Command::from_payload(CommandCode::CreateSession, command.data) {
        Ok(Command::CreateSession { authentication_key_id, host_challenge }) => (bytes == failure(
            HsmErrorKind::SessionFailed,
        ).wire() && new.sessions@ == old.sessions@) || match old.open_result(
            authentication_key_id,
            host_challenge,
        ) {
            Err(e) => bytes == failure(e).wire() && new.sessions@ == old.sessions@,
            Ok(id) => {
                let session = new.sessions@.last();
                &&& new.sessions@.len() == old.sessions@.len() + 1
                &&& new.sessions@.drop_last() == old.sessions@
                &&& session.id == id
                &&& session.authentication_key_id == authentication_key_id
                &&& session.channel@ == Channel::established(
                    id,
                    lookup(
                        old.objects@,
                        authentication_key_id,
                        ObjectType::AuthenticationKey,
                    )->0.payload,
                    host_challenge,
                    session.card_challenge@,
                )
                &&& session.channel@.card_cryptogram().len() == CRYPTOGRAM_SIZE
                &&& bytes == (ResponseMessage::<Seq<u8>> {
                    code: ResponseCode::Success(CommandCode::CreateSession),
                    session_id: Some(id),
                    data: (Response::CreateSession {
                        card_challenge: session.card_challenge@,
                        card_cryptogram: session.channel@.card_cryptogram(),
                    }).payload(),
                    mac: None,
                }).wire()
            },
        },
        _ => bytes == failure(HsmErrorKind::InvalidCommand).wire() && new.sessions@
            == old.sessions@,
    }
}

/// Begins the handshake of a new session.
pub fn create_session(state: &mut State, cmd_message: &CommandMessage) -> (r: Result<
    Vec<u8>,
    ConnectionError,
>)
    requires
        old(state).wf(),
    ensures
        final(state).wf(),
        r matches Ok(bytes) && create_session_effect(
            *old(state),
            cmd_message@,
            bytes@,
            *final(state),
        ),
{
    let (authentication_key_id, host_challenge) = match Command::deserialize(
        CommandCode::CreateSession,
        cmd_message.data.as_slice(),
    ) {
        Ok(Command::CreateSession { authentication_key_id, host_challenge }) => (
            authentication_key_id,
            host_challenge,
        ),
        _ => {
            return Ok(failure_bytes(HsmErrorKind::InvalidCommand));
        },
    };
    match state.create_session(authentication_key_id, host_challenge.as_slice()) {
        Err(e) => Ok(failure_bytes(e)),
        Ok(id) => {
            let session = &state.sessions[state.sessions.len() - 1];
            let payload = (Response::CreateSession {
                card_challenge: copy_bytes(session.card_challenge.as_slice()),
                card_cryptogram: session.channel.card_cryptogram(),
            }).serialize();
            let response = ResponseMessage {
                code: ResponseCode::Success(CommandCode::CreateSession),
                session_id: Some(id),
                data: payload,
                mac: None,
            };
            assert(response@.body() =~= seq![id] + response@.data);
            Ok(response.serialize())
        },
    }
}

/// Whether the newest session of `sessions` is `session` with the given
/// channel, behind the sessions `base`.
pub open spec fn session_renewed(
    sessions: Seq<HsmSession>,
    base: Seq<HsmSession>,
    session: HsmSession,
    channel: Channel<Seq<u8>>,
) -> bool {
    &&& sessions.len() == base.len() + 1
    &&& sessions.drop_last() == base
    &&& sessions.last().id == session.id
    &&& sessions.last().authentication_key_id == session.authentication_key_id
    &&& sessions.last().card_challenge == session.card_challenge
    &&& sessions.last().channel@ == channel
}

/// What the completion of a handshake does. The session must be there and
/// await the completion, else it is an invalid session and nothing changes.
/// Where the command carries the host cryptogram and the right tag, the
/// session is authenticated and the device confirms; where it does not,
/// authentication fails and the session is discarded.
pub open spec fn authenticate_session_effect(
    old: State,
    command: CommandMessage<Seq<u8>>,
    bytes: Seq<u8>,
    new: State,
) -> bool {
    &&& same_but_sessions(old, new)
    &&& if command.session_id is Some && has_session(old.sessions@, command.session_id->0) {
        let i = session_index(old.sessions@, command.session_id->0);
        let session = old.sessions@[i];
        let channel = session.channel@;
        if channel.security_level != SecurityLevel::Unauthenticated {
            bytes == failure(HsmErrorKind::InvalidSession).wire() && new.sessions@ == old.sessions@
        } else if channel.accepts_host(command) {
            &&& channel.after_authentication_command().authentication_response().wf()
            &&& bytes == channel.after_authentication_command().authentication_response().wire()
            &&& session_renewed(
                new.sessions@,
                old.sessions@.remove(i),
                session,
                channel.after_authentication_command().authenticated(),
            )
        } else {
            bytes == failure(HsmErrorKind::AuthFail).wire() && new.sessions@
                == old.sessions@.remove(i)
        }
    } else {
        bytes == failure(HsmErrorKind::InvalidSession).wire() && new.sessions@ == old.sessions@
    }
}

/// Completes the handshake of a session.
pub fn authenticate_session(state: &mut State, command: &CommandMessage) -> (r: Result<
    Vec<u8>,
    ConnectionError,
>)
    requires
        old(state).wf(),
    ensures
        final(state).wf(),
        r matches Ok(bytes) && authenticate_session_effect(
            *old(state),
            command@,
            bytes@,
            *final(state),
        ),
{
    let found = match command.session_id {
        Some(id) => state.find_session(id),
        None => None,
    };
    let i = match found {
        Some(i) => i,
        None => {
            return Ok(failure_bytes(HsmErrorKind::InvalidSession));
        },
    };
    if state.sessions[i].channel.security_level != SecurityLevel::Unauthenticated {
        return Ok(failure_bytes(HsmErrorKind::InvalidSession));
    }
    let mut session = state.take_session(i);
    let ghost base = state.sessions@;
    match session.channel.verify_authenticate_session(command) {
        Ok(response) => {
            state.put_session(session);
            assert(state.sessions@.drop_last() =~= base);
            Ok(response.serialize())
        },
        Err(_) => Ok(failure_bytes(HsmErrorKind::AuthFail)),
    }
}

/// The bytes that answer a command inside a session: the sealed response,
/// or, where the channel can no longer seal, the failure of an invalid
/// session.
pub open spec fn sealed_or_lost(
    channel: Channel<Seq<u8>>,
    response: ResponseMessage<Seq<u8>>,
) -> Seq<
    u8,
> {
    if channel.can_answer(response) {
        channel.sealed_response(response).wire()
    } else {
        failure(HsmErrorKind::InvalidSession).wire()
    }
}

/// Seals a response under a session's channel and gives the bytes of the
/// frame.
fn seal(session: &mut HsmSession, response: ResponseMessage) -> (bytes: Vec<u8>)
    requires
        old(session).wf(),
        answerable(response@),
    ensures
        final(session).wf(),
        final(session).id == old(session).id,
        final(session).authentication_key_id == old(session).authentication_key_id,
        final(session).card_challenge == old(session).card_challenge,
        bytes@ == sealed_or_lost(old(session).channel@, response@),
        if old(session).channel@.can_answer(response@) {
            final(session).channel@ == old(session).channel@.after_answer(response@)
        } else {
            final(session).channel@ == old(session).channel@
        },
{
    match session.channel.encrypt_response(response) {
        Ok(sealed) => sealed.serialize(),
        Err(_) => failure_bytes(HsmErrorKind::InvalidSession),
    }
}

/// What closing a session does: the session is gone, and the device
/// confirms under the session's keys. Where there is no such session, the
/// session is invalid and nothing changes.
pub open spec fn close_session_effect(old: State, session_id: u8, bytes: Seq<u8>, new: State) -> bool {
    &&& same_but_sessions(old, new)
    &&& if has_session(old.sessions@, session_id) {
        let i = session_index(old.sessions@, session_id);
        &&& new.sessions@ == old.sessions@.remove(i)
        &&& bytes == sealed_or_lost(old.sessions@[i].channel@, reply(Response::CloseSession))
    } else {
        bytes == failure(HsmErrorKind::InvalidSession).wire() && new.sessions@ == old.sessions@
    }
}

/// Closes a session.
pub fn close_session(state: &mut State, session_id: u8) -> (r: Result<Vec<u8>, ConnectionError>)
    requires
        old(state).wf(),
    ensures
        final(state).wf(),
        r matches Ok(bytes) && close_session_effect(*old(state), session_id, bytes@, *final(state)),
{
    let i = match state.find_session(session_id) {
        Some(i) => i,
        None => {
            return Ok(failure_bytes(HsmErrorKind::InvalidSession));
        },
    };
    let mut session = state.take_session(i);
    let response = fit_answer(respond(Response::CloseSession));
    proof {
        lemma_pad_round_trip(reply(Response::CloseSession).wire());
        assert(reply(Response::CloseSession).body() =~= Seq::<u8>::empty());
    }
    let bytes = seal(&mut session, response);
    session.channel.terminate();
    Ok(bytes)
}

/// What resetting the device does: the device confirms with the byte 1 under
/// the session's keys and is then as it left the factory. Where there is no
/// such session, the session is invalid and nothing changes.
pub open spec fn reset_device_effect(old: State, session_id: u8, bytes: Seq<u8>, new: State) -> bool {
    if has_session(old.sessions@, session_id) {
        let i = session_index(old.sessions@, session_id);
        &&& new.is_fresh()
        &&& bytes == sealed_or_lost(
            old.sessions@[i].channel@,
            reply(Response::ResetDevice { status: 1 }),
        )
    } else {
        bytes == failure(HsmErrorKind::InvalidSession).wire() && new == old
    }
}

/// Resets the device to the state in which it left the factory.
pub fn reset_device(state: &mut State, session_id: u8) -> (bytes: Vec<u8>)
    requires
        old(state).wf(),
    ensures
        final(state).wf(),
        reset_device_effect(*old(state), session_id, bytes@, *final(state)),
{
    let i = match state.find_session(session_id) {
        Some(i) => i,
        None => {
            return failure_bytes(HsmErrorKind::InvalidSession);
        },
    };
    let mut session = state.take_session(i);
    let response = fit_answer(respond(Response::ResetDevice { status: 1 }));
    proof {
        let plain = reply(Response::ResetDevice { status: 1 });
        lemma_pad_round_trip(plain.wire());
        assert(plain.body() =~= plain.data);
    }
    let bytes = seal(&mut session, response);
    session.channel.terminate();
    state.reset();
    bytes
}

/// How a command inside a session ends once it is carried out: the response,
/// or what travels in its place, is sealed under the session's channel, and
/// the session goes on as the newest of the sessions. Where the channel can
/// no longer seal, the session is invalid and gone.
pub open spec fn concluded(
    mid: State,
    session: HsmSession,
    channel: Channel<Seq<u8>>,
    response: ResponseMessage<Seq<u8>>,
    bytes: Seq<u8>,
    new: State,
) -> bool {
    &&& same_but_sessions(mid, new)
    &&& bytes == sealed_or_lost(channel, answer(response))
    &&& if channel.can_answer(answer(response)) {
        session_renewed(
            new.sessions@,
            mid.sessions@,
            session,
            channel.after_answer(answer(response)),
        )
    } else {
        new.sessions@ == mid.sessions@
    }
}

/// Whether `pre` is the state in which a command of the session at index `i`
/// is carried out: the other sessions, and the authority of the session's
/// authentication key.
pub open spec fn prepared(old: State, i: int, pre: State) -> bool {
    &&& pre.sessions@ == old.sessions@.remove(i)
    &&& pre.objects == old.objects
    &&& pre.command_audit_options == old.command_audit_options
    &&& pre.force_audit == old.force_audit
    &&& pre.authority == authority_of(old, old.sessions@[i].authentication_key_id)
}

/// What a session message does. The session must be there, authenticated and
/// owe no answer, else it is an invalid session and nothing changes. The
/// message must carry the right tag and decrypt to a command, else the
/// session is invalid and discarded. The command is then carried out with
/// the authority of the session's authentication key, and the answer is
/// sealed under the session's keys. A request to close ends the session; a
/// request to reset puts the device back as it left the factory.
pub open spec fn session_message_effect(
    old: State,
    command: CommandMessage<Seq<u8>>,
    bytes: Seq<u8>,
    new: State,
) -> bool {
    if command.session_id is Some && has_session(old.sessions@, command.session_id->0) {
        let i = session_index(old.sessions@, command.session_id->0);
        let session = old.sessions@[i];
        let channel = session.channel@;
        if !channel.awaits_command() {
            bytes == failure(HsmErrorKind::InvalidSession).wire() && new == old
        } else if !channel.command_authentic(command) || channel.opened_command(command) is None {
            &&& bytes == failure(HsmErrorKind::InvalidSession).wire()
            &&& new.sessions@ == old.sessions@.remove(i)
            &&& same_but_sessions(old, new)
        } else {
            let inner = channel.opened_command(command)->0;
            let opened = channel.after_opened_command(command, inner);
            match inner.command_type {
                CommandCode::CloseSession => {
                    &&& bytes == sealed_or_lost(opened, reply(Response::CloseSession))
                    &&& prepared(old, i, new)
                },
                CommandCode::ResetDevice => {
                    &&& bytes == sealed_or_lost(opened, reply(Response::ResetDevice { status: 1 }))
                    &&& new.is_fresh()
                },
                _ => exists|pre: State, response: ResponseMessage<Seq<u8>>, mid: State|
                    prepared(old, i, pre) && #[trigger] handled(
                        pre,
                        inner.command_type,
                        inner.data,
                        response,
                        mid,
                    ) && concluded(mid, session, opened, response, bytes, new),
            }
        }
    } else {
        bytes == failure(HsmErrorKind::InvalidSession).wire() && new == old
    }
}

/// Carries out a command that came sealed inside a session.
pub fn session_message(state: &mut State, encrypted_command: CommandMessage) -> (r: Result<
    Vec<u8>,
    ConnectionError,
>)
    requires
        old(state).wf(),
        encrypted_command@.wf(),
    ensures
        final(state).wf(),
        r matches Ok(bytes) && session_message_effect(
            *old(state),
            encrypted_command@,
            bytes@,
            *final(state),
        ),
{
    let found = match encrypted_command.session_id {
        Some(id) => state.find_session(id),
        None => None,
    };
    let i = match found {
        Some(i) => i,
        None => {
            return Ok(failure_bytes(HsmErrorKind::InvalidSession));
        },
    };
    if state.sessions[i].channel.security_level != SecurityLevel::Authenticated
        || state.sessions[i].channel.pending.is_some() {
        return Ok(failure_bytes(HsmErrorKind::InvalidSession));
    }
    let ghost original = state.sessions@[i as int];
    let ghost sealed_command = encrypted_command@;
    let mut session = state.take_session(i);
    let ghost base = state.sessions@;
    let command = match session.channel.decrypt_command(encrypted_command) {
        Ok(command) => command,
        Err(_) => {
            return Ok(failure_bytes(HsmErrorKind::InvalidSession));
        },
    };
    let ghost opened = session.channel@;
    let authority = match state.objects.get(
        session.authentication_key_id,
        ObjectType::AuthenticationKey,
    ) {
        Some(key) => key.info.delegated_capabilities,
        None => Capability::none(),
    };
    state.authority = authority;
    let id = session.id;
    match command.command_type {
        CommandCode::CloseSession => {
            state.put_session(session);
            proof {
                let all = state.sessions@;
                let last = all.len() - 1;
                assert(crate::mockhsm::state::session_at(all, last, id));
                assert(crate::mockhsm::state::session_at(all, session_index(all, id), id));
                assert(all.remove(last) =~= base);
            }
            return close_session(state, id);
        },
        CommandCode::ResetDevice => {
            state.put_session(session);
            proof {
                let all = state.sessions@;
                let last = all.len() - 1;
                assert(crate::mockhsm::state::session_at(all, last, id));
                assert(crate::mockhsm::state::session_at(all, session_index(all, id), id));
            }
            return Ok(reset_device(state, id));
        },
        _ => {},
    }
    let ghost pre = *state;
    let response = dispatch(state, &command);
    let ghost mid = *state;
    let ghost plain = response@;
    let fitted = fit_answer(response);
    let bytes = seal(&mut session, fitted);
    if session.channel.pending.is_none() {
        state.put_session(session);
        assert(state.sessions@.drop_last() =~= mid.sessions@);
    }
    proof {
        assert(prepared(*old(state), i as int, pre));
        assert(handled(pre, command@.command_type, command@.data, plain, mid));
        assert(concluded(mid, original, opened, plain, bytes@, *state));
    }
    Ok(bytes)
}

} // verus!
