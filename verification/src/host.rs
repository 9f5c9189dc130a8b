//! The trusted surface over the host environment's types.
//!
//! The host hands every entry point an opaque context (block environment,
//! message info) and expects the outbound response in its own
//! representation. The core never looks inside these values; the
//! declarations and wrappers here let verified code carry them through and
//! assemble the final outbound response. Each wrapper's result depends on
//! its arguments alone, so an uninterpreted name stands for it and the
//! wrapper's contract pins the result to that name; callers' contracts then
//! say exactly which host value they produce.

use vstd::prelude::*;

verus! {

use cosmwasm_std::Binary;
use cosmwasm_std::StdError;
use cosmwasm_std::SubMsg;
use cosmwasm_std::CosmosMsg;

#[verifier::external_type_specification]
#[verifier::external_body]
pub struct ExBinary(cosmwasm_std::Binary);

#[verifier::external_type_specification]
#[verifier::external_body]
pub struct ExStdError(cosmwasm_std::StdError);

#[verifier::external_type_specification]
#[verifier::external_body]
pub struct ExHostAttribute(cosmwasm_std::Attribute);

#[verifier::external_type_specification]
#[verifier::external_body]
pub struct ExHostEvent(cosmwasm_std::Event);

#[verifier::external_type_specification]
#[verifier::external_body]
#[verifier::reject_recursive_types(T)]
pub struct ExSubMsg<T>(cosmwasm_std::SubMsg<T>);

#[verifier::external_type_specification]
#[verifier::external_body]
#[verifier::reject_recursive_types(T)]
pub struct ExCosmosMsg<T>(cosmwasm_std::CosmosMsg<T>);

#[verifier::external_type_specification]
#[verifier::external_body]
#[verifier::reject_recursive_types(T)]
pub struct ExHostResponse<T>(cosmwasm_std::Response<T>);

#[verifier::external_type_specification]
#[verifier::external_body]
pub struct ExEmpty(cosmwasm_std::Empty);

#[verifier::external_type_specification]
#[verifier::external_body]
pub struct ExEnv(cosmwasm_std::Env);

#[verifier::external_type_specification]
#[verifier::external_body]
pub struct ExMessageInfo(cosmwasm_std::MessageInfo);

pub uninterp spec fn sub_msg_of(msg: CosmosMsg<Binary>) -> SubMsg<Binary>;

/// Relies on `SubMsg::new`: wraps a bare message for fire-and-forget
/// delivery (no reply requested). The result depends on the message alone;
/// `sub_msg_of` names it.
#[verifier::external_body]
pub(crate) fn sub_msg_new(msg: CosmosMsg<Binary>) -> (r: SubMsg<Binary>)
    ensures
        r == sub_msg_of(msg),
{
    cosmwasm_std::SubMsg::new(msg)
}

/// Relies on `SubMsg`'s `Clone` implementation: a field-wise copy that
/// equals the original value.
#[verifier::external_body]
pub(crate) fn sub_msg_clone(msg: &SubMsg<Binary>) -> (r: SubMsg<Binary>)
    ensures
        r == *msg,
{
    msg.clone()
}

pub uninterp spec fn host_attribute_of(key: Seq<char>, value: Seq<char>) -> cosmwasm_std::Attribute;

/// Relies on the `Attribute` type's public fields: the attribute holding
/// exactly the given key and value, built without any call that could
/// reject or alter them. `host_attribute_of` names the result, which
/// depends on the two texts alone.
#[verifier::external_body]
pub(crate) fn host_attribute(key: String, value: String) -> (r: cosmwasm_std::Attribute)
    ensures
        r == host_attribute_of(key@, value@),
{
    cosmwasm_std::Attribute { key, value }
}

pub uninterp spec fn host_event_of(
    ty: Seq<char>,
    attributes: Seq<cosmwasm_std::Attribute>,
) -> cosmwasm_std::Event;

/// Relies on `Event::new` and the type's public `attributes` field: an
/// event of the given kind carrying exactly the given attribute list.
/// `host_event_of` names the result, which depends on the arguments alone.
#[verifier::external_body]
pub(crate) fn host_event(ty: String, attributes: Vec<cosmwasm_std::Attribute>) -> (r:
    cosmwasm_std::Event)
    ensures
        r == host_event_of(ty@, attributes@),
{
    let mut event = cosmwasm_std::Event::new(ty);
    event.attributes = attributes;
    event
}

pub uninterp spec fn host_response_of(
    messages: Seq<SubMsg<Binary>>,
    attributes: Seq<cosmwasm_std::Attribute>,
    events: Seq<cosmwasm_std::Event>,
    data: Option<Binary>,
) -> cosmwasm_std::Response<Binary>;

/// Relies on `Response::new` and the type's public fields: an outbound
/// response holding exactly the given messages, attributes, events and data
/// payload. `host_response_of` names the result, which depends on the four
/// parts alone.
#[verifier::external_body]
pub(crate) fn host_response(
    messages: Vec<SubMsg<Binary>>,
    attributes: Vec<cosmwasm_std::Attribute>,
    events: Vec<cosmwasm_std::Event>,
    data: Option<Binary>,
) -> (r: cosmwasm_std::Response<Binary>)
    ensures
        r == host_response_of(messages@, attributes@, events@, data),
{
    let mut resp = cosmwasm_std::Response::new();
    resp.messages = messages;
    resp.attributes = attributes;
    resp.events = events;
    resp.data = data;
    resp
}

pub uninterp spec fn generic_err_of(msg: Seq<char>) -> StdError;

/// Relies on `StdError::generic_err`: the generic host error carrying the
/// given message. `generic_err_of` names the result, which depends on the
/// message alone.
#[verifier::external_body]
pub(crate) fn host_generic_err(msg: String) -> (r: StdError)
    ensures
        r == generic_err_of(msg@),
{
    cosmwasm_std::StdError::generic_err(msg)
}

pub uninterp spec fn json_bytes_of(value: serde_json::Value) -> Binary;

/// Relies on `serde_json::to_vec`: the JSON encoding of an untyped value as
/// wire bytes. Encoding an untyped value does not fail; an empty byte
/// string would stand in if it did. `json_bytes_of` names the result, which
/// depends on the value alone.
#[verifier::external_body]
pub(crate) fn value_bytes(value: &serde_json::Value) -> (r: Binary)
    ensures
        r == json_bytes_of(*value),
{
    Binary::from(serde_json::to_vec(value).unwrap_or_default())
}

pub uninterp spec fn object_bytes_of(entries: Seq<(String, serde_json::Value)>) -> Binary;

/// Relies on `serde_json::to_vec` on an object built from the given
/// entries: the JSON encoding of that object as wire bytes, with one key
/// per entry. `object_bytes_of` names the result, which depends on the
/// entries alone.
#[verifier::external_body]
pub(crate) fn object_bytes(entries: &Vec<(String, serde_json::Value)>) -> (r: Binary)
    ensures
        r == object_bytes_of(entries@),
{
    let mut object = serde_json::Map::new();
    for (key, value) in entries.iter() {
        object.insert(key.clone(), value.clone());
    }
    Binary::from(serde_json::to_vec(&serde_json::Value::Object(object)).unwrap_or_default())
}

} // verus!
