//! The two module interfaces and the bridge between them.
//!
//! A strongly typed module implements [`Module`], with its own message,
//! response and error types per operation. The dispatcher, however, routes
//! untyped payloads, so it works against [`GenericModule`], whose three
//! operations take an untyped JSON value and answer with an untyped result
//! or an error string. The blanket implementation below bridges the two: it
//! decodes the payload into the module's declared message type, invokes the
//! typed handler, and encodes the result — so every module keeps full type
//! safety inside while the rest of the system sees one uniform interface.

use vstd::prelude::*;

verus! {

use cosmwasm_std::Binary;
use cosmwasm_std::StdError;
use crate::host::host_generic_err;
use crate::response::ModuleResponse;

/// A dynamically typed module: the interface the dispatcher routes through.
///
/// Messages arrive as untyped JSON values and results leave as untyped
/// values; errors leave as strings. Implement [`Module`] instead to get this
/// interface through the bridge below, or implement this trait directly for
/// a module that wants to handle raw values itself (such a module may mutate
/// its own state during `instantiate_value` and `execute_value`).
pub trait GenericModule {
    /// Handles an instantiate payload addressed to this module.
    fn instantiate_value(&mut self, msg: &serde_json::Value) -> Result<ModuleResponse, String>;

    /// Handles a transaction payload addressed to this module.
    fn execute_value(&mut self, msg: &serde_json::Value) -> Result<ModuleResponse, String>;

    /// Handles a query payload addressed to this module.
    fn query_value(&self, msg: &serde_json::Value) -> Result<Binary, StdError>;
}

/// A well typed module.
///
/// A module declares the message type of each of its three handlers, the
/// response types of instantiation and queries, and its own error type; the
/// handlers may be no-ops. The codec methods say how those types cross the
/// untyped boundary; each is typically a single call into the JSON codec
/// (`serde_json::from_value`, `serde_json::to_value`) or the host's encoder,
/// with the error rendered as text.
pub trait Module {
    /// The message that instantiates the module's state.
    type InstantiateMsg;

    /// The response returned after instantiating the module's state; its
    /// encoding becomes the module's data value.
    type InstantiateResp;

    /// The transaction messages this module handles; often a sum type.
    type ExecuteMsg;

    /// The query messages this module handles; often a sum type.
    type QueryMsg;

    /// The response to queries dispatched to the module.
    type QueryResp;

    /// The error type of the module's handlers.
    type Error;

    /// Decodes an instantiate payload; a failed decode reports the
    /// decoder's message.
    fn decode_instantiate_msg(msg: &serde_json::Value) -> Result<Self::InstantiateMsg, String>;

    /// Decodes a transaction payload; a failed decode reports the decoder's
    /// message.
    fn decode_execute_msg(msg: &serde_json::Value) -> Result<Self::ExecuteMsg, String>;

    /// Decodes a query payload; a failed decode reports the decoder's
    /// message.
    fn decode_query_msg(msg: &serde_json::Value) -> Result<Self::QueryMsg, String>;

    /// Encodes an instantiate response as an untyped value; a failed encode
    /// reports the encoder's message.
    fn encode_instantiate_resp(resp: &Self::InstantiateResp) -> Result<serde_json::Value, String>;

    /// Encodes a query response into the host's wire bytes.
    fn encode_query_resp(resp: &Self::QueryResp) -> Result<Binary, StdError>;

    /// Renders a handler error as text.
    fn error_text(e: &Self::Error) -> String;

    /// The instantiate handler of the module.
    fn instantiate(&self, msg: Self::InstantiateMsg) -> Result<Self::InstantiateResp, Self::Error>;

    /// The transaction handler of the module.
    fn execute(&self, msg: Self::ExecuteMsg) -> Result<ModuleResponse, Self::Error>;

    /// The query handler of the module.
    fn query(&self, msg: Self::QueryMsg) -> Result<Self::QueryResp, Self::Error>;
}

/// The bridge: every well typed module is a dynamically typed one.
///
/// Each operation decodes the untyped payload into the module's declared
/// message type (a failed decode aborts with the decoder's message and the
/// module untouched), invokes the typed handler (a typed failure is rendered
/// as text), and encodes the typed result. The typed handlers take the
/// module by shared reference, so a bridged module's state is never mutated
/// by dispatch; the `ensures` clauses record that.
impl<T: Module> GenericModule for T {
    fn instantiate_value(&mut self, msg: &serde_json::Value) -> (r: Result<ModuleResponse, String>)
        ensures
            *final(self) == *old(self),
            r matches Ok(resp) ==> resp.messages@.len() == 0 && resp.attributes@.len() == 0
                && resp.events@.len() == 0,
    {
        let parsed = match T::decode_instantiate_msg(msg) {
            Ok(p) => p,
            Err(e) => {
                return Err(e);
            },
        };
        let resp = match self.instantiate(parsed) {
            Ok(x) => x,
            Err(e) => {
                return Err(T::error_text(&e));
            },
        };
        let value = match T::encode_instantiate_resp(&resp) {
            Ok(v) => v,
            Err(e) => {
                return Err(e);
            },
        };
        Ok(ModuleResponse::new().set_data(value))
    }

    fn execute_value(&mut self, msg: &serde_json::Value) -> (r: Result<ModuleResponse, String>)
        ensures
            *final(self) == *old(self),
    {
        let parsed = match T::decode_execute_msg(msg) {
            Ok(p) => p,
            Err(e) => {
                return Err(e);
            },
        };
        match self.execute(parsed) {
            Ok(x) => Ok(x),
            Err(e) => Err(T::error_text(&e)),
        }
    }

    fn query_value(&self, msg: &serde_json::Value) -> (r: Result<Binary, StdError>) {
        let parsed = match T::decode_query_msg(msg) {
            Ok(p) => p,
            Err(e) => {
                return Err(host_generic_err(e));
            },
        };
        let resp = match self.query(parsed) {
            Ok(x) => x,
            Err(e) => {
                return Err(host_generic_err(T::error_text(&e)));
            },
        };
        T::encode_query_resp(&resp)
    }
}

} // verus!
