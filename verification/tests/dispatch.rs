use std::cell::Cell;

use cosmwasm_std::testing::{mock_env, mock_info};
use cosmwasm_std::{Binary, StdError};
use glue::error::Error;
use glue::manager::Manager;
use glue::module::Module;
use glue::response::ModuleResponse;

/// A typed module used through the bridge. Its instantiate handler echoes
/// the payload back as its data, its execute handler expects a number, and
/// its query handler echoes the payload. Call counters let tests observe
/// whether a handler ran.
struct TypedModule {
    tag: u64,
    instantiates: Cell<u64>,
    executes: Cell<u64>,
}

impl TypedModule {
    fn new(tag: u64) -> Self {
        TypedModule { tag, instantiates: Cell::new(0), executes: Cell::new(0) }
    }
}

impl Module for TypedModule {
    type InstantiateMsg = serde_json::Value;
    type InstantiateResp = serde_json::Value;
    type ExecuteMsg = u64;
    type QueryMsg = serde_json::Value;
    type QueryResp = serde_json::Value;
    type Error = String;

    fn decode_instantiate_msg(msg: &serde_json::Value) -> Result<serde_json::Value, String> {
        Ok(msg.clone())
    }

    fn decode_execute_msg(msg: &serde_json::Value) -> Result<u64, String> {
        serde_json::from_value(msg.clone()).map_err(|e| e.to_string())
    }

    fn decode_query_msg(msg: &serde_json::Value) -> Result<serde_json::Value, String> {
        Ok(msg.clone())
    }

    fn encode_instantiate_resp(resp: &serde_json::Value) -> Result<serde_json::Value, String> {
        Ok(resp.clone())
    }

    fn encode_query_resp(resp: &serde_json::Value) -> Result<Binary, StdError> {
        cosmwasm_std::to_json_binary(resp)
    }

    fn error_text(e: &String) -> String {
        e.clone()
    }

    fn instantiate(&self, msg: serde_json::Value) -> Result<serde_json::Value, String> {
        self.instantiates.set(self.instantiates.get() + 1);
        if msg == serde_json::Value::String("boom".to_string()) {
            return Err("went wrong".to_string());
        }
        Ok(msg)
    }

    fn execute(&self, msg: u64) -> Result<ModuleResponse, String> {
        self.executes.set(self.executes.get() + 1);
        if msg == 13 {
            return Err("unlucky".to_string());
        }
        Ok(ModuleResponse::new().add_attribute("seen".to_string(), msg.to_string()))
    }

    fn query(&self, msg: serde_json::Value) -> Result<serde_json::Value, String> {
        Ok(msg)
    }
}

fn manager_with(names: &[&str]) -> Manager<TypedModule> {
    let mut manager = Manager::new();
    for (k, name) in names.iter().enumerate() {
        manager.register(name.to_string(), TypedModule::new(k as u64 + 1)).unwrap();
    }
    manager
}

#[test]
fn register_distinct_names_succeed() {
    let mut manager = Manager::new();
    assert!(manager.register("a".to_string(), TypedModule::new(1)).is_ok());
    assert!(manager.register("b".to_string(), TypedModule::new(2)).is_ok());
    assert_eq!(manager.resolve(&"a".to_string()).unwrap().tag, 1);
    assert_eq!(manager.resolve(&"b".to_string()).unwrap().tag, 2);
}

#[test]
fn register_same_name_twice_rejected() {
    let mut manager = Manager::new();
    assert!(manager.register("a".to_string(), TypedModule::new(1)).is_ok());
    let err = manager.register("a".to_string(), TypedModule::new(2)).unwrap_err();
    match err {
        Error::ModuleAlreadyRegistered { module } => assert_eq!(module, "a"),
        other => panic!("unexpected error: {:?}", other),
    }
    // the first module remains reachable
    assert_eq!(manager.resolve(&"a".to_string()).unwrap().tag, 1);
}

#[test]
fn resolve_unknown_name_is_none() {
    let manager = manager_with(&["a"]);
    assert!(manager.resolve(&"b".to_string()).is_none());
}

#[test]
fn execute_routes_to_module() {
    let mut manager = manager_with(&["m"]);
    let resp = manager
        .execute(&mut (), mock_env(), mock_info("caller", &[]), "{\"m\": 7}")
        .unwrap();
    assert_eq!(resp.attributes.len(), 1);
    assert_eq!(resp.attributes[0].key, "seen");
    assert_eq!(resp.attributes[0].value, "7");
    assert_eq!(resp.data, None);
    assert_eq!(manager.resolve(&"m".to_string()).unwrap().executes.get(), 1);
}

#[test]
fn execute_invalid_json_reports_decoder_message() {
    let mut manager = manager_with(&["m"]);
    let err = manager
        .execute(&mut (), mock_env(), mock_info("caller", &[]), "not json")
        .unwrap_err();
    let expected = serde_json::from_str::<serde_json::Value>("not json").unwrap_err().to_string();
    assert_eq!(err, expected);
}

#[test]
fn execute_non_object_is_parse_error() {
    let mut manager = manager_with(&["m"]);
    let err = manager
        .execute(&mut (), mock_env(), mock_info("caller", &[]), "[1, 2]")
        .unwrap_err();
    assert_eq!(err, "ParseError { msg: None }");
}

#[test]
fn execute_zero_keys_is_too_many_payloads() {
    let mut manager = manager_with(&["m"]);
    let err = manager.execute(&mut (), mock_env(), mock_info("caller", &[]), "{}").unwrap_err();
    assert_eq!(err, "ParseError { msg: Some(\"too many module payloads\") }");
}

#[test]
fn execute_two_keys_is_too_many_payloads() {
    let mut manager = manager_with(&["a", "b"]);
    let err = manager
        .execute(&mut (), mock_env(), mock_info("caller", &[]), "{\"a\": 1, \"b\": 2}")
        .unwrap_err();
    assert_eq!(err, "ParseError { msg: Some(\"too many module payloads\") }");
}

#[test]
fn execute_unknown_module_not_found() {
    let mut manager = manager_with(&["m"]);
    let err = manager
        .execute(&mut (), mock_env(), mock_info("caller", &[]), "{\"nope\": 1}")
        .unwrap_err();
    assert_eq!(err, "NotFoundError { module: \"nope\" }");
    // the registry is unchanged: the registered module still answers
    let resp = manager
        .execute(&mut (), mock_env(), mock_info("caller", &[]), "{\"m\": 2}")
        .unwrap();
    assert_eq!(resp.attributes[0].value, "2");
}

#[test]
fn execute_undecodable_payload_leaves_module_untouched() {
    let mut manager = manager_with(&["m"]);
    let err = manager
        .execute(&mut (), mock_env(), mock_info("caller", &[]), "{\"m\": \"text\"}")
        .unwrap_err();
    let expected =
        serde_json::from_value::<u64>(serde_json::Value::String("text".to_string()))
            .unwrap_err()
            .to_string();
    assert_eq!(err, expected);
    // the typed handler never ran
    assert_eq!(manager.resolve(&"m".to_string()).unwrap().executes.get(), 0);
}

#[test]
fn execute_module_error_passes_verbatim() {
    let mut manager = manager_with(&["m"]);
    let err = manager
        .execute(&mut (), mock_env(), mock_info("caller", &[]), "{\"m\": 13}")
        .unwrap_err();
    assert_eq!(err, "unlucky");
}

#[test]
fn query_routes_to_module() {
    let mut manager = manager_with(&["m"]);
    let payload = "{\"m\": {\"what\": \"balance\"}}";
    let bin = manager.query(&(), mock_env(), payload).unwrap();
    let expected =
        cosmwasm_std::to_json_binary(&serde_json::from_str::<serde_json::Value>(
            "{\"what\": \"balance\"}",
        )
        .unwrap())
        .unwrap();
    assert_eq!(bin, expected);
}

#[test]
fn query_invalid_json_is_generic_error() {
    let mut manager = manager_with(&["m"]);
    let err = manager.query(&(), mock_env(), "not json").unwrap_err();
    let inner = serde_json::from_str::<serde_json::Value>("not json").unwrap_err().to_string();
    assert_eq!(err.to_string(), format!("Generic error: {}", inner));
}

#[test]
fn query_non_object_is_generic_parse_error() {
    let mut manager = manager_with(&["m"]);
    let err = manager.query(&(), mock_env(), "3").unwrap_err();
    assert_eq!(err.to_string(), "Generic error: error parsing request: None");
}

#[test]
fn query_key_count_is_generic_too_many_payloads() {
    let mut manager = manager_with(&["a", "b"]);
    let err = manager.query(&(), mock_env(), "{}").unwrap_err();
    assert_eq!(
        err.to_string(),
        "Generic error: error parsing request: Some(\"too many module payloads\")"
    );
    let err = manager.query(&(), mock_env(), "{\"a\": 1, \"b\": 2}").unwrap_err();
    assert_eq!(
        err.to_string(),
        "Generic error: error parsing request: Some(\"too many module payloads\")"
    );
}

#[test]
fn query_unknown_module_not_found() {
    let mut manager = manager_with(&["m"]);
    let err = manager.query(&(), mock_env(), "{\"nope\": 1}").unwrap_err();
    assert_eq!(err.to_string(), "Generic error: module \"nope\" not found");
}

#[test]
fn instantiate_two_modules_keys_data_by_name() {
    let mut manager = manager_with(&["a", "b"]);
    let resp = manager
        .instantiate((), mock_env(), mock_info("caller", &[]), "{\"a\": 1, \"b\": {\"k\": \"v\"}}")
        .unwrap();
    let data = resp.data.expect("data payload expected");
    let decoded: serde_json::Value = serde_json::from_slice(data.as_slice()).unwrap();
    let expected =
        serde_json::from_str::<serde_json::Value>("{\"a\": 1, \"b\": {\"k\": \"v\"}}").unwrap();
    assert_eq!(decoded, expected);
    assert!(resp.events.is_empty());
    assert!(resp.attributes.is_empty());
    assert!(resp.messages.is_empty());
}

#[test]
fn instantiate_null_data_modules_leave_no_entry() {
    let mut manager = manager_with(&["a", "b"]);
    let resp = manager
        .instantiate((), mock_env(), mock_info("caller", &[]), "{\"a\": null, \"b\": 1}")
        .unwrap();
    let data = resp.data.expect("data payload expected");
    let decoded: serde_json::Value = serde_json::from_slice(data.as_slice()).unwrap();
    assert_eq!(decoded, serde_json::from_str::<serde_json::Value>("{\"b\": 1}").unwrap());
}

#[test]
fn instantiate_all_null_data_has_no_data_field() {
    let mut manager = manager_with(&["a"]);
    let resp = manager
        .instantiate((), mock_env(), mock_info("caller", &[]), "{\"a\": null}")
        .unwrap();
    assert_eq!(resp.data, None);
}

#[test]
fn instantiate_empty_object_is_empty_response() {
    let mut manager = manager_with(&["a"]);
    let resp = manager.instantiate((), mock_env(), mock_info("caller", &[]), "{}").unwrap();
    assert_eq!(resp.data, None);
    assert!(resp.events.is_empty());
    assert!(resp.attributes.is_empty());
    assert!(resp.messages.is_empty());
}

#[test]
fn instantiate_unknown_module_aborts_after_earlier_ones_ran() {
    let mut manager = manager_with(&["a"]);
    let err = manager
        .instantiate((), mock_env(), mock_info("caller", &[]), "{\"a\": 1, \"z\": 2}")
        .unwrap_err();
    assert_eq!(err, "NotFoundError { module: \"z\" }");
    // the chosen policy: module `a` ran before the unknown name was met (the
    // decoder yields entries with `a` first); its folded effects are
    // abandoned, and its own state change stays
    assert_eq!(manager.resolve(&"a".to_string()).unwrap().instantiates.get(), 1);
}

#[test]
fn instantiate_unknown_module_first_runs_nothing() {
    let mut manager = manager_with(&["m"]);
    let err = manager
        .instantiate((), mock_env(), mock_info("caller", &[]), "{\"a\": 1, \"m\": 2}")
        .unwrap_err();
    assert_eq!(err, "NotFoundError { module: \"a\" }");
    assert_eq!(manager.resolve(&"m".to_string()).unwrap().instantiates.get(), 0);
}

#[test]
fn instantiate_module_error_passes_verbatim() {
    let mut manager = manager_with(&["a"]);
    let err = manager
        .instantiate((), mock_env(), mock_info("caller", &[]), "{\"a\": \"boom\"}")
        .unwrap_err();
    assert_eq!(err, "went wrong");
}

#[test]
fn instantiate_non_object_is_parse_error() {
    let mut manager = manager_with(&["a"]);
    let err = manager
        .instantiate((), mock_env(), mock_info("caller", &[]), "17")
        .unwrap_err();
    assert_eq!(err, "ParseError { msg: None }");
}
