use cosmwasm_std::testing::{mock_env, mock_info};
use cosmwasm_std::{Binary, CosmosMsg, StdError, SubMsg};
use glue::manager::Manager;
use glue::module::GenericModule;
use glue::response::{Aggregator, EventAttribute, ModuleEvent, ModuleResponse};

fn custom_msg(text: &str) -> CosmosMsg<Binary> {
    CosmosMsg::Custom(Binary::from(text.as_bytes().to_vec()))
}

#[test]
fn builder_collects_parts_in_order() {
    let resp = ModuleResponse::new()
        .add_attribute("k1".to_string(), "v1".to_string())
        .add_attributes(vec![
            EventAttribute { key: "k2".to_string(), value: "v2".to_string() },
        ])
        .add_event(ModuleEvent { ty: "e1".to_string(), attributes: vec![] })
        .add_events(vec![ModuleEvent {
            ty: "e2".to_string(),
            attributes: vec![EventAttribute { key: "ek".to_string(), value: "ev".to_string() }],
        }])
        .add_message(custom_msg("m1"))
        .add_messages(vec![custom_msg("m2")])
        .add_submessage(SubMsg::new(custom_msg("m3")));
    assert_eq!(resp.attributes.len(), 2);
    assert_eq!(resp.attributes[0].key, "k1");
    assert_eq!(resp.attributes[1].value, "v2");
    assert_eq!(resp.events.len(), 2);
    assert_eq!(resp.events[0].ty, "e1");
    assert_eq!(resp.events[1].attributes[0].key, "ek");
    assert_eq!(resp.messages.len(), 3);
    assert_eq!(resp.messages[2], SubMsg::new(custom_msg("m3")));
    assert_eq!(resp.data, None);
}

#[test]
fn set_data_keeps_a_value() {
    let value = serde_json::from_str::<serde_json::Value>("{\"k\": [1, 2]}").unwrap();
    let resp = ModuleResponse::new().set_data(value.clone());
    assert_eq!(resp.data, Some(value));
}

#[test]
fn set_data_null_clears_data() {
    let resp = ModuleResponse::new().set_data(serde_json::Value::Null);
    assert_eq!(resp.data, None);
}

#[test]
fn outbound_without_data_has_no_data_field() {
    let out = ModuleResponse::new().into_outbound();
    assert_eq!(out.data, None);
    assert!(out.messages.is_empty());
    assert!(out.attributes.is_empty());
    assert!(out.events.is_empty());
}

#[test]
fn outbound_data_round_trips() {
    let value = serde_json::from_str::<serde_json::Value>("{\"k\": [1, 2], \"s\": \"x\"}").unwrap();
    let out = ModuleResponse::new().set_data(value.clone()).into_outbound();
    let bytes = out.data.expect("data field expected");
    let decoded: serde_json::Value = serde_json::from_slice(bytes.as_slice()).unwrap();
    assert_eq!(decoded, value);
}

#[test]
fn outbound_converts_parts() {
    let out = ModuleResponse::new()
        .add_attribute("k".to_string(), "v".to_string())
        .add_event(ModuleEvent {
            ty: "ping".to_string(),
            attributes: vec![EventAttribute { key: "a".to_string(), value: "b".to_string() }],
        })
        .add_submessage(SubMsg::new(custom_msg("m")))
        .into_outbound();
    assert_eq!(out.attributes, vec![cosmwasm_std::Attribute::new("k", "v")]);
    assert_eq!(out.events.len(), 1);
    assert_eq!(out.events[0].ty, "ping");
    assert_eq!(out.events[0].attributes, vec![cosmwasm_std::Attribute::new("a", "b")]);
    assert_eq!(out.messages, vec![SubMsg::new(custom_msg("m"))]);
    assert_eq!(out.data, None);
}

fn resp_of(tag: &str, data: Option<serde_json::Value>) -> ModuleResponse {
    let mut resp = ModuleResponse::new()
        .add_event(ModuleEvent { ty: format!("ev-{}", tag), attributes: vec![] })
        .add_attribute("from".to_string(), tag.to_string())
        .add_submessage(SubMsg::new(custom_msg(tag)));
    resp.data = data;
    resp
}

#[test]
fn aggregator_concatenates_in_fold_order() {
    let mut aggregator = Aggregator::new();
    aggregator.fold_response(
        "a".to_string(),
        resp_of("a", Some(serde_json::Value::from(1u64))),
    );
    aggregator.fold_response(
        "b".to_string(),
        resp_of("b", Some(serde_json::Value::from(2u64))),
    );
    let out = aggregator.aggregate();
    assert_eq!(out.events.len(), 2);
    assert_eq!(out.events[0].ty, "ev-a");
    assert_eq!(out.events[1].ty, "ev-b");
    assert_eq!(out.attributes.len(), 2);
    assert_eq!(out.attributes[0].value, "a");
    assert_eq!(out.attributes[1].value, "b");
    assert_eq!(out.messages.len(), 2);
    assert_eq!(out.messages[0], SubMsg::new(custom_msg("a")));
    assert_eq!(out.messages[1], SubMsg::new(custom_msg("b")));
    let decoded: serde_json::Value =
        serde_json::from_slice(out.data.expect("data").as_slice()).unwrap();
    assert_eq!(decoded, serde_json::from_str::<serde_json::Value>("{\"a\": 1, \"b\": 2}").unwrap());
}

#[test]
fn aggregate_is_repeatable_and_preserves_the_accumulator() {
    let mut aggregator = Aggregator::new();
    aggregator.fold_response(
        "a".to_string(),
        resp_of("a", Some(serde_json::Value::from(1u64))),
    );
    let first = aggregator.aggregate();
    let second = aggregator.aggregate();
    assert_eq!(first, second);
    // the accumulator still holds the folded content and keeps accumulating
    aggregator.fold_response("b".to_string(), resp_of("b", None));
    let third = aggregator.aggregate();
    assert_eq!(third.events.len(), 2);
    assert_eq!(third.events[0].ty, "ev-a");
    assert_eq!(third.events[1].ty, "ev-b");
}

#[test]
fn aggregator_without_data_entries_emits_none() {
    let mut aggregator = Aggregator::new();
    aggregator.fold_response("a".to_string(), resp_of("a", None));
    let out = aggregator.aggregate();
    assert_eq!(out.data, None);
    assert_eq!(out.events.len(), 1);
}

#[test]
fn aggregator_later_fold_replaces_data_entry() {
    let mut aggregator = Aggregator::new();
    aggregator.fold_response(
        "a".to_string(),
        resp_of("a", Some(serde_json::Value::from(1u64))),
    );
    aggregator.fold_response(
        "a".to_string(),
        resp_of("a", Some(serde_json::Value::from(2u64))),
    );
    let out = aggregator.aggregate();
    let decoded: serde_json::Value =
        serde_json::from_slice(out.data.expect("data").as_slice()).unwrap();
    assert_eq!(decoded, serde_json::from_str::<serde_json::Value>("{\"a\": 2}").unwrap());
}

#[test]
fn aggregator_fold_without_data_removes_entry() {
    let mut aggregator = Aggregator::new();
    aggregator.fold_response(
        "a".to_string(),
        resp_of("a", Some(serde_json::Value::from(1u64))),
    );
    aggregator.fold_response("a".to_string(), resp_of("a", None));
    let out = aggregator.aggregate();
    assert_eq!(out.data, None);
}

/// A module that answers with events, attributes and messages derived from
/// its payload, implementing the dynamic interface directly.
struct EventModule;

impl GenericModule for EventModule {
    fn instantiate_value(&mut self, msg: &serde_json::Value) -> Result<ModuleResponse, String> {
        let tag = msg.as_str().ok_or_else(|| "payload must be a string".to_string())?;
        Ok(resp_of(tag, Some(msg.clone())))
    }

    fn execute_value(&mut self, _msg: &serde_json::Value) -> Result<ModuleResponse, String> {
        Err("not supported".to_string())
    }

    fn query_value(&self, _msg: &serde_json::Value) -> Result<Binary, StdError> {
        Err(StdError::generic_err("not supported"))
    }
}

#[test]
fn instantiate_concatenates_module_effects_in_decoder_order() {
    let mut manager = Manager::new();
    manager.register("a".to_string(), EventModule).unwrap();
    manager.register("b".to_string(), EventModule).unwrap();
    // the decoded object yields its entries with "a" first, whatever the
    // textual order of the keys
    let resp = manager
        .instantiate((), mock_env(), mock_info("caller", &[]), "{\"b\": \"eb\", \"a\": \"ea\"}")
        .unwrap();
    assert_eq!(resp.events.len(), 2);
    assert_eq!(resp.events[0].ty, "ev-ea");
    assert_eq!(resp.events[1].ty, "ev-eb");
    assert_eq!(resp.attributes.len(), 2);
    assert_eq!(resp.attributes[0].value, "ea");
    assert_eq!(resp.attributes[1].value, "eb");
    assert_eq!(resp.messages.len(), 2);
    assert_eq!(resp.messages[0], SubMsg::new(custom_msg("ea")));
    assert_eq!(resp.messages[1], SubMsg::new(custom_msg("eb")));
    let decoded: serde_json::Value =
        serde_json::from_slice(resp.data.expect("data").as_slice()).unwrap();
    assert_eq!(
        decoded,
        serde_json::from_str::<serde_json::Value>("{\"a\": \"ea\", \"b\": \"eb\"}").unwrap()
    );
}
