//! Module responses and the aggregation of several of them.
//!
//! A module's handler reports its side effects as a [`ModuleResponse`]: ordered
//! events, attributes and outbound messages, plus an optional untyped data
//! value. During multi-module instantiation an [`Aggregator`] folds the
//! responses of the participating modules into one combined outbound
//! response, concatenating the side-effect sequences in arrival order and
//! keying each module's data value by the module's name.

use vstd::prelude::*;

verus! {

use cosmwasm_std::Binary;
use cosmwasm_std::CosmosMsg;
use cosmwasm_std::SubMsg;
use crate::host::host_attribute;
use crate::host::host_attribute_of;
use crate::host::host_event;
use crate::host::host_event_of;
use crate::host::host_response;
use crate::host::host_response_of;
use crate::host::json_bytes_of;
use crate::host::object_bytes;
use crate::host::object_bytes_of;
use crate::host::sub_msg_clone;
use crate::host::sub_msg_new;
use crate::host::sub_msg_of;
use crate::host::value_bytes;
use crate::json::value_is_null;

/// A key/value pair emitted as part of the main `wasm` event.
#[derive(Debug, Clone, PartialEq, Eq)]
pub struct EventAttribute {
    pub key: String,
    pub value: String,
}

/// A custom event, separate from the main `wasm` event, carrying its own
/// attributes.
#[derive(Debug, Clone, PartialEq, Eq)]
pub struct ModuleEvent {
    /// The event's kind; the host prefixes it with `wasm-` when emitting.
    pub ty: String,
    pub attributes: Vec<EventAttribute>,
}

/// The side effects and data reported by one module handler call.
#[derive(Debug, PartialEq)]
pub struct ModuleResponse {
    /// Outbound messages, executed by the host in order.
    pub messages: Vec<SubMsg<Binary>>,
    /// Attributes of the main `wasm` event.
    pub attributes: Vec<EventAttribute>,
    /// Custom events, in emission order.
    pub events: Vec<ModuleEvent>,
    /// The module's data value; `None` when the module reports none. A JSON
    /// null handed to [`ModuleResponse::set_data`] also counts as none.
    pub data: Option<serde_json::Value>,
}

/// A response that carries no side effects and no data.
pub open spec fn response_is_empty(r: ModuleResponse) -> bool {
    &&& r.messages@.len() == 0
    &&& r.attributes@.len() == 0
    &&& r.events@.len() == 0
    &&& r.data is None
}

/// The host attribute a modeled attribute converts to.
pub open spec fn attr_out_spec(a: EventAttribute) -> cosmwasm_std::Attribute {
    host_attribute_of(a.key@, a.value@)
}

/// The host attributes a modeled attribute list converts to, one for one.
pub open spec fn attrs_out_spec(s: Seq<EventAttribute>) -> Seq<cosmwasm_std::Attribute> {
    s.map_values(|a: EventAttribute| attr_out_spec(a))
}

/// The host event a modeled event converts to.
pub open spec fn event_out_spec(e: ModuleEvent) -> cosmwasm_std::Event {
    host_event_of(e.ty@, attrs_out_spec(e.attributes@))
}

/// The host events a modeled event list converts to, one for one.
pub open spec fn events_out_spec(s: Seq<ModuleEvent>) -> Seq<cosmwasm_std::Event> {
    s.map_values(|e: ModuleEvent| event_out_spec(e))
}

/// The outbound data field a data value produces: the value's JSON
/// encoding, or no field at all when there is no value.
pub open spec fn data_field_of(data: Option<serde_json::Value>) -> Option<Binary> {
    match data {
        None => None,
        Some(v) => Some(json_bytes_of(v)),
    }
}

/// The host's outbound representation of a response.
pub open spec fn outbound_of(r: ModuleResponse) -> cosmwasm_std::Response<Binary> {
    host_response_of(
        r.messages@,
        attrs_out_spec(r.attributes@),
        events_out_spec(r.events@),
        data_field_of(r.data),
    )
}

impl ModuleResponse {
    /// An empty response: no messages, no attributes, no events, no data.
    pub fn new() -> (r: Self)
        ensures
            response_is_empty(r),
    {
        ModuleResponse { messages: Vec::new(), attributes: Vec::new(), events: Vec::new(), data: None }
    }

    /// Adds one attribute to the main `wasm` event.
    pub fn add_attribute(self, key: String, value: String) -> (r: Self)
        ensures
            r.attributes@ == self.attributes@.push((EventAttribute { key, value })),
            r.messages@ == self.messages@,
            r.events@ == self.events@,
            r.data == self.data,
    {
        let mut this = self;
        this.attributes.push(EventAttribute { key, value });
        this
    }

    /// Wraps the message for fire-and-forget delivery and appends it to the
    /// outbound messages.
    pub fn add_message(self, msg: CosmosMsg<Binary>) -> (r: Self)
        ensures
            r.messages@ == self.messages@.push(sub_msg_of(msg)),
            r.attributes@ == self.attributes@,
            r.events@ == self.events@,
            r.data == self.data,
    {
        let mut this = self;
        let sub = sub_msg_new(msg);
        this.messages.push(sub);
        this
    }

    /// Appends one already-wrapped outbound message.
    pub fn add_submessage(self, msg: SubMsg<Binary>) -> (r: Self)
        ensures
            r.messages@ == self.messages@.push(msg),
            r.attributes@ == self.attributes@,
            r.events@ == self.events@,
            r.data == self.data,
    {
        let mut this = self;
        this.messages.push(msg);
        this
    }

    /// Appends one custom event.
    pub fn add_event(self, event: ModuleEvent) -> (r: Self)
        ensures
            r.events@ == self.events@.push(event),
            r.messages@ == self.messages@,
            r.attributes@ == self.attributes@,
            r.data == self.data,
    {
        let mut this = self;
        this.events.push(event);
        this
    }

    /// Appends a list of attributes to the main `wasm` event, in order.
    pub fn add_attributes(self, attrs: Vec<EventAttribute>) -> (r: Self)
        ensures
            r.attributes@ == self.attributes@ + attrs@,
            r.messages@ == self.messages@,
            r.events@ == self.events@,
            r.data == self.data,
    {
        let mut this = self;
        let mut attrs = attrs;
        this.attributes.append(&mut attrs);
        this
    }

    /// Wraps each message for fire-and-forget delivery and appends them to
    /// the outbound messages, in order.
    pub fn add_messages(self, msgs: Vec<CosmosMsg<Binary>>) -> (r: Self)
        ensures
            r.messages@ == self.messages@ + msgs@.map_values(
                |m: CosmosMsg<Binary>| sub_msg_of(m),
            ),
            r.attributes@ == self.attributes@,
            r.events@ == self.events@,
            r.data == self.data,
    {
        let mut this = self;
        let mut msgs = msgs;
        let ghost base = this.messages@;
        let ghost orig = msgs@;
        let ghost total = msgs@.len();
        let ghost entry_attributes = this.attributes@;
        let ghost entry_events = this.events@;
        let ghost entry_data = this.data;
        while msgs.len() > 0
            invariant
                total == orig.len(),
                msgs@.len() <= total,
                msgs@ =~= orig.subrange(total - msgs@.len(), total as int),
                this.messages@ =~= base + orig.subrange(0, total - msgs@.len()).map_values(
                    |m: CosmosMsg<Binary>| sub_msg_of(m),
                ),
                this.attributes@ == entry_attributes,
                this.events@ == entry_events,
                this.data == entry_data,
            decreases msgs@.len(),
        {
            let ghost done: int = total - msgs@.len();
            let ghost prev = msgs@;
            let m = msgs.remove(0);
            proof {
                assert(prev =~= orig.subrange(done, total as int));
                assert(orig.subrange(done, total as int)[0] == orig[done]);
                assert(m == prev[0]);
                assert(m == orig[done]);
                assert forall|k: int| 0 <= k < msgs@.len() implies msgs@[k] == orig[done + 1
                    + k] by {
                    assert(msgs@[k] == prev[k + 1]);
                    assert(prev[k + 1] == orig.subrange(done, total as int)[k + 1]);
                    assert(orig.subrange(done, total as int)[k + 1] == orig[done + 1 + k]);
                }
                assert(msgs@ =~= orig.subrange(done + 1, total as int));
            }
            let sub = sub_msg_new(m);
            this.messages.push(sub);
            proof {
                assert(orig.subrange(0, done + 1) =~= orig.subrange(0, done).push(orig[done]));
                assert(this.messages@ =~= base + orig.subrange(0, done + 1).map_values(
                    |mm: CosmosMsg<Binary>| sub_msg_of(mm),
                ));
            }
        }
        proof {
            assert(orig.subrange(0, total as int) =~= orig);
            assert(this.messages@ =~= base + orig.map_values(
                |m: CosmosMsg<Binary>| sub_msg_of(m),
            ));
        }
        this
    }

    /// Appends a list of already-wrapped outbound messages, in order.
    pub fn add_submessages(self, msgs: Vec<SubMsg<Binary>>) -> (r: Self)
        ensures
            r.messages@ == self.messages@ + msgs@,
            r.attributes@ == self.attributes@,
            r.events@ == self.events@,
            r.data == self.data,
    {
        let mut this = self;
        let mut msgs = msgs;
        this.messages.append(&mut msgs);
        this
    }

    /// Appends a list of custom events, in order.
    pub fn add_events(self, events: Vec<ModuleEvent>) -> (r: Self)
        ensures
            r.events@ == self.events@ + events@,
            r.messages@ == self.messages@,
            r.attributes@ == self.attributes@,
            r.data == self.data,
    {
        let mut this = self;
        let mut events = events;
        this.events.append(&mut events);
        this
    }

    /// Stores the module's data value. A JSON null clears the data instead:
    /// a response whose data is null is a response with no data.
    pub fn set_data(self, data: serde_json::Value) -> (r: Self)
        ensures
            r.data == (if value_is_null(data) {
                Option::<serde_json::Value>::None
            } else {
                Some(data)
            }),
            r.messages@ == self.messages@,
            r.attributes@ == self.attributes@,
            r.events@ == self.events@,
    {
        let mut this = self;
        if data.is_null() {
            this.data = None;
        } else {
            this.data = Some(data);
        }
        this
    }

    /// Converts the response into the host's outbound representation. The
    /// data value, when present, is JSON-encoded into the outbound data
    /// field; a response without data produces an outbound response without
    /// a data field.
    pub fn into_outbound(self) -> (r: cosmwasm_std::Response<Binary>)
        ensures
            r == outbound_of(self),
    {
        let data = outbound_data(self.data);
        let attributes = attributes_out(&self.attributes);
        let events = events_out(&self.events);
        host_response(self.messages, attributes, events, data)
    }
}

impl Default for ModuleResponse {
    fn default() -> (r: Self)
        ensures
            response_is_empty(r),
    {
        ModuleResponse::new()
    }
}

/// The outbound data field of a response: present exactly when the response
/// carries a data value.
pub fn outbound_data(data: Option<serde_json::Value>) -> (r: Option<Binary>)
    ensures
        r == data_field_of(data),
        r is Some <==> data is Some,
{
    match data {
        None => None,
        Some(v) => Some(value_bytes(&v)),
    }
}

/// Converts modeled attributes into the host's representation, one for one.
fn attributes_out(attrs: &Vec<EventAttribute>) -> (r: Vec<cosmwasm_std::Attribute>)
    ensures
        r@ == attrs_out_spec(attrs@),
{
    let mut out: Vec<cosmwasm_std::Attribute> = Vec::new();
    let mut k: usize = 0;
    while k < attrs.len()
        invariant
            k <= attrs@.len(),
            out@.len() == k,
            forall|j: int| 0 <= j < k ==> out@[j] == attr_out_spec(attrs@[j]),
        decreases attrs@.len() - k,
    {
        let a = &attrs[k];
        out.push(host_attribute(a.key.clone(), a.value.clone()));
        k += 1;
    }
    proof {
        assert(out@ =~= attrs_out_spec(attrs@));
    }
    out
}

/// Converts one modeled event into the host's representation.
fn event_out(event: &ModuleEvent) -> (r: cosmwasm_std::Event)
    ensures
        r == event_out_spec(*event),
{
    let attributes = attributes_out(&event.attributes);
    host_event(event.ty.clone(), attributes)
}

/// Converts modeled events into the host's representation, one for one.
fn events_out(events: &Vec<ModuleEvent>) -> (r: Vec<cosmwasm_std::Event>)
    ensures
        r@ == events_out_spec(events@),
{
    let mut out: Vec<cosmwasm_std::Event> = Vec::new();
    let mut k: usize = 0;
    while k < events.len()
        invariant
            k <= events@.len(),
            out@.len() == k,
            forall|j: int| 0 <= j < k ==> out@[j] == event_out_spec(events@[j]),
        decreases events@.len() - k,
    {
        out.push(event_out(&events[k]));
        k += 1;
    }
    proof {
        assert(out@ =~= events_out_spec(events@));
    }
    out
}

/// Copies an outbound-message list, element for element.
fn clone_sub_msgs(msgs: &Vec<SubMsg<Binary>>) -> (r: Vec<SubMsg<Binary>>)
    ensures
        r@ == msgs@,
{
    let mut out: Vec<SubMsg<Binary>> = Vec::new();
    let mut k: usize = 0;
    while k < msgs.len()
        invariant
            k <= msgs@.len(),
            out@ =~= msgs@.subrange(0, k as int),
        decreases msgs@.len() - k,
    {
        out.push(sub_msg_clone(&msgs[k]));
        k += 1;
    }
    proof {
        assert(out@ =~= msgs@);
    }
    out
}

/// The data entries hold at most one value per module name.
pub open spec fn unique_keys(d: Seq<(String, serde_json::Value)>) -> bool {
    forall|i: int, j: int| 0 <= i < j < d.len() ==> d[i].0@ != d[j].0@
}

/// Whether some data entry is keyed by `name`.
pub open spec fn has_data_key(d: Seq<(String, serde_json::Value)>, name: Seq<char>) -> bool {
    exists|i: int| 0 <= i < d.len() && d[i].0@ == name
}

/// The index of the data entry keyed by `name`.
pub open spec fn data_key_index(d: Seq<(String, serde_json::Value)>, name: Seq<char>) -> int {
    choose|i: int| 0 <= i < d.len() && d[i].0@ == name
}

/// How one module's data value changes the stored data entries: a reported
/// value replaces the entry under the module's name or adds one, and a
/// module that reports no data leaves no entry under its name.
pub open spec fn fold_data(
    d: Seq<(String, serde_json::Value)>,
    module: String,
    data: Option<serde_json::Value>,
) -> Seq<(String, serde_json::Value)> {
    if has_data_key(d, module@) {
        let i = data_key_index(d, module@);
        match data {
            Some(v) => d.remove(i).push((module, v)),
            None => d.remove(i),
        }
    } else {
        match data {
            Some(v) => d.push((module, v)),
            None => d,
        }
    }
}

/// How folding one module's response changes an aggregator: the module's
/// events, attributes and messages are appended in the module's own order,
/// and its data value is stored under the module's name.
pub open spec fn fold_rel(pre: Aggregator, module: String, resp: ModuleResponse, post: Aggregator) -> bool {
    &&& post.events@ == pre.events@ + resp.events@
    &&& post.attributes@ == pre.attributes@ + resp.attributes@
    &&& post.messages@ == pre.messages@ + resp.messages@
    &&& post.data@ == fold_data(pre.data@, module, resp.data)
}

/// Accumulates the responses of several modules into one combined outbound
/// response.
#[derive(Debug)]
pub struct Aggregator {
    /// All folded outbound messages, in arrival order.
    pub messages: Vec<SubMsg<Binary>>,
    /// All folded attributes, in arrival order.
    pub attributes: Vec<EventAttribute>,
    /// All folded events, in arrival order.
    pub events: Vec<ModuleEvent>,
    /// Each module's data value, keyed by module name; modules that reported
    /// no data have no entry.
    pub data: Vec<(String, serde_json::Value)>,
}

/// Finds the entry keyed by `module`, if any.
fn find_data_index(d: &Vec<(String, serde_json::Value)>, module: &String) -> (r: Option<usize>)
    ensures
        (r matches Some(i) ==> i < d@.len() && d@[i as int].0@ == module@),
        (r is None ==> forall|i: int| 0 <= i < d@.len() ==> d@[i].0@ != module@),
{
    let mut k: usize = 0;
    while k < d.len()
        invariant
            k <= d@.len(),
            forall|j: int| 0 <= j < k ==> d@[j].0@ != module@,
        decreases d@.len() - k,
    {
        if d[k].0 == *module {
            return Some(k);
        }
        k += 1;
    }
    None
}

impl Aggregator {
    /// At most one data entry per module name.
    pub open spec fn wf(&self) -> bool {
        unique_keys(self.data@)
    }

    /// A fresh aggregator with nothing folded yet.
    pub fn new() -> (r: Self)
        ensures
            r.wf(),
            r.messages@.len() == 0,
            r.attributes@.len() == 0,
            r.events@.len() == 0,
            r.data@.len() == 0,
    {
        Aggregator { messages: Vec::new(), attributes: Vec::new(), events: Vec::new(), data: Vec::new() }
    }

    /// Folds one module's response into the accumulator: appends the
    /// response's events, attributes and messages in order, and stores the
    /// response's data value under the module's name.
    pub fn fold_response(&mut self, module: String, resp: ModuleResponse)
        requires
            old(self).wf(),
        ensures
            final(self).wf(),
            fold_rel(*old(self), module, resp, *final(self)),
    {
        let mut resp = resp;
        self.events.append(&mut resp.events);
        self.attributes.append(&mut resp.attributes);
        self.messages.append(&mut resp.messages);
        let found = find_data_index(&self.data, &module);
        let ghost d = self.data@;
        match found {
            Some(i) => {
                proof {
                    assert(has_data_key(d, module@));
                    assert(data_key_index(d, module@) == i as int) by {
                        let j = data_key_index(d, module@);
                        assert(0 <= j < d.len() && d[j].0@ == module@);
                        if j != i as int {
                            assert(d[j].0@ != d[i as int].0@);
                        }
                    }
                }
                self.data.remove(i);
                match resp.data {
                    Some(v) => {
                        proof {
                            assert forall|p: int| 0 <= p < self.data@.len() implies self.data@[p].0@
                                != module@ by {
                                if p < i as int {
                                    assert(self.data@[p] == d[p]);
                                } else {
                                    assert(self.data@[p] == d[p + 1]);
                                }
                            }
                        }
                        self.data.push((module, v));
                    },
                    None => {},
                }
            },
            None => {
                proof {
                    assert(!has_data_key(d, module@));
                }
                match resp.data {
                    Some(v) => {
                        self.data.push((module, v));
                    },
                    None => {},
                }
            },
        }
    }

    /// Builds the combined outbound response from everything folded so far,
    /// leaving the accumulator as it was, so a repeated call returns an
    /// equal value. When at least one module reported a data value, the
    /// outbound data field is the JSON encoding of the object mapping each
    /// such module's name to its value; otherwise the outbound response
    /// carries no data field.
    pub fn aggregate(&mut self) -> (r: cosmwasm_std::Response<Binary>)
        ensures
            *final(self) == *old(self),
            r == host_response_of(
                old(self).messages@,
                attrs_out_spec(old(self).attributes@),
                events_out_spec(old(self).events@),
                (if old(self).data@.len() == 0 {
                    Option::<Binary>::None
                } else {
                    Some(object_bytes_of(old(self).data@))
                }),
            ),
    {
        let data = if self.data.len() > 0 {
            Some(object_bytes(&self.data))
        } else {
            None
        };
        let messages = clone_sub_msgs(&self.messages);
        let host_attributes = attributes_out(&self.attributes);
        let host_events = events_out(&self.events);
        host_response(messages, host_attributes, host_events, data)
    }
}

impl Default for Aggregator {
    fn default() -> (r: Self)
        ensures
            r.wf(),
            r.messages@.len() == 0,
            r.attributes@.len() == 0,
            r.events@.len() == 0,
            r.data@.len() == 0,
    {
        Aggregator::new()
    }
}

/// Folding the responses of two distinct modules into a fresh aggregator
/// concatenates their event, attribute and message sequences in fold order,
/// and stores the data values keyed by the two module names in that order,
/// with modules that reported no data leaving no entry.
pub proof fn lemma_fold_two(
    a0: Aggregator,
    a1: Aggregator,
    a2: Aggregator,
    n1: String,
    r1: ModuleResponse,
    n2: String,
    r2: ModuleResponse,
)
    requires
        a0.messages@.len() == 0,
        a0.attributes@.len() == 0,
        a0.events@.len() == 0,
        a0.data@.len() == 0,
        fold_rel(a0, n1, r1, a1),
        fold_rel(a1, n2, r2, a2),
        n1@ != n2@,
    ensures
        a2.events@ == r1.events@ + r2.events@,
        a2.attributes@ == r1.attributes@ + r2.attributes@,
        a2.messages@ == r1.messages@ + r2.messages@,
        r1.data is Some && r2.data is Some ==> a2.data@ == seq![
            (n1, r1.data->Some_0),
            (n2, r2.data->Some_0),
        ],
        r1.data is Some && r2.data is None ==> a2.data@ == seq![(n1, r1.data->Some_0)],
        r1.data is None && r2.data is Some ==> a2.data@ == seq![(n2, r2.data->Some_0)],
        r1.data is None && r2.data is None ==> a2.data@.len() == 0,
{
    assert(a1.events@ =~= r1.events@);
    assert(a2.events@ =~= r1.events@ + r2.events@);
    assert(a1.attributes@ =~= r1.attributes@);
    assert(a2.attributes@ =~= r1.attributes@ + r2.attributes@);
    assert(a1.messages@ =~= r1.messages@);
    assert(a2.messages@ =~= r1.messages@ + r2.messages@);
    assert(!has_data_key(a0.data@, n1@));
    match r1.data {
        Some(v1) => {
            assert(a1.data@ == a0.data@.push((n1, v1)));
            assert(a1.data@ =~= seq![(n1, v1)]);
            assert(!has_data_key(a1.data@, n2@));
            match r2.data {
                Some(v2) => {
                    assert(a2.data@ =~= seq![(n1, v1), (n2, v2)]);
                },
                None => {
                    assert(a2.data@ =~= seq![(n1, v1)]);
                },
            }
        },
        None => {
            assert(a1.data@ =~= a0.data@);
            assert(!has_data_key(a1.data@, n2@));
            match r2.data {
                Some(v2) => {
                    assert(a2.data@ =~= seq![(n2, v2)]);
                },
                None => {
                    assert(a2.data@ =~= a0.data@);
                },
            }
        },
    }
}

} // verus!
