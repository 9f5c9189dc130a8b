//! The registry and dispatcher for dynamically addressed modules.
//!
//! A [`Manager`] keeps a registry from module name to module handle and
//! routes inbound request envelopes to the module a request addresses. For
//! `execute` and `query` the envelope must hold exactly one top-level entry,
//! `{ "<name>": <payload> }`; for `instantiate` it may hold one entry per
//! registered module, and the modules' responses are folded into one
//! combined outbound response.
//!
//! The registry is insert-once: a name can be registered at most once, and a
//! second registration under the same name is rejected with the prior
//! mapping untouched.

use vstd::prelude::*;

verus! {

use cosmwasm_std::Binary;
use cosmwasm_std::Env;
use cosmwasm_std::MessageInfo;
use cosmwasm_std::StdError;
use cosmwasm_std::SubMsg;
use crate::error::Error;
use crate::error::not_found_record;
use crate::error::not_found_sentence;
use crate::error::parse_error_record;
use crate::error::parse_error_sentence;
use crate::json::envelope_fail_msg;
use crate::json::envelope_failed;
use crate::json::envelope_is_object;
use crate::json::envelope_names;
use crate::json::envelope_not_object;
use crate::json::parse_envelope;
use crate::json::ParsedEnvelope;
use crate::host::generic_err_of;
use crate::host::host_generic_err;
use crate::host::host_response_of;
use crate::module::GenericModule;
use crate::response::Aggregator;

/// The mapping that a name/module association list denotes: later entries
/// shadow earlier ones, though a well-formed registry never has two entries
/// with one name.
spec fn assoc_map<M>(s: Seq<(String, M)>) -> Map<Seq<char>, M>
    decreases s.len(),
{
    if s.len() == 0 {
        Map::empty()
    } else {
        assoc_map(s.drop_last()).insert(s.last().0@, s.last().1)
    }
}

/// No two entries share a name.
spec fn unique_names<M>(s: Seq<(String, M)>) -> bool {
    forall|i: int, j: int| 0 <= i < j < s.len() ==> s[i].0@ != s[j].0@
}

proof fn lemma_assoc_contains<M>(s: Seq<(String, M)>, name: Seq<char>)
    ensures
        assoc_map(s).dom().contains(name) <==> exists|i: int|
            0 <= i < s.len() && s[i].0@ == name,
    decreases s.len(),
{
    if s.len() > 0 {
        let t = s.drop_last();
        lemma_assoc_contains(t, name);
        if s.last().0@ == name {
            assert(s[s.len() - 1].0@ == name);
        } else {
            if exists|i: int| 0 <= i < s.len() && s[i].0@ == name {
                let i = choose|i: int| 0 <= i < s.len() && s[i].0@ == name;
                assert(t[i].0@ == name);
            }
            if exists|i: int| 0 <= i < t.len() && t[i].0@ == name {
                let i = choose|i: int| 0 <= i < t.len() && t[i].0@ == name;
                assert(s[i].0@ == name);
            }
        }
    }
}

proof fn lemma_assoc_value<M>(s: Seq<(String, M)>, name: Seq<char>, i: int)
    requires
        unique_names(s),
        0 <= i < s.len(),
        s[i].0@ == name,
    ensures
        assoc_map(s).dom().contains(name),
        assoc_map(s)[name] == s[i].1,
    decreases s.len(),
{
    let t = s.drop_last();
    if i == s.len() - 1 {
    } else {
        assert(unique_names(t));
        assert(s.last().0@ != name);
        lemma_assoc_value(t, name, i);
    }
}

proof fn lemma_assoc_update<M>(s: Seq<(String, M)>, i: int, m: M)
    requires
        unique_names(s),
        0 <= i < s.len(),
    ensures
        assoc_map(s.update(i, (s[i].0, m))) == assoc_map(s).insert(s[i].0@, m),
        unique_names(s.update(i, (s[i].0, m))),
    decreases s.len(),
{
    let s2 = s.update(i, (s[i].0, m));
    assert(unique_names(s2)) by {
        assert(forall|p: int| 0 <= p < s.len() ==> s2[p].0 == s[p].0);
    }
    if i == s.len() - 1 {
        assert(s2.drop_last() =~= s.drop_last());
        assert(s2.last() == (s[i].0, m));
        assert(assoc_map(s2) =~= assoc_map(s).insert(s[i].0@, m));
    } else {
        let t = s.drop_last();
        assert(unique_names(t));
        assert(s2.drop_last() =~= t.update(i, (t[i].0, m)));
        lemma_assoc_update(t, i, m);
        assert(s2.last() == s.last());
        assert(s.last().0@ != s[i].0@);
        assert(assoc_map(s2) =~= assoc_map(s).insert(s[i].0@, m));
    }
}

/// A registry of modules, addressed by name, that dispatches inbound
/// request envelopes to the module a request addresses.
///
/// A registry is homogeneous in its module type `M`. To hold modules of
/// several concrete kinds under one registry, register values of a
/// caller-defined enum that implements
/// [`GenericModule`](crate::module::GenericModule) by delegating each
/// operation to the variant's module.
pub struct Manager<M> {
    modules: Vec<(String, M)>,
}

impl<M> Manager<M> {
    /// The mapping from module name to module that the registry holds.
    pub closed spec fn as_map(&self) -> Map<Seq<char>, M> {
        assoc_map(self.modules@)
    }

    /// Each name registered at most once.
    pub closed spec fn wf(&self) -> bool {
        unique_names(self.modules@)
    }

    /// Whether a module is registered under `name`.
    pub open spec fn has(&self, name: Seq<char>) -> bool {
        self.as_map().dom().contains(name)
    }

    /// A manager with no modules registered.
    pub fn new() -> (r: Self)
        ensures
            r.wf(),
            r.as_map() == Map::<Seq<char>, M>::empty(),
    {
        Manager { modules: Vec::new() }
    }

    /// The index of the entry registered under `name`, if any.
    fn find_index(&self, name: &String) -> (r: Option<usize>)
        ensures
            (r matches Some(i) ==> i < self.modules@.len() && self.modules@[i as int].0@
                == name@),
            (r is None ==> forall|i: int|
                0 <= i < self.modules@.len() ==> self.modules@[i].0@ != name@),
    {
        let mut k: usize = 0;
        while k < self.modules.len()
            invariant
                k <= self.modules@.len(),
                forall|j: int| 0 <= j < k ==> self.modules@[j].0@ != name@,
            decreases self.modules@.len() - k,
        {
            if self.modules[k].0 == *name {
                return Some(k);
            }
            k += 1;
        }
        None
    }

    /// Registers `module` under `name`. The registry is insert-once: when a
    /// module is already registered under `name` the call fails and the
    /// prior mapping stays as it was; otherwise the new module is added.
    pub fn register(&mut self, name: String, module: M) -> (r: Result<(), Error>)
        requires
            old(self).wf(),
        ensures
            final(self).wf(),
            old(self).has(name@) ==> (r matches Err(Error::ModuleAlreadyRegistered {
                module: m,
            }) && m@ == name@ && *final(self) == *old(self)),
            !old(self).has(name@) ==> (r is Ok && final(self).as_map() == old(
                self,
            ).as_map().insert(name@, module)),
    {
        proof {
            lemma_assoc_contains(self.modules@, name@);
        }
        let found = self.find_index(&name);
        match found {
            Some(_) => Err(Error::ModuleAlreadyRegistered { module: name }),
            None => {
                let ghost s0 = self.modules@;
                self.modules.push((name, module));
                proof {
                    assert(self.modules@.drop_last() =~= s0);
                    assert(self.as_map() =~= old(self).as_map().insert(
                        self.modules@.last().0@,
                        module,
                    ));
                    assert(forall|i: int, j: int|
                        0 <= i < j < self.modules@.len() ==> self.modules@[i].0@
                            != self.modules@[j].0@);
                }
                Ok(())
            },
        }
    }

    /// Looks a module up by name without dispatching to it.
    pub fn resolve(&self, name: &String) -> (r: Option<&M>)
        requires
            self.wf(),
        ensures
            (r matches Some(m) ==> self.has(name@) && *m == self.as_map()[name@]),
            (r is None <==> !self.has(name@)),
    {
        proof {
            lemma_assoc_contains(self.modules@, name@);
        }
        let found = self.find_index(name);
        match found {
            Some(i) => {
                proof {
                    lemma_assoc_value(self.modules@, name@, i as int);
                }
                Some(&self.modules[i].1)
            },
            None => None,
        }
    }
}

impl<M: GenericModule> Manager<M> {
    /// Dispatches a JSON-encoded transaction envelope to the module it
    /// addresses. The envelope must be an object with exactly one entry,
    /// `{ "<name>": <payload> }`; the module's response is converted to the
    /// host's outbound representation, and every failure is rendered as a
    /// string: the decoder's message for unreadable text, the record form of
    /// the canonical error for a non-object, a wrong entry count or an
    /// unknown name, and the module's own message verbatim when the module
    /// fails. The host context is passed along untouched.
    pub fn execute<D>(
        &mut self,
        _deps: &mut D,
        _env: Env,
        _info: MessageInfo,
        msg: &str,
    ) -> (r: Result<cosmwasm_std::Response<Binary>, String>)
        requires
            old(self).wf(),
        ensures
            final(self).wf(),
            final(self).as_map().dom() == old(self).as_map().dom(),
            envelope_failed(msg@) ==> (r matches Err(s) && s@ == envelope_fail_msg(msg@)
                && *final(self) == *old(self)),
            envelope_not_object(msg@) ==> (r matches Err(s) && s@ == parse_error_record(None)
                && *final(self) == *old(self)),
            envelope_is_object(msg@) && envelope_names(msg@).len() != 1 ==> (r matches Err(s)
                && s@ == parse_error_record(Some("too many module payloads"@)) && *final(self)
                == *old(self)),
            envelope_is_object(msg@) && envelope_names(msg@).len() == 1 && !old(self).has(
                envelope_names(msg@)[0],
            ) ==> (r matches Err(s) && s@ == not_found_record(envelope_names(msg@)[0])
                && *final(self) == *old(self)),
            envelope_is_object(msg@) && envelope_names(msg@).len() == 1 ==> final(self).as_map()
                .remove(envelope_names(msg@)[0]) == old(self).as_map().remove(
                envelope_names(msg@)[0],
            ),
            r is Ok ==> envelope_is_object(msg@) && envelope_names(msg@).len() == 1 && old(
                self,
            ).has(envelope_names(msg@)[0]),
    {
        let parsed = parse_envelope(msg);
        match parsed {
            ParsedEnvelope::Malformed(e) => Err(e),
            ParsedEnvelope::NotObject => Err(Error::ParseError { msg: None }.to_record_string()),
            ParsedEnvelope::Entries(entries) => {
                if entries.len() != 1 {
                    let detail = "too many module payloads".to_owned();
                    Err(Error::ParseError { msg: Some(detail) }.to_record_string())
                } else {
                    proof {
                        lemma_assoc_contains(self.modules@, entries@[0].0@);
                    }
                    let found = self.find_index(&entries[0].0);
                    match found {
                        None => Err(
                            Error::NotFoundError {
                                module: entries[0].0.clone(),
                            }.to_record_string(),
                        ),
                        Some(i) => {
                            let ghost s0 = self.modules@;
                            let (nm, mut m) = self.modules.remove(i);
                            let result = m.execute_value(&entries[0].1);
                            let pair = (nm, m);
                            let ghost p = pair;
                            self.modules.insert(i, pair);
                            proof {
                                assert(self.modules@ =~= s0.update(i as int, p));
                                lemma_assoc_update(s0, i as int, p.1);
                                assert(self.as_map().dom() =~= old(self).as_map().dom());
                                assert(self.as_map().remove(entries@[0].0@) =~= old(
                                    self,
                                ).as_map().remove(entries@[0].0@));
                            }
                            match result {
                                Ok(resp) => Ok(resp.into_outbound()),
                                Err(e) => Err(e),
                            }
                        },
                    }
                }
            },
        }
    }

    /// Dispatches a JSON-encoded query envelope to the module it addresses.
    /// The envelope must be an object with exactly one entry; the module's
    /// encoded answer is returned as is. Every failure is a generic host
    /// error: its message is the decoder's message for unreadable text, and
    /// the sentence form of the canonical error for a non-object, a wrong
    /// entry count or an unknown name. The registry is left as it was, and
    /// the host context is passed along untouched.
    pub fn query<D>(&mut self, _deps: &D, _env: Env, msg: &str) -> (r: Result<Binary, StdError>)
        requires
            old(self).wf(),
        ensures
            *final(self) == *old(self),
            envelope_failed(msg@) ==> (r matches Err(e) && e == generic_err_of(
                envelope_fail_msg(msg@),
            )),
            envelope_not_object(msg@) ==> (r matches Err(e) && e == generic_err_of(
                parse_error_sentence(None),
            )),
            envelope_is_object(msg@) && envelope_names(msg@).len() != 1 ==> (r matches Err(e)
                && e == generic_err_of(parse_error_sentence(Some("too many module payloads"@)))),
            envelope_is_object(msg@) && envelope_names(msg@).len() == 1 && !old(self).has(
                envelope_names(msg@)[0],
            ) ==> (r matches Err(e) && e == generic_err_of(not_found_sentence(
                envelope_names(msg@)[0],
            ))),
            r is Ok ==> envelope_is_object(msg@) && envelope_names(msg@).len() == 1 && old(
                self,
            ).has(envelope_names(msg@)[0]),
    {
        let parsed = parse_envelope(msg);
        match parsed {
            ParsedEnvelope::Malformed(e) => Err(host_generic_err(e)),
            ParsedEnvelope::NotObject => Err(
                host_generic_err(Error::ParseError { msg: None }.to_sentence_string()),
            ),
            ParsedEnvelope::Entries(entries) => {
                if entries.len() != 1 {
                    let detail = "too many module payloads".to_owned();
                    Err(
                        host_generic_err(
                            Error::ParseError { msg: Some(detail) }.to_sentence_string(),
                        ),
                    )
                } else {
                    proof {
                        lemma_assoc_contains(self.modules@, entries@[0].0@);
                    }
                    let found = self.find_index(&entries[0].0);
                    match found {
                        None => Err(
                            host_generic_err(
                                Error::NotFoundError {
                                    module: entries[0].0.clone(),
                                }.to_sentence_string(),
                            ),
                        ),
                        Some(i) => {
                            let entry = &self.modules[i];
                            entry.1.query_value(&entries[0].1)
                        },
                    }
                }
            },
        }
    }

    /// Dispatches a JSON-encoded instantiate envelope, which may address
    /// several modules: one entry per module, each of which must be
    /// registered. The addressed modules are instantiated in the order the
    /// envelope's entries decode, and their responses are folded into one
    /// combined outbound response. The first unknown name or failing module
    /// aborts the call with only an error string — side effects already
    /// folded for earlier modules are abandoned, not rolled back, and
    /// earlier modules' own state changes stay. The host context is passed
    /// along untouched.
    pub fn instantiate<D>(
        &mut self,
        _deps: D,
        _env: Env,
        _info: MessageInfo,
        msgs: &str,
    ) -> (r: Result<cosmwasm_std::Response<Binary>, String>)
        requires
            old(self).wf(),
        ensures
            final(self).wf(),
            final(self).as_map().dom() == old(self).as_map().dom(),
            envelope_failed(msgs@) ==> (r matches Err(s) && s@ == envelope_fail_msg(msgs@)
                && *final(self) == *old(self)),
            envelope_not_object(msgs@) ==> (r matches Err(s) && s@ == parse_error_record(None)
                && *final(self) == *old(self)),
            envelope_is_object(msgs@) && envelope_names(msgs@).len() > 0 && !old(self).has(
                envelope_names(msgs@)[0],
            ) ==> (r matches Err(s) && s@ == not_found_record(envelope_names(msgs@)[0])
                && *final(self) == *old(self)),
            envelope_is_object(msgs@) && envelope_names(msgs@).len() == 0 ==> (r matches Ok(out)
                && out == host_response_of(
                Seq::<SubMsg<Binary>>::empty(),
                Seq::<cosmwasm_std::Attribute>::empty(),
                Seq::<cosmwasm_std::Event>::empty(),
                Option::<Binary>::None,
            ) && *final(self) == *old(self)),
            envelope_is_object(msgs@) ==> (forall|n: Seq<char>|
                old(self).has(n) && !envelope_names(msgs@).contains(n)
                    ==> #[trigger] final(self).as_map()[n] == old(self).as_map()[n]),
            (exists|k: int|
                0 <= k < envelope_names(msgs@).len() && !old(self).has(
                    envelope_names(msgs@)[k],
                )) ==> r is Err,
            r is Ok ==> forall|k: int|
                0 <= k < envelope_names(msgs@).len() ==> old(self).has(envelope_names(msgs@)[k]),
    {
        let parsed = parse_envelope(msgs);
        match parsed {
            ParsedEnvelope::Malformed(e) => Err(e),
            ParsedEnvelope::NotObject => Err(Error::ParseError { msg: None }.to_record_string()),
            ParsedEnvelope::Entries(entries) => {
                let ghost names = envelope_names(msgs@);
                let mut aggregator = Aggregator::new();
                let mut k: usize = 0;
                while k < entries.len()
                    invariant
                        old(self).wf(),
                        self.wf(),
                        self.as_map().dom() == old(self).as_map().dom(),
                        forall|n: Seq<char>|
                            old(self).has(n) && !names.contains(n)
                                ==> #[trigger] self.as_map()[n] == old(self).as_map()[n],
                        k <= entries@.len(),
                        k == 0 ==> *self == *old(self),
                        k == 0 ==> aggregator.messages@.len() == 0
                            && aggregator.attributes@.len() == 0 && aggregator.events@.len() == 0
                            && aggregator.data@.len() == 0,
                        aggregator.wf(),
                        envelope_is_object(msgs@),
                        names == envelope_names(msgs@),
                        names == entries@.map_values(
                            |e: (String, serde_json::Value)| e.0@,
                        ),
                        forall|j: int| 0 <= j < k ==> old(self).has(names[j]),
                    decreases entries@.len() - k,
                {
                    proof {
                        lemma_assoc_contains(self.modules@, entries@[k as int].0@);
                    }
                    let found = self.find_index(&entries[k].0);
                    match found {
                        None => {
                            return Err(
                                Error::NotFoundError {
                                    module: entries[k].0.clone(),
                                }.to_record_string(),
                            );
                        },
                        Some(i) => {
                            let ghost s0 = self.modules@;
                            let (nm, mut m) = self.modules.remove(i);
                            let result = m.instantiate_value(&entries[k].1);
                            let pair = (nm, m);
                            let ghost p = pair;
                            self.modules.insert(i, pair);
                            proof {
                                assert(self.modules@ =~= s0.update(i as int, p));
                                lemma_assoc_update(s0, i as int, p.1);
                                assert(self.as_map().dom() =~= old(self).as_map().dom());
                                assert(names.contains(names[k as int]));
                                assert forall|n: Seq<char>|
                                    old(self).has(n) && !names.contains(n) implies #[trigger] self
                                    .as_map()[n] == old(self).as_map()[n] by {
                                    assert(n != names[k as int]);
                                }
                            }
                            match result {
                                Err(e) => {
                                    return Err(e);
                                },
                                Ok(resp) => {
                                    aggregator.fold_response(entries[k].0.clone(), resp);
                                },
                            }
                        },
                    }
                    k += 1;
                }
                let out = aggregator.aggregate();
                proof {
                    if names.len() == 0 {
                        assert(aggregator.messages@ =~= Seq::<SubMsg<Binary>>::empty());
                        assert(crate::response::attrs_out_spec(aggregator.attributes@)
                            =~= Seq::<cosmwasm_std::Attribute>::empty());
                        assert(crate::response::events_out_spec(aggregator.events@)
                            =~= Seq::<cosmwasm_std::Event>::empty());
                    }
                }
                Ok(out)
            },
        }
    }
}

impl<M> Default for Manager<M> {
    fn default() -> (r: Self)
        ensures
            r.wf(),
            r.as_map() == Map::<Seq<char>, M>::empty(),
    {
        Manager::new()
    }
}

/// A successful registration adds exactly the new binding: the name now
/// resolves to the registered module, and every other name resolves as it
/// did before. Together with `register`'s contract this says that two
/// distinct names can both be registered, and that a second registration
/// under an already-taken name is rejected with the registry unchanged and
/// the first module still reachable.
pub proof fn lemma_register_effect<M>(pre: Manager<M>, post: Manager<M>, name: String, module: M)
    requires
        !pre.has(name@),
        post.as_map() == pre.as_map().insert(name@, module),
    ensures
        post.has(name@),
        post.as_map()[name@] == module,
        forall|other: Seq<char>|
            other != name@ ==> (#[trigger] post.has(other) <==> pre.has(other)),
        forall|other: Seq<char>|
            other != name@ && pre.has(other) ==> #[trigger] post.as_map()[other]
                == pre.as_map()[other],
{
}

} // verus!
