//! The cache of registered runtime types.
//!
//! A Rust type is registered with GObject once, on first use, and keeps the
//! runtime type it was given for the rest of the process. The registry is
//! the memory of that: it maps the key of each Rust type to its runtime type,
//! and it issues the name for each new registration. It never talks to
//! GObject. On a miss it says what to register; the caller registers and
//! reports the runtime type back with [`TypeRegistry::record`].

use vstd::prelude::*;
use std::collections::HashMap;
use std::collections::HashSet;
use crate::gobject_fzn::naming::{issued_name, lemma_issued_name_injective, make_name};
use crate::gobject_fzn::type_info::{TypeError, TypeInfo};

verus! {

broadcast use vstd::std_specs::hash::group_hash_axioms;

/// A registration that GObject is to perform.
pub struct TypeRegistration {
    /// The name of the new type, unused so far in this registry.
    pub name: String,
    /// The sizes and hooks of the new type.
    pub info: TypeInfo,
    /// Whether the list model interface is to be attached to the new type.
    pub list_model: bool,
}

/// The answer to a request for the runtime type of a key.
pub enum TypeRequest {
    /// The key has this runtime type already.
    Cached(usize),
    /// The key has none: this registration is to be performed, and its
    /// result recorded.
    Register(TypeRegistration),
}

/// The runtime types registered so far, by key, and the counter behind
/// their names.
pub struct TypeRegistry {
    types_cache: HashMap<u64, usize>,
    recorded: HashSet<usize>,
    type_index: usize,
}

impl TypeRegistry {
    /// The runtime type of each registered key.
    pub closed spec fn types(&self) -> Map<u64, usize> {
        self.types_cache@
    }

    /// The counter value that the next issued name will carry.
    pub closed spec fn next_index(&self) -> nat {
        self.type_index as nat
    }

    /// Whether some key has the runtime type `g_type`.
    pub open spec fn has_type(&self, g_type: usize) -> bool {
        exists|key: u64| #[trigger] self.types().contains_key(key) && self.types()[key] == g_type
    }

    /// The registry is consistent: no key has the invalid type, no two keys
    /// share a runtime type, and the set of recorded types is kept in step
    /// with the map.
    pub closed spec fn wf(&self) -> bool {
        &&& forall|key: u64| #[trigger]
            self.types_cache@.contains_key(key) ==> self.types_cache@[key] != 0
        &&& forall|a: u64, b: u64|
            #![trigger self.types_cache@.contains_key(a), self.types_cache@.contains_key(b)]
            self.types_cache@.contains_key(a) && self.types_cache@.contains_key(b)
                && self.types_cache@[a] == self.types_cache@[b] ==> a == b
        &&& forall|g_type: usize| #[trigger]
            self.recorded@.contains(g_type) <==> self.has_type(g_type)
    }

    /// What a lookup of `key` finds.
    pub open spec fn lookup(&self, key: u64) -> Option<usize> {
        if self.types().contains_key(key) {
            Some(self.types()[key])
        } else {
            None
        }
    }

    /// What recording `g_type` for `key` comes to.
    pub open spec fn record_outcome(&self, key: u64, g_type: usize) -> Result<(), TypeError> {
        if g_type == 0 {
            Err(TypeError::RegistrationFailed)
        } else if self.types().contains_key(key) {
            Err(TypeError::KeyAlreadyRegistered)
        } else if self.has_type(g_type) {
            Err(TypeError::TypeAlreadyRecorded)
        } else {
            Ok(())
        }
    }

    /// An empty registry whose first name will carry the counter value zero.
    pub fn new() -> (registry: Self)
        ensures
            registry.wf(),
            registry.types() == Map::<u64, usize>::empty(),
            registry.next_index() == 0,
    {
        let registry = TypeRegistry {
            types_cache: HashMap::new(),
            recorded: HashSet::new(),
            type_index: 0,
        };
        assert(registry.wf()) by {
            assert forall|g_type: usize| !registry.has_type(g_type) by {}
        }
        registry
    }

    /// An empty registry whose first name will carry the counter value
    /// `index`, for a process in which the names below it are taken.
    pub fn starting_at(index: usize) -> (registry: Self)
        ensures
            registry.wf(),
            registry.types() == Map::<u64, usize>::empty(),
            registry.next_index() == index,
    {
        let registry = TypeRegistry {
            types_cache: HashMap::new(),
            recorded: HashSet::new(),
            type_index: index,
        };
        assert(registry.wf()) by {
            assert forall|g_type: usize| !registry.has_type(g_type) by {}
        }
        registry
    }

    /// The counter value that the next issued name will carry.
    pub fn name_index(&self) -> (index: usize)
        ensures
            index == self.next_index(),
    {
        self.type_index
    }

    /// The runtime type of `key`, if it has one.
    pub fn get(&self, key: u64) -> (found: Option<usize>)
        requires
            self.wf(),
        ensures
            found == self.lookup(key),
    {
        match self.types_cache.get(&key) {
            Some(g_type) => Some(*g_type),
            None => None,
        }
    }

    /// Whether `g_type` is the runtime type of some key.
    pub fn is_recorded(&self, g_type: usize) -> (found: bool)
        requires
            self.wf(),
        ensures
            found == self.has_type(g_type),
    {
        self.recorded.contains(&g_type)
    }

    /// Answers a request for the runtime type of `key`.
    ///
    /// A registered key gets its runtime type and the registry stays as it
    /// is. Any other key gets a registration to perform, under the name
    /// `prefix` followed by the counter, and the counter moves on by one, so
    /// that no later request repeats the name. The map is not touched: the
    /// key stays unregistered until [`TypeRegistry::record`] is told the
    /// outcome. When the counter has no value left, the request fails and
    /// the registry stays as it is.
    pub fn get_or_register(
        &mut self,
        key: u64,
        prefix: &str,
        info: TypeInfo,
        list_model: bool,
    ) -> (request: Result<TypeRequest, TypeError>)
        requires
            old(self).wf(),
        ensures
            final(self).wf(),
            answers(
                *old(self),
                *final(self),
                key,
                prefix@,
                Ok(info),
                list_model,
                request,
            ),
    {
        if let Some(g_type) = self.types_cache.get(&key) {
            return Ok(TypeRequest::Cached(*g_type));
        }
        if self.type_index == usize::MAX {
            return Err(TypeError::NamesExhausted);
        }
        let name = make_name(prefix, self.type_index);
        let ghost before = *self;
        self.type_index = self.type_index + 1;
        proof {
            assert(final(self).types() == before.types());
            assert forall|g_type: usize| #[trigger]
                final(self).recorded@.contains(g_type) <==> final(self).has_type(g_type) by {
                assert(before.recorded@.contains(g_type) <==> before.has_type(g_type));
                assert(final(self).has_type(g_type) == before.has_type(g_type));
            }
        }
        Ok(TypeRequest::Register(TypeRegistration { name, info, list_model }))
    }

    /// Records that GObject registered `g_type` for `key`.
    ///
    /// The outcome is refused, and the registry stays as it is, when
    /// `g_type` is the invalid type (the registration failed), when `key`
    /// has a runtime type already, or when `g_type` is the runtime type of
    /// another key. Otherwise `key` has the runtime type `g_type` from now
    /// on, and every other key keeps what it had.
    pub fn record(&mut self, key: u64, g_type: usize) -> (outcome: Result<(), TypeError>)
        requires
            old(self).wf(),
        ensures
            final(self).wf(),
            outcome == old(self).record_outcome(key, g_type),
            final(self).next_index() == old(self).next_index(),
            outcome is Ok ==> final(self).types() == old(self).types().insert(key, g_type),
            outcome is Err ==> final(self).types() == old(self).types(),
    {
        if g_type == 0 {
            return Err(TypeError::RegistrationFailed);
        }
        if self.types_cache.contains_key(&key) {
            return Err(TypeError::KeyAlreadyRegistered);
        }
        if self.recorded.contains(&g_type) {
            return Err(TypeError::TypeAlreadyRecorded);
        }
        let ghost before = *self;
        self.types_cache.insert(key, g_type);
        self.recorded.insert(g_type);
        proof {
            assert(final(self).types_cache@ == before.types_cache@.insert(key, g_type));
            assert forall|t: usize| #[trigger]
                final(self).recorded@.contains(t) <==> final(self).has_type(t) by {
                if final(self).recorded@.contains(t) {
                    if t == g_type {
                        assert(final(self).types().contains_key(key));
                    } else {
                        assert(before.has_type(t));
                        let k = choose|k: u64| #[trigger]
                            before.types().contains_key(k) && before.types()[k] == t;
                        assert(final(self).types().contains_key(k));
                    }
                }
                if final(self).has_type(t) {
                    let k = choose|k: u64| #[trigger]
                        final(self).types().contains_key(k) && final(self).types()[k] == t;
                    if k != key {
                        assert(before.types().contains_key(k));
                        assert(before.has_type(t));
                    }
                }
            }
            assert forall|a: u64, b: u64|
                #![trigger final(self).types_cache@.contains_key(a), final(self).types_cache@.contains_key(b)]
                final(self).types_cache@.contains_key(a) && final(self).types_cache@.contains_key(b)
                    && final(self).types_cache@[a] == final(self).types_cache@[b] implies a
                == b by {
                if a == key && b != key {
                    assert(before.types().contains_key(b));
                    assert(before.has_type(g_type));
                }
                if b == key && a != key {
                    assert(before.types().contains_key(a));
                    assert(before.has_type(g_type));
                }
            }
        }
        Ok(())
    }
}

/// Whether `request` is the right answer to a request for the runtime type
/// of `key`, and `after` the right state to follow `before`, given the
/// description of the type (or the reason why it has none).
///
/// The map never changes. A registered key gets its runtime type, whatever
/// the description. For any other key a description that failed fails the
/// request with the same error, an exhausted counter fails it too, and else
/// the answer is the registration under the next name, which moves the
/// counter on by one. The counter moves in no other case.
pub open spec fn answers(
    before: TypeRegistry,
    after: TypeRegistry,
    key: u64,
    prefix: Seq<char>,
    described: Result<TypeInfo, TypeError>,
    list_model: bool,
    request: Result<TypeRequest, TypeError>,
) -> bool {
    &&& after.types() == before.types()
    &&& if before.types().contains_key(key) {
        &&& request == Ok::<TypeRequest, TypeError>(TypeRequest::Cached(before.types()[key]))
        &&& after.next_index() == before.next_index()
    } else if described is Err {
        &&& request == Err::<TypeRequest, TypeError>(described->Err_0)
        &&& after.next_index() == before.next_index()
    } else if before.next_index() >= usize::MAX {
        &&& request == Err::<TypeRequest, TypeError>(TypeError::NamesExhausted)
        &&& after.next_index() == before.next_index()
    } else {
        &&& request matches Ok(TypeRequest::Register(registration))
        &&& registration.name@ == issued_name(prefix, before.next_index())
        &&& registration.info == described->Ok_0
        &&& registration.list_model == list_model
        &&& after.next_index() == before.next_index() + 1
    }
}

/// Two different registered keys have different runtime types.
pub proof fn lemma_distinct_keys_distinct_types(registry: TypeRegistry, a: u64, b: u64)
    requires
        registry.wf(),
        registry.types().contains_key(a),
        registry.types().contains_key(b),
        a != b,
    ensures
        registry.types()[a] != registry.types()[b],
{
}

/// No registered key has the invalid type.
pub proof fn lemma_registered_type_is_valid(registry: TypeRegistry, key: u64)
    requires
        registry.wf(),
        registry.types().contains_key(key),
    ensures
        registry.types()[key] != 0,
{
}

/// Entries are added and never changed: after an outcome is recorded for a
/// key, that key has the recorded runtime type, and every key that had a
/// runtime type before has the same one still.
pub proof fn lemma_record_keeps_entries(
    before: TypeRegistry,
    after: TypeRegistry,
    key: u64,
    g_type: usize,
    other: u64,
)
    requires
        before.record_outcome(key, g_type) is Ok,
        after.types() == before.types().insert(key, g_type),
        before.types().contains_key(other),
    ensures
        after.lookup(key) == Some(g_type),
        after.lookup(other) == before.lookup(other),
{
}

/// Asking again for the runtime type of a registered key gives the same
/// runtime type again, asks for no registration and issues no name.
pub proof fn lemma_repeated_request(
    first_state: TypeRegistry,
    second_state: TypeRegistry,
    third_state: TypeRegistry,
    key: u64,
    prefix: Seq<char>,
    described: Result<TypeInfo, TypeError>,
    list_model: bool,
    first: Result<TypeRequest, TypeError>,
    second: Result<TypeRequest, TypeError>,
)
    requires
        first_state.types().contains_key(key),
        answers(first_state, second_state, key, prefix, described, list_model, first),
        answers(second_state, third_state, key, prefix, described, list_model, second),
    ensures
        first == Ok::<TypeRequest, TypeError>(TypeRequest::Cached(first_state.types()[key])),
        second == first,
        third_state.next_index() == first_state.next_index(),
{
}

/// Once the outcome of a registration is recorded for a key, a request for
/// that key is answered with the recorded runtime type.
pub proof fn lemma_recorded_then_cached(
    before: TypeRegistry,
    recorded: TypeRegistry,
    after: TypeRegistry,
    key: u64,
    g_type: usize,
    prefix: Seq<char>,
    described: Result<TypeInfo, TypeError>,
    list_model: bool,
    request: Result<TypeRequest, TypeError>,
)
    requires
        recorded.types() == before.types().insert(key, g_type),
        answers(recorded, after, key, prefix, described, list_model, request),
    ensures
        request == Ok::<TypeRequest, TypeError>(TypeRequest::Cached(g_type)),
{
}

/// Two registrations that one registry asks for under one prefix carry
/// different names, however the registry was used in between: the counter
/// only moves forward.
pub proof fn lemma_registrations_differ_in_name(
    earlier_before: TypeRegistry,
    earlier_after: TypeRegistry,
    later_before: TypeRegistry,
    later_after: TypeRegistry,
    earlier_key: u64,
    later_key: u64,
    prefix: Seq<char>,
    earlier_described: Result<TypeInfo, TypeError>,
    later_described: Result<TypeInfo, TypeError>,
    earlier_list_model: bool,
    later_list_model: bool,
    earlier: TypeRegistration,
    later: TypeRegistration,
)
    requires
        answers(
            earlier_before,
            earlier_after,
            earlier_key,
            prefix,
            earlier_described,
            earlier_list_model,
            Ok(TypeRequest::Register(earlier)),
        ),
        answers(
            later_before,
            later_after,
            later_key,
            prefix,
            later_described,
            later_list_model,
            Ok(TypeRequest::Register(later)),
        ),
        earlier_after.next_index() <= later_before.next_index(),
    ensures
        earlier.name@ != later.name@,
{
    if earlier.name@ == later.name@ {
        lemma_issued_name_injective(
            prefix,
            earlier_before.next_index(),
            later_before.next_index(),
        );
    }
}

} // verus!
