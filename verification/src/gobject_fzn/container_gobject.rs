//! The value container: a GObject instance that carries one Rust value.
//!
//! The container is what follows the GObject header inside the instance. It
//! owns the value from construction until GObject disposes of the instance,
//! and it knows the runtime type it was created as, because the dispose hook
//! has to continue with the parent class of exactly that type.

use vstd::prelude::*;
use crate::gobject_fzn::type_info::{describe_type, type_info_of, ParentLayout, TypeError};
use crate::gobject_fzn::type_registry::{answers, TypeRegistry, TypeRequest};

verus! {

/// What a dispose hook has to do, in this order: destroy `payload`, then
/// call the dispose function of the parent class of `parent_of`.
pub struct Disposal<P> {
    /// The value that the instance carried, if it still carried one.
    pub payload: Option<P>,
    /// The runtime type whose parent class disposes of the rest.
    pub parent_of: usize,
}

/// The part of a GObject instance that holds a value of type `T`.
pub struct ContainerGObject<T> {
    g_type: usize,
    value: Option<T>,
}

impl<T> ContainerGObject<T> {
    /// The runtime type that the instance was created as.
    pub closed spec fn g_type(&self) -> usize {
        self.g_type
    }

    /// The carried value; none once the instance has been disposed of.
    pub closed spec fn payload(&self) -> Option<T> {
        self.value
    }

    /// What the names of the container types start with.
    pub open spec fn name_prefix() -> Seq<char> {
        "RustContainerGObject"@
    }

    /// Answers a request for the runtime type of the containers of the type
    /// with key `key`: the cached type, or the registration to perform. The
    /// new type has the parent's class structure, and instances in which a
    /// container follows the parent's instance structure.
    pub fn get_type(registry: &mut TypeRegistry, key: u64, parent: &ParentLayout) -> (request:
        Result<TypeRequest, TypeError>)
        requires
            old(registry).wf(),
        ensures
            final(registry).wf(),
            answers(
                *old(registry),
                *final(registry),
                key,
                Self::name_prefix(),
                type_info_of::<Self>(*parent),
                false,
                request,
            ),
    {
        if let Some(g_type) = registry.get(key) {
            return Ok(TypeRequest::Cached(g_type));
        }
        match describe_type::<Self>(parent) {
            Ok(info) => registry.get_or_register(key, "RustContainerGObject", info, false),
            Err(error) => Err(error),
        }
    }

    /// Takes ownership of `value` in a container of the runtime type that
    /// `registry` holds for `key`. There is no container of a type that has
    /// not been registered.
    pub fn new(value: T, registry: &TypeRegistry, key: u64) -> (container: Option<Self>)
        requires
            registry.wf(),
        ensures
            container is Some <==> registry.types().contains_key(key),
            container is Some ==> {
                &&& container->0.payload() == Some(value)
                &&& container->0.g_type() == registry.types()[key]
            },
    {
        match registry.get(key) {
            Some(g_type) => Some(ContainerGObject { g_type, value: Some(value) }),
            None => None,
        }
    }

    /// Whether the container still carries its value.
    pub fn is_live(&self) -> (live: bool)
        ensures
            live == self.payload() is Some,
    {
        self.value.is_some()
    }

    /// The runtime type that the instance was created as.
    pub fn instance_type(&self) -> (g_type: usize)
        ensures
            g_type == self.g_type(),
    {
        self.g_type
    }

    /// The carried value.
    pub fn get(&self) -> (value: &T)
        requires
            self.payload() is Some,
        ensures
            *value == self.payload()->0,
    {
        self.value.as_ref().unwrap()
    }

    /// The carried value, if the instance has not been disposed of.
    pub fn try_get(&self) -> (value: Option<&T>)
        ensures
            value is Some <==> self.payload() is Some,
            value is Some ==> *value->0 == self.payload()->0,
    {
        self.value.as_ref()
    }

    /// The dispose hook: gives the carried value up for destruction and
    /// names the type whose parent class goes on. The container is empty
    /// afterwards, so a second run finds nothing to destroy.
    pub fn dispose(&mut self) -> (disposal: Disposal<T>)
        ensures
            disposal.payload == old(self).payload(),
            disposal.parent_of == old(self).g_type(),
            final(self).payload() is None,
            final(self).g_type() == old(self).g_type(),
    {
        let payload = self.value.take();
        Disposal { payload, parent_of: self.g_type }
    }
}

} // verus!
