//! The list model adapter: a GObject instance that answers the list model
//! interface from an application's [`ListBoxModel`].
//!
//! The adapter keeps nothing but the source. Every count and every item is
//! asked of the source at the moment of the call, and every item leaves in a
//! value container of its own.

use vstd::prelude::*;
use std::marker::PhantomData;
use crate::gobject_fzn::container_gobject::{ContainerGObject, Disposal};
use crate::gobject_fzn::type_info::{describe_type, type_info_of, ParentLayout, TypeError};
use crate::gobject_fzn::type_registry::{answers, TypeRegistry, TypeRequest};
use crate::public_interface::ListBoxModel;

verus! {

/// The part of a GObject instance that holds a list model of type `LBM`
/// with items of type `T`.
pub struct ListBoxModelGObject<T, LBM: ListBoxModel<T>> {
    g_type: usize,
    list_box_model: Option<LBM>,
    phantom: PhantomData<T>,
}

impl<T, LBM: ListBoxModel<T>> ListBoxModelGObject<T, LBM> {
    /// The runtime type that the instance was created as.
    pub closed spec fn g_type(&self) -> usize {
        self.g_type
    }

    /// The source; none once the instance has been disposed of.
    pub closed spec fn source(&self) -> Option<LBM> {
        self.list_box_model
    }

    /// What the names of the adapter types start with.
    pub open spec fn name_prefix() -> Seq<char> {
        "RustListBoxModelGObject"@
    }

    /// Takes ownership of `list_box_model` in an adapter of the runtime
    /// type that `registry` holds for `key`, the key of the model's type.
    /// There is no adapter of a type that has not been registered.
    pub fn new(list_box_model: LBM, registry: &TypeRegistry, key: u64) -> (adapter: Option<Self>)
        requires
            registry.wf(),
        ensures
            adapter is Some <==> registry.types().contains_key(key),
            adapter is Some ==> {
                &&& adapter->0.source() == Some(list_box_model)
                &&& adapter->0.g_type() == registry.types()[key]
            },
    {
        match registry.get(key) {
            Some(g_type) => Some(
                ListBoxModelGObject {
                    g_type,
                    list_box_model: Some(list_box_model),
                    phantom: PhantomData,
                },
            ),
            None => None,
        }
    }

    /// Answers a request for the runtime type of the adapters of the model
    /// type with key `key`: the cached type, or the registration to
    /// perform, which attaches the list model interface. The key stands for
    /// the model type, not for the item type: two models with the same
    /// items are two types.
    pub fn get_type(registry: &mut TypeRegistry, key: u64, parent: &ParentLayout) -> (request:
        Result<TypeRequest, TypeError>)
        requires
            old(registry).wf(),
        ensures
            final(registry).wf(),
            answers(
                *old(registry),
                *final(registry),
                key,
                Self::name_prefix(),
                type_info_of::<Self>(*parent),
                true,
                request,
            ),
    {
        if let Some(g_type) = registry.get(key) {
            return Ok(TypeRequest::Cached(g_type));
        }
        match describe_type::<Self>(parent) {
            Ok(info) => registry.get_or_register(key, "RustListBoxModelGObject", info, true),
            Err(error) => Err(error),
        }
    }

    /// Whether the adapter still holds its source.
    pub fn is_live(&self) -> (live: bool)
        ensures
            live == self.source() is Some,
    {
        self.list_box_model.is_some()
    }

    /// The runtime type that the instance was created as.
    pub fn instance_type(&self) -> (g_type: usize)
        ensures
            g_type == self.g_type(),
    {
        self.g_type
    }

    /// The dispose hook: gives the source up for destruction and names the
    /// type whose parent class goes on. The adapter is empty afterwards, so
    /// a second run finds nothing to destroy.
    pub fn dispose(&mut self) -> (disposal: Disposal<LBM>)
        ensures
            disposal.payload == old(self).source(),
            disposal.parent_of == old(self).g_type(),
            final(self).source() is None,
            final(self).g_type() == old(self).g_type(),
    {
        let payload = self.list_box_model.take();
        Disposal { payload, parent_of: self.g_type }
    }

    /// The item-type query: the runtime type of the containers in which
    /// items leave, which is the container type of the item type with key
    /// `item_key` in the containers' registry.
    pub fn g_list_model_get_item_type(
        containers: &mut TypeRegistry,
        item_key: u64,
        parent: &ParentLayout,
    ) -> (request: Result<TypeRequest, TypeError>)
        requires
            old(containers).wf(),
        ensures
            final(containers).wf(),
            answers(
                *old(containers),
                *final(containers),
                item_key,
                ContainerGObject::<T>::name_prefix(),
                type_info_of::<ContainerGObject<T>>(*parent),
                false,
                request,
            ),
    {
        ContainerGObject::<T>::get_type(containers, item_key, parent)
    }

    /// The count query: what the source reports at this call, unchanged.
    pub fn g_list_model_get_n_items(&self) -> (n: u32)
        requires
            self.source() is Some,
        ensures
            call_ensures(LBM::get_n_items, (&self.source()->0,), n),
    {
        self.list_box_model.as_ref().unwrap().get_n_items()
    }

    /// The item query: what the source returns for `position` at this
    /// call, in a fresh container of the runtime type that `containers`
    /// holds for `item_key`. The container belongs to the caller. Whether
    /// `position` is acceptable is the source's business alone: it is
    /// handed on as it came. There is no item while the container type is
    /// not registered, and the source is not asked then.
    pub fn g_list_model_get_item(
        &self,
        position: u32,
        containers: &TypeRegistry,
        item_key: u64,
    ) -> (item: Option<ContainerGObject<T>>)
        requires
            self.source() is Some,
            containers.wf(),
        ensures
            item is Some <==> containers.types().contains_key(item_key),
            item is Some ==> {
                &&& item->0.payload() is Some
                &&& call_ensures(
                    LBM::get_item,
                    (&self.source()->0, position),
                    item->0.payload()->0,
                )
                &&& item->0.g_type() == containers.types()[item_key]
            },
    {
        if containers.get(item_key).is_none() {
            return None;
        }
        let value = self.list_box_model.as_ref().unwrap().get_item(position);
        ContainerGObject::new(value, containers, item_key)
    }
}

} // verus!
