//! What an application sees: the list model it implements, and the binding
//! of such a model to a list box.

use vstd::prelude::*;
use crate::gobject_fzn::container_gobject::ContainerGObject;
use crate::gobject_fzn::list_box_model_gobject::ListBoxModelGObject;
use crate::gobject_fzn::type_registry::TypeRegistry;

verus! {

/// A source of items for a list box, implemented by the application.
///
/// A source decides for itself which positions it accepts, and what it does
/// when asked for any other.
pub trait ListBoxModel<T> {
    /// The number of items in the source.
    fn get_n_items(&self) -> u32;

    /// The item at `index`.
    fn get_item(&self, index: u32) -> T;
}

/// What the toolkit is handed when a model is bound to a list box: the
/// adapter, which it owns from then on, and the widget creator, which it
/// keeps as user data until it frees it.
pub struct ListBoxBinding<T, LBM: ListBoxModel<T>, WC> {
    /// The content of the adapter instance.
    pub model: ListBoxModelGObject<T, LBM>,
    /// The user data of the create-widget callback.
    pub user_data: Box<WC>,
}

/// Prepares the binding of `list_box_model` to a list box whose rows
/// `widget_creator` builds. The adapter is of the runtime type that
/// `registry` holds for `key`, the key of the model's type; there is no
/// binding while that type is not registered.
pub fn gtk_list_box_bind_model<T, LBM: ListBoxModel<T>, WC>(
    list_box_model: LBM,
    widget_creator: WC,
    registry: &TypeRegistry,
    key: u64,
) -> (binding: Option<ListBoxBinding<T, LBM, WC>>)
    requires
        registry.wf(),
    ensures
        binding is Some <==> registry.types().contains_key(key),
        binding is Some ==> {
            &&& binding->0.model.source() == Some(list_box_model)
            &&& binding->0.model.g_type() == registry.types()[key]
            &&& *binding->0.user_data == widget_creator
        },
{
    match ListBoxModelGObject::new(list_box_model, registry, key) {
        Some(model) => Some(ListBoxBinding { model, user_data: Box::new(widget_creator) }),
        None => None,
    }
}

/// The create-widget callback: builds the row for `item` by handing the
/// value it carries to the widget creator. The container is only borrowed.
pub fn create_widget<T, W, WC: Fn(&T) -> W>(item: &ContainerGObject<T>, user_data: &WC) -> (widget:
    W)
    requires
        item.payload() is Some,
        call_requires(*user_data, (&item.payload()->0,)),
    ensures
        call_ensures(*user_data, (&item.payload()->0,), widget),
{
    user_data(item.get())
}

/// The free callback: takes the user data back from the toolkit and hands
/// the widget creator out, to be dropped by the caller.
pub fn user_data_free_func<WC>(user_data: Box<WC>) -> (widget_creator: WC)
    ensures
        widget_creator == *user_data,
{
    *user_data
}

} // verus!
