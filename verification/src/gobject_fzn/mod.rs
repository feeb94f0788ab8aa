//! The pieces that stand between Rust values and GObject instances.

pub mod container_gobject;
pub mod gobject_ptr_wrapper;
pub mod gobject_wrapper;
pub mod list_box_model_gobject;
pub mod naming;
pub mod ref_count;
pub mod type_info;
pub mod type_registry;

pub use self::gobject_ptr_wrapper::GObjectPtrWrapper;
pub use self::gobject_wrapper::GObjectWrapper;
