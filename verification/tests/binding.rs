use fzn_gtk::gobject_fzn::list_box_model_gobject::ListBoxModelGObject;
use fzn_gtk::gobject_fzn::type_info::ParentLayout;
use fzn_gtk::gobject_fzn::type_registry::{TypeRegistry, TypeRequest};
use fzn_gtk::gobject_fzn::GObjectPtrWrapper;
use fzn_gtk::public_interface::{
    create_widget, gtk_list_box_bind_model, user_data_free_func, ListBoxModel,
};

struct MyList<T> {
    items: Vec<T>,
}

impl<T: Clone> ListBoxModel<T> for MyList<T> {
    fn get_n_items(&self) -> u32 {
        self.items.len() as _
    }

    fn get_item(&self, index: u32) -> T {
        self.items[index as usize].clone()
    }
}

/* A label, as far as this test looks at one. */
#[derive(Debug, PartialEq)]
struct Label {
    text: String,
}

fn create_widget_fn(s: &String) -> Label {
    Label { text: s.clone() }
}

fn gobject_layout() -> ParentLayout {
    ParentLayout { instance_size: 24, instance_align: 8, class_size: 136 }
}

fn register(registry: &mut TypeRegistry, key: u64, request: TypeRequest, g_type: usize) -> usize {
    match request {
        TypeRequest::Cached(g_type) => g_type,
        TypeRequest::Register(_) => {
            assert_eq!(registry.record(key, g_type), Ok(()));
            g_type
        }
    }
}

#[test]
fn public_interface_try_creating_a_list_box() {
    let mut adapters = TypeRegistry::new();
    let mut containers = TypeRegistry::new();
    let my_list = MyList::<String> {
        items: vec![
            String::from("Kingdom"),
            String::from("Phylum"),
            String::from("Class"),
            String::from("Order"),
            String::from("Family"),
            String::from("Genus"),
            String::from("Species"),
        ],
    };

    let request = ListBoxModelGObject::<String, MyList<String>>::get_type(
        &mut adapters,
        1,
        &gobject_layout(),
    )
    .unwrap();
    let model_type = register(&mut adapters, 1, request, 0x5004);
    let binding = gtk_list_box_bind_model(my_list, create_widget_fn, &adapters, 1).unwrap();
    assert_eq!(binding.model.instance_type(), model_type);
    let model = GObjectPtrWrapper::<ListBoxModelGObject<String, MyList<String>>>::from_glib_full(0x30000)
        .unwrap()
        .to_glib_full();
    assert_eq!(model, 0x30000);

    /* What the list box does with what it was given. */
    let request = ListBoxModelGObject::<String, MyList<String>>::g_list_model_get_item_type(
        &mut containers,
        2,
        &gobject_layout(),
    )
    .unwrap();
    let row_type = register(&mut containers, 2, request, 0x5008);
    assert_eq!(binding.model.g_list_model_get_n_items(), 7);
    let mut rows = Vec::new();
    for position in 0..binding.model.g_list_model_get_n_items() {
        let item = binding.model.g_list_model_get_item(position, &containers, 2).unwrap();
        assert_eq!(item.instance_type(), row_type);
        rows.push(create_widget(&item, &*binding.user_data).text);
    }
    assert_eq!(rows, vec!["Kingdom", "Phylum", "Class", "Order", "Family", "Genus", "Species"]);
    let _widget_creator = user_data_free_func(binding.user_data);
}

#[test]
fn binding_needs_a_registered_adapter_type() {
    let adapters = TypeRegistry::new();
    let my_list = MyList::<String> { items: vec![String::from("Kingdom")] };
    assert!(gtk_list_box_bind_model(my_list, create_widget_fn, &adapters, 1).is_none());
}

#[test]
fn binding_keeps_model_and_widget_creator() {
    let mut adapters = TypeRegistry::new();
    assert_eq!(adapters.record(4, 0x7000), Ok(()));
    let my_list = MyList::<u32> { items: vec![4, 5, 6] };
    let binding = gtk_list_box_bind_model(my_list, |n: &u32| n + 1, &adapters, 4).unwrap();
    assert_eq!(binding.model.instance_type(), 0x7000);
    assert!(binding.model.is_live());
    assert_eq!(binding.model.g_list_model_get_n_items(), 3);
    assert_eq!((binding.user_data)(&41), 42);
}

#[test]
fn create_widget_hands_the_carried_value_to_the_creator() {
    let mut adapters = TypeRegistry::new();
    let mut containers = TypeRegistry::new();
    assert_eq!(adapters.record(4, 0x7000), Ok(()));
    assert_eq!(containers.record(5, 0x7004), Ok(()));
    let adapter =
        ListBoxModelGObject::<u32, MyList<u32>>::new(MyList { items: vec![4, 5, 6] }, &adapters, 4)
            .unwrap();
    let item = adapter.g_list_model_get_item(2, &containers, 5).unwrap();
    let widget = create_widget(&item, &|n: &u32| Label { text: format!("row {}", n) });
    assert_eq!(widget, Label { text: String::from("row 6") });
    assert_eq!(*item.get(), 6);
}

#[test]
fn user_data_free_func_hands_the_widget_creator_back() {
    let user_data = Box::new(String::from("widget creator"));
    assert_eq!(user_data_free_func(user_data), "widget creator");
}
