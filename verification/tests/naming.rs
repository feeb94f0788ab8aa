use fzn_gtk::gobject_fzn::naming::{make_name, push_decimal};

#[test]
fn name_is_prefix_and_counter() {
    assert_eq!(make_name("RustContainerGObject", 0), "RustContainerGObject0");
    assert_eq!(make_name("RustContainerGObject", 7), "RustContainerGObject7");
    assert_eq!(make_name("RustListBoxModelGObject", 10), "RustListBoxModelGObject10");
    assert_eq!(make_name("RustListBoxModelGObject", 1234567890), "RustListBoxModelGObject1234567890");
}

#[test]
fn name_with_an_empty_prefix() {
    assert_eq!(make_name("", 0), "0");
    assert_eq!(make_name("", 909), "909");
}

#[test]
fn decimal_is_what_the_standard_library_writes() {
    for n in [0usize, 1, 9, 10, 11, 99, 100, 101, 1000, 65535, 4294967295, usize::MAX] {
        let mut out = String::from("n=");
        push_decimal(&mut out, n);
        assert_eq!(out, format!("n={}", n));
    }
}

#[test]
fn different_counters_give_different_names() {
    let mut names = Vec::new();
    for index in 0..200 {
        let name = make_name("Rust", index);
        assert!(!names.contains(&name));
        names.push(name);
    }
}
