use fzn_gtk::gobject_fzn::ref_count::RefCountCall;
use fzn_gtk::gobject_fzn::{GObjectPtrWrapper, GObjectWrapper};

#[test]
fn wrapper_hands_its_address_out() {
    let handle = GObjectWrapper::<String>::from_glib_full(0x1000).unwrap();
    assert_eq!(handle.to_glib_full(), 0x1000);
}

#[test]
fn wrapper_of_the_null_address_does_not_exist() {
    assert!(GObjectWrapper::<String>::from_glib_full(0).is_none());
    assert!(GObjectWrapper::<String>::from_glib_full(1).is_some());
}

#[test]
fn wrapper_share_takes_a_reference() {
    let handle = GObjectWrapper::<String>::from_glib_full(0x1000).unwrap();
    let (second, call) = handle.share();
    assert_eq!(call, RefCountCall::Ref(0x1000));
    assert_eq!(second.to_glib_full(), 0x1000);
    assert_eq!(handle.to_glib_full(), 0x1000);
}

#[test]
fn wrapper_release_gives_a_reference_back() {
    let handle = GObjectWrapper::<String>::from_glib_full(0x1000).unwrap();
    assert_eq!(handle.release(), RefCountCall::Unref(0x1000));
}

#[test]
fn wrapper_clones_and_drops_balance() {
    let handle = GObjectWrapper::<u8>::from_glib_full(0x2000).unwrap();
    let mut count: i64 = 1;
    let mut handles = vec![handle];
    for _ in 0..3 {
        let (next, call) = handles[0].share();
        assert_eq!(call, RefCountCall::Ref(0x2000));
        count += 1;
        handles.push(next);
    }
    assert_eq!(count, 4);
    for handle in handles {
        assert!(count > 0);
        assert_eq!(handle.release(), RefCountCall::Unref(0x2000));
        count -= 1;
    }
    assert_eq!(count, 0);
}

#[test]
fn ptr_wrapper_hands_its_address_out() {
    let handle = GObjectPtrWrapper::<String>::from_glib_full(0x1000).unwrap();
    assert_eq!(handle.to_glib_full(), 0x1000);
}

#[test]
fn ptr_wrapper_of_the_null_address_does_not_exist() {
    assert!(GObjectPtrWrapper::<String>::from_glib_full(0).is_none());
    assert!(GObjectPtrWrapper::<String>::from_glib_full(usize::MAX).is_some());
}

#[test]
fn ptr_wrapper_share_takes_a_reference() {
    let handle = GObjectPtrWrapper::<String>::from_glib_full(0x1000).unwrap();
    let (second, call) = handle.share();
    assert_eq!(call, RefCountCall::Ref(0x1000));
    assert_eq!(second.to_glib_full(), 0x1000);
    assert_eq!(handle.release(), RefCountCall::Unref(0x1000));
}
