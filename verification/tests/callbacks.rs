use iup::registry::on_element_destroy;
use iup::registry::CallbackReturn;
use iup::registry::Registry;

#[test]
fn firing_without_an_entry_is_a_noop() {
    let mut reg = Registry::new();
    assert_eq!(on_element_destroy(&mut reg, 0x7), CallbackReturn::Default);
    assert!(!reg.contains(0x7));
    reg.register_callback(0x9, 1);
    assert_eq!(on_element_destroy(&mut reg, 0x7), CallbackReturn::Default);
    assert!(reg.contains(0x9));
    assert_eq!(reg.callback_count(0x9), 1);
}

#[test]
fn registrations_accumulate_per_handle() {
    let mut reg = Registry::new();
    assert_eq!(reg.callback_count(0x3), 0);
    reg.register_callback(0x3, 10);
    reg.register_callback(0x3, 20);
    reg.register_callback(0x4, 30);
    assert_eq!(reg.callback_count(0x3), 2);
    assert_eq!(reg.callback_count(0x4), 1);
}

#[test]
fn purge_removes_exactly_one_entry() {
    let mut reg = Registry::new();
    reg.register_callback(0x1, 10);
    reg.register_callback(0x2, 20);
    reg.drop_callbacks(0x1);
    assert!(!reg.contains(0x1));
    assert_eq!(reg.callback_count(0x1), 0);
    assert!(reg.contains(0x2));
    assert_eq!(reg.callback_count(0x2), 1);
}

#[test]
fn registering_after_a_purge_starts_fresh() {
    let mut reg = Registry::new();
    reg.register_callback(0x5, 10);
    reg.register_callback(0x5, 11);
    reg.drop_callbacks(0x5);
    assert_eq!(reg.callback_count(0x5), 0);
    reg.register_callback(0x5, 12);
    assert!(reg.contains(0x5));
    assert_eq!(reg.callback_count(0x5), 1);
}
