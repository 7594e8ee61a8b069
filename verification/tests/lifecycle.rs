use iup::element::Element;
use iup::element::Handle;
use iup::native::NativeSystem;
use iup::registry::on_element_destroy;
use iup::registry::CallbackReturn;
use iup::registry::Registry;
use iup::widgets::Button;
use iup::widgets::Dialog;
use iup::ElementError;

#[test]
fn null_handle_is_fatal() {
    let mut sys = NativeSystem::new();
    let r: Result<Dialog, ElementError> = Dialog::from_raw(&mut sys, 0);
    assert_eq!(r.unwrap_err(), ElementError::NullHandle);
}

#[test]
fn hook_installed_once_per_handle() {
    let mut sys = NativeSystem::new();
    let h = sys.allocate("dialog");
    assert_eq!(sys.hook_install_count(h), 0);
    let _d: Dialog = Dialog::from_raw(&mut sys, h).unwrap();
    assert_eq!(sys.hook_install_count(h), 1);
    let a1 = Dialog::from_raw_unchecked(h);
    let a2 = Dialog::from_raw_unchecked(h);
    assert_eq!(a1.raw(), h);
    assert_eq!(a2.raw(), h);
    assert_eq!(sys.hook_install_count(h), 1);
}

#[test]
fn map_failure_is_surfaced() {
    let mut sys = NativeSystem::new();
    let h = sys.allocate("dialog");
    let d: Dialog = Dialog::from_raw(&mut sys, h).unwrap();
    assert_eq!(d.map(&mut sys), Ok(()));
    assert!(sys.is_mapped(h));
    d.unmap(&mut sys);
    assert!(!sys.is_mapped(h));
    sys.refuse_mapping(h);
    assert_eq!(d.map(&mut sys), Err(ElementError::NativeFailure));
    assert!(!sys.is_mapped(h));
    assert_eq!(d.show(&mut sys), Err(ElementError::NativeFailure));
    assert!(!sys.is_visible(h));
}

#[test]
fn show_and_conceal_toggle_visibility() {
    let mut sys = NativeSystem::new();
    let h = sys.allocate("dialog");
    let d: Dialog = Dialog::from_raw(&mut sys, h).unwrap();
    assert!(!sys.is_visible(h));
    assert_eq!(d.show(&mut sys), Ok(()));
    assert!(sys.is_mapped(h));
    assert!(sys.is_visible(h));
    d.conceal(&mut sys);
    assert!(!sys.is_visible(h));
    assert!(sys.is_mapped(h));
}

#[test]
fn destroy_fires_the_hook_and_purges() {
    let mut sys = NativeSystem::new();
    let mut reg = Registry::new();
    let h = sys.allocate("dialog");
    let d: Dialog = Dialog::from_raw(&mut sys, h).unwrap();
    reg.register_callback(h, 42);
    assert!(reg.contains(h));
    d.destroy(&mut sys, &mut reg);
    assert!(!sys.is_live(h));
    assert!(!reg.contains(h));
}

#[test]
fn destroy_without_hook_leaves_registry_alone() {
    let mut sys = NativeSystem::new();
    let mut reg = Registry::new();
    let h = sys.allocate("button");
    reg.register_callback(h, 7);
    let b = Button::from_raw_unchecked(h);
    b.destroy(&mut sys, &mut reg);
    assert!(!sys.is_live(h));
    assert!(reg.contains(h));
    assert_eq!(reg.callback_count(h), 1);
}

#[test]
fn handles_are_distinct_and_independent() {
    let mut sys = NativeSystem::new();
    let h1 = sys.allocate("dialog");
    let h2 = sys.allocate("button");
    assert_eq!(h1, 1);
    assert_eq!(h2, 2);
    let d: Dialog = Dialog::from_raw(&mut sys, h1).unwrap();
    let b: Button = Button::from_raw(&mut sys, h2).unwrap();
    d.set_attrib(&mut sys, "TITLE", "main");
    assert_eq!(b.attrib(&sys, "TITLE"), None);
    assert_eq!(d.attrib(&sys, "TITLE"), Some("main".to_owned()));
}

#[test]
fn dialog_stub_scenario() {
    let mut sys = NativeSystem::new();
    let mut reg = Registry::new();
    let h = sys.allocate("dialog");
    assert_eq!(h, 0x1);
    let d: Dialog = Dialog::from_raw(&mut sys, h).unwrap();
    assert_eq!(sys.hook_install_count(h), 1);
    reg.register_callback(h, 11);
    let erased = Handle::from_element(d);
    let wrong: Result<Button, Handle> = erased.try_downcast::<Button>(&sys);
    let erased_again = wrong.unwrap_err();
    assert_eq!(erased_again.raw(), 0x1);
    let right: Dialog = erased_again.try_downcast::<Dialog>(&sys).unwrap();
    assert_eq!(right.raw(), 0x1);
    assert!(reg.contains(h));
    assert_eq!(on_element_destroy(&mut reg, h), CallbackReturn::Default);
    assert!(!reg.contains(h));
    assert_eq!(reg.callback_count(h), 0);
    assert_eq!(on_element_destroy(&mut reg, h), CallbackReturn::Default);
    assert!(!reg.contains(h));
}
