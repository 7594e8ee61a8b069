use iup::element::Element;
use iup::native::NativeSystem;
use iup::widgets::Dialog;

#[test]
fn unset_attribute_is_distinct_from_empty_string() {
    let mut sys = NativeSystem::new();
    let h = sys.allocate("dialog");
    let d: Dialog = Dialog::from_raw(&mut sys, h).unwrap();
    assert_eq!(d.attrib(&sys, "TITLE"), None);
    d.set_attrib(&mut sys, "TITLE", "");
    assert_eq!(d.attrib(&sys, "TITLE"), Some(String::new()));
    d.clear_attrib(&mut sys, "TITLE");
    assert_eq!(d.attrib(&sys, "TITLE"), None);
}

#[test]
fn set_attrib_overwrites_and_chains() {
    let mut sys = NativeSystem::new();
    let h = sys.allocate("dialog");
    let d: Dialog = Dialog::from_raw(&mut sys, h).unwrap();
    let alias = d.set_attrib(&mut sys, "TITLE", "first").set_attrib(&mut sys, "SIZE", "320x200");
    assert_eq!(alias.raw(), d.raw());
    d.set_attrib(&mut sys, "TITLE", "second");
    assert_eq!(d.attrib(&sys, "TITLE"), Some("second".to_owned()));
    assert_eq!(d.attrib(&sys, "SIZE"), Some("320x200".to_owned()));
}

#[test]
fn clear_and_reset_leave_other_attributes() {
    let mut sys = NativeSystem::new();
    let h = sys.allocate("dialog");
    let d: Dialog = Dialog::from_raw(&mut sys, h).unwrap();
    d.set_attrib(&mut sys, "TITLE", "kept");
    d.set_attrib(&mut sys, "FONT", "sans");
    d.clear_attrib(&mut sys, "FONT");
    assert_eq!(d.attrib(&sys, "FONT"), None);
    assert_eq!(d.attrib(&sys, "TITLE"), Some("kept".to_owned()));
    d.reset_attrib(&mut sys, "TITLE");
    assert_eq!(d.attrib(&sys, "TITLE"), None);
    d.set_attrib(&mut sys, "TITLE", "back");
    assert_eq!(d.attrib(&sys, "TITLE"), Some("back".to_owned()));
}

#[test]
fn clearing_an_absent_attribute_is_a_noop() {
    let mut sys = NativeSystem::new();
    let h = sys.allocate("dialog");
    let d: Dialog = Dialog::from_raw(&mut sys, h).unwrap();
    d.clear_attrib(&mut sys, "NEVER_SET");
    assert_eq!(d.attrib(&sys, "NEVER_SET"), None);
    assert!(sys.is_live(h));
}
