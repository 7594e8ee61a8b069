use iup::element::from_handle;
use iup::element::Element;
use iup::element::Handle;
use iup::native::NativeSystem;
use iup::widgets::Button;
use iup::widgets::Dialog;

#[test]
fn roundtrip_erase_downcast_succeeds() {
    let mut sys = NativeSystem::new();
    let h = sys.allocate("dialog");
    assert_eq!(h, 0x1);
    let d: Dialog = Dialog::from_raw(&mut sys, h).unwrap();
    let erased = Handle::from_element(d);
    assert_eq!(erased.raw(), h);
    let back: Dialog = erased.try_downcast::<Dialog>(&sys).unwrap();
    assert_eq!(back.raw(), d.raw());
    assert_eq!(back.raw(), 0x1);
}

#[test]
fn mismatch_fails_and_returns_same_handle() {
    let mut sys = NativeSystem::new();
    let h = sys.allocate("dialog");
    let d: Dialog = Dialog::from_raw(&mut sys, h).unwrap();
    let erased = Handle::from_element(d);
    let r: Result<Button, Handle> = erased.try_downcast::<Button>(&sys);
    let got_back = r.unwrap_err();
    assert_eq!(got_back, erased);
    assert_eq!(got_back.raw(), 0x1);
}

#[test]
fn sentinel_accepts_every_class() {
    let mut sys = NativeSystem::new();
    let hd = sys.allocate("dialog");
    let hb = sys.allocate("button");
    let d: Dialog = Dialog::from_raw(&mut sys, hd).unwrap();
    let b: Button = Button::from_raw(&mut sys, hb).unwrap();
    let ed = Handle::from_element(d);
    let eb = Handle::from_element(b);
    let rd: Handle = ed.try_downcast::<Handle>(&sys).unwrap();
    let rb: Handle = eb.try_downcast::<Handle>(&sys).unwrap();
    assert_eq!(rd.raw(), hd);
    assert_eq!(rb.raw(), hb);
}

#[test]
fn from_handle_is_the_downcast() {
    let mut sys = NativeSystem::new();
    let h = sys.allocate("button");
    let b: Button = Button::from_raw(&mut sys, h).unwrap();
    let erased = Handle::from_element(b);
    let ok: Result<Button, Handle> = from_handle::<Button>(erased, &sys);
    assert_eq!(ok.unwrap().raw(), h);
    let bad: Result<Dialog, Handle> = from_handle::<Dialog>(erased, &sys);
    assert_eq!(bad.unwrap_err().raw(), h);
}

#[test]
fn classname_reports_live_tag() {
    let mut sys = NativeSystem::new();
    let h = sys.allocate("dialog");
    let d: Dialog = Dialog::from_raw(&mut sys, h).unwrap();
    assert_eq!(d.classname(&sys), "dialog");
    assert_eq!(Dialog::target_classname(), "dialog");
    assert_eq!(Button::target_classname(), "button");
    assert_eq!(Handle::target_classname(), "__iuprusthandle");
}

#[test]
fn dup_aliases_the_same_handle() {
    let mut sys = NativeSystem::new();
    let h = sys.allocate("dialog");
    let d: Dialog = Dialog::from_raw(&mut sys, h).unwrap();
    let alias = d.dup();
    assert_eq!(alias.raw(), d.raw());
    assert_eq!(alias, d);
}
