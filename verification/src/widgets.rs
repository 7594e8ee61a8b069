//! Concrete typed wrappers, one per native object kind.
//!
//! Each wrapper is a thin, copyable value holding exactly one opaque handle,
//! statically tied to a single native class-name tag.  The native system
//! knows many more classes than these; adding one is a matter of writing the
//! same six-item implementation with the class's own tag.

use vstd::prelude::*;

use crate::element::handle_with_id;
use crate::element::Element;
use crate::element::Handle;

verus! {

/// Typed wrapper for the native dialog class.
#[derive(Clone, Copy, Debug, PartialEq, Eq, Structural)]
pub struct Dialog(u64);

impl Element for Dialog {
    closed spec fn raw_id(&self) -> u64 {
        self.0
    }

    open spec fn target_class() -> Seq<char> {
        "dialog"@
    }

    fn raw(&self) -> u64 {
        self.0
    }

    fn dup(&self) -> Self {
        Dialog(self.0)
    }

    fn from_raw_unchecked(ih: u64) -> Self {
        Dialog(ih)
    }

    fn target_classname() -> String {
        "dialog".to_owned()
    }
}

impl From<Dialog> for Handle {
    /// Erasing through the standard conversion is
    /// [`Handle::from_element`].
    fn from(elem: Dialog) -> (r: Handle) {
        Handle::from_element(elem)
    }
}

impl vstd::std_specs::convert::FromSpecImpl<Dialog> for Handle {
    open spec fn obeys_from_spec() -> bool {
        true
    }

    open spec fn from_spec(t: Dialog) -> Handle {
        handle_with_id(t.raw_id())
    }
}

/// Typed wrapper for the native button class.
#[derive(Clone, Copy, Debug, PartialEq, Eq, Structural)]
pub struct Button(u64);

impl Element for Button {
    closed spec fn raw_id(&self) -> u64 {
        self.0
    }

    open spec fn target_class() -> Seq<char> {
        "button"@
    }

    fn raw(&self) -> u64 {
        self.0
    }

    fn dup(&self) -> Self {
        Button(self.0)
    }

    fn from_raw_unchecked(ih: u64) -> Self {
        Button(ih)
    }

    fn target_classname() -> String {
        "button".to_owned()
    }
}

impl From<Button> for Handle {
    /// Erasing through the standard conversion is
    /// [`Handle::from_element`].
    fn from(elem: Button) -> (r: Handle) {
        Handle::from_element(elem)
    }
}

impl vstd::std_specs::convert::FromSpecImpl<Button> for Handle {
    open spec fn obeys_from_spec() -> bool {
        true
    }

    open spec fn from_spec(t: Button) -> Handle {
        handle_with_id(t.raw_id())
    }
}

} // verus!
