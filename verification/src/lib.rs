//! Safety layer over a handle-based native object system.
//!
//! The native system hands out opaque handles, one pointer-sized identity per
//! object, and keeps a runtime class-name tag for each.  This library gives
//! every handle a statically typed wrapper, an erased [`element::Handle`] for
//! heterogeneous storage, a runtime-checked downcast back to a concrete
//! wrapper, and a destruction-hook lifecycle that releases per-handle callback
//! bookkeeping exactly once when the native system tears an object down.
//!
//! The native system itself is an external collaborator.  Everything this
//! library decides about it — which class tag a handle carries, which
//! attributes are set, whether the destruction hook was installed — is modelled
//! by the explicit [`native::NativeSystem`] state value, so every rule of the
//! wrapper layer is stated and checked against that model.

use vstd::prelude::*;

pub mod element;
pub mod lookup;
pub mod native;
pub mod registry;
pub mod widgets;

pub use element::Element;
pub use element::Handle;

verus! {

/// Failure surfaced by the wrapper layer.
#[derive(Clone, Copy, Debug, PartialEq, Eq, Structural)]
pub enum ElementError {
    /// The safe construction entry point was handed a null handle: a contract
    /// violation by the caller or environment, never a live object.
    NullHandle,
    /// The native system reported a failure status code from `map` or `show`.
    NativeFailure,
}

} // verus!
