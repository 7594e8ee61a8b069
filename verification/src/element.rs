//! The capability contract of every wrapper, the erased handle, and the
//! runtime-checked downcast between them.
//!
//! A typed wrapper is a thin, copyable value holding exactly one opaque
//! handle together with a compile-time class-name tag.  [`Handle`] is the
//! wrapper that holds a handle of any class: its tag is a reserved sentinel
//! that never collides with a real native class name.  The one place where an
//! untyped handle crosses back into typed territory is the downcast, which
//! compares the native system's live class tag, exactly, against the target
//! type's tag — or lets anything through when the target is the sentinel
//! itself.

use vstd::prelude::*;

use crate::ElementError;
use crate::native::NativeSystem;
use crate::native::same_but_attrs;
use crate::native::same_but_hooks;
use crate::native::same_but_view_state;
use crate::native::unchanged_except;
use crate::registry::Registry;
use crate::registry::entries_unchanged_except;
use crate::registry::on_element_destroy;

verus! {

/// The reserved class-name tag of the erased [`Handle`].  The native system
/// never hands out this tag, so a downcast target carrying it accepts every
/// handle.
pub open spec fn sentinel_class() -> Seq<char> {
    "__iuprusthandle"@
}

/// The sentinel tag as a runtime string.
fn sentinel_classname() -> (r: String)
    ensures
        r@ == sentinel_class(),
{
    "__iuprusthandle".to_owned()
}

/// The downcast compatibility rule: the live class tag of `h` equals the
/// target type's tag exactly, or the target's tag is the sentinel, which
/// accepts everything.  No class hierarchy is consulted: native classes
/// with a shared ancestor are not interchangeable unless their tags are
/// identical.
pub open spec fn downcast_ok<E: Element>(sys: NativeSystem, h: u64) -> bool {
    sys.class_of(h) == E::target_class() || E::target_class() == sentinel_class()
}

/// Every wrapper over a native handle satisfies this contract: raw handle
/// access, alias construction, the two raw-handle constructors, attribute
/// access and lifecycle operations, all forwarded to the native system.
pub trait Element: Sized {
    /// Identity of the wrapped native handle.
    spec fn raw_id(&self) -> u64;

    /// The class-name tag this wrapper type statically targets.
    spec fn target_class() -> Seq<char>;

    /// Gets the raw handle associated with this element, without
    /// transferring ownership: the native system keeps governing its
    /// lifetime.
    fn raw(&self) -> (r: u64)
        ensures
            r == self.raw_id(),
    ;

    /// Constructs another wrapper aliasing the same handle.  Aliases are
    /// equally privileged; nothing is allocated in the native system.
    fn dup(&self) -> (r: Self)
        ensures
            r.raw_id() == self.raw_id(),
    ;

    /// Unchecked constructor.  The caller must guarantee that `ih` has
    /// crossed [`Element::from_raw`] once before — so the destruction hook
    /// is already installed — and that its live class matches
    /// `Self::target_class()`.  Neither is checked here; the downcast is
    /// the one place that validates the class before calling this.  This
    /// constructor takes no native system reference, so making an alias
    /// can never register the destruction notification a second time.
    fn from_raw_unchecked(ih: u64) -> (r: Self)
        ensures
            r.raw_id() == ih,
    ;

    /// The class-name tag this wrapper type targets, as a runtime string.
    fn target_classname() -> (r: String)
        ensures
            r@ == Self::target_class(),
    ;

    /// The sole safe entry point for a raw handle fresh from a native
    /// constructor.  A null handle is a fatal misuse and yields
    /// [`ElementError::NullHandle`] with nothing changed.  Otherwise the
    /// destruction notification is registered for the handle — the one
    /// registration it ever gets, however many aliases are made later —
    /// and the wrapper is built.
    fn from_raw(sys: &mut NativeSystem, ih: u64) -> (res: Result<Self, ElementError>)
        requires
            old(sys).wf(),
            ih != 0 ==> old(sys).live(ih) && old(sys).hook_installs(ih) < u64::MAX,
        ensures
            final(sys).wf(),
            ih == 0 ==> res is Err && res->Err_0 == ElementError::NullHandle && *final(sys)
                == *old(sys),
            ih != 0 ==> {
                &&& res is Ok
                &&& res->Ok_0.raw_id() == ih
                &&& final(sys).hook_installs(ih) == old(sys).hook_installs(ih) + 1
                &&& same_but_hooks(*old(sys), *final(sys), ih)
                &&& unchanged_except(*old(sys), *final(sys), ih)
            },
    {
        if ih == 0 {
            Err(ElementError::NullHandle)
        } else {
            sys.register_destroy_hook(ih);
            Ok(Self::from_raw_unchecked(ih))
        }
    }

    /// Sets an attribute on the native object, and hands back another alias
    /// of this element for chaining.
    fn set_attrib(&self, sys: &mut NativeSystem, name: &str, value: &str) -> (r: Self)
        requires
            old(sys).wf(),
            old(sys).live(self.raw_id()),
        ensures
            r.raw_id() == self.raw_id(),
            final(sys).wf(),
            final(sys).attr_of(self.raw_id(), name@) == Some(value@),
            forall|n: Seq<char>|
                n != name@ ==> #[trigger] final(sys).attr_of(self.raw_id(), n) == old(
                    sys,
                ).attr_of(self.raw_id(), n),
            same_but_attrs(*old(sys), *final(sys), self.raw_id()),
            unchanged_except(*old(sys), *final(sys), self.raw_id()),
    {
        sys.set_attr(self.raw(), name, value);
        self.dup()
    }

    /// Gets an attribute of the native object.  `None` reports the native
    /// system's "unset", which is distinct from an attribute holding the
    /// empty string.
    fn attrib(&self, sys: &NativeSystem, name: &str) -> (r: Option<String>)
        requires
            sys.wf(),
            sys.live(self.raw_id()),
        ensures
            match r {
                Some(v) => sys.attr_of(self.raw_id(), name@) == Some(v@),
                None => sys.attr_of(self.raw_id(), name@) is None,
            },
    {
        sys.get_attr(self.raw(), name)
    }

    /// Clears an attribute: the native object reports it unset afterwards
    /// and falls back to its default.
    fn clear_attrib(&self, sys: &mut NativeSystem, name: &str)
        requires
            old(sys).wf(),
            old(sys).live(self.raw_id()),
        ensures
            final(sys).wf(),
            final(sys).attr_of(self.raw_id(), name@) is None,
            forall|n: Seq<char>|
                n != name@ ==> #[trigger] final(sys).attr_of(self.raw_id(), n) == old(
                    sys,
                ).attr_of(self.raw_id(), n),
            same_but_attrs(*old(sys), *final(sys), self.raw_id()),
            unchanged_except(*old(sys), *final(sys), self.raw_id()),
    {
        sys.clear_attr(self.raw(), name)
    }

    /// Resets an attribute to its default.  The native system additionally
    /// propagates a reset of an inheritable attribute to the object's
    /// children; the child graph is the native system's own and is not
    /// duplicated here.
    fn reset_attrib(&self, sys: &mut NativeSystem, name: &str)
        requires
            old(sys).wf(),
            old(sys).live(self.raw_id()),
        ensures
            final(sys).wf(),
            final(sys).attr_of(self.raw_id(), name@) is None,
            forall|n: Seq<char>|
                n != name@ ==> #[trigger] final(sys).attr_of(self.raw_id(), n) == old(
                    sys,
                ).attr_of(self.raw_id(), n),
            same_but_attrs(*old(sys), *final(sys), self.raw_id()),
            unchanged_except(*old(sys), *final(sys), self.raw_id()),
    {
        sys.clear_attr(self.raw(), name)
    }

    /// Destroys the native object, consuming the wrapper: the one operation
    /// that ends the handle's life rather than aliasing it.  When the
    /// destruction hook was installed — that is, when the handle ever
    /// crossed [`Element::from_raw`] — the native teardown delivers the
    /// notification, which purges this handle's callback entry, exactly
    /// once.  A handle that never got the hook leaves the registry alone.
    fn destroy(self, sys: &mut NativeSystem, registry: &mut Registry)
        requires
            old(sys).wf(),
            old(sys).live(self.raw_id()),
        ensures
            final(sys).wf(),
            !final(sys).live(self.raw_id()),
            final(sys).next_id() == old(sys).next_id(),
            unchanged_except(*old(sys), *final(sys), self.raw_id()),
            old(sys).hook_installs(self.raw_id()) > 0 ==> !final(registry).has_entry(
                self.raw_id(),
            ) && entries_unchanged_except(*old(registry), *final(registry), self.raw_id()),
            old(sys).hook_installs(self.raw_id()) == 0 ==> *final(registry) == *old(registry),
    {
        let h = self.raw();
        let hooked = sys.hook_install_count(h) > 0;
        sys.destroy_object(h);
        if hooked {
            on_element_destroy(registry, h);
        }
    }

    /// Creates the native representation of the element.  The native
    /// system's status code decides: success becomes `Ok`, the failure
    /// status is surfaced untranslated as [`ElementError::NativeFailure`],
    /// never swallowed.
    fn map(&self, sys: &mut NativeSystem) -> (res: Result<(), ElementError>)
        requires
            old(sys).wf(),
            old(sys).live(self.raw_id()),
        ensures
            final(sys).wf(),
            res is Ok <==> old(sys).can_map(self.raw_id()),
            res is Err ==> res->Err_0 == ElementError::NativeFailure,
            final(sys).mapped(self.raw_id()) == (old(sys).mapped(self.raw_id()) || old(
                sys,
            ).can_map(self.raw_id())),
            final(sys).visible(self.raw_id()) == old(sys).visible(self.raw_id()),
            same_but_view_state(*old(sys), *final(sys), self.raw_id()),
            unchanged_except(*old(sys), *final(sys), self.raw_id()),
    {
        if sys.map_object(self.raw()) {
            Ok(())
        } else {
            Err(ElementError::NativeFailure)
        }
    }

    /// Unmaps the element from the native system without detaching or
    /// destroying it.
    fn unmap(&self, sys: &mut NativeSystem)
        requires
            old(sys).wf(),
            old(sys).live(self.raw_id()),
        ensures
            final(sys).wf(),
            !final(sys).mapped(self.raw_id()),
            !final(sys).visible(self.raw_id()),
            same_but_view_state(*old(sys), *final(sys), self.raw_id()),
            unchanged_except(*old(sys), *final(sys), self.raw_id()),
    {
        sys.unmap_object(self.raw())
    }

    /// Shows the element, mapping it first if need be.  The native status
    /// code is surfaced exactly as for [`Element::map`].
    fn show(&self, sys: &mut NativeSystem) -> (res: Result<(), ElementError>)
        requires
            old(sys).wf(),
            old(sys).live(self.raw_id()),
        ensures
            final(sys).wf(),
            res is Ok <==> old(sys).can_map(self.raw_id()),
            res is Err ==> res->Err_0 == ElementError::NativeFailure,
            final(sys).mapped(self.raw_id()) == (old(sys).mapped(self.raw_id()) || old(
                sys,
            ).can_map(self.raw_id())),
            final(sys).visible(self.raw_id()) == (if old(sys).can_map(self.raw_id()) {
                true
            } else {
                old(sys).visible(self.raw_id())
            }),
            same_but_view_state(*old(sys), *final(sys), self.raw_id()),
            unchanged_except(*old(sys), *final(sys), self.raw_id()),
    {
        if sys.show_object(self.raw()) {
            Ok(())
        } else {
            Err(ElementError::NativeFailure)
        }
    }

    /// Hides the element; it stays mapped.
    fn conceal(&self, sys: &mut NativeSystem)
        requires
            old(sys).wf(),
            old(sys).live(self.raw_id()),
        ensures
            final(sys).wf(),
            final(sys).mapped(self.raw_id()) == old(sys).mapped(self.raw_id()),
            !final(sys).visible(self.raw_id()),
            same_but_view_state(*old(sys), *final(sys), self.raw_id()),
            unchanged_except(*old(sys), *final(sys), self.raw_id()),
    {
        sys.hide_object(self.raw())
    }

    /// Queries the live class name the native system keeps for this
    /// element's handle — the runtime tag, not the compile-time target.
    fn classname(&self, sys: &NativeSystem) -> (r: String)
        requires
            sys.wf(),
            sys.live(self.raw_id()),
        ensures
            r@ == sys.class_of(self.raw_id()),
    {
        sys.class_name(self.raw())
    }
}

/// An erased wrapper that can hold a handle of any native class: the common
/// currency for heterogeneous collections and the source of every downcast.
#[derive(Clone, Copy, Debug, PartialEq, Eq, Structural)]
pub struct Handle(u64);

/// The erased handle wrapping identity `id`, for use in specifications.
pub closed spec fn handle_with_id(id: u64) -> Handle {
    Handle(id)
}

/// The erased handle built from `id` carries exactly that identity.
pub proof fn lemma_handle_with_id(id: u64)
    ensures
        handle_with_id(id).raw_id() == id,
{
}

impl Handle {
    /// Erases a typed wrapper into a generic handle: one-directional,
    /// always succeeds, and copies only the handle identity.
    pub fn from_element<E: Element>(elem: E) -> (h: Handle)
        ensures
            h.raw_id() == elem.raw_id(),
            h == handle_with_id(elem.raw_id()),
    {
        Handle(elem.raw())
    }

    /// Checks whether this handle can be downcast to `E`: exact comparison
    /// of the live class tag with `E`'s target tag, with the sentinel
    /// target accepting everything.
    fn can_downcast<E: Element>(&self, sys: &NativeSystem) -> (r: bool)
        requires
            sys.wf(),
            sys.live(self.raw_id()),
        ensures
            r == downcast_ok::<E>(*sys, self.raw_id()),
    {
        let lhs = self.classname(sys);
        let rhs = E::target_classname();
        lhs == rhs || rhs == sentinel_classname()
    }

    /// Converts this handle into a typed element when their classes are
    /// compatible.  On success the new wrapper aliases the same handle,
    /// built through the unchecked constructor — justified because a
    /// handle only becomes a [`Handle`] after crossing the safe entry
    /// point.  On failure the original handle comes back unchanged:
    /// failure is never destructive.
    pub fn try_downcast<E: Element>(self, sys: &NativeSystem) -> (res: Result<E, Handle>)
        requires
            sys.wf(),
            sys.live(self.raw_id()),
        ensures
            downcast_ok::<E>(*sys, self.raw_id()) ==> res is Ok && res->Ok_0.raw_id()
                == self.raw_id(),
            !downcast_ok::<E>(*sys, self.raw_id()) ==> res is Err && res->Err_0 == self,
    {
        if self.can_downcast::<E>(sys) {
            Ok(E::from_raw_unchecked(self.raw()))
        } else {
            Err(self)
        }
    }
}

/// Constructs a specialized element from a general handle when their
/// classes are compatible; hands the handle back otherwise.  The named
/// alternative entry point to [`Handle::try_downcast`].
pub fn from_handle<E: Element>(handle: Handle, sys: &NativeSystem) -> (res: Result<E, Handle>)
    requires
        sys.wf(),
        sys.live(handle.raw_id()),
    ensures
        downcast_ok::<E>(*sys, handle.raw_id()) ==> res is Ok && res->Ok_0.raw_id()
            == handle.raw_id(),
        !downcast_ok::<E>(*sys, handle.raw_id()) ==> res is Err && res->Err_0 == handle,
{
    handle.try_downcast::<E>(sys)
}

impl Element for Handle {
    closed spec fn raw_id(&self) -> u64 {
        self.0
    }

    open spec fn target_class() -> Seq<char> {
        sentinel_class()
    }

    fn raw(&self) -> u64 {
        self.0
    }

    fn dup(&self) -> Self {
        Handle(self.0)
    }

    fn from_raw_unchecked(ih: u64) -> Self {
        Handle(ih)
    }

    fn target_classname() -> String {
        sentinel_classname()
    }
}

/// Round trip: a wrapper whose class tag matches its type's target — the
/// invariant every typed wrapper keeps while its handle is live — can
/// always be erased and downcast back to the same type; combined with the
/// contracts of [`Handle::from_element`] and [`Handle::try_downcast`], the
/// result aliases the very same raw handle.
pub proof fn lemma_downcast_roundtrip<E: Element>(sys: NativeSystem, h: u64)
    requires
        sys.class_of(h) == E::target_class(),
    ensures
        downcast_ok::<E>(sys, h),
{
}

/// Mismatch: a downcast to a type whose target tag neither matches the live
/// class tag nor is the sentinel always fails — and by the contract of
/// [`Handle::try_downcast`] the failed attempt hands back the identical
/// handle, losing nothing.
pub proof fn lemma_downcast_mismatch<E: Element>(sys: NativeSystem, h: u64)
    requires
        sys.class_of(h) != E::target_class(),
        E::target_class() != sentinel_class(),
    ensures
        !downcast_ok::<E>(sys, h),
{
}

/// Sentinel universality: every handle, of every native class, downcasts
/// successfully to the erased [`Handle`] type itself.
pub proof fn lemma_downcast_to_handle_universal(sys: NativeSystem, h: u64)
    ensures
        downcast_ok::<Handle>(sys, h),
{
}

} // verus!
