//! Wrapper-side callback bookkeeping, keyed by handle identity.
//!
//! Application code may register any number of callbacks on a handle; the
//! registry keeps them per handle until the native system reports that the
//! object was destroyed.  At that moment [`on_element_destroy`] — the
//! destruction notification the wrapper layer installs through the safe
//! construction entry point — releases every callback for that exact handle
//! and removes its entry.  Delivering the notification for a handle with no
//! entry is a harmless no-op, so a notification can never corrupt the
//! registry.
//!
//! The registry is process-wide state in spirit; it is passed explicitly
//! here because the whole layer runs on the single thread the native system
//! is bound to, with no concurrent access to coordinate.

use vstd::prelude::*;

use crate::lookup::find_by;
use crate::lookup::lemma_find_by_found;
use crate::lookup::lemma_find_by_miss;
use crate::lookup::lemma_find_by_push_absent;
use crate::lookup::lemma_find_by_push_found;
use crate::lookup::lemma_find_by_update;

verus! {

/// Status a callback reports back to the native system's dispatcher.
#[derive(Clone, Copy, Debug, PartialEq, Eq, Structural)]
pub enum CallbackReturn {
    /// Proceed with the native system's default treatment of the event.
    Default,
    /// Close the dialog that received the event.
    Close,
    /// Ignore the event.
    Ignore,
    /// Continue propagating the event.
    Continue,
}

/// Callbacks registered for one handle.  A removed entry keeps its record
/// with `present == false`; handles are identity values, never reused.
struct RegEntry {
    handle: u64,
    present: bool,
    callbacks: Vec<u64>,
}

/// The process-wide registry of callback registrations, keyed by handle.
pub struct Registry {
    entries: Vec<RegEntry>,
}

spec fn entry_pred(h: u64) -> spec_fn(RegEntry) -> bool {
    |e: RegEntry| e.handle == h
}

impl Registry {
    spec fn idx_of(self, h: u64) -> int {
        find_by(self.entries@, entry_pred(h), 0)
    }

    spec fn known(self, h: u64) -> bool {
        self.idx_of(h) >= 0
    }

    /// Whether the registry currently holds an entry for `h`.
    pub closed spec fn has_entry(self, h: u64) -> bool {
        self.known(h) && self.entries@[self.idx_of(h)].present
    }

    /// The callbacks registered for `h`, oldest first; empty when `h` has
    /// no entry.
    pub closed spec fn callbacks_of(self, h: u64) -> Seq<u64> {
        if self.has_entry(h) {
            self.entries@[self.idx_of(h)].callbacks@
        } else {
            Seq::empty()
        }
    }
}

/// The registry reads the same for handle `x` in `pre` and `post`.
pub open spec fn entry_state_eq(pre: Registry, post: Registry, x: u64) -> bool {
    &&& post.has_entry(x) == pre.has_entry(x)
    &&& post.callbacks_of(x) == pre.callbacks_of(x)
}

/// Every handle other than `h` reads the same in `pre` and `post`.
pub open spec fn entries_unchanged_except(pre: Registry, post: Registry, h: u64) -> bool {
    forall|x: u64| x != h ==> #[trigger] entry_state_eq(pre, post, x)
}

/// Replacing the entry at `k` by one with the same handle leaves the search
/// for every other handle, and the entry it lands on, unchanged.
proof fn lemma_entry_update_keeps_other(s: Seq<RegEntry>, k: int, v: RegEntry, x: u64)
    requires
        0 <= k < s.len(),
        v.handle == s[k].handle,
        x != v.handle,
    ensures
        find_by(s.update(k, v), entry_pred(x), 0) == find_by(s, entry_pred(x), 0),
        find_by(s, entry_pred(x), 0) >= 0 ==> s.update(k, v)[find_by(s, entry_pred(x), 0)]
            == s[find_by(s, entry_pred(x), 0)],
{
    let p = entry_pred(x);
    assert(p(v) == p(s[k]));
    lemma_find_by_update(s, k, v, p, 0);
    if find_by(s, p, 0) >= 0 {
        lemma_find_by_found(s, p, 0);
    }
}

/// Pushing an entry for one handle leaves every other handle's view of the
/// registry unchanged.
proof fn lemma_entry_push_keeps_other(s: Seq<RegEntry>, v: RegEntry, x: u64)
    requires
        v.handle != x,
    ensures
        find_by(s.push(v), entry_pred(x), 0) == find_by(s, entry_pred(x), 0),
        find_by(s, entry_pred(x), 0) >= 0 ==> s.push(v)[find_by(s, entry_pred(x), 0)]
            == s[find_by(s, entry_pred(x), 0)],
{
    let p = entry_pred(x);
    if find_by(s, p, 0) >= 0 {
        lemma_find_by_found(s, p, 0);
        lemma_find_by_push_found(s, v, p, 0);
    } else {
        lemma_find_by_miss(s, p, 0);
        assert(!p(v));
        lemma_find_by_push_absent(s, v, p, 0);
    }
}

/// Replacing one entry in place, handle kept, changes nothing about any
/// other handle and keeps the touched handle's position.
proof fn lemma_reg_set_frame(pre: Registry, post: Registry, k: int, v: RegEntry)
    requires
        0 <= k < pre.entries@.len(),
        v.handle == pre.entries@[k].handle,
        post.entries@ == pre.entries@.update(k, v),
    ensures
        entries_unchanged_except(pre, post, v.handle),
        post.idx_of(v.handle) == pre.idx_of(v.handle),
{
    assert forall|x: u64| x != v.handle implies #[trigger] entry_state_eq(pre, post, x) by {
        lemma_entry_update_keeps_other(pre.entries@, k, v, x);
    }
    assert(entry_pred(v.handle)(v) == entry_pred(v.handle)(pre.entries@[k]));
    lemma_find_by_update(pre.entries@, k, v, entry_pred(v.handle), 0);
}

impl Registry {
    /// An empty registry: no handle has an entry.
    pub fn new() -> (r: Registry)
        ensures
            forall|h: u64| !(#[trigger] r.has_entry(h)),
            forall|h: u64| #[trigger] r.callbacks_of(h) == Seq::<u64>::empty(),
    {
        let r = Registry { entries: Vec::new() };
        proof {
            assert forall|h: u64|
                !(#[trigger] r.has_entry(h)) && #[trigger] r.callbacks_of(h)
                    == Seq::<u64>::empty() by {
                lemma_find_by_miss(r.entries@, entry_pred(h), 0);
            }
        }
        r
    }

    /// Index of the entry record for `h`, when there is one.
    fn position_of(&self, h: u64) -> (r: Option<usize>)
        ensures
            match r {
                Some(i) => self.idx_of(h) == i as int && i < self.entries@.len()
                    && self.entries@[i as int].handle == h,
                None => self.idx_of(h) == -1,
            },
    {
        let ghost p = entry_pred(h);
        let mut k: usize = 0;
        while k < self.entries.len()
            invariant
                k <= self.entries@.len(),
                p == entry_pred(h),
                find_by(self.entries@, p, 0) == find_by(self.entries@, p, k as int),
            decreases self.entries@.len() - k,
        {
            if self.entries[k].handle == h {
                proof {
                    assert(p(self.entries@[k as int]));
                }
                return Some(k);
            }
            proof {
                assert(!p(self.entries@[k as int]));
            }
            k += 1;
        }
        None
    }

    /// Whether `h` currently has a registry entry.
    pub fn contains(&self, h: u64) -> (r: bool)
        ensures
            r == self.has_entry(h),
    {
        match self.position_of(h) {
            Some(i) => self.entries[i].present,
            None => false,
        }
    }

    /// How many callbacks are registered for `h`.
    pub fn callback_count(&self, h: u64) -> (r: usize)
        ensures
            r == self.callbacks_of(h).len(),
    {
        match self.position_of(h) {
            Some(i) => {
                if self.entries[i].present {
                    self.entries[i].callbacks.len()
                } else {
                    0
                }
            },
            None => 0,
        }
    }

    /// Records callback `cb` for handle `h`, creating the entry on first
    /// registration and appending afterwards.
    pub fn register_callback(&mut self, h: u64, cb: u64)
        ensures
            final(self).has_entry(h),
            final(self).callbacks_of(h) == old(self).callbacks_of(h).push(cb),
            entries_unchanged_except(*old(self), *final(self), h),
    {
        let ghost pre = *self;
        match self.position_of(h) {
            Some(i) => {
                if self.entries[i].present {
                    self.entries[i].callbacks.push(cb);
                    proof {
                        lemma_reg_set_frame(pre, *self, i as int, self.entries@[i as int]);
                    }
                } else {
                    let mut fresh: Vec<u64> = Vec::new();
                    fresh.push(cb);
                    self.entries[i] = RegEntry { handle: h, present: true, callbacks: fresh };
                    proof {
                        lemma_reg_set_frame(pre, *self, i as int, self.entries@[i as int]);
                        assert(pre.callbacks_of(h) == Seq::<u64>::empty());
                        assert(self.callbacks_of(h) =~= pre.callbacks_of(h).push(cb));
                    }
                }
            },
            None => {
                let mut fresh: Vec<u64> = Vec::new();
                fresh.push(cb);
                let v = RegEntry { handle: h, present: true, callbacks: fresh };
                let ghost gv = v;
                self.entries.push(v);
                proof {
                    lemma_find_by_push_absent(pre.entries@, gv, entry_pred(h), 0);
                    assert(entry_pred(h)(gv));
                    assert(self.has_entry(h));
                    assert(pre.callbacks_of(h) == Seq::<u64>::empty());
                    assert(self.callbacks_of(h) =~= pre.callbacks_of(h).push(cb));
                    assert forall|x: u64| x != h implies #[trigger] entry_state_eq(pre, *self, x)
                        by {
                        lemma_entry_push_keeps_other(pre.entries@, gv, x);
                    }
                }
            },
        }
    }

    /// Releases every callback registered for `h` and removes its entry.
    /// For a handle with no entry this is a no-op: the registry is left
    /// exactly as it was.
    pub fn drop_callbacks(&mut self, h: u64)
        ensures
            !final(self).has_entry(h),
            final(self).callbacks_of(h) == Seq::<u64>::empty(),
            entries_unchanged_except(*old(self), *final(self), h),
            !old(self).has_entry(h) ==> *final(self) == *old(self),
    {
        let ghost pre = *self;
        match self.position_of(h) {
            Some(i) => {
                if self.entries[i].present {
                    self.entries[i] = RegEntry { handle: h, present: false, callbacks: Vec::new() };
                    proof {
                        lemma_reg_set_frame(pre, *self, i as int, self.entries@[i as int]);
                    }
                }
            },
            None => {},
        }
        proof {
            if !pre.has_entry(h) {
                assert forall|x: u64| x != h implies #[trigger] entry_state_eq(pre, *self, x) by {}
            }
        }
    }
}

/// The destruction notification the wrapper layer installs for every handle
/// that crosses the safe construction entry point.  Invoked when the native
/// system tears the object down; it purges the handle's callback entry and
/// lets the native system proceed with its default teardown.  Safe to invoke
/// for a handle with no entry.
pub fn on_element_destroy(registry: &mut Registry, ih: u64) -> (r: CallbackReturn)
    ensures
        r == CallbackReturn::Default,
        !final(registry).has_entry(ih),
        final(registry).callbacks_of(ih) == Seq::<u64>::empty(),
        entries_unchanged_except(*old(registry), *final(registry), ih),
        !old(registry).has_entry(ih) ==> *final(registry) == *old(registry),
{
    registry.drop_callbacks(ih);
    CallbackReturn::Default
}

} // verus!
