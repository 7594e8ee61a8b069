//! Model of the native object system, as seen across the wrapper boundary.
//!
//! The real native system is an external collaborator: it allocates opaque
//! handles, keeps one class-name tag per handle, stores string attributes,
//! maps and shows objects, and fires a destruction notification.  This module
//! states that boundary as an explicit value, [`NativeSystem`], so that the
//! wrapper layer's rules — downcast checks, hook installation, teardown — can
//! be verified against it, and so that tests can drive the wrappers against a
//! concrete stub.
//!
//! Handles are plain identity values (`u64`), never reused, with `0` reserved
//! as the null sentinel the real system uses to report allocation failure.

use vstd::prelude::*;

use crate::lookup::find_by;
use crate::lookup::lemma_find_by_absent;
use crate::lookup::lemma_find_by_found;
use crate::lookup::lemma_find_by_push_absent;
use crate::lookup::lemma_find_by_push_found;
use crate::lookup::lemma_find_by_miss;
use crate::lookup::lemma_find_by_update;

verus! {

/// One attribute slot of a native object.  A cleared attribute keeps its
/// slot with `set == false`: the name is known but currently unset, which is
/// what lets the model distinguish "unset" from "empty string".
struct AttrSlot {
    name: String,
    value: String,
    set: bool,
}

/// Per-handle record of the native system.  A destroyed object keeps its
/// record with `alive == false`; handles are never reused.
struct NativeObject {
    handle: u64,
    class: String,
    attrs: Vec<AttrSlot>,
    alive: bool,
    mapped: bool,
    visible: bool,
    can_map: bool,
    hook_installs: u64,
}

/// The native object system's observable state.
pub struct NativeSystem {
    objects: Vec<NativeObject>,
    next_handle: u64,
}

spec fn handle_pred(h: u64) -> spec_fn(NativeObject) -> bool {
    |o: NativeObject| o.handle == h
}

spec fn attr_pred(n: Seq<char>) -> spec_fn(AttrSlot) -> bool {
    |a: AttrSlot| a.name@ == n
}

/// What a sequence of attribute slots says about one name: the first slot
/// carrying the name decides, and a cleared slot means "unset".
spec fn attr_lookup(attrs: Seq<AttrSlot>, n: Seq<char>) -> Option<Seq<char>> {
    let j = find_by(attrs, attr_pred(n), 0);
    if j >= 0 && attrs[j].set {
        Some(attrs[j].value@)
    } else {
        None
    }
}

impl NativeSystem {
    spec fn idx_of(self, h: u64) -> int {
        find_by(self.objects@, handle_pred(h), 0)
    }

    spec fn known(self, h: u64) -> bool {
        self.idx_of(h) >= 0
    }

    /// The handle refers to an object the native system has allocated and
    /// not yet destroyed.
    pub closed spec fn live(self, h: u64) -> bool {
        self.known(h) && self.objects@[self.idx_of(h)].alive
    }

    /// Class-name tag of the object behind `h`; empty for a handle the
    /// system never allocated.
    pub closed spec fn class_of(self, h: u64) -> Seq<char> {
        if self.known(h) {
            self.objects@[self.idx_of(h)].class@
        } else {
            Seq::empty()
        }
    }

    /// Value of attribute `n` on the object behind `h`, `None` when unset.
    pub closed spec fn attr_of(self, h: u64, n: Seq<char>) -> Option<Seq<char>> {
        if self.known(h) {
            attr_lookup(self.objects@[self.idx_of(h)].attrs@, n)
        } else {
            None
        }
    }

    /// Whether the native representation of the object has been created.
    pub closed spec fn mapped(self, h: u64) -> bool {
        self.known(h) && self.objects@[self.idx_of(h)].mapped
    }

    /// Whether the object is currently shown.
    pub closed spec fn visible(self, h: u64) -> bool {
        self.known(h) && self.objects@[self.idx_of(h)].visible
    }

    /// Whether this system will report success from `map` and `show` for
    /// `h`.  The real system decides this internally; the stub is configured
    /// through `refuse_mapping`.
    pub closed spec fn can_map(self, h: u64) -> bool {
        self.known(h) && self.objects@[self.idx_of(h)].can_map
    }

    /// How many times the destruction notification has been registered for
    /// `h`: the counting stub behind the single-hook-per-handle rule.
    pub closed spec fn hook_installs(self, h: u64) -> u64 {
        if self.known(h) {
            self.objects@[self.idx_of(h)].hook_installs
        } else {
            0
        }
    }

    /// The handle the next successful allocation will return.
    pub closed spec fn next_id(self) -> u64 {
        self.next_handle
    }

    /// Well-formedness: handles are nonzero and below the allocation cursor,
    /// so `0` stays the null sentinel and fresh handles are really fresh.
    pub closed spec fn wf(self) -> bool {
        &&& self.next_handle >= 1
        &&& forall|i: int|
            0 <= i < self.objects@.len() ==> (#[trigger] self.objects@[i]).handle != 0
                && self.objects@[i].handle < self.next_handle
    }
}

/// Everything the native system records about handle `x` reads the same in
/// `pre` and `post`.
pub open spec fn handle_state_eq(pre: NativeSystem, post: NativeSystem, x: u64) -> bool {
    &&& post.live(x) == pre.live(x)
    &&& post.class_of(x) == pre.class_of(x)
    &&& (forall|n: Seq<char>| #![trigger post.attr_of(x, n)]
        post.attr_of(x, n) == pre.attr_of(x, n))
    &&& post.mapped(x) == pre.mapped(x)
    &&& post.visible(x) == pre.visible(x)
    &&& post.can_map(x) == pre.can_map(x)
    &&& post.hook_installs(x) == pre.hook_installs(x)
}

/// Every handle other than `h` reads the same in `pre` and `post`.
pub open spec fn unchanged_except(pre: NativeSystem, post: NativeSystem, h: u64) -> bool {
    forall|x: u64| x != h ==> #[trigger] handle_state_eq(pre, post, x)
}

/// Everything about `h` except its attribute table reads the same in `pre`
/// and `post`.
pub open spec fn same_but_attrs(pre: NativeSystem, post: NativeSystem, h: u64) -> bool {
    &&& post.live(h) == pre.live(h)
    &&& post.class_of(h) == pre.class_of(h)
    &&& post.mapped(h) == pre.mapped(h)
    &&& post.visible(h) == pre.visible(h)
    &&& post.can_map(h) == pre.can_map(h)
    &&& post.hook_installs(h) == pre.hook_installs(h)
    &&& post.next_id() == pre.next_id()
}

/// Everything about `h` except its mapped and visible state reads the same
/// in `pre` and `post`.
pub open spec fn same_but_view_state(pre: NativeSystem, post: NativeSystem, h: u64) -> bool {
    &&& post.live(h) == pre.live(h)
    &&& post.class_of(h) == pre.class_of(h)
    &&& (forall|n: Seq<char>| #![trigger post.attr_of(h, n)]
        post.attr_of(h, n) == pre.attr_of(h, n))
    &&& post.can_map(h) == pre.can_map(h)
    &&& post.hook_installs(h) == pre.hook_installs(h)
    &&& post.next_id() == pre.next_id()
}

/// Everything about `h` except its hook-registration count reads the same
/// in `pre` and `post`.
pub open spec fn same_but_hooks(pre: NativeSystem, post: NativeSystem, h: u64) -> bool {
    &&& post.live(h) == pre.live(h)
    &&& post.class_of(h) == pre.class_of(h)
    &&& (forall|n: Seq<char>| #![trigger post.attr_of(h, n)]
        post.attr_of(h, n) == pre.attr_of(h, n))
    &&& post.mapped(h) == pre.mapped(h)
    &&& post.visible(h) == pre.visible(h)
    &&& post.can_map(h) == pre.can_map(h)
    &&& post.next_id() == pre.next_id()
}

impl NativeSystem {
    /// A native system with no objects; the first allocation hands out
    /// handle `1`.
    pub fn new() -> (s: NativeSystem)
        ensures
            s.wf(),
            s.next_id() == 1,
            forall|h: u64| !(#[trigger] s.live(h)),
            forall|h: u64| #[trigger] s.hook_installs(h) == 0,
            forall|h: u64, n: Seq<char>| #[trigger] s.attr_of(h, n) is None,
    {
        let s = NativeSystem { objects: Vec::new(), next_handle: 1 };
        proof {
            assert forall|h: u64| !(#[trigger] s.live(h)) && #[trigger] s.hook_installs(h) == 0
                && forall|n: Seq<char>| #[trigger] s.attr_of(h, n) is None by {
                lemma_find_by_absent(s.objects@, handle_pred(h), 0);
            }
        }
        s
    }

    /// Index of the record for `h`, when there is one.
    fn position_of(&self, h: u64) -> (r: Option<usize>)
        ensures
            match r {
                Some(i) => self.idx_of(h) == i as int && i < self.objects@.len()
                    && self.objects@[i as int].handle == h,
                None => self.idx_of(h) == -1,
            },
    {
        let ghost p = handle_pred(h);
        let mut k: usize = 0;
        while k < self.objects.len()
            invariant
                k <= self.objects@.len(),
                p == handle_pred(h),
                find_by(self.objects@, p, 0) == find_by(self.objects@, p, k as int),
            decreases self.objects@.len() - k,
        {
            if self.objects[k].handle == h {
                proof {
                    assert(p(self.objects@[k as int]));
                }
                return Some(k);
            }
            proof {
                assert(!p(self.objects@[k as int]));
            }
            k += 1;
        }
        None
    }

    /// Index of the record for `h`, for callers that know one exists.
    fn index_of_known(&self, h: u64) -> (i: usize)
        requires
            self.known(h),
        ensures
            i as int == self.idx_of(h),
            i < self.objects@.len(),
            self.objects@[i as int].handle == h,
    {
        match self.position_of(h) {
            Some(i) => i,
            None => {
                proof {
                    assert(false);
                }
                0
            },
        }
    }

    /// Whether the native system currently has a live object behind `h`.
    pub fn is_live(&self, h: u64) -> (r: bool)
        ensures
            r == self.live(h),
    {
        match self.position_of(h) {
            Some(i) => self.objects[i].alive,
            None => false,
        }
    }

    /// Counting observer for the destruction-notification registrations on
    /// `h`.
    pub fn hook_install_count(&self, h: u64) -> (r: u64)
        ensures
            r == self.hook_installs(h),
    {
        match self.position_of(h) {
            Some(i) => self.objects[i].hook_installs,
            None => 0,
        }
    }

    /// Whether the native representation of `h` has been created.
    pub fn is_mapped(&self, h: u64) -> (r: bool)
        ensures
            r == self.mapped(h),
    {
        match self.position_of(h) {
            Some(i) => self.objects[i].mapped,
            None => false,
        }
    }

    /// Whether `h` is currently shown.
    pub fn is_visible(&self, h: u64) -> (r: bool)
        ensures
            r == self.visible(h),
    {
        match self.position_of(h) {
            Some(i) => self.objects[i].visible,
            None => false,
        }
    }

    /// The class-name tag the native system keeps for the live object
    /// behind `h`; this is the runtime side of every downcast check.
    pub fn class_name(&self, h: u64) -> (r: String)
        requires
            self.live(h),
        ensures
            r@ == self.class_of(h),
    {
        let i = self.index_of_known(h);
        self.objects[i].class.clone()
    }

    /// Allocates a fresh object with class tag `class`, returning its
    /// handle, or the null sentinel `0` when the system cannot allocate.
    pub fn allocate(&mut self, class: &str) -> (r: u64)
        requires
            old(self).wf(),
        ensures
            final(self).wf(),
            old(self).next_id() == u64::MAX ==> r == 0 && *final(self) == *old(self),
            old(self).next_id() < u64::MAX ==> {
                &&& r == old(self).next_id()
                &&& r != 0
                &&& !old(self).live(r)
                &&& final(self).next_id() == old(self).next_id() + 1
                &&& final(self).live(r)
                &&& final(self).class_of(r) == class@
                &&& (forall|n: Seq<char>| #[trigger] final(self).attr_of(r, n) is None)
                &&& !final(self).mapped(r)
                &&& !final(self).visible(r)
                &&& final(self).can_map(r)
                &&& final(self).hook_installs(r) == 0
                &&& unchanged_except(*old(self), *final(self), r)
            },
    {
        if self.next_handle == u64::MAX {
            return 0;
        }
        let h = self.next_handle;
        let v = NativeObject {
            handle: h,
            class: class.to_owned(),
            attrs: Vec::new(),
            alive: true,
            mapped: false,
            visible: false,
            can_map: true,
            hook_installs: 0,
        };
        let ghost pre = *self;
        self.objects.push(v);
        self.next_handle = h + 1;
        proof {
            lemma_find_by_absent(pre.objects@, handle_pred(h), 0);
            lemma_find_by_push_absent(pre.objects@, v, handle_pred(h), 0);
            assert(handle_pred(h)(v));
            assert(self.idx_of(h) == pre.objects@.len());
            assert forall|n: Seq<char>| #[trigger] self.attr_of(h, n) is None by {
                lemma_find_by_absent(v.attrs@, attr_pred(n), 0);
            }
            assert forall|x: u64| x != h implies #[trigger] handle_state_eq(pre, *self, x) by {
                lemma_push_keeps_other(pre.objects@, v, x);
            }
        }
        h
    }
}

/// Pushing a record for one handle leaves the search for every other handle,
/// and hence everything read through it, where it was.
proof fn lemma_push_keeps_other(s: Seq<NativeObject>, v: NativeObject, x: u64)
    requires
        v.handle != x,
    ensures
        find_by(s.push(v), handle_pred(x), 0) == find_by(s, handle_pred(x), 0),
        find_by(s, handle_pred(x), 0) >= 0 ==> s.push(v)[find_by(s, handle_pred(x), 0)]
            == s[find_by(s, handle_pred(x), 0)],
{
    let p = handle_pred(x);
    if find_by(s, p, 0) >= 0 {
        lemma_find_by_found(s, p, 0);
        lemma_find_by_push_found(s, v, p, 0);
    } else {
        lemma_find_by_miss(s, p, 0);
        assert(!p(v));
        lemma_find_by_push_absent(s, v, p, 0);
    }
}

/// Index of the slot for attribute `name`, when there is one.
fn attr_position(attrs: &Vec<AttrSlot>, name: &String) -> (r: Option<usize>)
    ensures
        match r {
            Some(j) => find_by(attrs@, attr_pred(name@), 0) == j as int && j < attrs@.len()
                && attrs@[j as int].name@ == name@,
            None => find_by(attrs@, attr_pred(name@), 0) == -1,
        },
{
    let ghost p = attr_pred(name@);
    let mut k: usize = 0;
    while k < attrs.len()
        invariant
            k <= attrs@.len(),
            p == attr_pred(name@),
            find_by(attrs@, p, 0) == find_by(attrs@, p, k as int),
        decreases attrs@.len() - k,
    {
        if attrs[k].name == *name {
            proof {
                assert(p(attrs@[k as int]));
            }
            return Some(k);
        }
        proof {
            assert(!p(attrs@[k as int]));
        }
        k += 1;
    }
    None
}

/// Replacing the slot at `j` by one carrying the same name leaves what the
/// slots say about every other name unchanged.
proof fn lemma_attr_update_keeps_other(attrs: Seq<AttrSlot>, j: int, slot: AttrSlot, n: Seq<char>)
    requires
        0 <= j < attrs.len(),
        slot.name@ == attrs[j].name@,
        n != slot.name@,
    ensures
        attr_lookup(attrs.update(j, slot), n) == attr_lookup(attrs, n),
{
    let p = attr_pred(n);
    assert(p(slot) == p(attrs[j]));
    lemma_find_by_update(attrs, j, slot, p, 0);
    if find_by(attrs, p, 0) >= 0 {
        lemma_find_by_found(attrs, p, 0);
    }
}

/// Appending a slot for one name leaves what the slots say about every
/// other name unchanged.
proof fn lemma_attr_push_keeps_other(attrs: Seq<AttrSlot>, slot: AttrSlot, n: Seq<char>)
    requires
        n != slot.name@,
    ensures
        attr_lookup(attrs.push(slot), n) == attr_lookup(attrs, n),
{
    let p = attr_pred(n);
    if find_by(attrs, p, 0) >= 0 {
        lemma_find_by_found(attrs, p, 0);
        lemma_find_by_push_found(attrs, slot, p, 0);
    } else {
        lemma_find_by_miss(attrs, p, 0);
        assert(!p(slot));
        lemma_find_by_push_absent(attrs, slot, p, 0);
    }
}

/// Replacing the record at `k` by one with the same handle leaves the search
/// for every other handle, and the record it lands on, unchanged.
proof fn lemma_update_keeps_other(s: Seq<NativeObject>, k: int, v: NativeObject, x: u64)
    requires
        0 <= k < s.len(),
        v.handle == s[k].handle,
        x != v.handle,
    ensures
        find_by(s.update(k, v), handle_pred(x), 0) == find_by(s, handle_pred(x), 0),
        find_by(s, handle_pred(x), 0) >= 0 ==> s.update(k, v)[find_by(s, handle_pred(x), 0)]
            == s[find_by(s, handle_pred(x), 0)],
{
    let p = handle_pred(x);
    assert(p(v) == p(s[k]));
    lemma_find_by_update(s, k, v, p, 0);
    if find_by(s, p, 0) >= 0 {
        lemma_find_by_found(s, p, 0);
    }
}

/// Replacing one record in place, handle kept, touches nothing the model
/// says about any other handle, keeps well-formedness, and keeps the
/// touched handle's position.
proof fn lemma_set_frame(pre: NativeSystem, post: NativeSystem, k: int, v: NativeObject)
    requires
        0 <= k < pre.objects@.len(),
        v.handle == pre.objects@[k].handle,
        post.objects@ == pre.objects@.update(k, v),
        post.next_handle == pre.next_handle,
        pre.wf(),
    ensures
        post.wf(),
        unchanged_except(pre, post, v.handle),
        post.idx_of(v.handle) == pre.idx_of(v.handle),
        post.next_id() == pre.next_id(),
{
    assert forall|i: int| 0 <= i < post.objects@.len() implies (#[trigger] post.objects@[i]).handle
        != 0 && post.objects@[i].handle < post.next_handle by {
        assert(pre.objects@[i].handle != 0);
        if i != k {
            assert(post.objects@[i] == pre.objects@[i]);
        }
    }
    assert forall|x: u64| x != v.handle implies #[trigger] handle_state_eq(pre, post, x) by {
        lemma_update_keeps_other(pre.objects@, k, v, x);
        assert forall|n: Seq<char>| #[trigger] post.attr_of(x, n) == pre.attr_of(x, n) by {
            if pre.idx_of(x) >= 0 {
                assert(post.objects@[post.idx_of(x)] == pre.objects@[pre.idx_of(x)]);
            }
        }
    }
    assert(handle_pred(v.handle)(v) == handle_pred(v.handle)(pre.objects@[k]));
    lemma_find_by_update(pre.objects@, k, v, handle_pred(v.handle), 0);
}

impl NativeSystem {
    /// Registers the destruction notification for the live object behind
    /// `h`, counted so that the single-installation discipline is
    /// observable.
    pub fn register_destroy_hook(&mut self, h: u64)
        requires
            old(self).wf(),
            old(self).live(h),
            old(self).hook_installs(h) < u64::MAX,
        ensures
            final(self).wf(),
            final(self).live(h),
            final(self).hook_installs(h) == old(self).hook_installs(h) + 1,
            final(self).class_of(h) == old(self).class_of(h),
            forall|n: Seq<char>| #[trigger] final(self).attr_of(h, n) == old(self).attr_of(h, n),
            final(self).mapped(h) == old(self).mapped(h),
            final(self).visible(h) == old(self).visible(h),
            final(self).can_map(h) == old(self).can_map(h),
            final(self).next_id() == old(self).next_id(),
            unchanged_except(*old(self), *final(self), h),
    {
        let i = self.index_of_known(h);
        let ghost pre = *self;
        let c = self.objects[i].hook_installs;
        self.objects[i].hook_installs = c + 1;
        proof {
            lemma_set_frame(pre, *self, i as int, self.objects@[i as int]);
        }
    }

    /// Tears down the object behind `h`: from here on the handle is dead.
    /// The wrapper layer, not this call, is responsible for delivering the
    /// destruction notification to its registry.
    pub fn destroy_object(&mut self, h: u64)
        requires
            old(self).wf(),
            old(self).live(h),
        ensures
            final(self).wf(),
            !final(self).live(h),
            final(self).hook_installs(h) == old(self).hook_installs(h),
            final(self).next_id() == old(self).next_id(),
            unchanged_except(*old(self), *final(self), h),
    {
        let i = self.index_of_known(h);
        let ghost pre = *self;
        self.objects[i].alive = false;
        proof {
            lemma_set_frame(pre, *self, i as int, self.objects@[i as int]);
        }
    }

    /// Creates the native representation of `h`; the returned status is the
    /// native system's own verdict.
    pub fn map_object(&mut self, h: u64) -> (ok: bool)
        requires
            old(self).wf(),
            old(self).live(h),
        ensures
            final(self).wf(),
            ok == old(self).can_map(h),
            final(self).live(h),
            final(self).mapped(h) == (old(self).mapped(h) || ok),
            final(self).visible(h) == old(self).visible(h),
            final(self).can_map(h) == old(self).can_map(h),
            final(self).class_of(h) == old(self).class_of(h),
            forall|n: Seq<char>| #[trigger] final(self).attr_of(h, n) == old(self).attr_of(h, n),
            final(self).hook_installs(h) == old(self).hook_installs(h),
            final(self).next_id() == old(self).next_id(),
            unchanged_except(*old(self), *final(self), h),
    {
        let i = self.index_of_known(h);
        let ghost pre = *self;
        let ok = self.objects[i].can_map;
        if ok {
            self.objects[i].mapped = true;
            proof {
                lemma_set_frame(pre, *self, i as int, self.objects@[i as int]);
            }
        }
        ok
    }

    /// Maps and shows `h`; the returned status is the native system's own
    /// verdict.
    pub fn show_object(&mut self, h: u64) -> (ok: bool)
        requires
            old(self).wf(),
            old(self).live(h),
        ensures
            final(self).wf(),
            ok == old(self).can_map(h),
            final(self).live(h),
            final(self).mapped(h) == (old(self).mapped(h) || ok),
            final(self).visible(h) == (if ok {
                true
            } else {
                old(self).visible(h)
            }),
            final(self).can_map(h) == old(self).can_map(h),
            final(self).class_of(h) == old(self).class_of(h),
            forall|n: Seq<char>| #[trigger] final(self).attr_of(h, n) == old(self).attr_of(h, n),
            final(self).hook_installs(h) == old(self).hook_installs(h),
            final(self).next_id() == old(self).next_id(),
            unchanged_except(*old(self), *final(self), h),
    {
        let i = self.index_of_known(h);
        let ghost pre = *self;
        let ok = self.objects[i].can_map;
        if ok {
            self.objects[i].mapped = true;
            self.objects[i].visible = true;
            proof {
                assert(self.objects@ =~= pre.objects@.update(i as int, self.objects@[i as int]));
                lemma_set_frame(pre, *self, i as int, self.objects@[i as int]);
            }
        }
        ok
    }

    /// Removes the native representation of `h`; the object itself stays
    /// alive and can be mapped again.
    pub fn unmap_object(&mut self, h: u64)
        requires
            old(self).wf(),
            old(self).live(h),
        ensures
            final(self).wf(),
            final(self).live(h),
            !final(self).mapped(h),
            !final(self).visible(h),
            final(self).can_map(h) == old(self).can_map(h),
            final(self).class_of(h) == old(self).class_of(h),
            forall|n: Seq<char>| #[trigger] final(self).attr_of(h, n) == old(self).attr_of(h, n),
            final(self).hook_installs(h) == old(self).hook_installs(h),
            final(self).next_id() == old(self).next_id(),
            unchanged_except(*old(self), *final(self), h),
    {
        let i = self.index_of_known(h);
        let ghost pre = *self;
        self.objects[i].mapped = false;
        self.objects[i].visible = false;
        proof {
            assert(self.objects@ =~= pre.objects@.update(i as int, self.objects@[i as int]));
            lemma_set_frame(pre, *self, i as int, self.objects@[i as int]);
        }
    }

    /// Stops showing `h` without unmapping it.
    pub fn hide_object(&mut self, h: u64)
        requires
            old(self).wf(),
            old(self).live(h),
        ensures
            final(self).wf(),
            final(self).live(h),
            final(self).mapped(h) == old(self).mapped(h),
            !final(self).visible(h),
            final(self).can_map(h) == old(self).can_map(h),
            final(self).class_of(h) == old(self).class_of(h),
            forall|n: Seq<char>| #[trigger] final(self).attr_of(h, n) == old(self).attr_of(h, n),
            final(self).hook_installs(h) == old(self).hook_installs(h),
            final(self).next_id() == old(self).next_id(),
            unchanged_except(*old(self), *final(self), h),
    {
        let i = self.index_of_known(h);
        let ghost pre = *self;
        self.objects[i].visible = false;
        proof {
            lemma_set_frame(pre, *self, i as int, self.objects@[i as int]);
        }
    }

    /// Sets attribute `name` of the live object behind `h` to `value`.
    pub fn set_attr(&mut self, h: u64, name: &str, value: &str)
        requires
            old(self).wf(),
            old(self).live(h),
        ensures
            final(self).wf(),
            final(self).live(h),
            final(self).attr_of(h, name@) == Some(value@),
            forall|n: Seq<char>|
                n != name@ ==> #[trigger] final(self).attr_of(h, n) == old(self).attr_of(h, n),
            final(self).class_of(h) == old(self).class_of(h),
            final(self).mapped(h) == old(self).mapped(h),
            final(self).visible(h) == old(self).visible(h),
            final(self).can_map(h) == old(self).can_map(h),
            final(self).hook_installs(h) == old(self).hook_installs(h),
            final(self).next_id() == old(self).next_id(),
            unchanged_except(*old(self), *final(self), h),
    {
        let i = self.index_of_known(h);
        let ghost pre = *self;
        let name_o = name.to_owned();
        let value_o = value.to_owned();
        let r = attr_position(&self.objects[i].attrs, &name_o);
        let slot = AttrSlot { name: name_o, value: value_o, set: true };
        let ghost gslot = slot;
        match r {
            Some(j) => {
                self.objects[i].attrs[j] = slot;
            },
            None => {
                self.objects[i].attrs.push(slot);
            },
        }
        proof {
            lemma_set_frame(pre, *self, i as int, self.objects@[i as int]);
            let a0 = pre.objects@[i as int].attrs@;
            let a1 = self.objects@[i as int].attrs@;
            assert(attr_pred(name@)(gslot));
            match r {
                Some(j) => {
                    assert(a1 == a0.update(j as int, gslot));
                    assert(attr_pred(name@)(a0[j as int]));
                    lemma_find_by_update(a0, j as int, gslot, attr_pred(name@), 0);
                    assert(attr_lookup(a1, name@) == Some(value@));
                    assert forall|n: Seq<char>|
                        n != name@ implies #[trigger] attr_lookup(a1, n) == attr_lookup(a0, n) by {
                        lemma_attr_update_keeps_other(a0, j as int, gslot, n);
                    }
                },
                None => {
                    assert(a1 == a0.push(gslot));
                    lemma_find_by_push_absent(a0, gslot, attr_pred(name@), 0);
                    assert(attr_lookup(a1, name@) == Some(value@));
                    assert forall|n: Seq<char>|
                        n != name@ implies #[trigger] attr_lookup(a1, n) == attr_lookup(a0, n) by {
                        lemma_attr_push_keeps_other(a0, gslot, n);
                    }
                },
            }
        }
    }

    /// Reads attribute `name` of the live object behind `h`.  `None` is the
    /// native system's "unset" report, distinct from an empty string value.
    pub fn get_attr(&self, h: u64, name: &str) -> (r: Option<String>)
        requires
            self.wf(),
            self.live(h),
        ensures
            match r {
                Some(v) => self.attr_of(h, name@) == Some(v@),
                None => self.attr_of(h, name@) is None,
            },
    {
        let i = self.index_of_known(h);
        let name_o = name.to_owned();
        match attr_position(&self.objects[i].attrs, &name_o) {
            Some(j) => {
                if self.objects[i].attrs[j].set {
                    Some(self.objects[i].attrs[j].value.clone())
                } else {
                    None
                }
            },
            None => None,
        }
    }

    /// Clears attribute `name` of the live object behind `h`: afterwards
    /// the native system reports it as unset.
    pub fn clear_attr(&mut self, h: u64, name: &str)
        requires
            old(self).wf(),
            old(self).live(h),
        ensures
            final(self).wf(),
            final(self).live(h),
            final(self).attr_of(h, name@) is None,
            forall|n: Seq<char>|
                n != name@ ==> #[trigger] final(self).attr_of(h, n) == old(self).attr_of(h, n),
            final(self).class_of(h) == old(self).class_of(h),
            final(self).mapped(h) == old(self).mapped(h),
            final(self).visible(h) == old(self).visible(h),
            final(self).can_map(h) == old(self).can_map(h),
            final(self).hook_installs(h) == old(self).hook_installs(h),
            final(self).next_id() == old(self).next_id(),
            unchanged_except(*old(self), *final(self), h),
    {
        let i = self.index_of_known(h);
        let ghost pre = *self;
        let name_o = name.to_owned();
        match attr_position(&self.objects[i].attrs, &name_o) {
            Some(j) => {
                self.objects[i].attrs[j].set = false;
                proof {
                    lemma_set_frame(pre, *self, i as int, self.objects@[i as int]);
                    let a0 = pre.objects@[i as int].attrs@;
                    let a1 = self.objects@[i as int].attrs@;
                    let gslot = a1[j as int];
                    assert(a1 == a0.update(j as int, gslot));
                    assert(attr_pred(name@)(a0[j as int]));
                    assert(attr_pred(name@)(gslot));
                    lemma_find_by_update(a0, j as int, gslot, attr_pred(name@), 0);
                    assert(attr_lookup(a1, name@) is None);
                    assert forall|n: Seq<char>|
                        n != name@ implies #[trigger] attr_lookup(a1, n) == attr_lookup(a0, n) by {
                        lemma_attr_update_keeps_other(a0, j as int, gslot, n);
                    }
                }
            },
            None => {
                proof {
                    assert(*self == pre);
                    assert forall|x: u64| x != h implies #[trigger] handle_state_eq(pre, *self, x)
                        by {}
                }
            },
        }
    }

    /// Stub configuration: from now on this system reports failure from
    /// `map` and `show` for `h`.  The real native system makes that decision
    /// internally; a test makes it here.
    pub fn refuse_mapping(&mut self, h: u64)
        requires
            old(self).wf(),
            old(self).live(h),
        ensures
            final(self).wf(),
            final(self).live(h),
            !final(self).can_map(h),
            final(self).mapped(h) == old(self).mapped(h),
            final(self).visible(h) == old(self).visible(h),
            final(self).class_of(h) == old(self).class_of(h),
            forall|n: Seq<char>| #[trigger] final(self).attr_of(h, n) == old(self).attr_of(h, n),
            final(self).hook_installs(h) == old(self).hook_installs(h),
            final(self).next_id() == old(self).next_id(),
            unchanged_except(*old(self), *final(self), h),
    {
        let i = self.index_of_known(h);
        let ghost pre = *self;
        self.objects[i].can_map = false;
        proof {
            lemma_set_frame(pre, *self, i as int, self.objects@[i as int]);
        }
    }
}

} // verus!
