//! The viewport registry: logical screen sub-rectangles with stable
//! keys and an optional per-viewport resize policy.
//!
//! Keys are allocated strictly increasing and never reused, even
//! after a removal, so a stale key reliably misses on lookup instead
//! of silently hitting a reused slot. A relayout applies each
//! viewport's policy to the new window size and leaves policy-less
//! viewports untouched.

use vstd::prelude::*;

verus! {

/// A viewport rectangle: top-left corner and size, in pixels.
#[derive(Clone, Copy, Debug, PartialEq, Eq, Structural)]
pub struct Rect {
    /// Left edge of the rectangle.
    pub x: i32,
    /// Top edge of the rectangle.
    pub y: i32,
    /// Width in pixels.
    pub width: u32,
    /// Height in pixels.
    pub height: u32,
}

/// A host-supplied rule that recomputes a viewport's rectangle from a
/// new window client size during a relayout.
pub trait ResizePolicy: Sized {
    /// The rectangle this policy assigns for the given client size.
    spec fn spec_update_viewport(&self, width: u32, height: u32) -> Rect;

    /// Computes the rectangle for the given client size.
    fn update_viewport(&self, width: u32, height: u32) -> (r: Rect)
        ensures
            r == self.spec_update_viewport(width, height),
    ;
}

/// The policy of a viewport that always covers the whole window.
#[derive(Clone, Copy, Debug, PartialEq, Eq, Structural)]
pub struct FullWindowPolicy;

impl ResizePolicy for FullWindowPolicy {
    open spec fn spec_update_viewport(&self, width: u32, height: u32) -> Rect {
        Rect { x: 0, y: 0, width, height }
    }

    fn update_viewport(&self, width: u32, height: u32) -> (r: Rect) {
        Rect { x: 0, y: 0, width, height }
    }
}

/// One registered viewport: a stable key, the current rectangle, and
/// the optional policy consulted on relayout.
#[verifier::reject_recursive_types(P)]
pub struct Viewport<P> {
    /// The key under which the registry knows this viewport.
    pub key: usize,
    /// The current rectangle.
    pub rect: Rect,
    /// The resize policy, if the viewport follows the window size.
    pub updater: Option<P>,
}

/// Whether the keys along `s` are strictly increasing.
pub open spec fn keys_sorted<P>(s: Seq<Viewport<P>>) -> bool {
    forall|i: int, j: int| 0 <= i < j < s.len() ==> s[i].key < s[j].key
}

/// Whether every key along `s` is below `bound`.
pub open spec fn keys_below<P>(s: Seq<Viewport<P>>, bound: usize) -> bool {
    forall|i: int| 0 <= i < s.len() ==> (#[trigger] s[i]).key < bound
}

/// `s` without its entries keyed `key`, order kept.
pub open spec fn remove_key_entries<P>(s: Seq<Viewport<P>>, key: usize) -> Seq<Viewport<P>>
    decreases s.len(),
{
    if s.len() == 0 {
        s
    } else {
        let rest = remove_key_entries(s.drop_last(), key);
        if s.last().key == key {
            rest
        } else {
            rest.push(s.last())
        }
    }
}

/// One entry after a relayout against the given client size: the
/// policy's rectangle if the entry has a policy, the old rectangle
/// otherwise. Key and policy never change.
pub open spec fn relayout_entry<P: ResizePolicy>(v: Viewport<P>, width: u32, height: u32) -> Viewport<
    P,
> {
    match v.updater {
        Some(p) => Viewport { key: v.key, rect: p.spec_update_viewport(width, height), updater: v.updater },
        None => v,
    }
}

/// Mathematical view of the registry.
#[verifier::reject_recursive_types(P)]
pub ghost struct RegistryView<P> {
    /// The registered viewports, in creation order.
    pub entries: Seq<Viewport<P>>,
    /// The key the next creation will take.
    pub next_key: usize,
    /// The key applied automatically at the start of each frame.
    pub default_key: usize,
}

impl<P: ResizePolicy> RegistryView<P> {
    /// The state of a fresh registry.
    pub open spec fn init() -> RegistryView<P> {
        RegistryView { entries: Seq::empty(), next_key: 0, default_key: 0 }
    }

    /// Well-formedness: keys strictly increase along the entries, and
    /// all sit below the next key to be allocated.
    pub open spec fn wf(self) -> bool {
        keys_sorted(self.entries) && keys_below(self.entries, self.next_key)
    }

    /// State after creating a viewport: the new entry takes the next
    /// key, which is then never handed out again.
    pub open spec fn create(self, rect: Rect, updater: Option<P>) -> RegistryView<P> {
        RegistryView {
            entries: self.entries.push(Viewport { key: self.next_key, rect, updater }),
            next_key: (self.next_key + 1) as usize,
            default_key: self.default_key,
        }
    }

    /// State after removing a key; other entries keep key and rect.
    pub open spec fn remove(self, key: usize) -> RegistryView<P> {
        RegistryView { entries: remove_key_entries(self.entries, key), ..self }
    }

    /// State after a relayout against a new client size.
    pub open spec fn relayout(self, width: u32, height: u32) -> RegistryView<P> {
        RegistryView {
            entries: Seq::new(self.entries.len(), |i: int| relayout_entry(self.entries[i], width, height)),
            ..self
        }
    }

    /// State after replacing the rectangle of the entry keyed `key`.
    pub open spec fn update_rect(self, key: usize, rect: Rect) -> RegistryView<P> {
        RegistryView {
            entries: Seq::new(
                self.entries.len(),
                |i: int|
                    if self.entries[i].key == key {
                        Viewport { key: self.entries[i].key, rect, updater: self.entries[i].updater }
                    } else {
                        self.entries[i]
                    },
            ),
            ..self
        }
    }

    /// State after naming a new default viewport.
    pub open spec fn set_default(self, key: usize) -> RegistryView<P> {
        RegistryView { default_key: key, ..self }
    }

    /// Whether some entry is keyed `key`.
    pub open spec fn has_key(self, key: usize) -> bool {
        exists|i: int| 0 <= i < self.entries.len() && (#[trigger] self.entries[i]).key == key
    }

    /// The rectangle of the entry keyed `key`, if any.
    pub open spec fn lookup(self, key: usize) -> Option<Rect> {
        if self.has_key(key) {
            let i = choose|i: int| 0 <= i < self.entries.len() && (#[trigger] self.entries[i]).key
                == key;
            Some(self.entries[i].rect)
        } else {
            None
        }
    }
}

/// Two entries of a sorted run that carry the same key sit at the
/// same index.
proof fn lemma_key_injective<P>(s: Seq<Viewport<P>>, i: int, j: int)
    requires
        keys_sorted(s),
        0 <= i < s.len(),
        0 <= j < s.len(),
        s[i].key == s[j].key,
    ensures
        i == j,
{
    if i < j {
        assert(s[i].key < s[j].key);
    }
    if j < i {
        assert(s[j].key < s[i].key);
    }
}

/// What removal keeps: exactly the entries under other keys, in
/// their old order, and nothing else.
proof fn lemma_remove_key_entries_props<P>(s: Seq<Viewport<P>>, key: usize)
    ensures
        remove_key_entries(s, key).len() <= s.len(),
        forall|i: int|
            0 <= i < remove_key_entries(s, key).len() ==> (#[trigger] remove_key_entries(s, key)[i]).key
                != key,
        forall|i: int|
            0 <= i < remove_key_entries(s, key).len() ==> s.contains(
                #[trigger] remove_key_entries(s, key)[i],
            ),
        forall|j: int|
            0 <= j < s.len() && s[j].key != key ==> remove_key_entries(s, key).contains(
                #[trigger] s[j],
            ),
    decreases s.len(),
{
    if s.len() == 0 {
    } else {
        let d = s.drop_last();
        let rest = remove_key_entries(d, key);
        lemma_remove_key_entries_props(d, key);
        assert forall|i: int|
            0 <= i < rest.len() implies s.contains(#[trigger] rest[i]) by {
            let w = choose|w: int| 0 <= w < d.len() && d[w] == rest[i];
            assert(s[w] == rest[i]);
        }
        if s.last().key != key {
            let out = rest.push(s.last());
            assert(s.contains(s.last())) by {
                assert(s[s.len() - 1] == s.last());
            }
            assert forall|i: int|
                0 <= i < out.len() implies s.contains(#[trigger] out[i]) && out[i].key != key by {
                if i < rest.len() {
                    assert(out[i] == rest[i]);
                } else {
                    assert(out[i] == s.last());
                }
            }
            assert forall|j: int|
                0 <= j < s.len() && s[j].key != key implies out.contains(#[trigger] s[j]) by {
                if j < s.len() - 1 {
                    assert(d[j] == s[j]);
                    assert(rest.contains(s[j]));
                    let w = choose|w: int| 0 <= w < rest.len() && rest[w] == s[j];
                    assert(out[w] == s[j]);
                } else {
                    assert(out[out.len() - 1] == s[j]);
                }
            }
        } else {
            assert forall|j: int|
                0 <= j < s.len() && s[j].key != key implies rest.contains(#[trigger] s[j]) by {
                assert(j < s.len() - 1);
                assert(d[j] == s[j]);
            }
        }
    }
}

/// Removal of a key nobody carries changes nothing.
proof fn lemma_remove_key_entries_absent<P>(s: Seq<Viewport<P>>, key: usize)
    requires
        forall|i: int| 0 <= i < s.len() ==> (#[trigger] s[i]).key != key,
    ensures
        remove_key_entries(s, key) == s,
    decreases s.len(),
{
    if s.len() == 0 {
    } else {
        let d = s.drop_last();
        assert(s.last().key != key) by {
            assert(s[s.len() - 1].key != key);
        }
        assert forall|i: int| 0 <= i < d.len() implies (#[trigger] d[i]).key != key by {
            assert(d[i] == s[i]);
        }
        lemma_remove_key_entries_absent(d, key);
        assert(remove_key_entries(s, key) =~= s);
    }
}

/// When exactly one entry carries the key, removal equals deleting
/// that entry at its index.
proof fn lemma_remove_key_entries_at<P>(s: Seq<Viewport<P>>, key: usize, at: int)
    requires
        0 <= at < s.len(),
        s[at].key == key,
        forall|i: int| 0 <= i < s.len() && i != at ==> (#[trigger] s[i]).key != key,
    ensures
        remove_key_entries(s, key) == s.remove(at),
    decreases s.len(),
{
    let d = s.drop_last();
    if at == s.len() - 1 {
        assert forall|i: int| 0 <= i < d.len() implies (#[trigger] d[i]).key != key by {
            assert(d[i] == s[i]);
        }
        lemma_remove_key_entries_absent(d, key);
        assert(remove_key_entries(s, key) =~= s.remove(at));
    } else {
        assert(d[at] == s[at]);
        assert forall|i: int| 0 <= i < d.len() && i != at implies (#[trigger] d[i]).key != key by {
            assert(d[i] == s[i]);
        }
        lemma_remove_key_entries_at(d, key, at);
        assert(s.last().key != key) by {
            assert(s[s.len() - 1].key != key);
        }
        assert(remove_key_entries(s, key) =~= s.remove(at)) by {
            assert(remove_key_entries(s, key) == d.remove(at).push(s.last()));
            assert forall|i: int|
                0 <= i < s.len() - 1 implies s.remove(at)[i] == d.remove(at).push(s.last())[i] by {
                if i < at {
                    assert(s.remove(at)[i] == s[i]);
                } else if i < s.len() - 2 {
                    assert(s.remove(at)[i] == s[i + 1]);
                } else {
                    assert(s.remove(at)[i] == s[i + 1]);
                    assert(s[i + 1] == s.last());
                }
            }
        }
    }
}

/// Removal keeps the key order and any upper bound on the keys.
proof fn lemma_remove_key_entries_sorted<P>(s: Seq<Viewport<P>>, key: usize, bound: usize)
    requires
        keys_sorted(s),
        keys_below(s, bound),
    ensures
        keys_sorted(remove_key_entries(s, key)),
        keys_below(remove_key_entries(s, key), bound),
    decreases s.len(),
{
    if s.len() == 0 {
    } else {
        let d = s.drop_last();
        let rest = remove_key_entries(d, key);
        assert(keys_sorted(d) && keys_below(d, bound)) by {
            assert(forall|i: int| 0 <= i < d.len() ==> d[i] == s[i]);
        }
        lemma_remove_key_entries_sorted(d, key, bound);
        lemma_remove_key_entries_props(d, key);
        if s.last().key != key {
            let out = rest.push(s.last());
            assert forall|i: int, j: int| 0 <= i < j < out.len() implies out[i].key < out[j].key by {
                if j < rest.len() {
                    assert(out[i] == rest[i] && out[j] == rest[j]);
                } else {
                    assert(out[i] == rest[i] && out[j] == s.last());
                    assert(d.contains(rest[i]));
                    let w = choose|w: int| 0 <= w < d.len() && d[w] == rest[i];
                    assert(s[w] == rest[i]);
                    assert(s[w].key < s[s.len() - 1].key);
                }
            }
            assert forall|i: int| 0 <= i < out.len() implies (#[trigger] out[i]).key < bound by {
                if i < rest.len() {
                    assert(out[i] == rest[i]);
                } else {
                    assert(out[i] == s.last());
                    assert(s[s.len() - 1].key < bound);
                }
            }
        }
    }
}

/// Owns the keyed collection of logical viewports.
#[verifier::reject_recursive_types(P)]
pub struct ViewportRegistry<P> {
    viewports: Vec<Viewport<P>>,
    next_key: usize,
    default_key: usize,
}

impl<P: ResizePolicy> View for ViewportRegistry<P> {
    type V = RegistryView<P>;

    closed spec fn view(&self) -> RegistryView<P> {
        RegistryView {
            entries: self.viewports@,
            next_key: self.next_key,
            default_key: self.default_key,
        }
    }
}

impl<P: ResizePolicy> ViewportRegistry<P> {
    /// A fresh registry with no viewports; the first creation takes
    /// key zero, which is also the initial default.
    pub fn new() -> (r: ViewportRegistry<P>)
        ensures
            r@ == RegistryView::<P>::init(),
            r@.wf(),
    {
        let r = ViewportRegistry { viewports: Vec::new(), next_key: 0, default_key: 0 };
        proof {
            assert(r@.entries =~= Seq::<Viewport<P>>::empty());
        }
        r
    }

    /// Registers a viewport and returns its key: the next value of a
    /// strictly increasing counter, never reused even after removal.
    pub fn create_viewport(&mut self, rect: Rect, updater: Option<P>) -> (key: usize)
        requires
            old(self)@.wf(),
            old(self)@.next_key < usize::MAX,
        ensures
            key == old(self)@.next_key,
            final(self)@ == old(self)@.create(rect, updater),
            final(self)@.wf(),
    {
        let key = self.next_key;
        self.next_key = self.next_key + 1;
        self.viewports.push(Viewport { key, rect, updater });
        proof {
            let s = self@.entries;
            assert forall|i: int, j: int| 0 <= i < j < s.len() implies s[i].key < s[j].key by {
                if j < s.len() - 1 {
                    assert(s[i] == old(self)@.entries[i] && s[j] == old(self)@.entries[j]);
                } else {
                    assert(s[i] == old(self)@.entries[i]);
                }
            }
            assert forall|i: int| 0 <= i < s.len() implies (#[trigger] s[i]).key < self@.next_key by {
                if i < s.len() - 1 {
                    assert(s[i] == old(self)@.entries[i]);
                }
            }
        }
        key
    }

    /// Deletes the entry keyed `key`, if present; later lookups of
    /// that key miss.
    pub fn remove_viewport(&mut self, key: usize)
        requires
            old(self)@.wf(),
        ensures
            final(self)@ == old(self)@.remove(key),
            final(self)@.wf(),
    {
        let mut i: usize = 0;
        while i < self.viewports.len()
            invariant
                i <= self.viewports.len(),
                forall|j: int| 0 <= j < i ==> (#[trigger] self.viewports@[j]).key != key,
                self == old(self),
                self@.wf(),
            decreases self.viewports.len() - i,
        {
            if self.viewports[i].key == key {
                proof {
                    assert forall|j: int|
                        0 <= j < self.viewports@.len() && j != i implies (#[trigger] self.viewports@[j]).key
                        != key by {
                        if j > i {
                            assert(self.viewports@[i as int].key < self.viewports@[j].key);
                        }
                    }
                    lemma_remove_key_entries_at(self.viewports@, key, i as int);
                    lemma_remove_key_entries_sorted(self.viewports@, key, self.next_key);
                }
                self.viewports.remove(i);
                return ;
            }
            i += 1;
        }
        proof {
            lemma_remove_key_entries_absent(self.viewports@, key);
        }
    }

    /// Applies every policy-carrying viewport's policy to the new
    /// client size; fixed-rect viewports are left unchanged.
    pub fn update_viewports(&mut self, width: u32, height: u32)
        requires
            old(self)@.wf(),
        ensures
            final(self)@ == old(self)@.relayout(width, height),
            final(self)@.wf(),
    {
        let ghost orig = self@.entries;
        let mut i: usize = 0;
        while i < self.viewports.len()
            invariant
                i <= self.viewports.len(),
                self.viewports@.len() == orig.len(),
                self.next_key == old(self).next_key,
                self.default_key == old(self).default_key,
                forall|j: int|
                    0 <= j < i ==> self.viewports@[j] == relayout_entry(
                        #[trigger] orig[j],
                        width,
                        height,
                    ),
                forall|j: int| i <= j < orig.len() ==> self.viewports@[j] == #[trigger] orig[j],
            decreases self.viewports.len() - i,
        {
            let rect = match &self.viewports[i].updater {
                Some(p) => Some(p.update_viewport(width, height)),
                None => None,
            };
            match rect {
                Some(r) => {
                    self.viewports[i].rect = r;
                },
                None => {},
            }
            i += 1;
        }
        proof {
            assert(self@.entries =~= old(self)@.relayout(width, height).entries);
            let s = self@.entries;
            assert forall|a: int, b: int| 0 <= a < b < s.len() implies s[a].key < s[b].key by {
                assert(s[a].key == orig[a].key && s[b].key == orig[b].key);
            }
            assert forall|a: int| 0 <= a < s.len() implies (#[trigger] s[a]).key < self@.next_key by {
                assert(s[a].key == orig[a].key);
            }
        }
    }

    /// The rectangle registered under `key`, or `None` for a missing
    /// or removed key.
    pub fn get_viewport(&self, key: usize) -> (r: Option<Rect>)
        requires
            self@.wf(),
        ensures
            r == self@.lookup(key),
    {
        let mut i: usize = 0;
        while i < self.viewports.len()
            invariant
                i <= self.viewports.len(),
                forall|j: int| 0 <= j < i ==> (#[trigger] self.viewports@[j]).key != key,
                self@.wf(),
            decreases self.viewports.len() - i,
        {
            if self.viewports[i].key == key {
                proof {
                    let w = choose|w: int|
                        0 <= w < self@.entries.len() && (#[trigger] self@.entries[w]).key == key;
                    lemma_key_injective(self@.entries, w, i as int);
                }
                return Some(self.viewports[i].rect);
            }
            i += 1;
        }
        None
    }

    /// Replaces the rectangle of the viewport keyed `key`, which must
    /// exist.
    pub fn update_viewport(&mut self, key: usize, rect: Rect)
        requires
            old(self)@.wf(),
            old(self)@.has_key(key),
        ensures
            final(self)@ == old(self)@.update_rect(key, rect),
            final(self)@.wf(),
    {
        let ghost orig = self@.entries;
        let mut i: usize = 0;
        while i < self.viewports.len()
            invariant
                i <= self.viewports.len(),
                self.viewports@.len() == orig.len(),
                self.next_key == old(self).next_key,
                self.default_key == old(self).default_key,
                forall|j: int| 0 <= j < i ==> (#[trigger] orig[j]).key != key,
                forall|j: int| 0 <= j < orig.len() ==> self.viewports@[j] == #[trigger] orig[j],
                keys_sorted(orig),
                keys_below(orig, old(self).next_key),
                orig == old(self)@.entries,
            decreases self.viewports.len() - i,
        {
            if self.viewports[i].key == key {
                self.viewports[i].rect = rect;
                proof {
                    assert forall|j: int|
                        0 <= j < orig.len() && j != i implies (#[trigger] orig[j]).key != key by {
                        if orig[j].key == key {
                            lemma_key_injective(orig, i as int, j);
                        }
                    }
                    let target = old(self)@.update_rect(key, rect).entries;
                    assert(old(self)@.entries =~= orig);
                    assert forall|j: int| 0 <= j < orig.len() implies self@.entries[j] == target[j] by {
                        if j == i {
                            assert(orig[j].key == key);
                            assert(self@.entries[j].key == orig[j].key);
                            assert(self@.entries[j].rect == rect);
                            assert(self@.entries[j].updater == orig[j].updater);
                        } else {
                            assert(self@.entries[j] == orig[j]);
                            assert(orig[j].key != key);
                        }
                    }
                    assert(self@.entries =~= old(self)@.update_rect(key, rect).entries);
                    let s = self@.entries;
                    assert forall|a: int, b: int| 0 <= a < b < s.len() implies s[a].key < s[b].key by {
                        assert(s[a].key == orig[a].key && s[b].key == orig[b].key);
                    }
                    assert forall|a: int|
                        0 <= a < s.len() implies (#[trigger] s[a]).key < self@.next_key by {
                        assert(s[a].key == orig[a].key);
                    }
                }
                return ;
            }
            i += 1;
        }
        proof {
            let w = choose|w: int| 0 <= w < orig.len() && (#[trigger] orig[w]).key == key;
            assert(orig[w].key != key);
        }
    }

    /// Names the viewport applied automatically at the start of each
    /// frame.
    pub fn set_default_viewport(&mut self, key: usize)
        ensures
            final(self)@ == old(self)@.set_default(key),
    {
        self.default_key = key;
    }

    /// The key of the default viewport.
    pub fn default_viewport(&self) -> (r: usize)
        ensures
            r == self@.default_key,
    {
        self.default_key
    }

    /// How many viewports are registered.
    pub fn viewport_count(&self) -> (r: usize)
        ensures
            r == self@.entries.len(),
    {
        self.viewports.len()
    }
}

/// Creation preserves well-formedness and bumps the key counter.
pub proof fn lemma_create_wf<P: ResizePolicy>(r: RegistryView<P>, rect: Rect, updater: Option<P>)
    requires
        r.wf(),
        r.next_key < usize::MAX,
    ensures
        r.create(rect, updater).wf(),
        r.create(rect, updater).next_key == r.next_key + 1,
{
    let s = r.create(rect, updater).entries;
    assert forall|i: int, j: int| 0 <= i < j < s.len() implies s[i].key < s[j].key by {
        if j < s.len() - 1 {
            assert(s[i] == r.entries[i] && s[j] == r.entries[j]);
        } else {
            assert(s[i] == r.entries[i]);
        }
    }
    assert forall|i: int| 0 <= i < s.len() implies (#[trigger] s[i]).key < r.next_key + 1 by {
        if i < s.len() - 1 {
            assert(s[i] == r.entries[i]);
        }
    }
}

/// Creation registers the new key and leaves every other lookup
/// unchanged.
pub proof fn lemma_create_lookup<P: ResizePolicy>(
    r: RegistryView<P>,
    rect: Rect,
    updater: Option<P>,
    k: usize,
)
    requires
        r.wf(),
        r.next_key < usize::MAX,
    ensures
        r.create(rect, updater).has_key(k) <==> (r.has_key(k) || k == r.next_key),
        k == r.next_key ==> r.create(rect, updater).lookup(k) == Some(rect),
        k != r.next_key ==> r.create(rect, updater).lookup(k) == r.lookup(k),
{
    let s = r.entries;
    let r2 = r.create(rect, updater);
    let s2 = r2.entries;
    assert(s2[s.len() as int].key == r.next_key);
    assert forall|i: int| 0 <= i < s.len() implies s2[i] == s[i] by {}
    if r2.has_key(k) {
        let i = choose|i: int| 0 <= i < s2.len() && (#[trigger] s2[i]).key == k;
        if i < s.len() {
            assert(s[i].key == k);
            assert(r.has_key(k));
        } else {
            assert(k == r.next_key);
        }
    }
    if r.has_key(k) {
        let i = choose|i: int| 0 <= i < s.len() && (#[trigger] s[i]).key == k;
        assert(s2[i].key == k);
        assert(r2.has_key(k));
    }
    if k == r.next_key {
        assert(r2.has_key(k));
        let i = choose|i: int| 0 <= i < s2.len() && (#[trigger] s2[i]).key == k;
        if i < s.len() {
            assert(s[i].key < r.next_key);
        }
        assert(r2.lookup(k) == Some(rect));
    } else {
        if r.has_key(k) {
            let i1 = choose|i: int| 0 <= i < s2.len() && (#[trigger] s2[i]).key == k;
            let i2 = choose|i: int| 0 <= i < s.len() && (#[trigger] s[i]).key == k;
            assert(i1 < s.len());
            assert(s[i1].key == k);
            lemma_key_injective(s, i1, i2);
            assert(r2.lookup(k) == r.lookup(k));
        } else {
            assert(!r2.has_key(k));
        }
    }
}

/// Removal erases exactly the removed key's lookup; every other
/// entry keeps its key and rectangle.
pub proof fn lemma_remove_lookup<P: ResizePolicy>(r: RegistryView<P>, key: usize, k: usize)
    requires
        r.wf(),
    ensures
        r.remove(key).wf(),
        r.remove(key).next_key == r.next_key,
        r.remove(key).has_key(k) <==> (r.has_key(k) && k != key),
        k == key ==> r.remove(key).lookup(k) == None::<Rect>,
        k != key ==> r.remove(key).lookup(k) == r.lookup(k),
{
    let s = r.entries;
    let r2 = r.remove(key);
    let s2 = r2.entries;
    lemma_remove_key_entries_props(s, key);
    lemma_remove_key_entries_sorted(s, key, r.next_key);
    if r2.has_key(k) {
        let i = choose|i: int| 0 <= i < s2.len() && (#[trigger] s2[i]).key == k;
        assert(s2[i].key != key);
        assert(s.contains(s2[i]));
        let j = choose|j: int| 0 <= j < s.len() && s[j] == s2[i];
        assert(r.has_key(k)) by {
            assert(s[j].key == k);
        }
    }
    if r.has_key(k) && k != key {
        let j = choose|j: int| 0 <= j < s.len() && (#[trigger] s[j]).key == k;
        assert(s2.contains(s[j]));
        let i = choose|i: int| 0 <= i < s2.len() && s2[i] == s[j];
        assert(r2.has_key(k)) by {
            assert(s2[i].key == k);
        }
    }
    if k != key && r.has_key(k) {
        let i1 = choose|i: int| 0 <= i < s2.len() && (#[trigger] s2[i]).key == k;
        let i2 = choose|i: int| 0 <= i < s.len() && (#[trigger] s[i]).key == k;
        assert(s.contains(s2[i1]));
        let j = choose|j: int| 0 <= j < s.len() && s[j] == s2[i1];
        lemma_key_injective(s, j, i2);
        assert(r2.lookup(k) == r.lookup(k));
    }
}

/// A key at or above the allocation counter never hits.
pub proof fn lemma_fresh_key_misses<P: ResizePolicy>(r: RegistryView<P>, k: usize)
    requires
        r.wf(),
        k >= r.next_key,
    ensures
        !r.has_key(k),
        r.lookup(k) == None::<Rect>,
{
}

/// Law: after creating three viewports and removing the middle one,
/// the first and third keep their keys and rectangles, the removed
/// key misses on lookup, and a later creation takes a key different
/// from the removed one, under which the removed key still misses.
pub proof fn lemma_viewport_key_stability<P: ResizePolicy>(
    r0: RegistryView<P>,
    ra: Rect,
    pa: Option<P>,
    rb: Rect,
    pb: Option<P>,
    rc: Rect,
    pc: Option<P>,
    rd: Rect,
    pd: Option<P>,
)
    requires
        r0.wf(),
        r0.next_key + 4 <= usize::MAX,
    ensures
        ({
            let ka = r0.next_key;
            let r1 = r0.create(ra, pa);
            let kb = r1.next_key;
            let r2 = r1.create(rb, pb);
            let kc = r2.next_key;
            let r3 = r2.create(rc, pc);
            let r4 = r3.remove(kb);
            let kd = r4.next_key;
            let r5 = r4.create(rd, pd);
            &&& r4.lookup(ka) == Some(ra)
            &&& r4.lookup(kc) == Some(rc)
            &&& r4.lookup(kb) == None::<Rect>
            &&& kd != kb
            &&& r5.lookup(kb) == None::<Rect>
            &&& r5.lookup(ka) == Some(ra)
            &&& r5.lookup(kc) == Some(rc)
        }),
{
    let ka = r0.next_key;
    let r1 = r0.create(ra, pa);
    let kb = r1.next_key;
    let r2 = r1.create(rb, pb);
    let kc = r2.next_key;
    let r3 = r2.create(rc, pc);
    let r4 = r3.remove(kb);
    let kd = r4.next_key;
    let r5 = r4.create(rd, pd);
    lemma_create_wf(r0, ra, pa);
    lemma_create_wf(r1, rb, pb);
    lemma_create_wf(r2, rc, pc);
    lemma_create_lookup(r0, ra, pa, ka);
    lemma_create_lookup(r1, rb, pb, ka);
    lemma_create_lookup(r2, rc, pc, ka);
    lemma_remove_lookup(r3, kb, ka);
    lemma_create_lookup(r4, rd, pd, ka);
    lemma_create_lookup(r1, rb, pb, kc);
    lemma_create_lookup(r2, rc, pc, kc);
    lemma_remove_lookup(r3, kb, kc);
    lemma_create_lookup(r4, rd, pd, kc);
    lemma_remove_lookup(r3, kb, kb);
    lemma_create_lookup(r4, rd, pd, kb);
}

} // verus!
