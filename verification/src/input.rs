//! The application-facing input model.
//!
//! Key and mouse edges accumulate here while platform events are
//! drained once per frame. Two per-frame transition sets record the
//! down-edges and up-edges seen since the last reset; a persistent
//! held set and three button flags survive across frames until an
//! explicit release. The frame reset clears only the transition sets,
//! so a key held across many frames is reported as held every frame
//! but as pressed only on the frame of its down-edge.

use vstd::prelude::*;

use crate::keys::Key;
use crate::keys::MouseButton;

verus! {

/// Mathematical view of the input model: the transition sets and the
/// persistent state as plain sets and values.
pub ghost struct InputView {
    /// Keys whose down-edge was seen since the last frame reset.
    pub pressed: Set<Key>,
    /// Keys whose up-edge was seen since the last frame reset.
    pub released: Set<Key>,
    /// Keys currently held down.
    pub held: Set<Key>,
    /// Whether the primary mouse button is held.
    pub primary_down: bool,
    /// Whether the secondary mouse button is held.
    pub secondary_down: bool,
    /// Whether the middle mouse button is held.
    pub middle_down: bool,
    /// Last reported mouse position, relative to the window center.
    pub mouse_position: (int, int),
    /// Whether the host application has locked the mouse.
    pub mouse_locked: bool,
}

impl InputView {
    /// The state a fresh input model starts in.
    pub open spec fn init() -> InputView {
        InputView {
            pressed: Set::empty(),
            released: Set::empty(),
            held: Set::empty(),
            primary_down: false,
            secondary_down: false,
            middle_down: false,
            mouse_position: (0, 0),
            mouse_locked: false,
        }
    }

    /// Clears only the per-frame transition sets; held state persists.
    pub open spec fn frame_reset(self) -> InputView {
        InputView { pressed: Set::empty(), released: Set::empty(), ..self }
    }

    /// A key down event. Only a true down-edge (the key was not held)
    /// enters the pressed set; repeats while held change nothing.
    pub open spec fn key_down(self, k: Key) -> InputView {
        if self.held.contains(k) {
            self
        } else {
            InputView { pressed: self.pressed.insert(k), held: self.held.insert(k), ..self }
        }
    }

    /// A key up event: the key leaves the held set and its up-edge is
    /// recorded for this frame.
    pub open spec fn key_up(self, k: Key) -> InputView {
        InputView { released: self.released.insert(k), held: self.held.remove(k), ..self }
    }

    /// A mouse button down event.
    pub open spec fn mouse_down(self, b: MouseButton) -> InputView {
        match b {
            MouseButton::Primary => InputView { primary_down: true, ..self },
            MouseButton::Secondary => InputView { secondary_down: true, ..self },
            MouseButton::Middle => InputView { middle_down: true, ..self },
        }
    }

    /// A mouse button up event.
    pub open spec fn mouse_up(self, b: MouseButton) -> InputView {
        match b {
            MouseButton::Primary => InputView { primary_down: false, ..self },
            MouseButton::Secondary => InputView { secondary_down: false, ..self },
            MouseButton::Middle => InputView { middle_down: false, ..self },
        }
    }

    /// A mouse position report, already made relative to the window
    /// center by the controller.
    pub open spec fn set_mouse_position(self, p: (int, int)) -> InputView {
        InputView { mouse_position: p, ..self }
    }

    /// The host toggling pointer lock.
    pub open spec fn set_mouse_locked(self, locked: bool) -> InputView {
        InputView { mouse_locked: locked, ..self }
    }

    /// Whether a given mouse button is held in this view.
    pub open spec fn button_down(self, b: MouseButton) -> bool {
        match b {
            MouseButton::Primary => self.primary_down,
            MouseButton::Secondary => self.secondary_down,
            MouseButton::Middle => self.middle_down,
        }
    }
}

/// Per-frame key and mouse state, written by the window controller as
/// it drains platform events and read by the host application.
pub struct InputState {
    pressed: Vec<Key>,
    released: Vec<Key>,
    held: Vec<Key>,
    primary_down: bool,
    secondary_down: bool,
    middle_down: bool,
    mouse_x: i64,
    mouse_y: i64,
    mouse_locked: bool,
}

impl View for InputState {
    type V = InputView;

    closed spec fn view(&self) -> InputView {
        InputView {
            pressed: self.pressed@.to_set(),
            released: self.released@.to_set(),
            held: self.held@.to_set(),
            primary_down: self.primary_down,
            secondary_down: self.secondary_down,
            middle_down: self.middle_down,
            mouse_position: (self.mouse_x as int, self.mouse_y as int),
            mouse_locked: self.mouse_locked,
        }
    }
}

/// Whether `v` holds `k`.
fn vec_contains_key(v: &Vec<Key>, k: Key) -> (r: bool)
    ensures
        r == v@.contains(k),
{
    let mut i: usize = 0;
    while i < v.len()
        invariant
            i <= v.len(),
            forall|j: int| 0 <= j < i ==> v@[j] != k,
        decreases v.len() - i,
    {
        if v[i] == k {
            assert(v@.contains(k)) by {
                assert(v@[i as int] == k);
            }
            return true;
        }
        i += 1;
    }
    false
}

/// A copy of `v` with every occurrence of `k` removed.
fn vec_without_key(v: &Vec<Key>, k: Key) -> (r: Vec<Key>)
    ensures
        forall|x: Key| r@.contains(x) <==> (v@.contains(x) && x != k),
{
    let mut out: Vec<Key> = Vec::new();
    let mut i: usize = 0;
    while i < v.len()
        invariant
            i <= v.len(),
            forall|x: Key| out@.contains(x) ==> (v@.contains(x) && x != k),
            forall|j: int| 0 <= j < i && v@[j] != k ==> out@.contains(#[trigger] v@[j]),
        decreases v.len() - i,
    {
        if v[i] != k {
            let ghost prev = out@;
            out.push(v[i]);
            proof {
                assert(out@ == prev.push(v@[i as int]));
                assert(out@.contains(v@[i as int])) by {
                    assert(out@[prev.len() as int] == v@[i as int]);
                }
                assert forall|x: Key| out@.contains(x) implies (v@.contains(x) && x != k) by {
                    let w = choose|w: int| 0 <= w < out@.len() && out@[w] == x;
                    if w < prev.len() {
                        assert(prev.contains(x)) by {
                            assert(prev[w] == x);
                        }
                    } else {
                        assert(x == v@[i as int]);
                        assert(v@.contains(x)) by {
                            assert(v@[i as int] == x);
                        }
                    }
                }
                assert forall|j: int| 0 <= j < i + 1 && v@[j] != k implies out@.contains(
                    #[trigger] v@[j],
                ) by {
                    if j < i {
                        assert(prev.contains(v@[j]));
                        let w = choose|w: int| 0 <= w < prev.len() && prev[w] == v@[j];
                        assert(out@[w] == v@[j]);
                    } else {
                        assert(out@[prev.len() as int] == v@[j]);
                    }
                }
            }
        }
        i += 1;
    }
    proof {
        assert forall|x: Key| v@.contains(x) && x != k implies out@.contains(x) by {
            let j = choose|j: int| 0 <= j < v@.len() && v@[j] == x;
            assert(out@.contains(v@[j]));
        }
    }
    out
}

impl InputState {
    /// A fresh input model with nothing pressed, held or released.
    pub fn new() -> (r: InputState)
        ensures
            r@ == InputView::init(),
    {
        let r = InputState {
            pressed: Vec::new(),
            released: Vec::new(),
            held: Vec::new(),
            primary_down: false,
            secondary_down: false,
            middle_down: false,
            mouse_x: 0,
            mouse_y: 0,
            mouse_locked: false,
        };
        proof {
            assert(r@.pressed =~= Set::<Key>::empty());
            assert(r@.released =~= Set::<Key>::empty());
            assert(r@.held =~= Set::<Key>::empty());
        }
        r
    }

    /// Clears the per-frame transition sets. Called exactly once per
    /// poll cycle, before any event of the new frame is dispatched.
    pub fn frame_reset(&mut self)
        ensures
            final(self)@ == old(self)@.frame_reset(),
    {
        self.pressed = Vec::new();
        self.released = Vec::new();
        proof {
            assert(self@.pressed =~= Set::<Key>::empty());
            assert(self@.released =~= Set::<Key>::empty());
        }
    }

    /// Records a key down event.
    pub fn key_down(&mut self, k: Key)
        ensures
            final(self)@ == old(self)@.key_down(k),
    {
        if !vec_contains_key(&self.held, k) {
            self.pressed.push(k);
            self.held.push(k);
            proof {
                broadcast use vstd::seq::Seq::lemma_push_to_set_commute;

                assert(self@.pressed =~= old(self)@.pressed.insert(k));
                assert(self@.held =~= old(self)@.held.insert(k));
            }
        }
    }

    /// Records a key up event.
    pub fn key_up(&mut self, k: Key)
        ensures
            final(self)@ == old(self)@.key_up(k),
    {
        self.released.push(k);
        self.held = vec_without_key(&self.held, k);
        proof {
            broadcast use vstd::seq::Seq::lemma_push_to_set_commute;

            assert(self@.released =~= old(self)@.released.insert(k));
            assert(self@.held =~= old(self)@.held.remove(k));
        }
    }

    /// Records a mouse button down event.
    pub fn mouse_down(&mut self, b: MouseButton)
        ensures
            final(self)@ == old(self)@.mouse_down(b),
    {
        match b {
            MouseButton::Primary => self.primary_down = true,
            MouseButton::Secondary => self.secondary_down = true,
            MouseButton::Middle => self.middle_down = true,
        }
    }

    /// Records a mouse button up event.
    pub fn mouse_up(&mut self, b: MouseButton)
        ensures
            final(self)@ == old(self)@.mouse_up(b),
    {
        match b {
            MouseButton::Primary => self.primary_down = false,
            MouseButton::Secondary => self.secondary_down = false,
            MouseButton::Middle => self.middle_down = false,
        }
    }

    /// Stores the latest window-center-relative mouse position.
    pub fn update_mouse_position(&mut self, x: i64, y: i64)
        ensures
            final(self)@ == old(self)@.set_mouse_position((x as int, y as int)),
    {
        self.mouse_x = x;
        self.mouse_y = y;
    }

    /// Toggles pointer lock; the window controller re-centers the
    /// cursor after every mouse move while this is set.
    pub fn set_mouse_locked(&mut self, locked: bool)
        ensures
            final(self)@ == old(self)@.set_mouse_locked(locked),
    {
        self.mouse_locked = locked;
    }

    /// Whether the host application has locked the mouse.
    pub fn is_mouse_locked(&self) -> (r: bool)
        ensures
            r == self@.mouse_locked,
    {
        self.mouse_locked
    }

    /// Whether `k` saw its down-edge this frame.
    pub fn is_key_pressed(&self, k: Key) -> (r: bool)
        ensures
            r == self@.pressed.contains(k),
    {
        vec_contains_key(&self.pressed, k)
    }

    /// Whether `k` saw its up-edge this frame.
    pub fn is_key_released(&self, k: Key) -> (r: bool)
        ensures
            r == self@.released.contains(k),
    {
        vec_contains_key(&self.released, k)
    }

    /// Whether `k` is currently held.
    pub fn is_key_held(&self, k: Key) -> (r: bool)
        ensures
            r == self@.held.contains(k),
    {
        vec_contains_key(&self.held, k)
    }

    /// Whether a mouse button is currently held.
    pub fn is_mouse_button_down(&self, b: MouseButton) -> (r: bool)
        ensures
            r == self@.button_down(b),
    {
        match b {
            MouseButton::Primary => self.primary_down,
            MouseButton::Secondary => self.secondary_down,
            MouseButton::Middle => self.middle_down,
        }
    }

    /// The latest window-center-relative mouse position.
    pub fn mouse_position(&self) -> (r: (i64, i64))
        ensures
            (r.0 as int, r.1 as int) == self@.mouse_position,
    {
        (self.mouse_x, self.mouse_y)
    }
}

/// Law: a key pressed on one frame and held into the next is reported
/// as pressed only on the frame of its down-edge, as held on both
/// frames, and as neither once its release event arrives.
pub proof fn lemma_frame_transition(s: InputView, k: Key)
    requires
        !s.held.contains(k),
    ensures
        s.frame_reset().key_down(k).pressed.contains(k),
        s.frame_reset().key_down(k).held.contains(k),
        !s.frame_reset().key_down(k).frame_reset().pressed.contains(k),
        s.frame_reset().key_down(k).frame_reset().held.contains(k),
        !s.frame_reset().key_down(k).frame_reset().key_up(k).pressed.contains(k),
        !s.frame_reset().key_down(k).frame_reset().key_up(k).held.contains(k),
{
}

} // verus!
