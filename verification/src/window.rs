//! The window controller: the event state machine that keeps the
//! native window, the render surface and the viewport registry in
//! step.
//!
//! Platform messages reach the controller as plain [`WindowEvent`]
//! values; the unverified shell owns the message pump, translates
//! each message, queries the client size where a message calls for
//! it, and executes what the controller decides: surface command
//! sequences, a cursor warp, or the answer to a size-constraint
//! query. Every decision is the spec-level transition
//! [`WindowView::step`], which the executable [`Window`] is proved to
//! implement exactly.
//!
//! The resize protocol batches a drag gesture: intermediate size
//! notifications between gesture begin and end commit nothing, and
//! the gesture end commits once, at the final size. A direct size
//! notification outside a gesture commits immediately, unless the
//! window is minimized or the size is unchanged; a restore from
//! minimized never commits by itself.

use vstd::prelude::*;

use crate::decoder::spec_decode;
use crate::decoder::decode_scan_code;
use crate::input::InputState;
use crate::input::InputView;
use crate::keys::MouseButton;
use crate::surface::RenderSurface;
use crate::surface::SurfaceCommand;
use crate::surface::SurfaceView;
use crate::surface::begin_frame_commands;
use crate::surface::end_frame_commands;
use crate::surface::resize_commands;
use crate::viewport::Rect;
use crate::viewport::RegistryView;
use crate::viewport::ResizePolicy;
use crate::viewport::ViewportRegistry;
use crate::MIN_CLIENT_HEIGHT;
use crate::MIN_CLIENT_WIDTH;

verus! {

/// One platform message, translated to plain values by the shell.
///
/// Size-carrying events hold the client-area size the shell read
/// when the message arrived. Termination and teardown messages stay
/// in the shell; the pump reports only the final quit message here.
#[derive(Clone, Copy, Debug, PartialEq, Eq, Structural)]
pub enum WindowEvent {
    /// The window size changed, or the window was minimized or
    /// restored.
    SizeChanged { minimized: bool, width: u32, height: u32 },
    /// A drag-resize gesture began.
    EnterSizeGesture,
    /// A drag-resize gesture ended at the given client size.
    ExitSizeGesture { width: u32, height: u32 },
    /// The platform asks for the minimum client size.
    MinSizeQuery,
    /// The window moved.
    Moved,
    /// The window gained keyboard focus.
    FocusGained,
    /// A mouse button went down.
    MouseButtonDown { button: MouseButton },
    /// A mouse button went up.
    MouseButtonUp { button: MouseButton },
    /// The mouse moved to the given client-area position.
    MouseMoved { x: i32, y: i32 },
    /// A raw keyboard event: scan code, the two flag bits, and the
    /// edge direction.
    RawKey { scan_code: u16, e0: bool, e1: bool, pressed: bool },
    /// The quit message was observed; the host loop must terminate.
    Quit,
}

/// What the shell must do after one event is handled.
pub struct EventResponse {
    /// The host loop must terminate.
    pub quit: bool,
    /// Warp the OS cursor to the window's client-area center.
    pub warp_cursor: bool,
    /// Answer a size-constraint query with this minimum client size.
    pub min_size: Option<(u32, u32)>,
    /// Device operations to execute, in order.
    pub commands: Vec<SurfaceCommand>,
}

/// Mathematical view of an event response.
pub ghost struct ResponseView {
    /// The host loop must terminate.
    pub quit: bool,
    /// Warp the OS cursor to the window center.
    pub warp_cursor: bool,
    /// Answer to a size-constraint query.
    pub min_size: Option<(u32, u32)>,
    /// Device operations to execute, in order.
    pub commands: Seq<SurfaceCommand>,
}

impl ResponseView {
    /// A response that asks nothing of the shell.
    pub open spec fn quiet() -> ResponseView {
        ResponseView { quit: false, warp_cursor: false, min_size: None, commands: Seq::empty() }
    }
}

impl View for EventResponse {
    type V = ResponseView;

    closed spec fn view(&self) -> ResponseView {
        ResponseView {
            quit: self.quit,
            warp_cursor: self.warp_cursor,
            min_size: self.min_size,
            commands: self.commands@,
        }
    }
}

/// Mathematical view of the whole controller state.
#[verifier::reject_recursive_types(P)]
pub ghost struct WindowView<P> {
    /// Last committed client-area width.
    pub width: u32,
    /// Last committed client-area height.
    pub height: u32,
    /// Whether the window is minimized.
    pub minimized: bool,
    /// Whether a drag-resize gesture is in progress.
    pub in_size_gesture: bool,
    /// True for exactly one poll cycle after a committed resize.
    pub size_changed: bool,
    /// Cached screen-space coordinate of the client-area center.
    pub mouse_center: (int, int),
    /// Whether the cached center is stale and must be recomputed
    /// before its next use.
    pub center_dirty: bool,
    /// Whether the shell should drain the diagnostic queue after a
    /// present.
    pub debug_logging: bool,
    /// The input model.
    pub input: InputView,
    /// The render surface.
    pub surface: SurfaceView,
    /// The viewport registry.
    pub viewports: RegistryView<P>,
}

impl<P: ResizePolicy> WindowView<P> {
    /// The state of a freshly constructed window of the given client
    /// size: surface ready, no viewports, center not yet computed.
    pub open spec fn init(width: u32, height: u32) -> WindowView<P> {
        WindowView {
            width,
            height,
            minimized: false,
            in_size_gesture: false,
            size_changed: false,
            mouse_center: (0, 0),
            center_dirty: true,
            debug_logging: false,
            input: InputView::init(),
            surface: SurfaceView::init(width, height),
            viewports: RegistryView::init(),
        }
    }

    /// Component well-formedness.
    pub open spec fn wf(self) -> bool {
        self.surface.wf() && self.viewports.wf()
    }

    /// The commit-size procedure: a no-op when the size is unchanged
    /// (repeated notifications for one size never tear resources
    /// down twice); otherwise the stored size is updated, the
    /// changed flag raised, the surface resized and the registry
    /// relaid out, and the resize command sequence is emitted.
    pub open spec fn commit_size(self, width: u32, height: u32) -> (WindowView<P>, Seq<
        SurfaceCommand,
    >) {
        if width == self.width && height == self.height {
            (self, Seq::empty())
        } else {
            (
                WindowView {
                    width,
                    height,
                    size_changed: true,
                    center_dirty: true,
                    surface: self.surface.resize(width, height),
                    viewports: self.viewports.relayout(width, height),
                    ..self
                },
                resize_commands(width, height),
            )
        }
    }

    /// The transition of the controller on one platform event.
    pub open spec fn step(self, e: WindowEvent) -> (WindowView<P>, ResponseView) {
        match e {
            WindowEvent::SizeChanged { minimized, width, height } => {
                if minimized {
                    (WindowView { minimized: true, ..self }, ResponseView::quiet())
                } else if self.minimized {
                    // Restore alone does not imply a different size:
                    // no commit until a further size notification.
                    (WindowView { minimized: false, ..self }, ResponseView::quiet())
                } else if self.in_size_gesture {
                    // Intermediate drag sizes are batched until the
                    // gesture ends.
                    (self, ResponseView::quiet())
                } else {
                    let (s, cmds) = self.commit_size(width, height);
                    (s, ResponseView { commands: cmds, ..ResponseView::quiet() })
                }
            },
            WindowEvent::EnterSizeGesture => {
                (WindowView { in_size_gesture: true, ..self }, ResponseView::quiet())
            },
            WindowEvent::ExitSizeGesture { width, height } => {
                if self.in_size_gesture {
                    let (s, cmds) = WindowView { in_size_gesture: false, ..self }.commit_size(
                        width,
                        height,
                    );
                    (s, ResponseView { commands: cmds, ..ResponseView::quiet() })
                } else {
                    (self, ResponseView::quiet())
                }
            },
            WindowEvent::MinSizeQuery => {
                (
                    self,
                    ResponseView {
                        min_size: Some((MIN_CLIENT_WIDTH, MIN_CLIENT_HEIGHT)),
                        ..ResponseView::quiet()
                    },
                )
            },
            WindowEvent::Moved => {
                (WindowView { center_dirty: true, ..self }, ResponseView::quiet())
            },
            WindowEvent::FocusGained => {
                (
                    self,
                    ResponseView { warp_cursor: self.input.mouse_locked, ..ResponseView::quiet() },
                )
            },
            WindowEvent::MouseButtonDown { button } => {
                (WindowView { input: self.input.mouse_down(button), ..self }, ResponseView::quiet())
            },
            WindowEvent::MouseButtonUp { button } => {
                (WindowView { input: self.input.mouse_up(button), ..self }, ResponseView::quiet())
            },
            WindowEvent::MouseMoved { x, y } => {
                let dx = x as int - self.width as int / 2;
                let dy = y as int - self.height as int / 2;
                (
                    WindowView { input: self.input.set_mouse_position((dx, dy)), ..self },
                    ResponseView { warp_cursor: self.input.mouse_locked, ..ResponseView::quiet() },
                )
            },
            WindowEvent::RawKey { scan_code, e0, e1, pressed } => {
                match spec_decode(scan_code, e0, e1) {
                    Some(k) => {
                        (
                            WindowView {
                                input: if pressed {
                                    self.input.key_down(k)
                                } else {
                                    self.input.key_up(k)
                                },
                                ..self
                            },
                            ResponseView::quiet(),
                        )
                    },
                    // Unmapped scan codes are dropped silently.
                    None => (self, ResponseView::quiet()),
                }
            },
            WindowEvent::Quit => {
                (self, ResponseView { quit: true, ..ResponseView::quiet() })
            },
        }
    }

    /// The start of a poll cycle: the per-frame transition sets and
    /// the size-changed flag are cleared before any event of the new
    /// frame is dispatched.
    pub open spec fn begin_poll(self) -> WindowView<P> {
        WindowView { size_changed: false, input: self.input.frame_reset(), ..self }
    }
}

/// The window controller. It owns the window-state fields, the input
/// model, the render surface and the viewport registry; the shell
/// owns the native handles and the message pump.
#[verifier::reject_recursive_types(P)]
pub struct Window<P> {
    width: u32,
    height: u32,
    minimized: bool,
    in_size_gesture: bool,
    size_changed: bool,
    mouse_center_x: i32,
    mouse_center_y: i32,
    center_dirty: bool,
    debug_logging: bool,
    input: InputState,
    surface: RenderSurface,
    viewports: ViewportRegistry<P>,
}

impl<P: ResizePolicy> View for Window<P> {
    type V = WindowView<P>;

    closed spec fn view(&self) -> WindowView<P> {
        WindowView {
            width: self.width,
            height: self.height,
            minimized: self.minimized,
            in_size_gesture: self.in_size_gesture,
            size_changed: self.size_changed,
            mouse_center: (self.mouse_center_x as int, self.mouse_center_y as int),
            center_dirty: self.center_dirty,
            debug_logging: self.debug_logging,
            input: self.input@,
            surface: self.surface@,
            viewports: self.viewports@,
        }
    }
}

impl<P: ResizePolicy> Window<P> {
    /// A controller for a window whose surface was just created at
    /// the given client size.
    pub fn new(width: u32, height: u32) -> (r: Window<P>)
        ensures
            r@ == WindowView::<P>::init(width, height),
            r@.wf(),
    {
        Window {
            width,
            height,
            minimized: false,
            in_size_gesture: false,
            size_changed: false,
            mouse_center_x: 0,
            mouse_center_y: 0,
            center_dirty: true,
            debug_logging: false,
            input: InputState::new(),
            surface: RenderSurface::new(width, height),
            viewports: ViewportRegistry::new(),
        }
    }

    /// The commit-size procedure of [`WindowView::commit_size`].
    fn commit_size(&mut self, width: u32, height: u32) -> (cmds: Vec<SurfaceCommand>)
        requires
            old(self)@.wf(),
            !old(self)@.surface.rendering,
        ensures
            final(self)@ == old(self)@.commit_size(width, height).0,
            cmds@ == old(self)@.commit_size(width, height).1,
            final(self)@.wf(),
    {
        if width == self.width && height == self.height {
            let cmds: Vec<SurfaceCommand> = Vec::new();
            proof {
                assert(cmds@ =~= Seq::<SurfaceCommand>::empty());
            }
            return cmds;
        }
        self.width = width;
        self.height = height;
        self.size_changed = true;
        self.center_dirty = true;
        let cmds = self.surface.resize(width, height);
        self.viewports.update_viewports(width, height);
        cmds
    }

    /// Handles one platform event: mutates the state exactly as
    /// [`WindowView::step`] says and returns what the shell must do.
    /// Called only between frames, while no frame is in progress.
    pub fn handle_event(&mut self, e: WindowEvent) -> (r: EventResponse)
        requires
            old(self)@.wf(),
            !old(self)@.surface.rendering,
        ensures
            final(self)@ == old(self)@.step(e).0,
            r@ == old(self)@.step(e).1,
            final(self)@.wf(),
    {
        let quiet = EventResponse { quit: false, warp_cursor: false, min_size: None, commands: Vec::new() };
        proof {
            assert(quiet@.commands =~= Seq::<SurfaceCommand>::empty());
        }
        match e {
            WindowEvent::SizeChanged { minimized, width, height } => {
                if minimized {
                    self.minimized = true;
                    quiet
                } else if self.minimized {
                    self.minimized = false;
                    quiet
                } else if self.in_size_gesture {
                    quiet
                } else {
                    let cmds = self.commit_size(width, height);
                    EventResponse { quit: false, warp_cursor: false, min_size: None, commands: cmds }
                }
            },
            WindowEvent::EnterSizeGesture => {
                self.in_size_gesture = true;
                quiet
            },
            WindowEvent::ExitSizeGesture { width, height } => {
                if self.in_size_gesture {
                    self.in_size_gesture = false;
                    let cmds = self.commit_size(width, height);
                    EventResponse { quit: false, warp_cursor: false, min_size: None, commands: cmds }
                } else {
                    quiet
                }
            },
            WindowEvent::MinSizeQuery => {
                EventResponse {
                    quit: false,
                    warp_cursor: false,
                    min_size: Some((MIN_CLIENT_WIDTH, MIN_CLIENT_HEIGHT)),
                    commands: Vec::new(),
                }
            },
            WindowEvent::Moved => {
                self.center_dirty = true;
                quiet
            },
            WindowEvent::FocusGained => {
                let warp = self.input.is_mouse_locked();
                EventResponse { quit: false, warp_cursor: warp, min_size: None, commands: Vec::new() }
            },
            WindowEvent::MouseButtonDown { button } => {
                self.input.mouse_down(button);
                quiet
            },
            WindowEvent::MouseButtonUp { button } => {
                self.input.mouse_up(button);
                quiet
            },
            WindowEvent::MouseMoved { x, y } => {
                let dx = x as i64 - (self.width / 2) as i64;
                let dy = y as i64 - (self.height / 2) as i64;
                self.input.update_mouse_position(dx, dy);
                let warp = self.input.is_mouse_locked();
                EventResponse { quit: false, warp_cursor: warp, min_size: None, commands: Vec::new() }
            },
            WindowEvent::RawKey { scan_code, e0, e1, pressed } => {
                match decode_scan_code(scan_code, e0, e1) {
                    Some(k) => {
                        if pressed {
                            self.input.key_down(k);
                        } else {
                            self.input.key_up(k);
                        }
                    },
                    None => {},
                }
                quiet
            },
            WindowEvent::Quit => {
                EventResponse { quit: true, warp_cursor: false, min_size: None, commands: Vec::new() }
            },
        }
    }

    /// Starts a poll cycle: resets the per-frame input transitions
    /// and the size-changed flag. The shell calls this exactly once
    /// per frame, then drains all pending messages through
    /// [`Window::handle_event`] without blocking.
    pub fn begin_poll(&mut self)
        requires
            !old(self)@.surface.rendering,
        ensures
            final(self)@ == old(self)@.begin_poll(),
    {
        self.input.frame_reset();
        self.size_changed = false;
    }

    /// Begins a frame: returns the device commands that clear and
    /// bind the target triple, and the rectangle of the default
    /// viewport for the shell to bind (or nothing if the default key
    /// misses, in which case the last bound viewport stays).
    pub fn begin_render(&mut self) -> (r: (Vec<SurfaceCommand>, Option<Rect>))
        requires
            old(self)@.wf(),
            old(self)@.surface.targets_ready,
            !old(self)@.surface.rendering,
        ensures
            final(self)@ == (WindowView { surface: old(self)@.surface.begin_frame(), ..old(self)@ }),
            final(self)@.wf(),
            r.0@ == begin_frame_commands(),
            r.1 == old(self)@.viewports.lookup(old(self)@.viewports.default_key),
    {
        let cmds = self.surface.begin_frame();
        let default = self.viewports.default_viewport();
        let vp = self.viewports.get_viewport(default);
        (cmds, vp)
    }

    /// Ends the frame: unbind and present when a frame is in
    /// progress, a deliberate no-op otherwise.
    pub fn end_render(&mut self) -> (cmds: Vec<SurfaceCommand>)
        ensures
            final(self)@ == (WindowView { surface: old(self)@.surface.end_frame(), ..old(self)@ }),
            cmds@ == if old(self)@.surface.rendering {
                end_frame_commands()
            } else {
                Seq::<SurfaceCommand>::empty()
            },
    {
        self.surface.end_frame()
    }

    /// Last committed client-area width.
    pub fn width(&self) -> (r: u32)
        ensures
            r == self@.width,
    {
        self.width
    }

    /// Last committed client-area height.
    pub fn height(&self) -> (r: u32)
        ensures
            r == self@.height,
    {
        self.height
    }

    /// Whether a resize was committed during the last poll cycle.
    pub fn size_changed(&self) -> (r: bool)
        ensures
            r == self@.size_changed,
    {
        self.size_changed
    }

    /// The render surface, for the host to read.
    pub fn surface(&self) -> (r: &RenderSurface)
        ensures
            r@ == self@.surface,
    {
        &self.surface
    }

    /// The input model, for the host to read.
    pub fn input(&self) -> (r: &InputState)
        ensures
            r@ == self@.input,
    {
        &self.input
    }

    /// Toggles pointer lock; while locked, every mouse move and each
    /// focus gain asks the shell to warp the cursor back to the
    /// window center.
    pub fn set_mouse_locked(&mut self, locked: bool)
        ensures
            final(self)@ == (WindowView {
                input: old(self)@.input.set_mouse_locked(locked),
                ..old(self)@
            }),
    {
        self.input.set_mouse_locked(locked);
    }

    /// Whether the shell should drain the diagnostic queue after a
    /// present. Purely observational; never affects what the
    /// controller decides.
    pub fn set_debug_logging(&mut self, enable: bool)
        ensures
            final(self)@ == (WindowView { debug_logging: enable, ..old(self)@ }),
    {
        self.debug_logging = enable;
    }

    /// Whether diagnostic draining is on.
    pub fn debug_logging(&self) -> (r: bool)
        ensures
            r == self@.debug_logging,
    {
        self.debug_logging
    }

    /// Whether the cached client-center coordinate is stale. The
    /// shell checks this before a warp and recomputes the center
    /// only when needed.
    pub fn needs_center_update(&self) -> (r: bool)
        ensures
            r == self@.center_dirty,
    {
        self.center_dirty
    }

    /// Stores a freshly computed screen-space client-center
    /// coordinate and marks the cache clean.
    pub fn set_mouse_center(&mut self, x: i32, y: i32)
        ensures
            final(self)@ == (WindowView {
                mouse_center: (x as int, y as int),
                center_dirty: false,
                ..old(self)@
            }),
    {
        self.mouse_center_x = x;
        self.mouse_center_y = y;
        self.center_dirty = false;
    }

    /// The cached screen-space coordinate of the client-area center.
    pub fn mouse_center(&self) -> (r: (i32, i32))
        ensures
            (r.0 as int, r.1 as int) == self@.mouse_center,
    {
        (self.mouse_center_x, self.mouse_center_y)
    }

    /// Registers a viewport; see [`ViewportRegistry::create_viewport`].
    pub fn create_viewport(&mut self, rect: Rect, updater: Option<P>) -> (key: usize)
        requires
            old(self)@.wf(),
            old(self)@.viewports.next_key < usize::MAX,
        ensures
            key == old(self)@.viewports.next_key,
            final(self)@ == (WindowView {
                viewports: old(self)@.viewports.create(rect, updater),
                ..old(self)@
            }),
            final(self)@.wf(),
    {
        self.viewports.create_viewport(rect, updater)
    }

    /// Names the viewport bound automatically at each frame start.
    pub fn set_default_viewport(&mut self, key: usize)
        ensures
            final(self)@ == (WindowView {
                viewports: old(self)@.viewports.set_default(key),
                ..old(self)@
            }),
    {
        self.viewports.set_default_viewport(key);
    }

    /// The rectangle to bind for the named viewport, or nothing for
    /// a missing key: rendering then continues with whatever
    /// viewport was bound last.
    pub fn set_active_viewport(&self, key: usize) -> (r: Option<Rect>)
        requires
            self@.wf(),
        ensures
            r == self@.viewports.lookup(key),
    {
        self.viewports.get_viewport(key)
    }

    /// The rectangle registered under `key`, if any.
    pub fn get_viewport(&self, key: usize) -> (r: Option<Rect>)
        requires
            self@.wf(),
        ensures
            r == self@.viewports.lookup(key),
    {
        self.viewports.get_viewport(key)
    }

    /// Replaces the rectangle of the viewport keyed `key`, which
    /// must exist.
    pub fn update_viewport(&mut self, key: usize, rect: Rect)
        requires
            old(self)@.wf(),
            old(self)@.viewports.has_key(key),
        ensures
            final(self)@ == (WindowView {
                viewports: old(self)@.viewports.update_rect(key, rect),
                ..old(self)@
            }),
            final(self)@.wf(),
    {
        self.viewports.update_viewport(key, rect);
    }

    /// Deletes the viewport keyed `key`, if present.
    pub fn remove_viewport(&mut self, key: usize)
        requires
            old(self)@.wf(),
        ensures
            final(self)@ == (WindowView {
                viewports: old(self)@.viewports.remove(key),
                ..old(self)@
            }),
            final(self)@.wf(),
    {
        self.viewports.remove_viewport(key);
    }

    /// The key of the default viewport.
    pub fn default_viewport(&self) -> (r: usize)
        ensures
            r == self@.viewports.default_key,
    {
        self.viewports.default_viewport()
    }
}

/// Whether `e` is an intermediate size notification of a drag
/// gesture: a plain size change, not a minimize.
pub open spec fn intermediate_size_event(e: WindowEvent) -> bool {
    e matches WindowEvent::SizeChanged { minimized: false, width: _, height: _ }
}

/// The state after running a sequence of events, front to back.
pub open spec fn run_events<P: ResizePolicy>(s: WindowView<P>, es: Seq<WindowEvent>) -> WindowView<
    P,
>
    decreases es.len(),
{
    if es.len() == 0 {
        s
    } else {
        run_events(s.step(es[0]).0, es.drop_first())
    }
}

/// Whether running the events, front to back, emits no device
/// command at any step.
pub open spec fn run_emits_no_commands<P: ResizePolicy>(
    s: WindowView<P>,
    es: Seq<WindowEvent>,
) -> bool
    decreases es.len(),
{
    if es.len() == 0 {
        true
    } else {
        s.step(es[0]).1.commands == Seq::<SurfaceCommand>::empty() && run_emits_no_commands(
            s.step(es[0]).0,
            es.drop_first(),
        )
    }
}

/// Law: two consecutive size notifications with the same final size
/// resize the surface exactly once. The first commits (or is itself
/// a no-op when the size already matches); the second changes
/// nothing and emits nothing.
pub proof fn lemma_idempotent_commit<P: ResizePolicy>(s: WindowView<P>, width: u32, height: u32)
    requires
        !s.minimized,
        !s.in_size_gesture,
    ensures
        ({
            let e = WindowEvent::SizeChanged { minimized: false, width, height };
            let (s1, r1) = s.step(e);
            let (s2, r2) = s1.step(e);
            &&& (width != s.width || height != s.height) ==> r1.commands == resize_commands(
                width,
                height,
            )
            &&& (width == s.width && height == s.height) ==> r1.commands == Seq::<
                SurfaceCommand,
            >::empty()
            &&& s2 == s1
            &&& r2.commands == Seq::<SurfaceCommand>::empty()
        }),
{
}

/// Law: every size notification between gesture begin and gesture
/// end commits nothing and leaves the state untouched; the gesture
/// end commits once, at the final size (and even that is a no-op if
/// the final size equals the size at gesture begin).
pub proof fn lemma_gesture_batching<P: ResizePolicy>(
    s: WindowView<P>,
    es: Seq<WindowEvent>,
    width: u32,
    height: u32,
)
    requires
        !s.minimized,
        forall|i: int| 0 <= i < es.len() ==> intermediate_size_event(#[trigger] es[i]),
    ensures
        ({
            let sg = s.step(WindowEvent::EnterSizeGesture).0;
            let sm = run_events(sg, es);
            let (se, re) = sm.step(WindowEvent::ExitSizeGesture { width, height });
            &&& run_emits_no_commands(sg, es)
            &&& sm == sg
            &&& (width != s.width || height != s.height) ==> re.commands == resize_commands(
                width,
                height,
            )
            &&& (width == s.width && height == s.height) ==> re.commands == Seq::<
                SurfaceCommand,
            >::empty()
            &&& se.width == width
            &&& se.height == height
            &&& !se.in_size_gesture
        }),
{
    let sg = s.step(WindowEvent::EnterSizeGesture).0;
    lemma_gesture_inert(sg, es);
}

/// During a gesture, intermediate size notifications change nothing
/// and emit nothing.
proof fn lemma_gesture_inert<P: ResizePolicy>(s: WindowView<P>, es: Seq<WindowEvent>)
    requires
        s.in_size_gesture,
        !s.minimized,
        forall|i: int| 0 <= i < es.len() ==> intermediate_size_event(#[trigger] es[i]),
    ensures
        run_events(s, es) == s,
        run_emits_no_commands(s, es),
    decreases es.len(),
{
    if es.len() == 0 {
    } else {
        assert(intermediate_size_event(es[0]));
        assert(s.step(es[0]).0 == s);
        assert forall|i: int| 0 <= i < es.drop_first().len() implies intermediate_size_event(
            #[trigger] es.drop_first()[i],
        ) by {
            assert(es.drop_first()[i] == es[i + 1]);
        }
        lemma_gesture_inert(s, es.drop_first());
    }
}

/// Law: minimizing and then restoring changes nothing but the
/// minimized flag on the way, commits no resize in either direction,
/// and returns the state to exactly what it was.
pub proof fn lemma_minimize_restore<P: ResizePolicy>(
    s: WindowView<P>,
    w1: u32,
    h1: u32,
    w2: u32,
    h2: u32,
)
    requires
        !s.minimized,
    ensures
        ({
            let (s1, r1) = s.step(WindowEvent::SizeChanged { minimized: true, width: w1, height: h1 });
            let (s2, r2) = s1.step(
                WindowEvent::SizeChanged { minimized: false, width: w2, height: h2 },
            );
            &&& r1.commands == Seq::<SurfaceCommand>::empty()
            &&& r2.commands == Seq::<SurfaceCommand>::empty()
            &&& s1 == (WindowView { minimized: true, ..s })
            &&& s2 == s
        }),
{
}

} // verus!
