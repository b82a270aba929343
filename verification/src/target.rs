//! The render-target lifecycle state machine: a double-buffered drawing
//! surface bound to a window, with lazy (re-)creation of device resources,
//! device-loss detection on frame end, and generation-stamped invalidation
//! of dependent device resources.
//!
//! The platform calls themselves go through a [`GraphicsDevice`]; the state
//! machine decides from their reported outcomes. Its externally visible
//! behaviour is captured by the [`RtModel`] lifecycle model and the
//! [`rt_step`] transition function, which the public lemmas below reason
//! about.

use vstd::prelude::*;

use crate::brushes::SolidColorBrush;
use crate::check::check_res;
use crate::device::{Color, GraphicsDevice};
use crate::errors::Error;
use crate::geom::Size2D;

verus! {

/// The platform's "recreate target" error code: the graphics device was
/// lost and its resources must be rebuilt before the next frame.
pub const D2DERR_RECREATE_TARGET: u32 = 0x8899_000C;

/// The externally visible lifecycle state of a render target.
#[derive(Clone, Copy, Debug, PartialEq, Eq, Structural)]
pub enum StateKind {
    /// Device-specific resources require (re-)creation: the state on first
    /// use and after any device loss.
    RequiresRecreation,
    /// Device-specific resources exist and are usable.
    Created,
    /// A frame is open: between `begin_draw` and `end_draw`.
    Drawing,
    /// An interrupted transition left the target detectably broken. Never
    /// observable through this module's operations.
    Poisoned,
}

/// Spec-level summary of a render target: its lifecycle state, the current
/// resource generation, and the window binding it was created with.
pub ghost struct RtModel {
    /// The lifecycle state.
    pub state: StateKind,
    /// The resource generation: starts at 0 and advances by exactly one on
    /// each detected device loss.
    pub generation: int,
    /// The native handle of the window the target draws into.
    pub hwnd: int,
    /// The fixed pixel size of the drawing surface.
    pub size: Size2D,
}

/// One externally driven operation on the render-target lifecycle,
/// together with the platform outcome it reported.
#[derive(Clone, Copy, Debug, PartialEq, Eq, Structural)]
pub enum RtEvent {
    /// `begin_draw` whose surface (re-)creation, if any was needed,
    /// succeeded.
    BeginOk,
    /// `begin_draw` whose surface re-creation failed.
    BeginFailed,
    /// `end_draw` that presented the frame.
    EndPresented,
    /// `end_draw` on which the platform reported the recreate-required
    /// condition: a device loss.
    EndRecreate,
    /// `end_draw` that reported an unexpected platform error; fatal to the
    /// caller, the lifecycle records nothing.
    EndFailed,
}

/// Whether an operation respects the drawing contract in the given state:
/// a frame may begin only while no frame is open, may end only while one
/// is open, and nothing may be issued from the poisoned state.
pub open spec fn rt_allows(m: RtModel, ev: RtEvent) -> bool {
    &&& m.state != StateKind::Poisoned
    &&& match ev {
        RtEvent::BeginOk | RtEvent::BeginFailed => m.state != StateKind::Drawing,
        RtEvent::EndPresented | RtEvent::EndRecreate | RtEvent::EndFailed => m.state
            == StateKind::Drawing,
    }
}

/// How one operation changes the lifecycle model. The generation advances
/// exactly on a device loss and never otherwise.
pub open spec fn rt_step(m: RtModel, ev: RtEvent) -> RtModel {
    match ev {
        RtEvent::BeginOk => RtModel { state: StateKind::Drawing, ..m },
        RtEvent::BeginFailed => RtModel { state: StateKind::RequiresRecreation, ..m },
        RtEvent::EndPresented => RtModel { state: StateKind::Created, ..m },
        RtEvent::EndRecreate => RtModel {
            state: StateKind::RequiresRecreation,
            generation: m.generation + 1,
            ..m
        },
        RtEvent::EndFailed => m,
    }
}

/// How a frame-end report from the platform is classified: success
/// presents the frame, exactly the recreate-required code is the
/// device-loss condition, and any other code is an unexpected, fatal
/// error.
pub open spec fn frame_event_of(report: Result<(), u32>) -> RtEvent {
    match report {
        Ok(()) => RtEvent::EndPresented,
        Err(code) => if code == D2DERR_RECREATE_TARGET {
            RtEvent::EndRecreate
        } else {
            RtEvent::EndFailed
        },
    }
}

/// The model after a whole sequence of operations, first element first.
pub open spec fn rt_run(m: RtModel, evs: Seq<RtEvent>) -> RtModel
    decreases evs.len(),
{
    if evs.len() == 0 {
        m
    } else {
        rt_run(rt_step(m, evs[0]), evs.subrange(1, evs.len() as int))
    }
}

/// Whether a whole sequence of operations respects the drawing contract at
/// every step.
pub open spec fn rt_run_allowed(m: RtModel, evs: Seq<RtEvent>) -> bool
    decreases evs.len(),
{
    evs.len() == 0 || (rt_allows(m, evs[0]) && rt_run_allowed(
        rt_step(m, evs[0]),
        evs.subrange(1, evs.len() as int),
    ))
}

/// Components common to every live state of the render target.
#[derive(Clone, Copy)]
struct Inner {
    /// The native handle of the window the target draws into.
    hwnd: isize,
    /// The fixed pixel size of the drawing surface.
    size: Size2D,
}

/// The internal state of the render target, encoded as a state pattern.
#[derive(Clone, Copy)]
enum State {
    /// Device-specific resources exist and are usable.
    Created { inner: Inner, surface: u64 },
    /// A frame is open on the surface.
    Drawing { inner: Inner, surface: u64 },
    /// Device-specific resources require (re-)creation: on first use and
    /// after any device loss.
    RequiresRecreation { inner: Inner },
    /// An error occurred mid-transition and the state is no longer usable.
    Poisoned,
}

impl State {
    /// The externally visible kind of this state.
    spec fn kind(self) -> StateKind {
        match self {
            State::Created { .. } => StateKind::Created,
            State::Drawing { .. } => StateKind::Drawing,
            State::RequiresRecreation { .. } => StateKind::RequiresRecreation,
            State::Poisoned => StateKind::Poisoned,
        }
    }

    /// The window binding carried through every live state.
    spec fn spec_inner(self) -> Inner {
        match self {
            State::Created { inner, .. } => inner,
            State::Drawing { inner, .. } => inner,
            State::RequiresRecreation { inner } => inner,
            State::Poisoned => Inner { hwnd: 0, size: (Size2D { width: 0, height: 0 }) },
        }
    }

    /// The device surface of a created or drawing state.
    spec fn spec_surface(self) -> u64 {
        match self {
            State::Created { surface, .. } => surface,
            State::Drawing { surface, .. } => surface,
            _ => 0,
        }
    }

    /// The device surface, readable while resources exist.
    fn surface(&self) -> (s: u64)
        requires
            self.kind() == StateKind::Created || self.kind() == StateKind::Drawing,
        ensures
            s == self.spec_surface(),
    {
        match self {
            State::Created { surface, .. } => *surface,
            State::Drawing { surface, .. } => *surface,
            _ => unreached(),
        }
    }

    /// Re-creates the device surface if needed, so that resources exist
    /// afterwards. On failure the state is left exactly as it was.
    fn recreate_if_needed<D: GraphicsDevice>(&mut self, device: &mut D) -> (r: Result<(), Error>)
        requires
            old(self).kind() != StateKind::Poisoned,
        ensures
            final(self).spec_inner() == old(self).spec_inner(),
            match r {
                Ok(()) => {
                    &&& final(self).kind() == (if old(self).kind() == StateKind::RequiresRecreation {
                        StateKind::Created
                    } else {
                        old(self).kind()
                    })
                    &&& (old(self).kind() != StateKind::RequiresRecreation ==> *final(self) == *old(self))
                },
                Err(_) => *final(self) == *old(self),
            },
            old(self).kind() != StateKind::RequiresRecreation ==> r is Ok,
    {
        let taken = *self;
        // Leave the detectably broken marker in place while the transition
        // runs, so an interrupted transition cannot be mistaken for a live
        // state holding a device resource.
        *self = State::Poisoned;
        match taken {
            State::RequiresRecreation { inner } => {
                match check_res(
                    device.create_device_surface(inner.hwnd, inner.size),
                    "create_device_surface",
                ) {
                    Ok(surface) => {
                        *self = State::Created { inner, surface };
                        Ok(())
                    },
                    Err(e) => {
                        *self = State::RequiresRecreation { inner };
                        Err(e)
                    },
                }
            },
            _ => {
                *self = taken;
                Ok(())
            },
        }
    }

    /// Re-creates the device surface if needed and returns it.
    fn device_surface<D: GraphicsDevice>(&mut self, device: &mut D) -> (r: Result<u64, Error>)
        requires
            old(self).kind() != StateKind::Poisoned,
        ensures
            final(self).spec_inner() == old(self).spec_inner(),
            match r {
                Ok(surface) => {
                    &&& final(self).kind() == (if old(self).kind() == StateKind::RequiresRecreation {
                        StateKind::Created
                    } else {
                        old(self).kind()
                    })
                    &&& surface == final(self).spec_surface()
                    &&& (old(self).kind() != StateKind::RequiresRecreation ==> *final(self) == *old(self))
                },
                Err(_) => *final(self) == *old(self),
            },
            old(self).kind() != StateKind::RequiresRecreation ==> r is Ok,
    {
        match self.recreate_if_needed(device) {
            Ok(()) => Ok(self.surface()),
            Err(e) => Err(e),
        }
    }

    /// Transitions to the drawing state, re-creating the device surface
    /// first if needed. Never called while a frame is already open.
    fn begin_draw<D: GraphicsDevice>(&mut self, device: &mut D) -> (r: Result<(), Error>)
        requires
            old(self).kind() != StateKind::Poisoned,
            old(self).kind() != StateKind::Drawing,
        ensures
            final(self).spec_inner() == old(self).spec_inner(),
            match r {
                Ok(()) => {
                    &&& final(self).kind() == StateKind::Drawing
                    &&& (old(self).kind() == StateKind::Created ==> final(self).spec_surface()
                        == old(self).spec_surface())
                },
                Err(_) => *final(self) == *old(self),
            },
            old(self).kind() == StateKind::Created ==> r is Ok,
    {
        match self.recreate_if_needed(device) {
            Err(e) => Err(e),
            Ok(()) => {
                let taken = *self;
                *self = State::Poisoned;
                match taken {
                    State::Created { inner, surface } => {
                        *self = State::Drawing { inner, surface };
                        Ok(())
                    },
                    _ => unreached(),
                }
            },
        }
    }

    /// Ends a drawing cycle: back to `Created` on success, or to
    /// `RequiresRecreation` when the platform demanded re-creation.
    fn end_draw(&mut self, must_recreate: bool)
        requires
            old(self).kind() == StateKind::Drawing,
        ensures
            final(self).spec_inner() == old(self).spec_inner(),
            must_recreate ==> final(self).kind() == StateKind::RequiresRecreation,
            !must_recreate ==> final(self).kind() == StateKind::Created && final(self).spec_surface() == old(self).spec_surface(),
    {
        let taken = *self;
        *self = State::Poisoned;
        match taken {
            State::Drawing { inner, surface } => {
                if must_recreate {
                    *self = State::RequiresRecreation { inner };
                } else {
                    *self = State::Created { inner, surface };
                }
            },
            _ => unreached(),
        }
    }
}

/// Renders drawing instructions to a window.
///
/// A frame is opened with [`begin_draw`], which returns the
/// [`DrawingContext`] all drawing goes through, and closed exactly once
/// with [`DrawingContext::end_draw`]. The target is double buffered: the
/// frame becomes visible when it ends. When ending a frame reports the
/// device-loss condition, the target transparently flips back to requiring
/// re-creation and advances its generation, so holders of device resources
/// can detect staleness; the next [`begin_draw`] rebuilds the surface.
///
/// [`begin_draw`]: Self::begin_draw
pub struct RenderTarget {
    /// State pattern object: created and usable, mid-frame, or requiring
    /// re-creation after a device loss.
    state: State,
    /// The generation of the render target, stamped onto every device
    /// resource it creates.
    generation: u64,
}

impl View for RenderTarget {
    type V = RtModel;

    closed spec fn view(&self) -> RtModel {
        RtModel {
            state: self.state.kind(),
            generation: self.generation as int,
            hwnd: self.state.spec_inner().hwnd as int,
            size: self.state.spec_inner().size,
        }
    }
}

impl RenderTarget {
    /// The device surface identifier, meaningful while resources exist.
    pub closed spec fn surface_id(&self) -> u64 {
        self.state.spec_surface()
    }

    /// A render target bound to the given window handle and surface size.
    /// Device resources are created lazily on first use.
    pub fn new(hwnd: isize, size: Size2D) -> (rt: RenderTarget)
        ensures
            rt@ == (RtModel {
                state: StateKind::RequiresRecreation,
                generation: 0,
                hwnd: hwnd as int,
                size,
            }),
    {
        RenderTarget { state: State::RequiresRecreation { inner: Inner { hwnd, size } }, generation: 0 }
    }

    /// The current lifecycle state, for observation.
    pub fn state_kind(&self) -> (k: StateKind)
        ensures
            k == self@.state,
    {
        match &self.state {
            State::Created { .. } => StateKind::Created,
            State::Drawing { .. } => StateKind::Drawing,
            State::RequiresRecreation { .. } => StateKind::RequiresRecreation,
            State::Poisoned => StateKind::Poisoned,
        }
    }

    /// The generation of the render target. Any device resource created by
    /// this target is stamped with the generation at its creation; if the
    /// stamp ever differs from this value, the resource is stale and must
    /// be re-created.
    pub fn generation(&self) -> (g: u64)
        ensures
            g as int == self@.generation,
    {
        self.generation
    }

    /// Makes a new drawing context for the next frame, re-creating the
    /// device surface first when required (first use, or recovery after a
    /// device loss). Beginning a frame while one is already open is a
    /// contract violation and is excluded outright.
    ///
    /// From the `Created` state this always succeeds. `Err` means the
    /// device surface could not be created: the system cannot draw at all,
    /// and the caller should treat this as a fatal environment error.
    pub fn begin_draw<D: GraphicsDevice>(&mut self, device: &mut D) -> (r: Result<
        DrawingContext,
        Error,
    >)
        requires
            old(self)@.state != StateKind::Poisoned,
            old(self)@.state != StateKind::Drawing,
        ensures
            match r {
                Ok(ctx) => {
                    &&& final(self)@ == rt_step(old(self)@, RtEvent::BeginOk)
                    &&& ctx.surface_id() == final(self).surface_id()
                },
                Err(_) => {
                    &&& final(self)@ == rt_step(old(self)@, RtEvent::BeginFailed)
                    &&& old(self)@.state == StateKind::RequiresRecreation
                },
            },
            old(self)@.state == StateKind::Created ==> r is Ok && final(self).surface_id() == old(
                self,
            ).surface_id(),
    {
        match self.state.begin_draw(device) {
            Err(e) => Err(e),
            Ok(()) => {
                let surface = self.state.surface();
                device.begin_frame(surface);
                Ok(DrawingContext { surface })
            },
        }
    }

    /// Applies the platform's frame-end report to the lifecycle. This is
    /// the whole of the interception policy, stated for every possible
    /// report: success presents the frame; exactly the recreate-required
    /// code is swallowed into the device-loss recovery transition (the
    /// generation advances by one, the surface is rebuilt on the next
    /// frame); any other code is handed back as `Failed`, wrapped with the
    /// operation's name, with the lifecycle unchanged.
    pub fn apply_end_draw_report(&mut self, report: Result<(), u32>) -> (r: FrameOutcome)
        requires
            old(self)@.state == StateKind::Drawing,
            old(self)@.generation < u64::MAX,
        ensures
            final(self)@ == rt_step(old(self)@, frame_event_of(report)),
            match report {
                Ok(()) => r matches FrameOutcome::Presented && final(self).surface_id() == old(
                    self,
                ).surface_id(),
                Err(code) => {
                    if code == D2DERR_RECREATE_TARGET {
                        r matches FrameOutcome::RecreateRequired
                    } else {
                        r matches FrameOutcome::Failed(e) && e == (Error::Unexpected {
                            source_hint: "EndDraw",
                            code,
                        })
                    }
                },
            },
    {
        let must_recreate: bool = match check_res(report, "EndDraw") {
            Err(e) => {
                if e.code() == D2DERR_RECREATE_TARGET {
                    true
                } else {
                    // An unexpected device error: no safe continuation is
                    // known, the caller treats this as fatal.
                    return FrameOutcome::Failed(e);
                }
            },
            Ok(()) => false,
        };
        if must_recreate {
            self.generation = self.generation + 1;
        }
        self.state.end_draw(must_recreate);
        if must_recreate {
            FrameOutcome::RecreateRequired
        } else {
            FrameOutcome::Presented
        }
    }

    /// Ends drawing operations: issues the platform's frame-end call and
    /// applies its report exactly as [`Self::apply_end_draw_report`]
    /// states, per report value. Called by the [`DrawingContext`] on its
    /// finalization.
    pub(crate) fn end_draw<D: GraphicsDevice>(&mut self, device: &mut D, surface: u64) -> (r:
        FrameOutcome)
        requires
            old(self)@.state == StateKind::Drawing,
            surface == old(self).surface_id(),
            old(self)@.generation < u64::MAX,
        ensures
            match r {
                FrameOutcome::Presented => {
                    &&& final(self)@ == rt_step(old(self)@, RtEvent::EndPresented)
                    &&& final(self).surface_id() == old(self).surface_id()
                },
                FrameOutcome::RecreateRequired => final(self)@ == rt_step(
                    old(self)@,
                    RtEvent::EndRecreate,
                ),
                FrameOutcome::Failed(e) => {
                    &&& final(self)@ == rt_step(old(self)@, RtEvent::EndFailed)
                    &&& e.spec_code() != D2DERR_RECREATE_TARGET
                },
            },
    {
        let report = device.end_frame(surface);
        self.apply_end_draw_report(report)
    }

    /// Constructs a new solid color brush, re-creating the device surface
    /// first when required. The brush is stamped with the render target's
    /// current generation. As with all device resources, the brush should
    /// be cached and re-used, and re-created once its stamp goes stale.
    ///
    /// `Err` means the platform could not create the resource; the caller
    /// should treat this as a fatal environment error.
    pub fn make_solid_color_brush<D: GraphicsDevice>(&mut self, device: &mut D, color: Color) -> (r:
        Result<SolidColorBrush, Error>)
        requires
            old(self)@.state != StateKind::Poisoned,
        ensures
            final(self)@.generation == old(self)@.generation,
            final(self)@.hwnd == old(self)@.hwnd,
            final(self)@.size == old(self)@.size,
            match r {
                Ok(brush) => {
                    &&& brush.spec_generation() as int == old(self)@.generation
                    &&& brush.spec_color() == color
                    &&& final(self)@.state == (if old(self)@.state == StateKind::RequiresRecreation {
                        StateKind::Created
                    } else {
                        old(self)@.state
                    })
                    &&& (old(self)@.state != StateKind::RequiresRecreation ==> *final(self) == *old(self))
                },
                Err(_) => {
                    &&& (old(self)@.state != StateKind::RequiresRecreation ==> *final(self) == *old(self))
                    &&& (old(self)@.state == StateKind::RequiresRecreation ==> final(self)@.state
                        == StateKind::RequiresRecreation || final(self)@.state
                        == StateKind::Created)
                },
            },
    {
        let surface = match self.state.device_surface(device) {
            Ok(s) => s,
            Err(e) => {
                return Err(e);
            },
        };
        let device_brush = match check_res(
            device.create_solid_brush(surface, color),
            "CreateSolidColorBrush",
        ) {
            Ok(b) => b,
            Err(e) => {
                return Err(e);
            },
        };
        Ok(SolidColorBrush::new(color, device_brush, self.generation))
    }
}

/// How a frame ended.
#[derive(Debug)]
pub enum FrameOutcome {
    /// The frame was presented; the target is ready for the next frame.
    Presented,
    /// The platform reported device loss: the generation advanced, device
    /// resources are stale, and the surface is rebuilt on the next frame.
    RecreateRequired,
    /// An unexpected platform error; no safe continuation is known and the
    /// caller should treat this as fatal.
    Failed(Error),
}

/// A scoped drawing handle for one frame: the only place drawing calls are
/// legal, created by [`RenderTarget::begin_draw`] and consumed by
/// [`Self::end_draw`], which must be called exactly once per frame.
pub struct DrawingContext {
    /// The device surface the frame draws to.
    surface: u64,
}

impl DrawingContext {
    /// The device surface this frame draws to.
    pub closed spec fn surface_id(&self) -> u64 {
        self.surface
    }

    /// The device surface this frame draws to: the application issues its
    /// drawing calls against this identifier until the frame ends.
    pub fn surface(&self) -> (s: u64)
        ensures
            s == self.surface_id(),
    {
        self.surface
    }

    /// Ends drawing operations on the render target, causing the frame to
    /// become visible (or, on a reported device loss, performing the
    /// recovery transition) and the target to become ready for the next
    /// [`RenderTarget::begin_draw`] call.
    pub fn end_draw<D: GraphicsDevice>(self, rt: &mut RenderTarget, device: &mut D) -> (r:
        FrameOutcome)
        requires
            old(rt)@.state == StateKind::Drawing,
            self.surface_id() == old(rt).surface_id(),
            old(rt)@.generation < u64::MAX,
        ensures
            match r {
                FrameOutcome::Presented => {
                    &&& final(rt)@ == rt_step(old(rt)@, RtEvent::EndPresented)
                    &&& final(rt).surface_id() == old(rt).surface_id()
                },
                FrameOutcome::RecreateRequired => final(rt)@ == rt_step(
                    old(rt)@,
                    RtEvent::EndRecreate,
                ),
                FrameOutcome::Failed(e) => {
                    &&& final(rt)@ == rt_step(old(rt)@, RtEvent::EndFailed)
                    &&& e.spec_code() != D2DERR_RECREATE_TARGET
                },
            },
    {
        rt.end_draw(device, self.surface)
    }
}

/// The state machine never enters the poisoned state: any sequence of
/// begin/end operations that respects the one-frame-at-a-time contract,
/// started outside the poisoned state, never reaches it.
pub proof fn lemma_no_poison(m: RtModel, evs: Seq<RtEvent>)
    requires
        m.state != StateKind::Poisoned,
        rt_run_allowed(m, evs),
    ensures
        rt_run(m, evs).state != StateKind::Poisoned,
    decreases evs.len(),
{
    if evs.len() > 0 {
        lemma_no_poison(rt_step(m, evs[0]), evs.subrange(1, evs.len() as int));
    }
}

/// Beginning a frame while one is already open is a contract violation in
/// every case, deterministically, regardless of the prior generation.
pub proof fn lemma_double_begin_rejected(m: RtModel)
    requires
        m.state == StateKind::Drawing,
    ensures
        !rt_allows(m, RtEvent::BeginOk),
        !rt_allows(m, RtEvent::BeginFailed),
{
}

/// The generation never decreases over any sequence of operations.
pub proof fn lemma_generation_monotonic(m: RtModel, evs: Seq<RtEvent>)
    ensures
        rt_run(m, evs).generation >= m.generation,
    decreases evs.len(),
{
    if evs.len() > 0 {
        lemma_generation_monotonic(rt_step(m, evs[0]), evs.subrange(1, evs.len() as int));
    }
}

/// Generation stamps are never reused: once a device loss occurs, the
/// generation afterwards is strictly greater than it was before, so a
/// resource stamped with the earlier generation can never match again.
pub proof fn lemma_stale_after_loss(m: RtModel, evs: Seq<RtEvent>, i: int)
    requires
        0 <= i < evs.len(),
        evs[i] == RtEvent::EndRecreate,
    ensures
        rt_run(m, evs).generation > m.generation,
    decreases evs.len(),
{
    let rest = evs.subrange(1, evs.len() as int);
    if i == 0 {
        lemma_generation_monotonic(rt_step(m, evs[0]), rest);
    } else {
        assert(rest[i - 1] == evs[i]);
        lemma_stale_after_loss(rt_step(m, evs[0]), rest, i - 1);
    }
}

/// Device-loss recovery: ending an open frame on the recreate-required
/// condition advances the generation by exactly one and leaves the target
/// requiring re-creation, and the very next successful frame begin brings
/// it straight back to drawing, at the advanced generation.
pub proof fn lemma_recovery(m: RtModel)
    requires
        m.state == StateKind::Drawing,
    ensures
        ({
            let lost = rt_step(m, RtEvent::EndRecreate);
            &&& lost.generation == m.generation + 1
            &&& lost.state == StateKind::RequiresRecreation
            &&& rt_allows(lost, RtEvent::BeginOk)
            &&& rt_step(lost, RtEvent::BeginOk).state == StateKind::Drawing
            &&& rt_step(lost, RtEvent::BeginOk).generation == m.generation + 1
        }),
{
}

} // verus!
