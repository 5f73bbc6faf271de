use vstd::prelude::*;

use crate::resize::{resize_next, ResizeSignal, ResizeState};
use crate::ring::{Extent, SurfaceCaps, SwapRing, RingError};
use crate::sync::{begin_frame, end_frame, frame_end, join_tokens, CombinedToken, CompletionToken, ReadinessToken, Submission};

verus! {

/// A notification from the window system, in the order it was delivered.
#[derive(Clone, Copy, Debug, PartialEq, Eq, Structural)]
pub enum Notification {
    Resized(Extent),
    CloseRequested,
}

/// What asking for the next presentable image gave.
#[derive(Clone, Copy, Debug, PartialEq, Eq, Structural)]
pub enum AcquireResult {
    /// The image at this index, which becomes ready to write.
    Acquired(u32),
    Stale,
    Lost,
}

/// What presenting an image gave.
#[derive(Clone, Copy, Debug, PartialEq, Eq, Structural)]
pub enum PresentOutcome {
    Presented,
    Stale,
    Lost,
}

/// Why the loop stopped.
#[derive(Clone, Copy, Debug, PartialEq, Eq, Structural)]
pub enum Outcome {
    Closed,
    Lost,
    SubmissionFailed,
}

/// Where an iteration stands: each phase waits for one kind of event.
#[derive(Clone, Copy, Debug, PartialEq, Eq, Structural)]
pub enum Phase {
    /// A rebuild is due; the previous frame must complete first.
    AwaitingPrevious,
    /// A rebuild is due; the surface's capabilities are needed.
    QueryingSurface,
    /// The new ring is computed; the images are to be built.
    Rebuilding(SwapRing),
    Acquiring,
    Submitting(u32, CombinedToken),
    Presenting(u32, CompletionToken),
    Polling,
    Stopped(Outcome),
}

/// What the driver reports back after carrying out an action.
#[derive(Debug)]
pub enum Event {
    PreviousResolved,
    Surface(SurfaceCaps),
    /// Whether the images of the new ring could be built.
    Rebuilt(bool),
    Acquired(AcquireResult),
    /// Whether the device accepted the frame's commands.
    Submitted(bool),
    Presented(PresentOutcome),
    Polled(Vec<Notification>),
}

/// What the driver is to do next.
#[derive(Clone, Copy, Debug, PartialEq, Eq, Structural)]
pub enum Action {
    /// Block until this token has resolved.
    AwaitPrevious(CompletionToken),
    /// Read the surface's capabilities for a ring of this extent.
    QuerySurface(Extent),
    /// Release the old ring's images and build this ring's.
    Rebuild(SwapRing),
    Acquire,
    /// Submit the frame's commands for this image once the token is met.
    Submit(u32, CombinedToken),
    /// Present this image once the token is met.
    Present(u32, CompletionToken),
    PollEvents,
    Stop(Outcome),
}

/// The completion token that stands after `n` rendered frames.
pub open spec fn token_after(n: u64) -> CompletionToken {
    if n == 0 { CompletionToken::Idle } else { CompletionToken::Frame(n) }
}

/// The surface extent, the controller state and whether a close was asked
/// for, after a batch of notifications.
pub open spec fn after_notifications(
    ns: Seq<Notification>,
    surface: Extent,
    controller: ResizeState,
    close: bool,
) -> (Extent, ResizeState, bool)
    decreases ns.len(),
{
    if ns.len() == 0 {
        (surface, controller, close)
    } else {
        let (s, c, cl) = after_notifications(ns.drop_last(), surface, controller, close);
        match ns.last() {
            Notification::Resized(e) => (e, resize_next(c, ResizeSignal::Resized), cl),
            Notification::CloseRequested => (s, c, true),
        }
    }
}

/// The extent of the last resize in a batch, if any.
pub open spec fn last_resize(ns: Seq<Notification>) -> Option<Extent>
    decreases ns.len(),
{
    if ns.len() == 0 {
        None
    } else {
        match ns.last() {
            Notification::Resized(e) => Some(e),
            Notification::CloseRequested => last_resize(ns.drop_last()),
        }
    }
}

/// A batch of notifications leaves the extent of its last resize, and a
/// pending rebuild, or, with no resize in it, the extent and the controller
/// as they were.
pub proof fn lemma_notifications_last(ns: Seq<Notification>, surface: Extent, controller: ResizeState, close: bool)
    ensures
        ({
            let (s, c, cl) = after_notifications(ns, surface, controller, close);
            &&& match last_resize(ns) {
                Some(e) => s == e && c == ResizeState::PendingRecreate,
                None => s == surface && c == controller,
            }
            &&& (forall|k: int| 0 <= k < ns.len() ==> ns[k] != Notification::CloseRequested) ==> cl == close
        }),
    decreases ns.len(),
{
    if ns.len() > 0 {
        lemma_notifications_last(ns.drop_last(), surface, controller, close);
        if forall|k: int| 0 <= k < ns.len() ==> ns[k] != Notification::CloseRequested {
            assert forall|k: int| 0 <= k < ns.drop_last().len() implies ns.drop_last()[k]
                != Notification::CloseRequested by {
                assert(ns.drop_last()[k] == ns[k]);
            }
        }
    }
}

/// Whether a batch holds a close request.
pub open spec fn asks_close(ns: Seq<Notification>) -> bool {
    exists|k: int| 0 <= k < ns.len() && ns[k] == Notification::CloseRequested
}

/// The presentation loop's state: the ring in use, the latest surface
/// extent, the resize controller, the one retained completion token and
/// whether it is known to have resolved, the number of frames rendered,
/// and the phase of the current iteration.
#[derive(Clone, Copy, Debug, PartialEq, Eq, Structural)]
pub struct Engine {
    pub ring: SwapRing,
    pub surface: Extent,
    pub controller: ResizeState,
    pub previous: CompletionToken,
    pub previous_resolved: bool,
    pub frames: u64,
    pub phase: Phase,
}

impl Engine {
    /// The states that the loop can reach: a ready controller means the ring
    /// matches the surface; the retained token is that of the last rendered
    /// frame; a rebuild is queried and built only for a presentable surface
    /// once the retained token has resolved; a submission waits on the
    /// retained token; and the frame being presented is the next one.
    pub open spec fn wf(self) -> bool {
        &&& self.controller == ResizeState::Ready ==> self.ring.extent == self.surface
        &&& self.previous == token_after(self.frames)
        &&& self.previous == CompletionToken::Idle ==> self.previous_resolved
        &&& match self.phase {
            Phase::AwaitingPrevious => self.controller == ResizeState::PendingRecreate
                && !self.surface.degenerate(),
            Phase::QueryingSurface => self.controller == ResizeState::PendingRecreate
                && !self.surface.degenerate() && self.previous_resolved,
            Phase::Rebuilding(r) => self.controller == ResizeState::PendingRecreate
                && r.extent == self.surface && self.previous_resolved,
            Phase::Acquiring => self.controller == ResizeState::Ready,
            Phase::Submitting(i, c) => self.controller == ResizeState::Ready
                && c == join_tokens(self.previous, ReadinessToken { image: i }),
            Phase::Presenting(_, t) => self.frames < u64::MAX
                && t == CompletionToken::Frame((self.frames + 1) as u64),
            _ => true,
        }
    }

    /// The action that the current phase asks for.
    pub open spec fn action_for(self) -> Action {
        match self.phase {
            Phase::AwaitingPrevious => Action::AwaitPrevious(self.previous),
            Phase::QueryingSurface => Action::QuerySurface(self.surface),
            Phase::Rebuilding(r) => Action::Rebuild(r),
            Phase::Acquiring => Action::Acquire,
            Phase::Submitting(i, c) => Action::Submit(i, c),
            Phase::Presenting(i, t) => Action::Present(i, t),
            Phase::Polling => Action::PollEvents,
            Phase::Stopped(o) => Action::Stop(o),
        }
    }

    /// The first step of an iteration: rebuild when the controller asks for
    /// it (skipping the frame while the surface is degenerate, waiting for
    /// the previous frame first), else acquire.
    pub open spec fn begun(self) -> Engine {
        let phase = if self.controller == ResizeState::PendingRecreate {
            if self.surface.degenerate() {
                Phase::Polling
            } else if self.previous_resolved {
                Phase::QueryingSurface
            } else {
                Phase::AwaitingPrevious
            }
        } else {
            Phase::Acquiring
        };
        Engine { phase, ..self }
    }

    /// The state after a frame was handed to presentation (or dropped as
    /// stale): its token is the retained one from now on.
    pub open spec fn frame_done(self, t: CompletionToken, c: ResizeState) -> Engine {
        Engine {
            previous: t,
            previous_resolved: false,
            frames: (self.frames + 1) as u64,
            controller: c,
            phase: Phase::Polling,
            ..self
        }
    }

    /// The state after one event. An event that the phase does not wait
    /// for changes nothing.
    pub open spec fn next(self, e: Event) -> Engine {
        match self.phase {
            Phase::AwaitingPrevious => match e {
                Event::PreviousResolved => Engine {
                    previous_resolved: true,
                    phase: Phase::QueryingSurface,
                    ..self
                },
                _ => self,
            },
            Phase::QueryingSurface => match e {
                Event::Surface(caps) => if SwapRing::buildable(caps, self.surface) {
                    Engine {
                        phase: Phase::Rebuilding(
                            SwapRing::built(caps, self.ring.requested_count, self.surface, self.ring.next_generation()),
                        ),
                        ..self
                    }
                } else {
                    Engine {
                        controller: resize_next(self.controller, ResizeSignal::Degenerate),
                        phase: Phase::Polling,
                        ..self
                    }
                },
                _ => self,
            },
            Phase::Rebuilding(r) => match e {
                Event::Rebuilt(ok) => if ok {
                    Engine {
                        ring: r,
                        controller: resize_next(self.controller, ResizeSignal::Recreated),
                        phase: Phase::Acquiring,
                        ..self
                    }
                } else {
                    Engine {
                        controller: resize_next(self.controller, ResizeSignal::Degenerate),
                        phase: Phase::Polling,
                        ..self
                    }
                },
                _ => self,
            },
            Phase::Acquiring => match e {
                Event::Acquired(a) => match a {
                    AcquireResult::Acquired(i) => Engine {
                        phase: Phase::Submitting(i, join_tokens(self.previous, ReadinessToken { image: i })),
                        ..self
                    },
                    AcquireResult::Stale => Engine {
                        controller: resize_next(self.controller, ResizeSignal::Stale),
                        ..self
                    }.begun(),
                    AcquireResult::Lost => Engine { phase: Phase::Stopped(Outcome::Lost), ..self },
                },
                _ => self,
            },
            Phase::Submitting(i, _) => match e {
                Event::Submitted(ok) => if ok {
                    Engine {
                        phase: Phase::Presenting(i, frame_end(Submission::Queued((self.frames + 1) as u64))),
                        ..self
                    }
                } else {
                    Engine { phase: Phase::Stopped(Outcome::SubmissionFailed), ..self }
                },
                _ => self,
            },
            Phase::Presenting(_, t) => match e {
                Event::Presented(p) => match p {
                    PresentOutcome::Presented => self.frame_done(t, self.controller),
                    PresentOutcome::Stale => self.frame_done(
                        t,
                        resize_next(self.controller, ResizeSignal::Stale),
                    ),
                    PresentOutcome::Lost => Engine { phase: Phase::Stopped(Outcome::Lost), ..self },
                },
                _ => self,
            },
            Phase::Polling => match e {
                Event::Polled(ns) => {
                    let (surface, controller, close) = after_notifications(
                        ns@,
                        self.surface,
                        self.controller,
                        false,
                    );
                    if close {
                        Engine { surface, controller, phase: Phase::Stopped(Outcome::Closed), ..self }
                    } else {
                        Engine { surface, controller, ..self }.begun()
                    }
                },
                _ => self,
            },
            Phase::Stopped(_) => self,
        }
    }
}

impl Engine {
    /// Starts the loop on a ring built from the surface's capabilities; the
    /// controller is ready and no frame is in flight.
    pub fn new(caps: &SurfaceCaps, requested: u32, extent: Extent) -> (r: Result<Engine, RingError>)
        ensures
            SwapRing::buildable(*caps, extent) ==> r == Ok::<Engine, RingError>(Engine {
                ring: SwapRing::built(*caps, requested, extent, 0),
                surface: extent,
                controller: ResizeState::Ready,
                previous: CompletionToken::Idle,
                previous_resolved: true,
                frames: 0,
                phase: Phase::Acquiring,
            }),
            !SwapRing::buildable(*caps, extent) ==> r == Err::<Engine, RingError>(RingError::UnsupportedDimensions),
            r matches Ok(e) ==> e.wf(),
    {
        match SwapRing::create(caps, requested, extent) {
            Ok(ring) => Ok(Engine {
                ring,
                surface: extent,
                controller: ResizeState::Ready,
                previous: CompletionToken::Idle,
                previous_resolved: true,
                frames: 0,
                phase: Phase::Acquiring,
            }),
            Err(e) => Err(e),
        }
    }

    /// The action that the current phase asks for.
    pub fn action(&self) -> (r: Action)
        ensures
            r == self.action_for(),
    {
        match self.phase {
            Phase::AwaitingPrevious => Action::AwaitPrevious(self.previous),
            Phase::QueryingSurface => Action::QuerySurface(self.surface),
            Phase::Rebuilding(r) => Action::Rebuild(r),
            Phase::Acquiring => Action::Acquire,
            Phase::Submitting(i, c) => Action::Submit(i, c),
            Phase::Presenting(i, t) => Action::Present(i, t),
            Phase::Polling => Action::PollEvents,
            Phase::Stopped(o) => Action::Stop(o),
        }
    }

    /// Whether the state is one that the loop can reach.
    pub fn well_formed(&self) -> (r: bool)
        ensures
            r == self.wf(),
    {
        let token_ok = if self.frames == 0 {
            self.previous == CompletionToken::Idle
        } else {
            self.previous == CompletionToken::Frame(self.frames)
        };
        let ready = self.controller == ResizeState::Ready;
        let pending = self.controller == ResizeState::PendingRecreate;
        let phase_ok = match self.phase {
            Phase::AwaitingPrevious => pending && !self.surface.is_degenerate(),
            Phase::QueryingSurface => pending && !self.surface.is_degenerate() && self.previous_resolved,
            Phase::Rebuilding(r) => pending && r.extent == self.surface && self.previous_resolved,
            Phase::Acquiring => ready,
            Phase::Submitting(i, c) => ready && c == (CombinedToken {
                after: self.previous,
                ready: ReadinessToken { image: i },
            }),
            Phase::Presenting(_, t) => self.frames < u64::MAX && t == CompletionToken::Frame(self.frames + 1),
            _ => true,
        };
        (!ready || self.ring.extent == self.surface) && token_ok
            && (self.previous != CompletionToken::Idle || self.previous_resolved) && phase_ok
    }

    fn begin(&mut self)
        ensures
            *final(self) == old(self).begun(),
    {
        if self.controller.is_pending() {
            if self.surface.is_degenerate() {
                self.phase = Phase::Polling;
            } else if self.previous_resolved {
                self.phase = Phase::QueryingSurface;
            } else {
                self.phase = Phase::AwaitingPrevious;
            }
        } else {
            self.phase = Phase::Acquiring;
        }
    }
}

impl Engine {
    /// Consumes one event and returns the next action. Stale rings move the
    /// controller to a rebuild; a lost device or a rejected submission stops
    /// the loop; a close request stops it at the end of the iteration.
    pub fn step(&mut self, event: Event) -> (r: Action)
        requires
            old(self).wf(),
            old(self).frames < u64::MAX,
        ensures
            *final(self) == old(self).next(event),
            final(self).wf(),
            r == final(self).action_for(),
    {
        match self.phase {
            Phase::AwaitingPrevious => {
                if let Event::PreviousResolved = event {
                    self.previous_resolved = true;
                    self.phase = Phase::QueryingSurface;
                }
            },
            Phase::QueryingSurface => {
                if let Event::Surface(caps) = event {
                    match self.ring.recreate(&caps, self.surface) {
                        Ok(r) => {
                            self.phase = Phase::Rebuilding(r);
                        },
                        Err(_) => {
                            self.controller.on_signal(ResizeSignal::Degenerate);
                            self.phase = Phase::Polling;
                        },
                    }
                }
            },
            Phase::Rebuilding(r) => {
                if let Event::Rebuilt(ok) = event {
                    if ok {
                        self.ring = r;
                        self.controller.on_signal(ResizeSignal::Recreated);
                        self.phase = Phase::Acquiring;
                    } else {
                        self.controller.on_signal(ResizeSignal::Degenerate);
                        self.phase = Phase::Polling;
                    }
                }
            },
            Phase::Acquiring => {
                if let Event::Acquired(a) = event {
                    match a {
                        AcquireResult::Acquired(i) => {
                            let c = begin_frame(self.previous, ReadinessToken { image: i });
                            self.phase = Phase::Submitting(i, c);
                        },
                        AcquireResult::Stale => {
                            self.controller.on_signal(ResizeSignal::Stale);
                            self.begin();
                        },
                        AcquireResult::Lost => {
                            self.phase = Phase::Stopped(Outcome::Lost);
                        },
                    }
                }
            },
            Phase::Submitting(i, _) => {
                if let Event::Submitted(ok) = event {
                    if ok {
                        let t = end_frame(Submission::Queued(self.frames + 1));
                        self.phase = Phase::Presenting(i, t);
                    } else {
                        self.phase = Phase::Stopped(Outcome::SubmissionFailed);
                    }
                }
            },
            Phase::Presenting(_, t) => {
                if let Event::Presented(p) = event {
                    match p {
                        PresentOutcome::Lost => {
                            self.phase = Phase::Stopped(Outcome::Lost);
                        },
                        _ => {
                            if let PresentOutcome::Stale = p {
                                self.controller.on_signal(ResizeSignal::Stale);
                            }
                            self.previous = t;
                            self.previous_resolved = false;
                            self.frames = self.frames + 1;
                            self.phase = Phase::Polling;
                        },
                    }
                }
            },
            Phase::Polling => {
                if let Event::Polled(ns) = event {
                    proof {
                        lemma_notifications_last(ns@, self.surface, self.controller, false);
                    }
                    let close = self.take_notifications(&ns);
                    if close {
                        self.phase = Phase::Stopped(Outcome::Closed);
                    } else {
                        self.begin();
                    }
                }
            },
            Phase::Stopped(_) => {},
        }
        self.action()
    }

    /// Applies a batch of notifications in order to the surface extent and
    /// the controller; returns whether a close was asked for.
    fn take_notifications(&mut self, ns: &Vec<Notification>) -> (close: bool)
        ensures
            (final(self).surface, final(self).controller, close) == after_notifications(
                ns@,
                old(self).surface,
                old(self).controller,
                false,
            ),
            *final(self) == (Engine {
                surface: final(self).surface,
                controller: final(self).controller,
                ..*old(self)
            }),
    {
        let mut close = false;
        let mut i: usize = 0;
        while i < ns.len()
            invariant
                0 <= i <= ns@.len(),
                (self.surface, self.controller, close) == after_notifications(
                    ns@.subrange(0, i as int),
                    old(self).surface,
                    old(self).controller,
                    false,
                ),
                *self == (Engine { surface: self.surface, controller: self.controller, ..*old(self) }),
            decreases ns@.len() - i,
        {
            proof {
                assert(ns@.subrange(0, i + 1).drop_last() =~= ns@.subrange(0, i as int));
            }
            match ns[i] {
                Notification::Resized(e) => {
                    self.surface = e;
                    self.controller.on_signal(ResizeSignal::Resized);
                },
                Notification::CloseRequested => {
                    close = true;
                },
            }
            i = i + 1;
        }
        proof {
            assert(ns@.subrange(0, ns@.len() as int) =~= ns@);
        }
        close
    }
}

/// Resizes converge: when the last resize of a batch names an extent that
/// can be presented and that the surface supports, and the batch asks no
/// close, the loop's next rebuild (once the previous frame has resolved and
/// the surface has been queried) makes a ring of exactly that extent, and
/// the controller is ready again.
pub proof fn lemma_resize_converges(s: Engine, ns: Vec<Notification>, caps: SurfaceCaps, e: Extent)
    requires
        s.wf(),
        s.phase == Phase::Polling,
        last_resize(ns@) == Some(e),
        SwapRing::buildable(caps, e),
        !asks_close(ns@),
    ensures
        ({
            let s1 = s.next(Event::Polled(ns));
            let s2 = s1.next(Event::PreviousResolved);
            let s3 = s2.next(Event::Surface(caps));
            let s4 = s3.next(Event::Rebuilt(true));
            &&& s1.controller == ResizeState::PendingRecreate
            &&& s1.surface == e
            &&& s4.ring.extent == e
            &&& s4.surface == e
            &&& s4.controller == ResizeState::Ready
            &&& s4.phase == Phase::Acquiring
        }),
{
    lemma_notifications_last(ns@, s.surface, s.controller, false);
}

/// Once settled, the ring stays settled: an event that brings no resize
/// leaves the surface extent as it was, and whenever the controller is
/// ready the ring in use has that extent.
pub proof fn lemma_settled_stays(s: Engine, ev: Event)
    requires
        s.wf(),
        s.frames < u64::MAX,
        ev matches Event::Polled(ns) ==> last_resize(ns@) == None::<Extent>,
    ensures
        s.next(ev).surface == s.surface,
        s.next(ev).controller == ResizeState::Ready ==> s.next(ev).ring.extent == s.surface,
{
    if let Event::Polled(ns) = ev {
        lemma_notifications_last(ns@, s.surface, s.controller, false);
    }
}

/// The completion chain is strict: only the presentation (or stale drop) of
/// a submitted frame replaces the retained token, and then by the token that
/// ending that frame gave, numbered one past the frames before it; every
/// other event keeps it. A frame's submission waits on the retained token.
pub proof fn lemma_token_chain(s: Engine, ev: Event)
    requires
        s.wf(),
        s.frames < u64::MAX,
    ensures
        ({
            let n = s.next(ev);
            &&& n.previous == token_after(n.frames)
            &&& if hands_over_frame(s, ev) {
                &&& n.frames == s.frames + 1
                &&& (match s.phase {
                    Phase::Presenting(_, t) => n.previous == t,
                    _ => false,
                })
                &&& n.previous == frame_end(Submission::Queued(n.frames))
            } else {
                n.previous == s.previous && n.frames == s.frames
            }
            &&& n.action_for() matches Action::Submit(i, c) ==> c == join_tokens(n.previous, ReadinessToken { image: i })
        }),
{
}

/// Whether the event ends a submitted frame: its presentation, or its drop
/// as stale.
pub open spec fn hands_over_frame(s: Engine, ev: Event) -> bool {
    s.phase is Presenting && match ev {
        Event::Presented(p) => p != PresentOutcome::Lost,
        _ => false,
    }
}

/// A stale acquisition submits nothing: the iteration starts over with a
/// rebuild pending, and the next action is neither a submission nor a
/// presentation.
pub proof fn lemma_stale_acquire_submits_nothing(s: Engine)
    requires
        s.wf(),
        s.phase == Phase::Acquiring,
    ensures
        ({
            let n = s.next(Event::Acquired(AcquireResult::Stale));
            &&& n.controller == ResizeState::PendingRecreate
            &&& !(n.action_for() is Submit)
            &&& !(n.action_for() is Present)
            &&& n.previous == s.previous
            &&& n.frames == s.frames
        }),
{
}

/// A rebuild never releases images that in-flight work may still use: the
/// loop asks for one only once the retained token, which covers every frame
/// submitted before it, is known to have resolved, and no frame is then
/// between submission and presentation.
pub proof fn lemma_rebuild_after_resolution(s: Engine, ev: Event)
    requires
        s.wf(),
        s.frames < u64::MAX,
    ensures
        s.next(ev).action_for() is Rebuild ==> s.next(ev).previous_resolved && !(s.next(ev).phase is Presenting)
            && !(s.next(ev).phase is Submitting),
{
}

/// While the surface is degenerate a rebuild stays pending and every
/// iteration skips rendering: a poll that brings no resize neither acquires
/// nor presents, and leads straight to the next poll.
pub proof fn lemma_degenerate_skips(s: Engine, ns: Vec<Notification>)
    requires
        s.wf(),
        s.phase == Phase::Polling,
        s.controller == ResizeState::PendingRecreate,
        s.surface.degenerate(),
        last_resize(ns@) == None::<Extent>,
        !asks_close(ns@),
    ensures
        ({
            let n = s.next(Event::Polled(ns));
            &&& n.controller == ResizeState::PendingRecreate
            &&& n.phase == Phase::Polling
            &&& n.action_for() == Action::PollEvents
            &&& n.ring == s.ring
            &&& n.previous == s.previous
        }),
{
    lemma_notifications_last(ns@, s.surface, s.controller, false);
}

/// A resize to a degenerate extent moves a ready controller to a pending
/// rebuild, and the iteration that follows skips rendering.
pub proof fn lemma_degenerate_resize_pends(s: Engine, ns: Vec<Notification>, e: Extent)
    requires
        s.wf(),
        s.phase == Phase::Polling,
        last_resize(ns@) == Some(e),
        e.degenerate(),
        !asks_close(ns@),
    ensures
        ({
            let n = s.next(Event::Polled(ns));
            &&& n.controller == ResizeState::PendingRecreate
            &&& n.phase == Phase::Polling
            &&& n.action_for() == Action::PollEvents
        }),
{
    lemma_notifications_last(ns@, s.surface, s.controller, false);
}

} // verus!
