use vstd::prelude::*;

verus! {

/// The resize controller: whether the swap ring matches the surface.
#[derive(Clone, Copy, Debug, PartialEq, Eq, Structural)]
pub enum ResizeState {
    Ready,
    PendingRecreate,
}

/// What the controller is told.
#[derive(Clone, Copy, Debug, PartialEq, Eq, Structural)]
pub enum ResizeSignal {
    /// The surface was resized.
    Resized,
    /// Acquisition or presentation found the ring stale.
    Stale,
    /// The ring was rebuilt at the current surface extent.
    Recreated,
    /// Rebuilding was refused: the surface is degenerate or unsupported.
    Degenerate,
}

pub open spec fn resize_next(s: ResizeState, signal: ResizeSignal) -> ResizeState {
    match signal {
        ResizeSignal::Resized | ResizeSignal::Stale => ResizeState::PendingRecreate,
        ResizeSignal::Recreated => match s {
            ResizeState::PendingRecreate => ResizeState::Ready,
            ResizeState::Ready => ResizeState::Ready,
        },
        ResizeSignal::Degenerate => s,
    }
}

impl ResizeState {
    /// Moves the controller on one signal: a resize or a stale ring asks for
    /// a rebuild, a rebuild answers it, and a refused rebuild leaves the
    /// request standing.
    pub fn on_signal(&mut self, signal: ResizeSignal)
        ensures
            *final(self) == resize_next(*old(self), signal),
    {
        match signal {
            ResizeSignal::Resized | ResizeSignal::Stale => {
                *self = ResizeState::PendingRecreate;
            },
            ResizeSignal::Recreated => {
                *self = ResizeState::Ready;
            },
            ResizeSignal::Degenerate => {},
        }
    }

    pub fn is_pending(&self) -> (r: bool)
        ensures
            r == (*self == ResizeState::PendingRecreate),
    {
        match self {
            ResizeState::PendingRecreate => true,
            ResizeState::Ready => false,
        }
    }
}

} // verus!
