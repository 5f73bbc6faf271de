use vstd::prelude::*;

verus! {

/// The point at which submitted device work, and all that was joined into
/// it, has finished. `Idle` is the token that is complete from the start;
/// `Frame(n)` is the completion of the `n`-th rendered frame, which covers
/// every frame before it.
#[derive(Clone, Copy, Debug, PartialEq, Eq, Structural)]
pub enum CompletionToken {
    Idle,
    Frame(u64),
}

/// Signals that the acquired image `image` may be written.
#[derive(Clone, Copy, Debug, PartialEq, Eq, Structural)]
pub struct ReadinessToken {
    pub image: u32,
}

/// The precondition of a frame's rendering work: the previous frame has
/// completed and the acquired image is ready.
#[derive(Clone, Copy, Debug, PartialEq, Eq, Structural)]
pub struct CombinedToken {
    pub after: CompletionToken,
    pub ready: ReadinessToken,
}

/// How the command submission of a frame went.
#[derive(Clone, Copy, Debug, PartialEq, Eq, Structural)]
pub enum Submission {
    /// The work was queued as the `n`-th frame.
    Queued(u64),
    Rejected,
}

/// The join of the previous frame's completion with the readiness of the
/// image just acquired.
pub open spec fn join_tokens(previous: CompletionToken, acquisition: ReadinessToken) -> CombinedToken {
    CombinedToken { after: previous, ready: acquisition }
}

pub fn begin_frame(previous: CompletionToken, acquisition: ReadinessToken) -> (r: CombinedToken)
    ensures
        r == join_tokens(previous, acquisition),
{
    CombinedToken { after: previous, ready: acquisition }
}

/// The token that stands for a frame once its submission went as `s`: the
/// frame's own completion when it was queued, and the idle token when it
/// was rejected, so that nothing waits on work that will never finish.
pub open spec fn frame_end(s: Submission) -> CompletionToken {
    match s {
        Submission::Queued(n) => CompletionToken::Frame(n),
        Submission::Rejected => CompletionToken::Idle,
    }
}

pub fn end_frame(submission: Submission) -> (r: CompletionToken)
    ensures
        r == frame_end(submission),
{
    match submission {
        Submission::Queued(n) => CompletionToken::Frame(n),
        Submission::Rejected => CompletionToken::Idle,
    }
}

} // verus!
