use present_engine::engine::{AcquireResult, Action, Engine, Event, Notification, Outcome, Phase, PresentOutcome};
use present_engine::resize::{ResizeSignal, ResizeState};
use present_engine::ring::{Extent, RingError, SurfaceCaps, SwapRing};
use present_engine::sync::{begin_frame, end_frame, CombinedToken, CompletionToken, ReadinessToken, Submission};

fn caps(min: u32, max: Option<u32>) -> SurfaceCaps {
    SurfaceCaps {
        min_image_count: min,
        max_image_count: max,
        min_extent: Extent::new(1, 1),
        max_extent: Extent::new(4096, 4096),
        format: 44,
    }
}

fn engine() -> Engine {
    Engine::new(&caps(2, Some(3)), 2, Extent::new(800, 600)).unwrap()
}

/// Runs one full frame from the acquiring phase; returns the actions seen.
fn frame(e: &mut Engine, image: u32) -> Vec<Action> {
    let mut seen = Vec::new();
    seen.push(e.step(Event::Acquired(AcquireResult::Acquired(image))));
    seen.push(e.step(Event::Submitted(true)));
    seen.push(e.step(Event::Presented(PresentOutcome::Presented)));
    seen.push(e.step(Event::Polled(vec![])));
    seen
}

/// Drives a pending rebuild to completion.
fn rebuild(e: &mut Engine, c: &SurfaceCaps) -> Action {
    let mut a = e.action();
    if let Action::AwaitPrevious(_) = a {
        a = e.step(Event::PreviousResolved);
    }
    assert!(matches!(a, Action::QuerySurface(_)));
    let a = e.step(Event::Surface(*c));
    assert!(matches!(a, Action::Rebuild(_)));
    e.step(Event::Rebuilt(true))
}

#[test]
fn ring_count_clamped_into_range() {
    let c = caps(2, Some(3));
    assert_eq!(SwapRing::create(&c, 2, Extent::new(640, 480)).unwrap().image_count, 2);
    assert_eq!(SwapRing::create(&c, 5, Extent::new(640, 480)).unwrap().image_count, 3);
    assert_eq!(SwapRing::create(&c, 1, Extent::new(640, 480)).unwrap().image_count, 2);
    assert_eq!(SwapRing::create(&caps(2, None), 9, Extent::new(640, 480)).unwrap().image_count, 9);
    assert_eq!(c.effective_image_count(3), 3);
}

#[test]
fn ring_keeps_format_and_extent() {
    let r = SwapRing::create(&caps(2, Some(3)), 2, Extent::new(640, 480)).unwrap();
    assert_eq!(r.extent, Extent::new(640, 480));
    assert_eq!(r.format, 44);
    assert_eq!(r.generation, 0);
    assert_eq!(r.requested_count, 2);
}

#[test]
fn ring_refuses_degenerate_and_unsupported() {
    let c = caps(2, Some(3));
    assert_eq!(SwapRing::create(&c, 2, Extent::new(0, 480)), Err(RingError::UnsupportedDimensions));
    assert_eq!(SwapRing::create(&c, 2, Extent::new(640, 0)), Err(RingError::UnsupportedDimensions));
    assert_eq!(SwapRing::create(&c, 2, Extent::new(5000, 480)), Err(RingError::UnsupportedDimensions));
    assert!(Engine::new(&c, 2, Extent::new(0, 0)).is_err());
    assert!(Extent::new(0, 3).is_degenerate());
    assert!(!c.supports_extent(Extent::new(1, 4097)));
}

#[test]
fn ring_recreate_advances_generation() {
    let c = caps(2, Some(3));
    let r = SwapRing::create(&c, 5, Extent::new(640, 480)).unwrap();
    let narrow = caps(2, Some(2));
    let r2 = r.recreate(&narrow, Extent::new(300, 200)).unwrap();
    assert_eq!(r2.extent, Extent::new(300, 200));
    assert_eq!(r2.image_count, 2);
    assert_eq!(r2.requested_count, 5);
    assert_eq!(r2.generation, 1);
    assert_eq!(r.recreate(&c, Extent::new(0, 1)), Err(RingError::UnsupportedDimensions));
}

#[test]
fn tokens_join_and_end() {
    let c = begin_frame(CompletionToken::Frame(4), ReadinessToken { image: 1 });
    assert_eq!(c, CombinedToken { after: CompletionToken::Frame(4), ready: ReadinessToken { image: 1 } });
    assert_eq!(end_frame(Submission::Queued(5)), CompletionToken::Frame(5));
    assert_eq!(end_frame(Submission::Rejected), CompletionToken::Idle);
}

#[test]
fn controller_transitions() {
    let mut s = ResizeState::Ready;
    s.on_signal(ResizeSignal::Degenerate);
    assert_eq!(s, ResizeState::Ready);
    s.on_signal(ResizeSignal::Resized);
    assert!(s.is_pending());
    s.on_signal(ResizeSignal::Degenerate);
    assert_eq!(s, ResizeState::PendingRecreate);
    s.on_signal(ResizeSignal::Recreated);
    assert_eq!(s, ResizeState::Ready);
    s.on_signal(ResizeSignal::Stale);
    assert_eq!(s, ResizeState::PendingRecreate);
}

#[test]
fn new_engine_starts_ready_and_acquiring() {
    let e = engine();
    assert_eq!(e.ring.image_count, 2);
    assert_eq!(e.controller, ResizeState::Ready);
    assert_eq!(e.previous, CompletionToken::Idle);
    assert_eq!(e.action(), Action::Acquire);
    assert!(e.well_formed());
}

#[test]
fn steady_state_hundred_iterations() {
    let mut e = engine();
    let mut acquires = 0;
    let mut submits = 0;
    let mut presents = 0;
    let mut last_token = 0u64;
    for n in 0..100u32 {
        assert_eq!(e.action(), Action::Acquire);
        acquires += 1;
        let image = n % 2;
        let a = e.step(Event::Acquired(AcquireResult::Acquired(image)));
        match a {
            Action::Submit(i, c) => {
                submits += 1;
                assert_eq!(i, image);
                assert_eq!(c.after, e.previous);
            },
            other => panic!("expected a submission, got {:?}", other),
        }
        let a = e.step(Event::Submitted(true));
        match a {
            Action::Present(i, CompletionToken::Frame(t)) => {
                presents += 1;
                assert_eq!(i, image);
                assert!(t > last_token);
                assert_eq!(t, last_token + 1);
                last_token = t;
            },
            other => panic!("expected a presentation, got {:?}", other),
        }
        assert_eq!(e.step(Event::Presented(PresentOutcome::Presented)), Action::PollEvents);
        assert_eq!(e.step(Event::Polled(vec![])), Action::Acquire);
        assert!(e.well_formed());
    }
    assert_eq!((acquires, submits, presents), (100, 100, 100));
    assert_eq!(e.frames, 100);
    assert_eq!(e.previous, CompletionToken::Frame(100));
    assert_eq!(e.controller, ResizeState::Ready);
}

#[test]
fn lost_acquire_stops_the_loop() {
    let mut e = engine();
    for n in 1..50u32 {
        frame(&mut e, n % 2);
    }
    assert_eq!(e.step(Event::Acquired(AcquireResult::Lost)), Action::Stop(Outcome::Lost));
    assert_eq!(e.frames, 49);
    // Nothing moves a stopped loop.
    assert_eq!(e.step(Event::Acquired(AcquireResult::Acquired(0))), Action::Stop(Outcome::Lost));
    assert_eq!(e.step(Event::Polled(vec![])), Action::Stop(Outcome::Lost));
    assert_eq!(e.frames, 49);
}

#[test]
fn lost_present_stops_the_loop() {
    let mut e = engine();
    e.step(Event::Acquired(AcquireResult::Acquired(0)));
    e.step(Event::Submitted(true));
    assert_eq!(e.step(Event::Presented(PresentOutcome::Lost)), Action::Stop(Outcome::Lost));
}

#[test]
fn rejected_submission_is_fatal() {
    let mut e = engine();
    e.step(Event::Acquired(AcquireResult::Acquired(1)));
    assert_eq!(e.step(Event::Submitted(false)), Action::Stop(Outcome::SubmissionFailed));
}

#[test]
fn close_request_stops_after_the_iteration() {
    let mut e = engine();
    frame(&mut e, 0);
    e.step(Event::Acquired(AcquireResult::Acquired(1)));
    e.step(Event::Submitted(true));
    e.step(Event::Presented(PresentOutcome::Presented));
    let a = e.step(Event::Polled(vec![Notification::Resized(Extent::new(10, 10)), Notification::CloseRequested]));
    assert_eq!(a, Action::Stop(Outcome::Closed));
    assert_eq!(e.surface, Extent::new(10, 10));
}

#[test]
fn zero_resize_skips_until_nonzero() {
    let mut e = engine();
    frame(&mut e, 0);
    e.step(Event::Acquired(AcquireResult::Acquired(1)));
    e.step(Event::Submitted(true));
    e.step(Event::Presented(PresentOutcome::Presented));
    let a = e.step(Event::Polled(vec![Notification::Resized(Extent::new(0, 0))]));
    assert_eq!(e.controller, ResizeState::PendingRecreate);
    assert_eq!(a, Action::PollEvents);
    for _ in 0..10 {
        let a = e.step(Event::Polled(vec![]));
        assert_eq!(a, Action::PollEvents);
        assert_eq!(e.controller, ResizeState::PendingRecreate);
        assert_eq!(e.frames, 2);
    }
    let a = e.step(Event::Polled(vec![Notification::Resized(Extent::new(320, 240))]));
    assert_eq!(a, Action::AwaitPrevious(CompletionToken::Frame(2)));
    let c = caps(2, Some(3));
    assert_eq!(rebuild(&mut e, &c), Action::Acquire);
    assert_eq!(e.ring.extent, Extent::new(320, 240));
    assert_eq!(e.controller, ResizeState::Ready);
}

#[test]
fn resizes_converge_to_last() {
    let mut e = engine();
    frame(&mut e, 0);
    e.step(Event::Acquired(AcquireResult::Acquired(1)));
    e.step(Event::Submitted(true));
    e.step(Event::Presented(PresentOutcome::Presented));
    e.step(Event::Polled(vec![
        Notification::Resized(Extent::new(1024, 768)),
        Notification::Resized(Extent::new(0, 768)),
        Notification::Resized(Extent::new(640, 480)),
    ]));
    assert_eq!(e.surface, Extent::new(640, 480));
    let c = caps(2, Some(3));
    rebuild(&mut e, &c);
    assert_eq!(e.ring.extent, Extent::new(640, 480));
    assert_eq!(e.ring.generation, 1);
    for n in 0..5u32 {
        frame(&mut e, n % 2);
        assert_eq!(e.ring.extent, Extent::new(640, 480));
    }
}

#[test]
fn token_chain_is_strict() {
    let mut e = engine();
    let mut handed = Vec::new();
    let mut ended = Vec::new();
    for n in 0..6u32 {
        if let Action::Submit(_, c) = e.step(Event::Acquired(AcquireResult::Acquired(n % 2))) {
            handed.push(c.after);
        }
        if let Action::Present(_, t) = e.step(Event::Submitted(true)) {
            ended.push(t);
        }
        e.step(Event::Presented(if n == 2 { PresentOutcome::Stale } else { PresentOutcome::Presented }));
        e.step(Event::Polled(vec![]));
        if e.controller == ResizeState::PendingRecreate {
            rebuild(&mut e, &caps(2, Some(3)));
        }
    }
    assert_eq!(handed[0], CompletionToken::Idle);
    for n in 1..6 {
        assert_eq!(handed[n], ended[n - 1]);
    }
}

#[test]
fn stale_acquire_submits_nothing() {
    let mut e = engine();
    frame(&mut e, 0);
    let a = e.step(Event::Acquired(AcquireResult::Stale));
    assert_eq!(a, Action::AwaitPrevious(CompletionToken::Frame(1)));
    assert_eq!(e.controller, ResizeState::PendingRecreate);
    assert_eq!(e.frames, 1);
    // A submission result out of turn is ignored.
    assert_eq!(e.step(Event::Submitted(true)), Action::AwaitPrevious(CompletionToken::Frame(1)));
    assert_eq!(e.frames, 1);
}

#[test]
fn stale_acquire_on_fresh_engine_queries_surface() {
    let mut e = engine();
    assert_eq!(e.step(Event::Acquired(AcquireResult::Stale)), Action::QuerySurface(Extent::new(800, 600)));
}

#[test]
fn rebuild_waits_for_previous_frame() {
    let mut e = engine();
    frame(&mut e, 0);
    e.step(Event::Acquired(AcquireResult::Acquired(1)));
    e.step(Event::Submitted(true));
    let a = e.step(Event::Presented(PresentOutcome::Stale));
    assert_eq!(a, Action::PollEvents);
    assert_eq!(e.previous, CompletionToken::Frame(2));
    let a = e.step(Event::Polled(vec![]));
    assert_eq!(a, Action::AwaitPrevious(CompletionToken::Frame(2)));
    assert!(!e.previous_resolved);
    // Neither the surface nor a rebuild is taken before the token resolves.
    assert_eq!(e.step(Event::Surface(caps(2, Some(3)))), Action::AwaitPrevious(CompletionToken::Frame(2)));
    assert_eq!(e.step(Event::Rebuilt(true)), Action::AwaitPrevious(CompletionToken::Frame(2)));
    assert_eq!(e.step(Event::PreviousResolved), Action::QuerySurface(Extent::new(800, 600)));
    assert!(e.previous_resolved);
    match e.step(Event::Surface(caps(2, Some(3)))) {
        Action::Rebuild(r) => {
            assert!(e.previous_resolved);
            assert_eq!(r.generation, 1);
            assert_eq!(r.extent, Extent::new(800, 600));
        },
        other => panic!("expected a rebuild, got {:?}", other),
    }
    assert_eq!(e.step(Event::Rebuilt(true)), Action::Acquire);
    assert_eq!(e.previous, CompletionToken::Frame(2));
}

#[test]
fn unsupported_rebuild_skips_the_frame() {
    let mut e = engine();
    e.step(Event::Acquired(AcquireResult::Stale));
    let mut small = caps(2, Some(3));
    small.max_extent = Extent::new(100, 100);
    assert_eq!(e.step(Event::Surface(small)), Action::PollEvents);
    assert_eq!(e.controller, ResizeState::PendingRecreate);
    assert_eq!(e.step(Event::Polled(vec![])), Action::QuerySurface(Extent::new(800, 600)));
    match e.step(Event::Surface(caps(2, Some(3)))) {
        Action::Rebuild(_) => {},
        other => panic!("expected a rebuild, got {:?}", other),
    }
    assert_eq!(e.step(Event::Rebuilt(false)), Action::PollEvents);
    assert_eq!(e.ring.generation, 0);
    assert_eq!(e.phase, Phase::Polling);
}
