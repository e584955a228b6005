use deskgl::frame_loop::{FrameLoop, LoopAction, LoopEvent, LoopState};

/// Drives the loop, answering each action, and counts the guard's
/// acquisitions and releases. `draws` gives the outcome of each draw, and
/// `close_after` the number of frames after which a close is requested.
fn run(draws: &[bool], close_after: usize) -> (usize, usize, LoopAction) {
    let (mut frame_loop, mut action) = FrameLoop::new();
    let mut acquired = 0;
    let mut released = 0;
    let mut frames = 0;
    loop {
        let event = match action {
            LoopAction::Setup => LoopEvent::SetupFinished { ok: true },
            LoopAction::DrainEvents => LoopEvent::EventsDrained { close_requested: frames == close_after },
            LoopAction::AcquireAndDraw => {
                acquired += 1;
                let ok = draws[frames];
                frames += 1;
                LoopEvent::FrameDrawn { ok }
            }
            LoopAction::Release => {
                released += 1;
                LoopEvent::Released
            }
            LoopAction::Wait => LoopEvent::WaitOver,
            LoopAction::Teardown { .. } => return (acquired, released, action),
        };
        action = frame_loop.step(event);
    }
}

#[test]
fn failed_draw_still_releases_once() {
    let (acquired, released, last) = run(&[true, false, true], 3);
    assert_eq!(acquired, 2);
    assert_eq!(released, 2);
    assert_eq!(last, LoopAction::Teardown { failed: true });
}

#[test]
fn close_request_ends_after_balanced_frames() {
    let (acquired, released, last) = run(&[true, true, true], 3);
    assert_eq!(acquired, 3);
    assert_eq!(released, 3);
    assert_eq!(last, LoopAction::Teardown { failed: false });
}

#[test]
fn close_before_first_frame_draws_nothing() {
    let (acquired, released, last) = run(&[], 0);
    assert_eq!((acquired, released), (0, 0));
    assert_eq!(last, LoopAction::Teardown { failed: false });
}

#[test]
fn failed_setup_tears_down() {
    let (mut frame_loop, action) = FrameLoop::new();
    assert_eq!(action, LoopAction::Setup);
    assert_eq!(frame_loop.state(), LoopState::Init);
    let action = frame_loop.step(LoopEvent::SetupFinished { ok: false });
    assert_eq!(action, LoopAction::Teardown { failed: true });
    assert_eq!(frame_loop.state(), LoopState::ShuttingDown);
}

#[test]
fn frame_sequence() {
    let (mut frame_loop, _) = FrameLoop::new();
    assert_eq!(frame_loop.step(LoopEvent::SetupFinished { ok: true }), LoopAction::DrainEvents);
    assert_eq!(frame_loop.state(), LoopState::Running);
    assert_eq!(frame_loop.step(LoopEvent::EventsDrained { close_requested: false }), LoopAction::AcquireAndDraw);
    assert_eq!(frame_loop.step(LoopEvent::FrameDrawn { ok: true }), LoopAction::Release);
    assert_eq!(frame_loop.step(LoopEvent::Released), LoopAction::Wait);
    assert_eq!(frame_loop.step(LoopEvent::WaitOver), LoopAction::DrainEvents);
}

#[test]
fn unanswered_event_repeats_pending_action() {
    let (mut frame_loop, _) = FrameLoop::new();
    frame_loop.step(LoopEvent::SetupFinished { ok: true });
    assert_eq!(frame_loop.step(LoopEvent::Released), LoopAction::DrainEvents);
    assert_eq!(frame_loop.step(LoopEvent::FrameDrawn { ok: false }), LoopAction::DrainEvents);
    assert_eq!(frame_loop.state(), LoopState::Running);
}
