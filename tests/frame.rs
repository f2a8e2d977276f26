use glace::frame::{FrameAction, FrameEvent, FrameOrchestrator, FramePhase};

fn run(o: &mut FrameOrchestrator, evs: &[FrameEvent]) -> Vec<FrameAction> {
    evs.iter().map(|e| o.step(*e)).collect()
}

#[test]
fn outdated_once_then_rendered() {
    let mut o = FrameOrchestrator::new(1);
    let actions = run(
        &mut o,
        &[
            FrameEvent::Start { window_open: true },
            FrameEvent::Outdated,
            FrameEvent::Acquired,
            FrameEvent::Finish { window_open: true },
        ],
    );
    assert_eq!(
        actions,
        vec![
            FrameAction::Acquire,
            FrameAction::ReconfigureAndAcquire,
            FrameAction::BeginRecording { multisampled: false },
            FrameAction::SubmitAndPresent,
        ]
    );
    assert_eq!(actions.iter().filter(|a| **a == FrameAction::ReconfigureAndAcquire).count(), 1);
    assert_eq!(o.phase, FramePhase::Idle);
}

#[test]
fn outdated_twice_drops_frame() {
    let mut o = FrameOrchestrator::new(1);
    let actions = run(
        &mut o,
        &[
            FrameEvent::Start { window_open: true },
            FrameEvent::Outdated,
            FrameEvent::Outdated,
            FrameEvent::Finish { window_open: true },
        ],
    );
    assert_eq!(
        actions,
        vec![
            FrameAction::Acquire,
            FrameAction::ReconfigureAndAcquire,
            FrameAction::SkipFrame,
            FrameAction::WarnNoEncoder,
        ]
    );
}

#[test]
fn other_acquire_error_skips_frame_and_next_frame_renders() {
    let mut o = FrameOrchestrator::new(4);
    let actions = run(
        &mut o,
        &[
            FrameEvent::Start { window_open: true },
            FrameEvent::AcquireFailed,
            FrameEvent::Finish { window_open: true },
            FrameEvent::Start { window_open: true },
            FrameEvent::Acquired,
            FrameEvent::Finish { window_open: true },
        ],
    );
    assert_eq!(
        actions,
        vec![
            FrameAction::Acquire,
            FrameAction::SkipFrame,
            FrameAction::WarnNoEncoder,
            FrameAction::Acquire,
            FrameAction::BeginRecording { multisampled: true },
            FrameAction::SubmitAndPresent,
        ]
    );
}

#[test]
fn no_window_no_work() {
    let mut o = FrameOrchestrator::new(1);
    let actions = run(
        &mut o,
        &[FrameEvent::Start { window_open: false }, FrameEvent::Finish { window_open: false }],
    );
    assert_eq!(actions, vec![FrameAction::Nothing, FrameAction::Nothing]);
}
