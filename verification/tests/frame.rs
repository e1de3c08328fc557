use xd_engine::frame::{accepts, frame_step, FrameAction, FrameEvent, FrameFailure, FrameState};
use xd_engine::vk_types::{VK_ERROR_DEVICE_LOST, VK_ERROR_OUT_OF_DATE_KHR, VK_SUBOPTIMAL_KHR, VK_SUCCESS};

/// Drives the machine with `events`, collecting the actions until it stops
/// accepting them.
fn run(events: &[FrameEvent]) -> Vec<FrameAction> {
    let mut state = FrameState::Start;
    let mut actions = Vec::new();
    for &event in events {
        if !accepts(state, event) {
            break;
        }
        let (next, action) = frame_step(state, event);
        state = next;
        actions.push(action);
    }
    actions
}

fn frame(acquired: i32, recorded: bool, submitted: i32, presented: i32) -> Vec<FrameEvent> {
    vec![
        FrameEvent::Begin,
        FrameEvent::PreviousFrameDone,
        FrameEvent::ImageAcquired { result: acquired, image_index: 2 },
        FrameEvent::CommandsRecorded { ok: recorded },
        FrameEvent::Submitted { result: submitted },
        FrameEvent::Presented { result: presented },
    ]
}

#[test]
fn a_good_frame_presents_the_image_it_acquired() {
    assert_eq!(
        run(&frame(VK_SUCCESS, true, VK_SUCCESS, VK_SUCCESS)),
        vec![
            FrameAction::WaitForPreviousFrame,
            FrameAction::AcquireImage,
            FrameAction::RecordCommands { image_index: 2 },
            FrameAction::Submit { image_index: 2 },
            FrameAction::Present { image_index: 2 },
            FrameAction::Finish,
        ]
    );
}

#[test]
fn a_suboptimal_swapchain_still_draws() {
    assert_eq!(
        run(&frame(VK_SUBOPTIMAL_KHR, true, VK_SUCCESS, VK_SUBOPTIMAL_KHR)).last(),
        Some(&FrameAction::Finish)
    );
}

#[test]
fn a_failed_acquire_ends_the_frame_before_recording() {
    assert_eq!(
        run(&frame(VK_ERROR_OUT_OF_DATE_KHR, true, VK_SUCCESS, VK_SUCCESS)),
        vec![
            FrameAction::WaitForPreviousFrame,
            FrameAction::AcquireImage,
            FrameAction::Fail(FrameFailure::Acquire { result: VK_ERROR_OUT_OF_DATE_KHR }),
        ]
    );
}

#[test]
fn nothing_is_submitted_after_a_failed_recording_or_presented_after_a_failed_submit() {
    assert_eq!(run(&frame(VK_SUCCESS, false, VK_SUCCESS, VK_SUCCESS)).last(), Some(&FrameAction::Fail(FrameFailure::Record)));
    assert_eq!(
        run(&frame(VK_SUCCESS, true, VK_ERROR_DEVICE_LOST, VK_SUCCESS)).last(),
        Some(&FrameAction::Fail(FrameFailure::Submit { result: VK_ERROR_DEVICE_LOST }))
    );
    // A suboptimal swapchain is no reason to fail, but a submission is not a
    // presentation: only success goes on.
    assert_eq!(
        run(&frame(VK_SUCCESS, true, VK_SUBOPTIMAL_KHR, VK_SUCCESS)).last(),
        Some(&FrameAction::Fail(FrameFailure::Submit { result: VK_SUBOPTIMAL_KHR }))
    );
    assert_eq!(
        run(&frame(VK_SUCCESS, true, VK_SUCCESS, VK_ERROR_OUT_OF_DATE_KHR)).last(),
        Some(&FrameAction::Fail(FrameFailure::Present { result: VK_ERROR_OUT_OF_DATE_KHR }))
    );
}

#[test]
fn events_out_of_order_are_refused() {
    assert!(!accepts(FrameState::Start, FrameEvent::PreviousFrameDone));
    assert!(!accepts(FrameState::Done, FrameEvent::Begin));
    assert!(accepts(FrameState::Acquiring, FrameEvent::ImageAcquired { result: VK_SUCCESS, image_index: 0 }));
}
