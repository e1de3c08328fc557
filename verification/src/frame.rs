//! The steps of one frame, as a state machine: the backend performs the
//! action it is given and reports what came of it, and the machine decides
//! what follows. A frame waits for the previous one, acquires a swapchain
//! image, records its commands, submits them and presents the image; any
//! failure ends the frame, and nothing is submitted or presented after it.

use vstd::prelude::*;
use crate::swapchain::frame_result_usable;
use crate::vk_types::{VkEnum, VK_SUBOPTIMAL_KHR, VK_SUCCESS};

verus! {

/// Where a frame stands.
#[derive(Clone, Copy, Debug, PartialEq, Eq, Structural)]
pub enum FrameState {
    /// Nothing done yet.
    Start,
    /// Waiting for the previous frame's fence, then resetting it.
    WaitingForPreviousFrame,
    /// Acquiring the next swapchain image.
    Acquiring,
    /// Recording the commands that draw into image `image_index`.
    Recording { image_index: u32 },
    /// Submitting the recorded commands.
    Submitting { image_index: u32 },
    /// Presenting image `image_index`.
    Presenting { image_index: u32 },
    /// The image was presented.
    Done,
    /// A step failed; the frame is over.
    Failed,
}

/// Which step failed, with the result Vulkan gave where there is one.
#[derive(Clone, Copy, Debug, PartialEq, Eq, Structural)]
pub enum FrameFailure {
    Acquire { result: VkEnum },
    Record,
    Submit { result: VkEnum },
    Present { result: VkEnum },
}

/// What the backend reports after performing an action (or, for `Begin`,
/// before the first one).
#[derive(Clone, Copy, Debug, PartialEq, Eq, Structural)]
pub enum FrameEvent {
    Begin,
    PreviousFrameDone,
    ImageAcquired { result: VkEnum, image_index: u32 },
    CommandsRecorded { ok: bool },
    Submitted { result: VkEnum },
    Presented { result: VkEnum },
}

/// What the backend does next.
#[derive(Clone, Copy, Debug, PartialEq, Eq, Structural)]
pub enum FrameAction {
    /// Wait for the in-flight fence and reset it.
    WaitForPreviousFrame,
    /// `vkAcquireNextImageKHR`, signalling the image-available semaphore.
    AcquireImage,
    /// Reset the command buffer and record the frame into it.
    RecordCommands { image_index: u32 },
    /// `vkQueueSubmit` of the command buffer, signalling the fence.
    Submit { image_index: u32 },
    /// `vkQueuePresentKHR` of the image.
    Present { image_index: u32 },
    /// The frame is complete.
    Finish,
    /// The frame ends with this failure.
    Fail(FrameFailure),
}

/// Success, or a swapchain that still works but no longer matches the
/// surface exactly: the frame goes on either way.
pub open spec fn is_usable_result(result: VkEnum) -> bool {
    result == VK_SUCCESS || result == VK_SUBOPTIMAL_KHR
}

/// The event `event` is the report of the action `state` was waiting on.
pub open spec fn spec_accepts(state: FrameState, event: FrameEvent) -> bool {
    match (state, event) {
        (FrameState::Start, FrameEvent::Begin) => true,
        (FrameState::WaitingForPreviousFrame, FrameEvent::PreviousFrameDone) => true,
        (FrameState::Acquiring, FrameEvent::ImageAcquired { .. }) => true,
        (FrameState::Recording { .. }, FrameEvent::CommandsRecorded { .. }) => true,
        (FrameState::Submitting { .. }, FrameEvent::Submitted { .. }) => true,
        (FrameState::Presenting { .. }, FrameEvent::Presented { .. }) => true,
        _ => false,
    }
}

/// The transitions of a frame. A pair `spec_accepts` refuses is no
/// transition; it is given as staying put.
pub open spec fn spec_frame_step(state: FrameState, event: FrameEvent) -> (FrameState, FrameAction) {
    match (state, event) {
        (FrameState::Start, FrameEvent::Begin) => (
            FrameState::WaitingForPreviousFrame,
            FrameAction::WaitForPreviousFrame,
        ),
        (FrameState::WaitingForPreviousFrame, FrameEvent::PreviousFrameDone) => (
            FrameState::Acquiring,
            FrameAction::AcquireImage,
        ),
        (FrameState::Acquiring, FrameEvent::ImageAcquired { result, image_index }) => if is_usable_result(
            result,
        ) {
            (FrameState::Recording { image_index }, FrameAction::RecordCommands { image_index })
        } else {
            (FrameState::Failed, FrameAction::Fail(FrameFailure::Acquire { result }))
        },
        (FrameState::Recording { image_index }, FrameEvent::CommandsRecorded { ok }) => if ok {
            (FrameState::Submitting { image_index }, FrameAction::Submit { image_index })
        } else {
            (FrameState::Failed, FrameAction::Fail(FrameFailure::Record))
        },
        (FrameState::Submitting { image_index }, FrameEvent::Submitted { result }) => if result == VK_SUCCESS {
            (FrameState::Presenting { image_index }, FrameAction::Present { image_index })
        } else {
            (FrameState::Failed, FrameAction::Fail(FrameFailure::Submit { result }))
        },
        (FrameState::Presenting { .. }, FrameEvent::Presented { result }) => if is_usable_result(result) {
            (FrameState::Done, FrameAction::Finish)
        } else {
            (FrameState::Failed, FrameAction::Fail(FrameFailure::Present { result }))
        },
        _ => (state, FrameAction::Finish),
    }
}

/// Whether `event` answers what `state` is waiting for.
pub fn accepts(state: FrameState, event: FrameEvent) -> (accepted: bool)
    ensures
        accepted == spec_accepts(state, event),
{
    match (state, event) {
        (FrameState::Start, FrameEvent::Begin) => true,
        (FrameState::WaitingForPreviousFrame, FrameEvent::PreviousFrameDone) => true,
        (FrameState::Acquiring, FrameEvent::ImageAcquired { .. }) => true,
        (FrameState::Recording { .. }, FrameEvent::CommandsRecorded { .. }) => true,
        (FrameState::Submitting { .. }, FrameEvent::Submitted { .. }) => true,
        (FrameState::Presenting { .. }, FrameEvent::Presented { .. }) => true,
        _ => false,
    }
}

/// The next state and the action to perform, given what the last action
/// came to.
pub fn frame_step(state: FrameState, event: FrameEvent) -> (next: (FrameState, FrameAction))
    requires
        spec_accepts(state, event),
    ensures
        next == spec_frame_step(state, event),
{
    match (state, event) {
        (FrameState::Start, FrameEvent::Begin) => (FrameState::WaitingForPreviousFrame, FrameAction::WaitForPreviousFrame),
        (FrameState::WaitingForPreviousFrame, FrameEvent::PreviousFrameDone) => (
            FrameState::Acquiring,
            FrameAction::AcquireImage,
        ),
        (FrameState::Acquiring, FrameEvent::ImageAcquired { result, image_index }) => {
            if frame_result_usable(result) {
                (FrameState::Recording { image_index }, FrameAction::RecordCommands { image_index })
            } else {
                (FrameState::Failed, FrameAction::Fail(FrameFailure::Acquire { result }))
            }
        },
        (FrameState::Recording { image_index }, FrameEvent::CommandsRecorded { ok }) => {
            if ok {
                (FrameState::Submitting { image_index }, FrameAction::Submit { image_index })
            } else {
                (FrameState::Failed, FrameAction::Fail(FrameFailure::Record))
            }
        },
        (FrameState::Submitting { image_index }, FrameEvent::Submitted { result }) => {
            if result == VK_SUCCESS {
                (FrameState::Presenting { image_index }, FrameAction::Present { image_index })
            } else {
                (FrameState::Failed, FrameAction::Fail(FrameFailure::Submit { result }))
            }
        },
        (FrameState::Presenting { image_index }, FrameEvent::Presented { result }) => {
            if frame_result_usable(result) {
                (FrameState::Done, FrameAction::Finish)
            } else {
                (FrameState::Failed, FrameAction::Fail(FrameFailure::Present { result }))
            }
        },
        _ => (state, FrameAction::Finish),
    }
}

/// The actions of a frame driven by `events` from `state`, one per event;
/// events past the end of the frame, or out of order, are not acted on.
pub open spec fn spec_frame_run(state: FrameState, events: Seq<FrameEvent>) -> Seq<FrameAction>
    decreases events.len(),
{
    if events.len() == 0 || !spec_accepts(state, events[0]) {
        Seq::empty()
    } else {
        let (next, action) = spec_frame_step(state, events[0]);
        seq![action] + spec_frame_run(next, events.drop_first())
    }
}

/// The events of a frame in which the backend reports, in turn, the fence,
/// an acquire with `acquired` for image `image_index`, a recording that
/// succeeded or not, a submission with `submitted` and a presentation with
/// `presented`.
pub open spec fn frame_events(
    acquired: VkEnum,
    image_index: u32,
    recorded: bool,
    submitted: VkEnum,
    presented: VkEnum,
) -> Seq<FrameEvent> {
    seq![
        FrameEvent::Begin,
        FrameEvent::PreviousFrameDone,
        FrameEvent::ImageAcquired { result: acquired, image_index },
        FrameEvent::CommandsRecorded { ok: recorded },
        FrameEvent::Submitted { result: submitted },
        FrameEvent::Presented { result: presented },
    ]
}

/// A frame draws into, submits and presents the very image it acquired, and
/// only after every earlier step succeeded: a failed acquire ends the frame
/// before anything is recorded, a failed recording before anything is
/// submitted, a failed submission before anything is presented. The frame
/// finishes exactly when every step succeeds.
pub proof fn law_frame_presents_the_acquired_image(
    acquired: VkEnum,
    image_index: u32,
    recorded: bool,
    submitted: VkEnum,
    presented: VkEnum,
)
    ensures
        ({
            let actions = spec_frame_run(
                FrameState::Start,
                frame_events(acquired, image_index, recorded, submitted, presented),
            );
            &&& actions[0] == FrameAction::WaitForPreviousFrame
            &&& actions[1] == FrameAction::AcquireImage
            &&& !is_usable_result(acquired) ==> actions == seq![
                FrameAction::WaitForPreviousFrame,
                FrameAction::AcquireImage,
                FrameAction::Fail(FrameFailure::Acquire { result: acquired }),
            ]
            &&& is_usable_result(acquired) ==> actions[2] == FrameAction::RecordCommands { image_index }
            &&& is_usable_result(acquired) && !recorded ==> actions.len() == 4 && actions[3]
                == FrameAction::Fail(FrameFailure::Record)
            &&& is_usable_result(acquired) && recorded ==> actions[3] == FrameAction::Submit { image_index }
            &&& is_usable_result(acquired) && recorded && submitted != VK_SUCCESS ==> actions.len() == 5
                && actions[4] == FrameAction::Fail(FrameFailure::Submit { result: submitted })
            &&& is_usable_result(acquired) && recorded && submitted == VK_SUCCESS ==> actions.len() == 6
                && actions[4] == FrameAction::Present { image_index }
            &&& actions.last() == FrameAction::Finish <==> is_usable_result(acquired) && recorded && submitted
                == VK_SUCCESS && is_usable_result(presented)
        }),
{
    let events = frame_events(acquired, image_index, recorded, submitted, presented);
    let e1 = events.drop_first();
    let e2 = e1.drop_first();
    let e3 = e2.drop_first();
    let e4 = e3.drop_first();
    let e5 = e4.drop_first();
    let e6 = e5.drop_first();
    assert(e6.len() == 0);
    assert(e1[0] == FrameEvent::PreviousFrameDone);
    assert(e2[0] == FrameEvent::ImageAcquired { result: acquired, image_index });
    assert(e3[0] == FrameEvent::CommandsRecorded { ok: recorded });
    assert(e4[0] == FrameEvent::Submitted { result: submitted });
    assert(e5[0] == FrameEvent::Presented { result: presented });
    reveal_with_fuel(spec_frame_run, 7);
    let r5 = spec_frame_run(FrameState::Presenting { image_index }, e5);
    let r4 = spec_frame_run(FrameState::Submitting { image_index }, e4);
    let r3 = spec_frame_run(FrameState::Recording { image_index }, e3);
    let r2 = spec_frame_run(FrameState::Acquiring, e2);
    let r1 = spec_frame_run(FrameState::WaitingForPreviousFrame, e1);
    let r0 = spec_frame_run(FrameState::Start, events);
    assert(spec_frame_run(FrameState::Done, e6) =~= Seq::<FrameAction>::empty());
    assert(spec_frame_run(FrameState::Failed, e6) =~= Seq::<FrameAction>::empty());
    assert(spec_frame_run(FrameState::Failed, e5) =~= Seq::<FrameAction>::empty());
    assert(spec_frame_run(FrameState::Failed, e4) =~= Seq::<FrameAction>::empty());
    assert(spec_frame_run(FrameState::Failed, e3) =~= Seq::<FrameAction>::empty());
    assert(r0 =~= seq![FrameAction::WaitForPreviousFrame] + r1);
    assert(r1 =~= seq![FrameAction::AcquireImage] + r2);
}

} // verus!
