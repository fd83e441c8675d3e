//! Whole snapshots: what a sequence of call outcomes leads to, and which
//! sequences lead to a frame.

use crate::camera::CameraInfoView;
use crate::exposure::{
    poll, spec_buffer_size, spec_snapshot_start, spec_snapshot_step, zeroed, ExposureStatus,
    SnapshotActionView, SnapshotEventView, SnapshotState, SnapshotStep,
};
use vstd::prelude::*;

verus! {

/// Where a snapshot stands after the calls made so far went as `events`
/// say, the first call first: the state and the action due, or the
/// complaint at which it could not go on.
pub open spec fn spec_snapshot_run(info: CameraInfoView, events: Seq<SnapshotEventView>) -> Result<
    SnapshotStep,
    Seq<char>,
>
    decreases events.len(),
{
    if events.len() == 0 {
        Ok(spec_snapshot_start(info))
    } else {
        match spec_snapshot_run(info, events.drop_last()) {
            Ok((state, _)) => spec_snapshot_step(info, state, events.last()),
            Err(text) => Err(text),
        }
    }
}

/// A call that returned zero.
pub open spec fn returned_ok() -> SnapshotEventView {
    SnapshotEventView::Returned { return_code: 0 }
}

/// A status query that returned zero and reported `status`.
pub open spec fn reported(status: ExposureStatus) -> SnapshotEventView {
    SnapshotEventView::Status { return_code: 0, status: status.spec_raw() }
}

/// The outcomes that start an exposure and find it at work ever since: two
/// calls that returned zero, then status queries that all reported
/// `Working`.
pub open spec fn exposing_calls(events: Seq<SnapshotEventView>) -> bool {
    &&& events.len() >= 2
    &&& events[0] == returned_ok()
    &&& events[1] == returned_ok()
    &&& forall|i: int| 2 <= i < events.len() ==> events[i] == reported(ExposureStatus::Working)
}

/// The outcomes of a snapshot that delivers `image`: those of
/// [`exposing_calls`], then a status query that reported `Success`, then a
/// download that returned zero and left `image` in the buffer.
pub open spec fn successful_calls(events: Seq<SnapshotEventView>, image: Seq<u8>) -> bool {
    &&& events.len() >= 4
    &&& exposing_calls(events.take(events.len() - 2))
    &&& events[events.len() - 2] == reported(ExposureStatus::Success)
    &&& events[events.len() - 1] == SnapshotEventView::Data { return_code: 0, buffer: image }
}

/// What is known of the outcomes so far from the state that they led to.
spec fn led_by(info: CameraInfoView, events: Seq<SnapshotEventView>, step: SnapshotStep) -> bool {
    match step.0 {
        SnapshotState::StoppingVideo => events.len() == 0,
        SnapshotState::StartingExposure => events.len() == 1 && events[0] == returned_ok(),
        SnapshotState::Exposing => exposing_calls(events),
        SnapshotState::Downloading => {
            &&& events.len() >= 3
            &&& exposing_calls(events.drop_last())
            &&& events.last() == reported(ExposureStatus::Success)
            &&& spec_buffer_size(info) <= u32::MAX
            &&& step.1 == SnapshotActionView::Download {
                camera_id: info.camera_id,
                buffer: zeroed(spec_buffer_size(info)),
            }
        },
        SnapshotState::Finished => {
            &&& step.1 is Finish
            &&& step.1 matches SnapshotActionView::Finish(Ok(image)) ==> successful_calls(
                events,
                image,
            ) && spec_buffer_size(info) <= u32::MAX
        },
    }
}

proof fn lemma_led_by(info: CameraInfoView, events: Seq<SnapshotEventView>)
    ensures
        spec_snapshot_run(info, events) matches Ok(step) ==> led_by(info, events, step),
    decreases events.len(),
{
    if events.len() > 0 {
        let before = events.drop_last();
        lemma_led_by(info, before);
        if let Ok(earlier) = spec_snapshot_run(info, before) {
            if let Ok(step) = spec_snapshot_step(info, earlier.0, events.last()) {
                assert(spec_snapshot_run(info, events) == Ok::<SnapshotStep, Seq<char>>(step));
                if earlier.0 == SnapshotState::Exposing {
                    assert forall|i: int| 2 <= i < before.len() implies events[i] == reported(
                        ExposureStatus::Working,
                    ) by {
                        assert(events[i] == before[i]);
                    }
                }
                if earlier.0 == SnapshotState::Downloading {
                    assert(events.take(events.len() - 2) == before.drop_last());
                }
            }
        }
    }
}

proof fn lemma_exposing(info: CameraInfoView, events: Seq<SnapshotEventView>)
    requires
        exposing_calls(events),
    ensures
        spec_snapshot_run(info, events) == Ok::<SnapshotStep, Seq<char>>(poll(info)),
    decreases events.len(),
{
    let before = events.drop_last();
    if events.len() == 2 {
        let first = before.drop_last();
        assert(first.len() == 0);
        assert(spec_snapshot_run(info, first) == Ok::<SnapshotStep, Seq<char>>(
            spec_snapshot_start(info),
        ));
        assert(before.last() == returned_ok());
        assert(spec_snapshot_run(info, before) matches Ok(step) && step.0
            == SnapshotState::StartingExposure);
    } else {
        lemma_exposing(info, before);
    }
}

/// A snapshot ends with a frame exactly when every call returned zero, the
/// exposure was reported at work until it was reported a success, and the
/// frame size fits; the frame is then what the download left in the
/// buffer.
pub proof fn lemma_snapshot_delivers(
    info: CameraInfoView,
    events: Seq<SnapshotEventView>,
    image: Seq<u8>,
)
    ensures
        (spec_snapshot_run(info, events) matches Ok(step) && step.1 == SnapshotActionView::Finish(
            Ok(image),
        )) <==> (successful_calls(events, image) && spec_buffer_size(info) <= u32::MAX),
{
    lemma_led_by(info, events);
    if successful_calls(events, image) && spec_buffer_size(info) <= u32::MAX {
        let before = events.drop_last();
        let exposing = before.drop_last();
        assert(exposing == events.take(events.len() - 2));
        lemma_exposing(info, exposing);
        assert(before.last() == reported(ExposureStatus::Success));
        assert(spec_snapshot_run(info, before) matches Ok(step) && step.0
            == SnapshotState::Downloading);
    }
}

/// The download is asked for only after the exposure was reported a
/// success, and then into a zeroed buffer of the camera's frame size.
pub proof fn lemma_download_follows_success(
    info: CameraInfoView,
    events: Seq<SnapshotEventView>,
)
    requires
        spec_snapshot_run(info, events) matches Ok(step) && step.1 is Download,
    ensures
        events.len() >= 3,
        exposing_calls(events.drop_last()),
        events.last() == reported(ExposureStatus::Success),
        spec_snapshot_run(info, events) matches Ok(step) && step.1
            == (SnapshotActionView::Download {
            camera_id: info.camera_id,
            buffer: zeroed(spec_buffer_size(info)),
        }),
{
    lemma_led_by(info, events);
    lemma_state_of_action(info, events);
}

/// The action due tells the state: each state but the last has its own
/// action, and the last has the result.
proof fn lemma_state_of_action(info: CameraInfoView, events: Seq<SnapshotEventView>)
    ensures
        spec_snapshot_run(info, events) matches Ok(step) ==> {
            &&& step.1 is StopVideoCapture <==> step.0 == SnapshotState::StoppingVideo
            &&& step.1 is StartExposure <==> step.0 == SnapshotState::StartingExposure
            &&& step.1 is PollStatus <==> step.0 == SnapshotState::Exposing
            &&& step.1 is Download <==> step.0 == SnapshotState::Downloading
            &&& step.1 is Finish <==> step.0 == SnapshotState::Finished
        },
{
    if events.len() > 0 {
        let before = events.drop_last();
        if let Ok(earlier) = spec_snapshot_run(info, before) {
            assert(spec_snapshot_run(info, events) == spec_snapshot_step(
                info,
                earlier.0,
                events.last(),
            ));
        }
    }
}

} // verus!
