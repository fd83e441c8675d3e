//! Taking one frame: the size of the frame buffer, and the order of SDK
//! calls from stopping video capture to downloading the frame.
//!
//! The calls are not made here. [`snapshot_start`] and [`snapshot_step`]
//! say which call is due next, given how the last one went; whoever
//! drives them makes the call and reports back.

use crate::camera::{CameraInfo, CameraInfoView};
use crate::error::{AsiError, SdkCall};
use vstd::prelude::*;
use vstd::string::StringExecFns;

verus! {

/// A frame as the camera delivered it.
#[derive(Debug)]
pub struct AsiImage {
    pub image_data: Vec<u8>,
}

impl View for AsiImage {
    type V = Seq<u8>;

    /// The bytes of the frame.
    open spec fn view(&self) -> Seq<u8> {
        self.image_data@
    }
}

/// How many bytes one pixel takes in a frame: three for a colour camera,
/// else one up to a depth of 8 bits and two above it.
pub open spec fn bytes_per_pixel(info: CameraInfoView) -> nat {
    if info.is_color_cam {
        3
    } else if info.bit_depth <= 8 {
        1
    } else {
        2
    }
}

/// How many bytes a full frame of the camera takes.
pub open spec fn spec_buffer_size(info: CameraInfoView) -> nat {
    bytes_per_pixel(info) * info.max_width * info.max_height
}

/// The size in bytes of the buffer for a full frame of the camera, or
/// `None` where that size is more than 32 bits hold.
pub fn buffer_size(info: &CameraInfo) -> (size: Option<usize>)
    ensures
        size is Some <==> spec_buffer_size(info@) <= u32::MAX,
        size matches Some(n) ==> n == spec_buffer_size(info@),
{
    let per_pixel: u64 = if info.is_color_cam {
        3
    } else if info.bit_depth <= 8 {
        1
    } else {
        2
    };
    let width: u64 = info.max_width as u64;
    let height: u64 = info.max_height as u64;
    assert(width * height <= 0xffff_ffff * 0xffff_ffff) by (nonlinear_arith)
        requires
            width <= 0xffff_ffff,
            height <= 0xffff_ffff,
    ;
    let area: u64 = width * height;
    assert(per_pixel * width * height == per_pixel * area) by (nonlinear_arith)
        requires
            area == width * height,
    ;
    if area > 0xffff_ffff {
        assert(per_pixel * area >= area) by (nonlinear_arith)
            requires
                per_pixel >= 1,
        ;
        return None;
    }
    assert(per_pixel * area <= 3 * 0xffff_ffff) by (nonlinear_arith)
        requires
            per_pixel <= 3,
            area <= 0xffff_ffff,
    ;
    let total: u64 = per_pixel * area;
    if total > 0xffff_ffff {
        None
    } else {
        Some(total as usize)
    }
}

/// What the SDK reports of an exposure in progress.
#[derive(Debug, Clone, Copy, PartialEq, Eq, Structural)]
pub enum ExposureStatus {
    Idle,
    Working,
    Success,
    Failed,
}

impl ExposureStatus {
    /// The status that the SDK numbers `raw`, if it numbers one so.
    pub open spec fn spec_from_raw(raw: int) -> Option<ExposureStatus> {
        if raw == 0 {
            Some(ExposureStatus::Idle)
        } else if raw == 1 {
            Some(ExposureStatus::Working)
        } else if raw == 2 {
            Some(ExposureStatus::Success)
        } else if raw == 3 {
            Some(ExposureStatus::Failed)
        } else {
            None
        }
    }

    /// The number that the SDK gives this status.
    pub open spec fn spec_raw(self) -> int {
        match self {
            ExposureStatus::Idle => 0,
            ExposureStatus::Working => 1,
            ExposureStatus::Success => 2,
            ExposureStatus::Failed => 3,
        }
    }

    /// Reads the SDK's number of an exposure status.
    pub fn from_raw(raw: i32) -> (status: Option<ExposureStatus>)
        ensures
            status == Self::spec_from_raw(raw as int),
    {
        match raw {
            0 => Some(ExposureStatus::Idle),
            1 => Some(ExposureStatus::Working),
            2 => Some(ExposureStatus::Success),
            3 => Some(ExposureStatus::Failed),
            _ => None,
        }
    }
}

/// The pause before each query of the exposure status, in milliseconds.
pub const POLL_INTERVAL_MS: u64 = 10;

/// Where a snapshot stands: which call's outcome is awaited.
#[derive(Debug, Clone, Copy, PartialEq, Eq, Structural)]
pub enum SnapshotState {
    /// Video capture is being stopped.
    StoppingVideo,
    /// The exposure is being started.
    StartingExposure,
    /// The exposure runs and its status is being queried.
    Exposing,
    /// The frame is being downloaded.
    Downloading,
    /// The snapshot is over.
    Finished,
}

/// The call that is due next in a snapshot, with its arguments, or the
/// snapshot's result.
#[derive(Debug)]
pub enum SnapshotAction {
    /// Stop video capture.
    StopVideoCapture { camera_id: i32 },
    /// Start an exposure, of a dark frame or not.
    StartExposure { camera_id: i32, is_dark: bool },
    /// Wait for `delay_ms` milliseconds, then query the exposure status.
    PollStatus { camera_id: i32, delay_ms: u64 },
    /// Download the frame into `buffer`.
    Download { camera_id: i32, buffer: Vec<u8> },
    /// Make no further call: the snapshot ended with this result.
    Finish(Result<AsiImage, AsiError>),
}

/// A [`SnapshotAction`] as a mathematical value.
pub enum SnapshotActionView {
    StopVideoCapture { camera_id: int },
    StartExposure { camera_id: int, is_dark: bool },
    PollStatus { camera_id: int, delay_ms: nat },
    Download { camera_id: int, buffer: Seq<u8> },
    Finish(Result<Seq<u8>, Seq<char>>),
}

impl View for SnapshotAction {
    type V = SnapshotActionView;

    open spec fn view(&self) -> SnapshotActionView {
        match self {
            SnapshotAction::StopVideoCapture { camera_id } => SnapshotActionView::StopVideoCapture {
                camera_id: *camera_id as int,
            },
            SnapshotAction::StartExposure { camera_id, is_dark } => {
                SnapshotActionView::StartExposure { camera_id: *camera_id as int, is_dark: *is_dark }
            },
            SnapshotAction::PollStatus { camera_id, delay_ms } => SnapshotActionView::PollStatus {
                camera_id: *camera_id as int,
                delay_ms: *delay_ms as nat,
            },
            SnapshotAction::Download { camera_id, buffer } => SnapshotActionView::Download {
                camera_id: *camera_id as int,
                buffer: buffer@,
            },
            SnapshotAction::Finish(Ok(image)) => SnapshotActionView::Finish(Ok(image@)),
            SnapshotAction::Finish(Err(e)) => SnapshotActionView::Finish(Err(e@)),
        }
    }
}

/// How a call of a snapshot went.
#[derive(Debug)]
pub enum SnapshotEvent {
    /// Stopping video capture, or starting the exposure, returned this code.
    Returned { return_code: i32 },
    /// The status query returned this code and reported this status.
    Status { return_code: i32, status: i32 },
    /// The download returned this code and left the buffer so.
    Data { return_code: i32, buffer: Vec<u8> },
}

/// A [`SnapshotEvent`] as a mathematical value.
pub enum SnapshotEventView {
    Returned { return_code: int },
    Status { return_code: int, status: int },
    Data { return_code: int, buffer: Seq<u8> },
}

impl View for SnapshotEvent {
    type V = SnapshotEventView;

    open spec fn view(&self) -> SnapshotEventView {
        match self {
            SnapshotEvent::Returned { return_code } => SnapshotEventView::Returned {
                return_code: *return_code as int,
            },
            SnapshotEvent::Status { return_code, status } => SnapshotEventView::Status {
                return_code: *return_code as int,
                status: *status as int,
            },
            SnapshotEvent::Data { return_code, buffer } => SnapshotEventView::Data {
                return_code: *return_code as int,
                buffer: buffer@,
            },
        }
    }
}

/// A snapshot's state and the action due in it.
pub type SnapshotStep = (SnapshotState, SnapshotActionView);

/// How a snapshot begins: by stopping video capture.
pub open spec fn spec_snapshot_start(info: CameraInfoView) -> SnapshotStep {
    (
        SnapshotState::StoppingVideo,
        SnapshotActionView::StopVideoCapture { camera_id: info.camera_id },
    )
}

/// The end of a snapshot on the failure of `call` with return code `code`.
pub open spec fn failed_call(call: SdkCall, code: int) -> SnapshotStep {
    (SnapshotState::Finished, SnapshotActionView::Finish(Err(call.failure_text(code))))
}

/// The end of a snapshot on an exposure that did not succeed.
pub open spec fn failed_exposure(text: Seq<char>) -> SnapshotStep {
    (SnapshotState::Finished, SnapshotActionView::Finish(Err(text)))
}

/// The status query, after the pause that precedes it.
pub open spec fn poll(info: CameraInfoView) -> SnapshotStep {
    (
        SnapshotState::Exposing,
        SnapshotActionView::PollStatus {
            camera_id: info.camera_id,
            delay_ms: POLL_INTERVAL_MS as nat,
        },
    )
}

/// A buffer of `len` zero bytes.
pub open spec fn zeroed(len: nat) -> Seq<u8> {
    Seq::new(len, |i: int| 0u8)
}

/// How a snapshot goes on from `state` when the call that was due went as
/// `event` says.
///
/// A call that returns a code other than zero ends the snapshot with that
/// call's failure. After video capture has stopped the exposure is
/// started, not as a dark frame; after that the status is queried until it
/// is no longer `Working`. On `Success` the frame is downloaded into a
/// zeroed buffer of the camera's frame size, and the buffer as the download
/// left it is the snapshot's result. `Failed` and `Idle` end the snapshot
/// with an error.
///
/// There is no going on, and the result is the complaint, where the status
/// is none that the SDK defines, where the frame size is more than 32 bits
/// hold, and where the event is not the outcome of the call that was due.
pub open spec fn spec_snapshot_step(
    info: CameraInfoView,
    state: SnapshotState,
    event: SnapshotEventView,
) -> Result<SnapshotStep, Seq<char>> {
    match (state, event) {
        (SnapshotState::StoppingVideo, SnapshotEventView::Returned { return_code }) => {
            if return_code != 0 {
                Ok(failed_call(SdkCall::StopVideoCapture, return_code))
            } else {
                Ok(
                    (
                        SnapshotState::StartingExposure,
                        SnapshotActionView::StartExposure {
                            camera_id: info.camera_id,
                            is_dark: false,
                        },
                    ),
                )
            }
        },
        (SnapshotState::StartingExposure, SnapshotEventView::Returned { return_code }) => {
            if return_code != 0 {
                Ok(failed_call(SdkCall::StartExposure, return_code))
            } else {
                Ok(poll(info))
            }
        },
        (SnapshotState::Exposing, SnapshotEventView::Status { return_code, status }) => {
            if return_code != 0 {
                Ok(failed_call(SdkCall::GetExpStatus, return_code))
            } else {
                match ExposureStatus::spec_from_raw(status) {
                    Some(ExposureStatus::Working) => Ok(poll(info)),
                    Some(ExposureStatus::Success) => {
                        if spec_buffer_size(info) <= u32::MAX {
                            Ok(
                                (
                                    SnapshotState::Downloading,
                                    SnapshotActionView::Download {
                                        camera_id: info.camera_id,
                                        buffer: zeroed(spec_buffer_size(info)),
                                    },
                                ),
                            )
                        } else {
                            Err("Frame size does not fit into u32"@)
                        }
                    },
                    Some(ExposureStatus::Failed) => Ok(failed_exposure("Exposure failed"@)),
                    Some(ExposureStatus::Idle) => Ok(
                        failed_exposure("Camera unexpectedly idle during exposure"@),
                    ),
                    None => Err("Unexpected return code from ASIGetExpStatus"@),
                }
            }
        },
        (SnapshotState::Downloading, SnapshotEventView::Data { return_code, buffer }) => {
            if return_code != 0 {
                Ok(failed_call(SdkCall::GetDataAfterExp, return_code))
            } else {
                Ok((SnapshotState::Finished, SnapshotActionView::Finish(Ok(buffer))))
            }
        },
        _ => Err("Event does not answer the call that was due"@),
    }
}

/// Begins a snapshot with the camera `info` describes.
pub fn snapshot_start(info: &CameraInfo) -> (step: (SnapshotState, SnapshotAction))
    ensures
        (step.0, step.1@) == spec_snapshot_start(info@),
{
    (SnapshotState::StoppingVideo, SnapshotAction::StopVideoCapture { camera_id: info.camera_id })
}

fn fail_call(call: SdkCall, code: i32) -> (step: (SnapshotState, SnapshotAction))
    ensures
        (step.0, step.1@) == failed_call(call, code as int),
{
    (
        SnapshotState::Finished,
        SnapshotAction::Finish(Err(AsiError::GenericError(call.failure_message(code)))),
    )
}

fn fail_exposure(text: &str) -> (step: (SnapshotState, SnapshotAction))
    ensures
        (step.0, step.1@) == failed_exposure(text@),
{
    (
        SnapshotState::Finished,
        SnapshotAction::Finish(Err(AsiError::GenericError(String::from_str(text)))),
    )
}

fn poll_status(info: &CameraInfo) -> (step: (SnapshotState, SnapshotAction))
    ensures
        (step.0, step.1@) == poll(info@),
{
    (
        SnapshotState::Exposing,
        SnapshotAction::PollStatus { camera_id: info.camera_id, delay_ms: POLL_INTERVAL_MS },
    )
}

fn refuse(text: &str) -> (e: AsiError)
    ensures
        e@ == text@,
{
    AsiError::GenericError(String::from_str(text))
}

/// Takes a snapshot one call further: given the state and how the call due
/// in it went, says what is due next. See [`spec_snapshot_step`].
pub fn snapshot_step(info: &CameraInfo, state: SnapshotState, event: SnapshotEvent) -> (r: Result<
    (SnapshotState, SnapshotAction),
    AsiError,
>)
    ensures
        match spec_snapshot_step(info@, state, event@) {
            Ok(next) => r matches Ok(step) && (step.0, step.1@) == next,
            Err(text) => r matches Err(e) && e@ == text,
        },
{
    match (state, event) {
        (SnapshotState::StoppingVideo, SnapshotEvent::Returned { return_code }) => {
            if return_code != 0 {
                Ok(fail_call(SdkCall::StopVideoCapture, return_code))
            } else {
                Ok(
                    (
                        SnapshotState::StartingExposure,
                        SnapshotAction::StartExposure { camera_id: info.camera_id, is_dark: false },
                    ),
                )
            }
        },
        (SnapshotState::StartingExposure, SnapshotEvent::Returned { return_code }) => {
            if return_code != 0 {
                Ok(fail_call(SdkCall::StartExposure, return_code))
            } else {
                Ok(poll_status(info))
            }
        },
        (SnapshotState::Exposing, SnapshotEvent::Status { return_code, status }) => {
            if return_code != 0 {
                Ok(fail_call(SdkCall::GetExpStatus, return_code))
            } else {
                match ExposureStatus::from_raw(status) {
                    Some(ExposureStatus::Working) => Ok(poll_status(info)),
                    Some(ExposureStatus::Success) => match buffer_size(info) {
                        Some(size) => {
                            let buffer: Vec<u8> = vec![0u8; size];
                            assert(buffer@ =~= zeroed(spec_buffer_size(info@)));
                            Ok(
                                (
                                    SnapshotState::Downloading,
                                    SnapshotAction::Download { camera_id: info.camera_id, buffer },
                                ),
                            )
                        },
                        None => Err(refuse("Frame size does not fit into u32")),
                    },
                    Some(ExposureStatus::Failed) => Ok(fail_exposure("Exposure failed")),
                    Some(ExposureStatus::Idle) => Ok(
                        fail_exposure("Camera unexpectedly idle during exposure"),
                    ),
                    None => Err(refuse("Unexpected return code from ASIGetExpStatus")),
                }
            }
        },
        (SnapshotState::Downloading, SnapshotEvent::Data { return_code, buffer }) => {
            if return_code != 0 {
                Ok(fail_call(SdkCall::GetDataAfterExp, return_code))
            } else {
                Ok(
                    (
                        SnapshotState::Finished,
                        SnapshotAction::Finish(Ok(AsiImage { image_data: buffer })),
                    ),
                )
            }
        },
        _ => Err(refuse("Event does not answer the call that was due")),
    }
}

} // verus!
