//! Safe, verified core of a binding to the ZWO ASI camera SDK.
//!
//! The SDK hands back flat C records and integer codes. This crate holds
//! everything that is decided from those values: how a camera or control
//! record is decoded, which message a failed call produces, how large the
//! frame buffer of a camera is, and the order of calls that make up one
//! exposure. The calls themselves are made by the program around it.

pub mod camera;
pub mod control;
pub mod error;
pub mod exposure;
pub mod text;
pub mod trace;

pub use camera::{
    bool_from_raw, camera_property, decode_camera_info, BayerPattern, CameraInfo, RawCameraInfo,
};
pub use control::{decode_control, decode_controls, CameraControl, RawControl};
pub use error::{check_return_code, AsiError, SdkCall};
pub use exposure::{
    buffer_size, snapshot_start, snapshot_step, AsiImage, ExposureStatus, SnapshotAction,
    SnapshotEvent, SnapshotState, POLL_INTERVAL_MS,
};
pub use text::{decimal, decode_name, strip_nul};
