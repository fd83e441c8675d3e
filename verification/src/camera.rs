//! Camera descriptors: the record as the SDK fills it in, and what the
//! binding makes of it.

use crate::error::{check_return_code, AsiError, SdkCall};
use crate::text::{decode_name, spec_decode_name};
use vstd::prelude::*;
use vstd::string::StringExecFns;

verus! {

/// The colour filter layout of a sensor, named by the colours of the first
/// two pixels of its first row.
#[derive(Debug, Clone, Copy, PartialEq, Eq, Structural)]
pub enum BayerPattern {
    RG,
    BG,
    GR,
    GB,
}

impl BayerPattern {
    /// The pattern that the SDK numbers `raw`, if it numbers one so.
    pub open spec fn spec_from_raw(raw: int) -> Option<BayerPattern> {
        if raw == 0 {
            Some(BayerPattern::RG)
        } else if raw == 1 {
            Some(BayerPattern::BG)
        } else if raw == 2 {
            Some(BayerPattern::GR)
        } else if raw == 3 {
            Some(BayerPattern::GB)
        } else {
            None
        }
    }

    /// Reads the SDK's number of a Bayer pattern.
    pub fn from_raw(raw: i32) -> (pattern: Option<BayerPattern>)
        ensures
            pattern == Self::spec_from_raw(raw as int),
    {
        match raw {
            0 => Some(BayerPattern::RG),
            1 => Some(BayerPattern::BG),
            2 => Some(BayerPattern::GR),
            3 => Some(BayerPattern::GB),
            _ => None,
        }
    }
}

/// The truth value that the SDK writes as `raw`: 0 is false, 1 is true, and
/// no other number is a truth value.
pub open spec fn spec_bool_from_raw(raw: int) -> Option<bool> {
    if raw == 0 {
        Some(false)
    } else if raw == 1 {
        Some(true)
    } else {
        None
    }
}

/// Reads a truth value of the SDK.
pub fn bool_from_raw(raw: i32) -> (value: Option<bool>)
    ensures
        value == spec_bool_from_raw(raw as int),
{
    match raw {
        0 => Some(false),
        1 => Some(true),
        _ => None,
    }
}

/// What the binding knows of a camera.
#[derive(Debug)]
pub struct CameraInfo {
    pub name: String,
    pub camera_id: i32,
    pub max_height: u32,
    pub max_width: u32,
    pub is_color_cam: bool,
    pub bayer_pattern: BayerPattern,
    pub bit_depth: u32,
    pub is_trigger_cam: bool,
}

/// A [`CameraInfo`] as a mathematical value.
pub struct CameraInfoView {
    pub name: Seq<char>,
    pub camera_id: int,
    pub max_height: nat,
    pub max_width: nat,
    pub is_color_cam: bool,
    pub bayer_pattern: BayerPattern,
    pub bit_depth: nat,
    pub is_trigger_cam: bool,
}

impl View for CameraInfo {
    type V = CameraInfoView;

    open spec fn view(&self) -> CameraInfoView {
        CameraInfoView {
            name: self.name@,
            camera_id: self.camera_id as int,
            max_height: self.max_height as nat,
            max_width: self.max_width as nat,
            is_color_cam: self.is_color_cam,
            bayer_pattern: self.bayer_pattern,
            bit_depth: self.bit_depth as nat,
            is_trigger_cam: self.is_trigger_cam,
        }
    }
}

/// The fields of the SDK's camera record that the binding reads, as the SDK
/// wrote them: the name with its padding, sizes as signed numbers, truth
/// values and the Bayer pattern as numbers.
#[derive(Debug)]
pub struct RawCameraInfo {
    pub name: Vec<u8>,
    pub camera_id: i32,
    pub max_height: i64,
    pub max_width: i64,
    pub is_color_cam: i32,
    pub bayer_pattern: i32,
    pub bit_depth: i32,
    pub is_trigger_cam: i32,
}

/// A [`RawCameraInfo`] as a mathematical value.
pub struct RawCameraInfoView {
    pub name: Seq<u8>,
    pub camera_id: int,
    pub max_height: int,
    pub max_width: int,
    pub is_color_cam: int,
    pub bayer_pattern: int,
    pub bit_depth: int,
    pub is_trigger_cam: int,
}

impl View for RawCameraInfo {
    type V = RawCameraInfoView;

    open spec fn view(&self) -> RawCameraInfoView {
        RawCameraInfoView {
            name: self.name@,
            camera_id: self.camera_id as int,
            max_height: self.max_height as int,
            max_width: self.max_width as int,
            is_color_cam: self.is_color_cam as int,
            bayer_pattern: self.bayer_pattern as int,
            bit_depth: self.bit_depth as int,
            is_trigger_cam: self.is_trigger_cam as int,
        }
    }
}

/// Whether `value` can be held in 32 bits without a sign.
pub open spec fn fits_u32(value: int) -> bool {
    0 <= value <= u32::MAX
}

/// What a raw camera record decodes to: the camera's description, or the
/// complaint about the first field, in the record's order, that has no
/// meaning.
pub open spec fn spec_decode_camera_info(raw: RawCameraInfoView) -> Result<
    CameraInfoView,
    Seq<char>,
> {
    if !fits_u32(raw.max_height) {
        Err("Could not fit image max height into u32"@)
    } else if !fits_u32(raw.max_width) {
        Err("Could not fit image max width into u32"@)
    } else if spec_bool_from_raw(raw.is_color_cam) is None {
        Err("Unrecognized boolean value"@)
    } else if BayerPattern::spec_from_raw(raw.bayer_pattern) is None {
        Err("Unrecognized bayer pattern"@)
    } else if !fits_u32(raw.bit_depth) {
        Err("Could not fit bit depth into u32"@)
    } else if spec_bool_from_raw(raw.is_trigger_cam) is None {
        Err("Unrecognized boolean value"@)
    } else {
        Ok(
            CameraInfoView {
                name: spec_decode_name(raw.name),
                camera_id: raw.camera_id,
                max_height: raw.max_height as nat,
                max_width: raw.max_width as nat,
                is_color_cam: spec_bool_from_raw(raw.is_color_cam)->0,
                bayer_pattern: BayerPattern::spec_from_raw(raw.bayer_pattern)->0,
                bit_depth: raw.bit_depth as nat,
                is_trigger_cam: spec_bool_from_raw(raw.is_trigger_cam)->0,
            },
        )
    }
}

fn complaint(text: &str) -> (e: AsiError)
    ensures
        e@ == text@,
{
    AsiError::GenericError(String::from_str(text))
}

/// Decodes the camera record that the SDK filled in.
///
/// A record with a field that has no meaning is refused, with the
/// complaint about the first such field.
pub fn decode_camera_info(raw: &RawCameraInfo) -> (r: Result<CameraInfo, AsiError>)
    ensures
        match spec_decode_camera_info(raw@) {
            Ok(info) => r matches Ok(decoded) && decoded@ == info,
            Err(text) => r matches Err(e) && e@ == text,
        },
{
    if raw.max_height < 0 || raw.max_height > 0xffff_ffff {
        return Err(complaint("Could not fit image max height into u32"));
    }
    if raw.max_width < 0 || raw.max_width > 0xffff_ffff {
        return Err(complaint("Could not fit image max width into u32"));
    }
    let is_color_cam: bool = match bool_from_raw(raw.is_color_cam) {
        Some(value) => value,
        None => {
            return Err(complaint("Unrecognized boolean value"));
        },
    };
    let bayer_pattern: BayerPattern = match BayerPattern::from_raw(raw.bayer_pattern) {
        Some(pattern) => pattern,
        None => {
            return Err(complaint("Unrecognized bayer pattern"));
        },
    };
    if raw.bit_depth < 0 {
        return Err(complaint("Could not fit bit depth into u32"));
    }
    let is_trigger_cam: bool = match bool_from_raw(raw.is_trigger_cam) {
        Some(value) => value,
        None => {
            return Err(complaint("Unrecognized boolean value"));
        },
    };
    Ok(
        CameraInfo {
            name: decode_name(raw.name.as_slice()),
            camera_id: raw.camera_id,
            max_height: raw.max_height as u32,
            max_width: raw.max_width as u32,
            is_color_cam,
            bayer_pattern,
            bit_depth: raw.bit_depth as u32,
            is_trigger_cam,
        },
    )
}

/// What the query for a camera's properties yields, given the code that
/// the SDK returned and the record as the call left it: the failure of the
/// call where the code is not zero, else what the record decodes to.
pub open spec fn spec_camera_property(return_code: int, raw: RawCameraInfoView) -> Result<
    CameraInfoView,
    Seq<char>,
> {
    if return_code != 0 {
        Err(SdkCall::GetCameraProperty.failure_text(return_code))
    } else {
        spec_decode_camera_info(raw)
    }
}

/// Judges the outcome of the query for a camera's properties: the return
/// code first, then the record.
pub fn camera_property(return_code: i32, raw: &RawCameraInfo) -> (r: Result<CameraInfo, AsiError>)
    ensures
        match spec_camera_property(return_code as int, raw@) {
            Ok(info) => r matches Ok(decoded) && decoded@ == info,
            Err(text) => r matches Err(e) && e@ == text,
        },
{
    match check_return_code(SdkCall::GetCameraProperty, return_code) {
        Ok(()) => decode_camera_info(raw),
        Err(e) => Err(e),
    }
}

} // verus!
