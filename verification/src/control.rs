//! Camera controls: gain, exposure time and the like, each with its current
//! value and what may be done with it.

use crate::text::{decode_name, spec_decode_name};
use vstd::prelude::*;

verus! {

/// One control of a camera, with the value it had when it was read.
#[derive(Debug)]
pub struct CameraControl {
    pub name: String,
    pub control_index: i32,
    pub value: i64,
    pub can_auto_adjust: bool,
    pub is_auto_adjusted: bool,
    pub is_writable: bool,
}

/// A [`CameraControl`] as a mathematical value.
pub struct CameraControlView {
    pub name: Seq<char>,
    pub control_index: int,
    pub value: int,
    pub can_auto_adjust: bool,
    pub is_auto_adjusted: bool,
    pub is_writable: bool,
}

impl View for CameraControl {
    type V = CameraControlView;

    open spec fn view(&self) -> CameraControlView {
        CameraControlView {
            name: self.name@,
            control_index: self.control_index as int,
            value: self.value as int,
            can_auto_adjust: self.can_auto_adjust,
            is_auto_adjusted: self.is_auto_adjusted,
            is_writable: self.is_writable,
        }
    }
}

/// What the SDK reports of one control: the fields of its capability record
/// that the binding reads, and the answer to the query for its value.
#[derive(Debug)]
pub struct RawControl {
    /// The capability record's name, with its padding.
    pub name: Vec<u8>,
    /// The capability record's flag for automatic adjustment.
    pub is_auto_supported: i32,
    /// The capability record's flag for writing.
    pub is_writable: i32,
    /// The control's current value.
    pub value: i64,
    /// Whether the value is being adjusted automatically, as a number.
    pub auto: i32,
}

/// A [`RawControl`] as a mathematical value.
pub struct RawControlView {
    pub name: Seq<u8>,
    pub is_auto_supported: int,
    pub is_writable: int,
    pub value: int,
    pub auto: int,
}

impl View for RawControl {
    type V = RawControlView;

    open spec fn view(&self) -> RawControlView {
        RawControlView {
            name: self.name@,
            is_auto_supported: self.is_auto_supported as int,
            is_writable: self.is_writable as int,
            value: self.value as int,
            auto: self.auto as int,
        }
    }
}

/// The control that stands at place `index` of a camera's list and of which
/// the SDK reported `raw`. A flag is set where its number is positive.
pub open spec fn spec_decode_control(index: int, raw: RawControlView) -> CameraControlView {
    CameraControlView {
        name: spec_decode_name(raw.name),
        control_index: index,
        value: raw.value,
        can_auto_adjust: raw.is_auto_supported > 0,
        is_auto_adjusted: raw.auto > 0,
        is_writable: raw.is_writable > 0,
    }
}

/// Decodes what the SDK reported of the control at place `index`.
pub fn decode_control(index: i32, raw: &RawControl) -> (control: CameraControl)
    ensures
        control@ == spec_decode_control(index as int, raw@),
{
    CameraControl {
        name: decode_name(raw.name.as_slice()),
        control_index: index,
        value: raw.value,
        can_auto_adjust: raw.is_auto_supported > 0,
        is_auto_adjusted: raw.auto > 0,
        is_writable: raw.is_writable > 0,
    }
}

/// Decodes the reports of all controls of a camera, given in the order of
/// their places: the control at place `i` of the result has index `i` and
/// comes from the report at place `i`.
pub fn decode_controls(raw: &Vec<RawControl>) -> (controls: Vec<CameraControl>)
    requires
        raw.len() <= i32::MAX,
    ensures
        controls.len() == raw.len(),
        forall|i: int|
            0 <= i < raw.len() ==> (#[trigger] controls[i])@ == spec_decode_control(i, raw[i]@),
{
    let mut controls: Vec<CameraControl> = Vec::with_capacity(raw.len());
    let mut i: usize = 0;
    while i < raw.len()
        invariant
            raw.len() <= i32::MAX,
            i <= raw.len(),
            controls.len() == i,
            forall|j: int|
                0 <= j < i ==> (#[trigger] controls[j])@ == spec_decode_control(j, raw[j]@),
        decreases raw.len() - i,
    {
        controls.push(decode_control(i as i32, &raw[i]));
        i += 1;
    }
    controls
}

} // verus!
