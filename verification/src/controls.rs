//! The decisions of the device controls: what exposure is reported, which
//! trigger configurations are accepted and what state is exported.

use crate::camera::{CameraError, TriggerConfig, TriggerMode};
use vstd::prelude::*;

verus! {

/// The exposure, in microseconds, reported when the device does not say.
pub const DEFAULT_EXPOSURE_US: u32 = 10000;

/// The low 32 bits of an attribute value, as the controls report it.
pub open spec fn attribute_low_bits(value: u64) -> u32 {
    (value % 0x1_0000_0000) as u32
}

fn attribute_as_u32(value: u64) -> (v: u32)
    ensures
        v == attribute_low_bits(value),
{
    let v: u32 = (value & 0xFFFF_FFFF) as u32;
    assert(v == (value % 0x1_0000_0000) as u32) by (bit_vector)
        requires
            v == (value & 0xFFFF_FFFF) as u32,
    ;
    v
}

/// The exposure that the sensor reports from the exposure attribute of the
/// current media type: its low 32 bits, or `DEFAULT_EXPOSURE_US` where the
/// attribute could not be read.
pub fn exposure_from_attribute(attribute: Option<u64>) -> (exposure: u32)
    ensures
        exposure == match attribute {
            Some(v) => attribute_low_bits(v),
            None => DEFAULT_EXPOSURE_US,
        },
{
    match attribute {
        Some(v) => attribute_as_u32(v),
        None => DEFAULT_EXPOSURE_US,
    }
}

/// Accepts a trigger configuration that turns triggering off, and refuses
/// every other one as not supported.
pub fn set_trigger(config: &TriggerConfig) -> (res: Result<(), CameraError>)
    ensures
        res is Ok <==> config.mode == TriggerMode::Off,
        res matches Err(e) ==> e is FormatNotSupported,
{
    if config.mode == TriggerMode::Off {
        Ok(())
    } else {
        Err(CameraError::FormatNotSupported)
    }
}

/// The state that the system controls export.
#[derive(Debug, Clone)]
pub struct ControlState {
    /// Always `"msmf"`.
    pub backend: String,
    /// The exposure attribute's low 32 bits, where it could be read.
    pub exposure: Option<u32>,
}

/// The state to export, given the exposure attribute of the current media
/// type where it could be read.
pub fn export_state(exposure_attribute: Option<u64>) -> (state: ControlState)
    ensures
        state.backend@ == "msmf"@,
        state.exposure == match exposure_attribute {
            Some(v) => Some(attribute_low_bits(v)),
            None => None::<u32>,
        },
{
    let exposure = match exposure_attribute {
        Some(v) => Some(attribute_as_u32(v)),
        None => None,
    };
    ControlState { backend: "msmf".to_owned(), exposure }
}

} // verus!
