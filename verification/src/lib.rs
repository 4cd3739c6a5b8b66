//! Verified core of a Windows Media Foundation camera backend.
//!
//! The library holds the decisions that the backend makes around the
//! Media Foundation calls: how subtype GUIDs map to pixel formats, how a
//! capture format is scored and chosen, how frame sizes are packed, how
//! the devices that enumeration returns become device records, how frames
//! are numbered and copied out of strided sample buffers, and how the
//! sample callback and the polling reader decide what to do next.

pub mod camera;
pub mod controls;
pub mod device;
pub mod guid;
pub mod pixel_map;
pub mod stream;
pub mod task;

use vstd::prelude::*;

verus! {

/// The Media Foundation driver: the entry point that lists and opens
/// capture devices.
#[derive(Debug, Clone, Copy, PartialEq, Eq, Structural)]
pub struct MsmfDriver;

impl MsmfDriver {
    /// Creates the driver. It carries no state.
    pub fn new() -> (driver: Self)
        ensures
            driver == MsmfDriver,
    {
        MsmfDriver
    }
}

impl Default for MsmfDriver {
    fn default() -> (driver: Self)
        ensures
            driver == MsmfDriver,
    {
        Self::new()
    }
}

} // verus!
