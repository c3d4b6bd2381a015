//! E-DDC
//!
//! This module adds the definitions from the Extended-DDC Standard
use vstd::prelude::*;

verus! {

pub const EDDC_SEGMENT_POINTER_ADDR: u8 = 0x30;

pub const EDID_ADDRESS: u8 = 0x50;

pub const DISPLAY_ID_ADDRESS: u8 = 0x52;

/// How often a failed EDID read is repeated; some displays answer
/// differently depending on their input source.
pub const RECEIVE_EDID_RETRIES: u8 = 3;

} // verus!
