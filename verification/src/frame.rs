//! The frames that the sensor sends.
//!
//! A frame has twelve bytes: the time of the event in milliseconds, as a
//! big-endian number of eight bytes, and a big-endian flag of four bytes that is
//! zero when the pump went off and anything else when it went on.

use crate::endian::{get_u32, get_u64, u32_of_be_bytes, u64_of_be_bytes};
use vstd::prelude::*;
use vstd::slice::slice_subrange;

verus! {

/// The length of a frame in bytes.
pub const FRAME_LEN: usize = 12;

/// One event of the pump.
#[derive(Clone, Copy, Debug, PartialEq, Eq)]
pub struct Frame {
    /// When it happened, in milliseconds.
    pub stamp: u64,
    /// Whether the pump went on.
    pub pump_on: bool,
}

/// The frame that twelve bytes spell.
pub open spec fn frame_of(bytes: Seq<u8>) -> Frame
    recommends
        bytes.len() == FRAME_LEN,
{
    Frame { stamp: u64_of_be_bytes(bytes), pump_on: u32_of_be_bytes(bytes.skip(8)) != 0 }
}

impl Frame {
    /// Reads a frame from its bytes. Anything but twelve bytes is no frame.
    pub fn parse(bytes: &[u8]) -> (r: Option<Frame>)
        ensures
            r == if bytes@.len() == FRAME_LEN {
                Some(frame_of(bytes@))
            } else {
                None
            },
    {
        if bytes.len() != FRAME_LEN {
            return None;
        }
        let stamp = get_u64(bytes);
        let flag = get_u32(slice_subrange(bytes, 8, FRAME_LEN));
        assert(bytes@.subrange(8, 12) =~= bytes@.skip(8));
        Some(Frame { stamp, pump_on: flag != 0 })
    }
}

} // verus!
