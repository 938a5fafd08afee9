//! The errors that cross the driver's boundary.
use vstd::prelude::*;

verus! {

/// Why the driver refuses a request or reports a failure.
#[allow(non_camel_case_types)]
#[derive(PartialEq, Eq, Structural, Debug, Copy, Clone)]
pub enum ErrorCode {
    /// The hardware reported a failure: a received frame did not pass its CRC.
    FAIL,
    /// A transmission is already in flight, or the channel stayed busy
    /// through every permitted attempt.
    BUSY,
    /// The frame does not fit in the buffer together with its CRC.
    SIZE,
    /// The requested channel or output power is not one the radio offers.
    NOSUPPORT,
}

} // verus!
