//! Result codes of the vendor firmware.

use vstd::prelude::*;

verus! {

/// A result code of the vendor firmware: zero is success, anything else an error.
pub type FspErr = u32;

pub const FSP_SUCCESS: u32 = 0;

/// A usage error detected by a driver: a call in the wrong mode or state.
pub const FSP_ERR_ASSERTION: u32 = 1;

/// No frame is waiting in the receive ring.
pub const FSP_ERR_ETHER_ERROR_NO_DATA: u32 = 4000;

/// The link is down.
pub const FSP_ERR_ETHER_ERROR_LINK: u32 = 4001;

/// What a result code means to a caller: success, or the code itself as the error.
pub open spec fn spec_fsp_result(code: u32) -> Result<(), u32> {
    if code == FSP_SUCCESS {
        Ok(())
    } else {
        Err(code)
    }
}

/// Turns a result code of the vendor firmware into a `Result`, passing
/// error codes through unchanged.
pub fn fsp_result(code: u32) -> (r: Result<(), u32>)
    ensures
        r == spec_fsp_result(code),
{
    if code == FSP_SUCCESS {
        Ok(())
    } else {
        Err(code)
    }
}

} // verus!
