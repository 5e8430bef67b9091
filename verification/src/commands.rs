//! Controller opcodes used by the panel bring-up and by pixel writes.
//!
//! The values are those of the SH8601 command set; the CO5300 shares them.

use vstd::prelude::*;

verus! {

/// Sleep out: leave sleep mode.
pub const SLPOUT: u8 = 0x11;

/// Memory write: begin a pixel write at the start of display memory.
pub const RAMWR: u8 = 0x2C;

/// Tearing effect line on.
pub const TEON: u8 = 0x35;

/// Memory write continue: carry on a pixel write where the last one ended.
pub const RAMWRC: u8 = 0x3C;

/// Set the scan line at which the tearing effect signal fires.
pub const TESCAN: u8 = 0x44;

/// Write display brightness.
pub const WRDISBV: u8 = 0x51;

/// Write display control 1.
pub const WRCTRLD1: u8 = 0x53;

/// Write display brightness for high brightness mode.
pub const HBM_WRDISBV1: u8 = 0x63;

/// Select the SPI mode of the controller.
pub const SPI_MODE: u8 = 0xC4;

} // verus!
