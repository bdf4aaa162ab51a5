//! Settings of the serial connection.

use vstd::prelude::*;

verus! {

/// Where and how to open the serial port.
pub struct SerialConfig {
    /// Serial port device (e.g. /dev/ttyUSB0)
    pub port: String,
    /// Baud rate (the I22 uses 4800)
    pub baud: u32,
    /// Response timeout in milliseconds
    pub timeout_ms: u64,
}

} // verus!
