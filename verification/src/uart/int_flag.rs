//! Interrupt flags that the interrupt handler records in the UART's scratch register.
use vstd::prelude::*;

verus! {

/// Received data is available (FIFO trigger level reached) or a line status event occurred.
pub const RX_AVAILABLE: u8 = 1;

/// Received data is available but the FIFO trigger level was not reached in time.
pub const TIMEOUT: u8 = 2;

/// The transmitter holding register is empty.
pub const TX_EMPTY: u8 = 4;

} // verus!
