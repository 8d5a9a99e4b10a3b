//! The port-operation model: every hardware access the driver decides on is
//! recorded as one `PortOp`, and an unverified executor performs the recorded
//! operations against the two memory-mapped 16-bit ports in order.

use vstd::prelude::*;

verus! {

/// One operation on the VDP's two hardware ports.
///
/// The driver appends these to its log instead of touching the ports itself;
/// the order of the log is the order the hardware must see.
#[derive(Clone, Copy, Debug, PartialEq, Eq, Structural)]
pub enum PortOp {
    /// A 16-bit write to the control port.
    Control(u16),
    /// A 16-bit read of the control port whose value the driver discards;
    /// the read itself resets the port's two-write address latch.
    ReadStatus,
    /// A 16-bit write to the data port.
    Data(u16),
    /// Poll the control port until the DMA-busy status bit clears.
    WaitDma,
}

/// The control-port word that writes `value` into internal register `reg`.
pub open spec fn ctrl_word(reg: u8, value: u8) -> u16 {
    ((reg as u16) << 8) | (value as u16)
}

/// A 16-bit word formed from two bytes in the 68k's big-endian order.
pub open spec fn word_be(hi: u8, lo: u8) -> u16 {
    ((hi as u16) << 8) | (lo as u16)
}

/// Whether the raw status word read from the control port has the DMA-busy
/// bit set: while it is set, no other register access is safe.
pub open spec fn spec_dma_busy(status: u16) -> bool {
    status & 2 != 0
}

/// Decide from a raw status word whether a DMA transfer is still running.
///
/// The executor's completion poll repeats a control-port read until this
/// returns false.
pub fn dma_busy(status: u16) -> (r: bool)
    ensures
        r == spec_dma_busy(status),
{
    status & 2 != 0
}

} // verus!
