//! Checks applied to a caller's buffer before any register is touched.
use crate::error::Error;
use vstd::prelude::*;

verus! {

/// First address of data RAM, the only memory the DMA engine can reach.
pub const SRAM_LOWER: usize = 0x2000_0000;

/// First address above data RAM.
pub const SRAM_UPPER: usize = 0x3000_0000;

/// Largest transfer on chips whose DMA count registers are 8 bits wide.
pub const EASY_DMA_SIZE_8BIT: usize = 255;

/// Largest transfer on chips whose DMA count registers are 16 bits wide.
pub const EASY_DMA_SIZE_16BIT: usize = 65535;

/// A buffer of `len` bytes starting at `start` lies wholly in data RAM.
pub open spec fn in_data_memory(start: int, len: int) -> bool {
    SRAM_LOWER <= start && start + len < SRAM_UPPER
}

/// Whether the buffer of `len` bytes at address `start` lies in data RAM.
pub fn slice_in_ram(start: usize, len: usize) -> (r: bool)
    ensures
        r == in_data_memory(start as int, len as int),
{
    SRAM_LOWER <= start && start < SRAM_UPPER && len < SRAM_UPPER - start
}

/// What checking a source buffer gives: residency first, then length.
pub open spec fn tx_buffer_check(start: int, len: int, max_len: int) -> Result<(), Error> {
    if !in_data_memory(start, len) {
        Err(Error::DMABufferNotInDataMemory)
    } else if len > max_len {
        Err(Error::TxBufferTooLong)
    } else {
        Ok(())
    }
}

/// What checking a destination buffer gives. A mutable buffer always lies
/// in RAM, so only its length is checked.
pub open spec fn rx_buffer_check(len: int, max_len: int) -> Result<(), Error> {
    if len > max_len {
        Err(Error::RxBufferTooLong)
    } else {
        Ok(())
    }
}

/// Checks a source buffer of `len` bytes at address `start` against the
/// DMA engine's reach and a transfer ceiling of `max_len` bytes.
pub fn check_tx_buffer(start: usize, len: usize, max_len: usize) -> (r: Result<(), Error>)
    ensures
        r == tx_buffer_check(start as int, len as int, max_len as int),
{
    if !slice_in_ram(start, len) {
        return Err(Error::DMABufferNotInDataMemory);
    }
    if len > max_len {
        return Err(Error::TxBufferTooLong);
    }
    Ok(())
}

/// Checks a destination buffer of `len` bytes against a transfer ceiling of
/// `max_len` bytes.
pub fn check_rx_buffer(len: usize, max_len: usize) -> (r: Result<(), Error>)
    ensures
        r == rx_buffer_check(len as int, max_len as int),
{
    if len > max_len {
        return Err(Error::RxBufferTooLong);
    }
    Ok(())
}

} // verus!
