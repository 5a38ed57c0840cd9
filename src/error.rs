use vstd::prelude::*;

verus! {

/// Why a transfer was refused or did not complete.
#[derive(Debug, Clone, Copy, PartialEq, Eq, Structural)]
pub enum Error {
    /// The source buffer is longer than the DMA engine can move in one go.
    TxBufferTooLong,
    /// The destination buffer is longer than the DMA engine can move in one go.
    RxBufferTooLong,
    /// The hardware transmitted a different number of bytes than requested.
    Transmit,
    /// The hardware received a different number of bytes than requested.
    Receive,
    /// The source buffer does not lie in data RAM, where the DMA engine reads.
    DMABufferNotInDataMemory,
}

} // verus!
