//! The engine handle: exclusive owner of one peripheral instance.
use crate::buffer::{
    check_rx_buffer, check_tx_buffer, in_data_memory, rx_buffer_check, tx_buffer_check,
};
use crate::error::Error;
use crate::program::{Action, Transfer};
use vstd::prelude::*;

verus! {

/// Implemented by every peripheral instance that the engine can own.
pub trait Instance {}

/// Bus frequency applied once, when the peripheral is configured.
#[derive(Debug, Clone, Copy, PartialEq, Eq, Structural)]
pub enum Frequency {
    K100,
    K250,
    K400,
}

/// The pins used by the peripheral.
///
/// Currently, only port 0 pins are supported.
#[derive(Debug, Clone, Copy, PartialEq, Eq, Structural)]
pub struct PSEL {
    /// Clock line.
    pub scl: u8,
    /// Data line.
    pub sda: u8,
}

/// The program that configures a freshly taken peripheral: connect the
/// pins, enable it, then set its frequency.
pub open spec fn configuration_program(channels: PSEL, frequency: Frequency) -> Seq<Action> {
    seq![
        Action::SelectPins { scl: channels.scl, sda: channels.sda },
        Action::Enable,
        Action::SetFrequency(frequency),
    ]
}

/// What a write request gives: the validated transfer, or the first check
/// that failed.
pub open spec fn write_request(address: u8, start: usize, len: usize, max_len: usize) -> Result<
    Transfer,
    Error,
> {
    match tx_buffer_check(start as int, len as int, max_len as int) {
        Err(e) => Err(e),
        Ok(_) => Ok(Transfer::Write { address, len }),
    }
}

/// What a read request gives.
pub open spec fn read_request(address: u8, len: usize, max_len: usize) -> Result<Transfer, Error> {
    match rx_buffer_check(len as int, max_len as int) {
        Err(e) => Err(e),
        Ok(_) => Ok(Transfer::Read { address, len }),
    }
}

/// What a combined request gives: the source buffer is checked first, then
/// the destination buffer.
pub open spec fn write_then_read_request(
    address: u8,
    wr_start: usize,
    wr_len: usize,
    rd_len: usize,
    max_len: usize,
) -> Result<Transfer, Error> {
    match tx_buffer_check(wr_start as int, wr_len as int, max_len as int) {
        Err(e) => Err(e),
        Ok(_) => match rx_buffer_check(rd_len as int, max_len as int) {
            Err(e) => Err(e),
            Ok(_) => Ok(Transfer::WriteThenRead { address, write_len: wr_len, read_len: rd_len }),
        },
    }
}

/// A buffer longer than the ceiling is refused with the "too long" error of
/// its direction, so no transfer exists and no register is written. A source
/// buffer is checked for its place in memory first.
pub proof fn lemma_too_long_refused(
    address: u8,
    start: usize,
    len: usize,
    other_len: usize,
    max_len: usize,
)
    requires
        len > max_len,
    ensures
        in_data_memory(start as int, len as int) ==> write_request(address, start, len, max_len)
            == Err::<Transfer, Error>(Error::TxBufferTooLong),
        read_request(address, len, max_len) == Err::<Transfer, Error>(Error::RxBufferTooLong),
        in_data_memory(start as int, len as int) ==> write_then_read_request(
            address,
            start,
            len,
            other_len,
            max_len,
        ) == Err::<Transfer, Error>(Error::TxBufferTooLong),
        in_data_memory(start as int, other_len as int) && other_len <= max_len
            ==> write_then_read_request(address, start, other_len, len, max_len) == Err::<
            Transfer,
            Error,
        >(Error::RxBufferTooLong),
{
}

/// A source buffer outside data RAM is refused before anything else, whatever
/// its length; a read takes no source buffer, and its destination's place in
/// memory plays no part in the result.
pub proof fn lemma_source_outside_ram_refused(
    address: u8,
    start: usize,
    len: usize,
    rd_len: usize,
    max_len: usize,
)
    requires
        !in_data_memory(start as int, len as int),
    ensures
        write_request(address, start, len, max_len) == Err::<Transfer, Error>(
            Error::DMABufferNotInDataMemory,
        ),
        write_then_read_request(address, start, len, rd_len, max_len) == Err::<Transfer, Error>(
            Error::DMABufferNotInDataMemory,
        ),
        read_request(address, rd_len, max_len) is Ok <==> rd_len <= max_len,
{
}

/// Interface to one peripheral instance. Holding it is holding the hardware:
/// it cannot be cloned, and every transfer takes it mutably.
pub struct Pwm<T> {
    instance: T,
    easy_dma_size: usize,
}

/// The engine type under the name its operations are declared with.
#[allow(non_camel_case_types)]
pub type pwm<T> = Pwm<T>;

impl<T: Instance> pwm<T> {
    /// The peripheral instance held.
    pub closed spec fn peripheral(&self) -> T {
        self.instance
    }

    /// The largest buffer, in bytes, that one transfer may use.
    pub closed spec fn max_len(&self) -> usize {
        self.easy_dma_size
    }

    /// Takes ownership of `pwm`, whose DMA count registers allow transfers of
    /// at most `easy_dma_size` bytes.
    pub fn new(pwm: T, easy_dma_size: usize) -> (r: Self)
        ensures
            r.peripheral() == pwm,
            r.max_len() == easy_dma_size,
    {
        Pwm { instance: pwm, easy_dma_size }
    }

    /// The program to run once on the peripheral before its first transfer.
    pub fn configuration(channels: &PSEL, frequency: Frequency) -> (r: Vec<Action>)
        ensures
            r@ == configuration_program(*channels, frequency),
    {
        let mut v: Vec<Action> = Vec::new();
        v.push(Action::SelectPins { scl: channels.scl, sda: channels.sda });
        v.push(Action::Enable);
        v.push(Action::SetFrequency(frequency));
        assert(v@ =~= configuration_program(*channels, frequency));
        v
    }

    /// The transfer ceiling of this peripheral.
    pub fn easy_dma_size(&self) -> (r: usize)
        ensures
            r == self.max_len(),
    {
        self.easy_dma_size
    }

    /// Prepares a write of the `len` bytes at address `start` to the target
    /// at `address`. On `Err`, no register may be touched.
    pub fn write(&mut self, address: u8, start: usize, len: usize) -> (r: Result<Transfer, Error>)
        ensures
            *final(self) == *old(self),
            r == write_request(address, start, len, old(self).max_len()),
    {
        match check_tx_buffer(start, len, self.easy_dma_size) {
            Err(e) => Err(e),
            Ok(()) => Ok(Transfer::Write { address, len }),
        }
    }

    /// Prepares a read of `len` bytes from the target at `address`. The
    /// destination is mutable memory, which always lies in RAM, so its place
    /// is not checked.
    pub fn read(&mut self, address: u8, len: usize) -> (r: Result<Transfer, Error>)
        ensures
            *final(self) == *old(self),
            r == read_request(address, len, old(self).max_len()),
    {
        match check_rx_buffer(len, self.easy_dma_size) {
            Err(e) => Err(e),
            Ok(()) => Ok(Transfer::Read { address, len }),
        }
    }

    /// Prepares a write of the `wr_len` bytes at `wr_start` followed, with no
    /// stop condition between them, by a read of `rd_len` bytes.
    pub fn write_then_read(&mut self, address: u8, wr_start: usize, wr_len: usize, rd_len: usize)
        -> (r: Result<Transfer, Error>)
        ensures
            *final(self) == *old(self),
            r == write_then_read_request(address, wr_start, wr_len, rd_len, old(self).max_len()),
    {
        match check_tx_buffer(wr_start, wr_len, self.easy_dma_size) {
            Err(e) => Err(e),
            Ok(()) => match check_rx_buffer(rd_len, self.easy_dma_size) {
                Err(e) => Err(e),
                Ok(()) => Ok(Transfer::WriteThenRead { address, write_len: wr_len, read_len: rd_len }),
            },
        }
    }

    /// Borrows the peripheral instance, to run a program on it.
    pub fn instance(&self) -> (r: &T)
        ensures
            *r == self.peripheral(),
    {
        &self.instance
    }

    /// Gives back the peripheral instance.
    pub fn free(self) -> (r: T)
        ensures
            r == self.peripheral(),
    {
        self.instance
    }
}

} // verus!
