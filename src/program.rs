//! The register programs that carry out each kind of transfer, and what the
//! byte counts reported afterwards mean.
//!
//! A program is a list of [`Action`]s; whoever owns the peripheral performs
//! them in order, then reads the two amount registers and hands them to
//! [`Transfer::complete`].
use crate::error::Error;
use crate::pwm::Frequency;
use vstd::prelude::*;

verus! {

/// A hardware task, started by writing the trigger value to its register.
#[derive(Debug, Clone, Copy, PartialEq, Eq, Structural)]
pub enum Task {
    StartTx,
    StartRx,
    Stop,
}

/// A hardware event flag: set by the peripheral, cleared by software.
#[derive(Debug, Clone, Copy, PartialEq, Eq, Structural)]
pub enum Event {
    LastTx,
    LastRx,
    Stopped,
}

/// One register-level step.
#[derive(Debug, Clone, Copy, PartialEq, Eq, Structural)]
pub enum Action {
    /// Connect the clock and data lines to these pins.
    SelectPins { scl: u8, sda: u8 },
    /// Enable the peripheral.
    Enable,
    /// Program the bus frequency.
    SetFrequency(Frequency),
    /// Ordering boundary between CPU memory accesses and DMA activity.
    Fence,
    /// Program the target-address register.
    SetAddress(u8),
    /// Point the transmit DMA channel at the source buffer, with this count.
    SetTxBuffer(usize),
    /// Point the receive DMA channel at the destination buffer, with this count.
    SetRxBuffer(usize),
    /// Wire last-transmit-byte to start-receive, and last-receive-byte to stop.
    EnableShorts,
    /// Remove all wiring set up by `EnableShorts`.
    DisableShorts,
    /// Start a task.
    Trigger(Task),
    /// Poll an event flag until the hardware sets it.
    Await(Event),
    /// Clear an event flag.
    Clear(Event),
}

/// A transfer request. The engine hands out only requests whose buffers
/// passed validation.
#[derive(Debug, Clone, Copy, PartialEq, Eq, Structural)]
pub enum Transfer {
    /// Send `len` bytes to the target at `address`.
    Write { address: u8, len: usize },
    /// Receive `len` bytes from the target at `address`.
    Read { address: u8, len: usize },
    /// Send `write_len` bytes, then receive `read_len` bytes with no stop
    /// condition in between.
    WriteThenRead { address: u8, write_len: usize, read_len: usize },
}

/// The register program of a transfer.
pub open spec fn program(t: Transfer) -> Seq<Action> {
    match t {
        Transfer::Write { address, len } => seq![
            Action::Fence,
            Action::SetAddress(address),
            Action::SetTxBuffer(len),
            Action::Trigger(Task::StartTx),
            Action::Await(Event::LastTx),
            Action::Clear(Event::LastTx),
            Action::Trigger(Task::Stop),
            Action::Await(Event::Stopped),
            Action::Clear(Event::Stopped),
            Action::Fence,
        ],
        Transfer::Read { address, len } => seq![
            Action::Fence,
            Action::SetAddress(address),
            Action::SetRxBuffer(len),
            Action::Trigger(Task::StartRx),
            Action::Await(Event::LastRx),
            Action::Clear(Event::LastRx),
            Action::Trigger(Task::Stop),
            Action::Await(Event::Stopped),
            Action::Clear(Event::Stopped),
            Action::Fence,
        ],
        Transfer::WriteThenRead { address, write_len, read_len } => seq![
            Action::Fence,
            Action::SetAddress(address),
            Action::SetTxBuffer(write_len),
            Action::SetRxBuffer(read_len),
            Action::EnableShorts,
            Action::Trigger(Task::StartTx),
            Action::Await(Event::Stopped),
            Action::Clear(Event::LastTx),
            Action::Clear(Event::LastRx),
            Action::Clear(Event::Stopped),
            Action::DisableShorts,
            Action::Fence,
        ],
    }
}

/// The hardware reported exactly the requested count for every direction
/// the transfer uses.
pub open spec fn amounts_match(t: Transfer, tx_amount: u32, rx_amount: u32) -> bool {
    match t {
        Transfer::Write { len, .. } => tx_amount == len,
        Transfer::Read { len, .. } => rx_amount == len,
        Transfer::WriteThenRead { write_len, read_len, .. } => tx_amount == write_len
            && rx_amount == read_len,
    }
}

/// The result of a transfer, given the amount registers read after its
/// program ran. A short transmit is reported before a short receive.
pub open spec fn outcome(t: Transfer, tx_amount: u32, rx_amount: u32) -> Result<(), Error> {
    match t {
        Transfer::Write { len, .. } => if tx_amount != len {
            Err(Error::Transmit)
        } else {
            Ok(())
        },
        Transfer::Read { len, .. } => if rx_amount != len {
            Err(Error::Receive)
        } else {
            Ok(())
        },
        Transfer::WriteThenRead { write_len, read_len, .. } => if tx_amount != write_len {
            Err(Error::Transmit)
        } else if rx_amount != read_len {
            Err(Error::Receive)
        } else {
            Ok(())
        },
    }
}

impl Transfer {
    /// The register program that performs this transfer.
    pub fn actions(&self) -> (r: Vec<Action>)
        ensures
            r@ == program(*self),
    {
        let mut v: Vec<Action> = Vec::new();
        v.push(Action::Fence);
        match *self {
            Transfer::Write { address, len } => {
                v.push(Action::SetAddress(address));
                v.push(Action::SetTxBuffer(len));
                v.push(Action::Trigger(Task::StartTx));
                v.push(Action::Await(Event::LastTx));
                v.push(Action::Clear(Event::LastTx));
                v.push(Action::Trigger(Task::Stop));
                v.push(Action::Await(Event::Stopped));
                v.push(Action::Clear(Event::Stopped));
            },
            Transfer::Read { address, len } => {
                v.push(Action::SetAddress(address));
                v.push(Action::SetRxBuffer(len));
                v.push(Action::Trigger(Task::StartRx));
                v.push(Action::Await(Event::LastRx));
                v.push(Action::Clear(Event::LastRx));
                v.push(Action::Trigger(Task::Stop));
                v.push(Action::Await(Event::Stopped));
                v.push(Action::Clear(Event::Stopped));
            },
            Transfer::WriteThenRead { address, write_len, read_len } => {
                v.push(Action::SetAddress(address));
                v.push(Action::SetTxBuffer(write_len));
                v.push(Action::SetRxBuffer(read_len));
                v.push(Action::EnableShorts);
                v.push(Action::Trigger(Task::StartTx));
                v.push(Action::Await(Event::Stopped));
                v.push(Action::Clear(Event::LastTx));
                v.push(Action::Clear(Event::LastRx));
                v.push(Action::Clear(Event::Stopped));
                v.push(Action::DisableShorts);
            },
        }
        v.push(Action::Fence);
        assert(v@ =~= program(*self));
        v
    }

    /// Judges a finished transfer by the transmit and receive amounts that
    /// the hardware reports. An amount for a direction the transfer does not
    /// use is ignored.
    pub fn complete(&self, tx_amount: u32, rx_amount: u32) -> (r: Result<(), Error>)
        ensures
            r == outcome(*self, tx_amount, rx_amount),
    {
        match *self {
            Transfer::Write { len, .. } => {
                if tx_amount as usize != len {
                    return Err(Error::Transmit);
                }
            },
            Transfer::Read { len, .. } => {
                if rx_amount as usize != len {
                    return Err(Error::Receive);
                }
            },
            Transfer::WriteThenRead { write_len, read_len, .. } => {
                let bad_write = tx_amount as usize != write_len;
                let bad_read = rx_amount as usize != read_len;
                if bad_write {
                    return Err(Error::Transmit);
                }
                if bad_read {
                    return Err(Error::Receive);
                }
            },
        }
        Ok(())
    }
}

/// A transfer succeeds exactly when every direction it uses moved the
/// requested number of bytes.
pub proof fn lemma_success_iff_amounts_match(t: Transfer, tx_amount: u32, rx_amount: u32)
    ensures
        outcome(t, tx_amount, rx_amount) is Ok <==> amounts_match(t, tx_amount, rx_amount),
{
}

/// The software-visible state that a program leaves behind in the
/// peripheral: its three event flags and whether the shorts are wired.
pub struct Flags {
    pub last_tx: bool,
    pub last_rx: bool,
    pub stopped: bool,
    pub shorts: bool,
}

/// All event flags clear and no shorts wired.
pub open spec fn idle() -> Flags {
    Flags { last_tx: false, last_rx: false, stopped: false, shorts: false }
}

/// Whether `e` is set in `f`.
pub open spec fn raised(f: Flags, e: Event) -> bool {
    match e {
        Event::LastTx => f.last_tx,
        Event::LastRx => f.last_rx,
        Event::Stopped => f.stopped,
    }
}

/// The effect of one action. A started task eventually raises its events;
/// with the shorts wired, the end of transmission starts reception and the
/// end of reception stops the bus.
pub open spec fn step(f: Flags, a: Action) -> Flags {
    match a {
        Action::Trigger(Task::StartTx) => Flags {
            last_tx: true,
            last_rx: f.last_rx || f.shorts,
            stopped: f.stopped || f.shorts,
            shorts: f.shorts,
        },
        Action::Trigger(Task::StartRx) => Flags {
            last_tx: f.last_tx,
            last_rx: true,
            stopped: f.stopped || f.shorts,
            shorts: f.shorts,
        },
        Action::Trigger(Task::Stop) => Flags {
            last_tx: f.last_tx,
            last_rx: f.last_rx,
            stopped: true,
            shorts: f.shorts,
        },
        Action::Clear(Event::LastTx) => Flags {
            last_tx: false,
            last_rx: f.last_rx,
            stopped: f.stopped,
            shorts: f.shorts,
        },
        Action::Clear(Event::LastRx) => Flags {
            last_tx: f.last_tx,
            last_rx: false,
            stopped: f.stopped,
            shorts: f.shorts,
        },
        Action::Clear(Event::Stopped) => Flags {
            last_tx: f.last_tx,
            last_rx: f.last_rx,
            stopped: false,
            shorts: f.shorts,
        },
        Action::EnableShorts => Flags {
            last_tx: f.last_tx,
            last_rx: f.last_rx,
            stopped: f.stopped,
            shorts: true,
        },
        Action::DisableShorts => Flags {
            last_tx: f.last_tx,
            last_rx: f.last_rx,
            stopped: f.stopped,
            shorts: false,
        },
        _ => f,
    }
}

/// The state after the first `n` actions of `p`, starting from `from`.
pub open spec fn flags_after(from: Flags, p: Seq<Action>, n: nat) -> Flags
    decreases n,
{
    if n == 0 || n > p.len() {
        from
    } else {
        step(flags_after(from, p, (n - 1) as nat), p[n - 1])
    }
}

/// Every wait among the first `n` actions of `p`, run from `from`, is for an
/// event that is already raised or that the actions before it have made the
/// hardware raise, so no wait hangs.
pub open spec fn waits_end(from: Flags, p: Seq<Action>, n: nat) -> bool
    decreases n,
{
    if n == 0 || n > p.len() {
        true
    } else {
        waits_end(from, p, (n - 1) as nat) && match p[n - 1] {
            Action::Await(e) => raised(flags_after(from, p, (n - 1) as nat), e),
            _ => true,
        }
    }
}

/// Run from an idle peripheral, every transfer program waits only for events
/// it has caused and leaves the peripheral idle again: no flag and no wiring
/// carries over.
pub proof fn lemma_program_returns_to_idle(t: Transfer)
    ensures
        waits_end(idle(), program(t), program(t).len()),
        flags_after(idle(), program(t), program(t).len()) == idle(),
{
    reveal_with_fuel(flags_after, 13);
    reveal_with_fuel(waits_end, 13);
}

proof fn lemma_run_prefix(from: Flags, p: Seq<Action>, q: Seq<Action>, n: nat)
    requires
        n <= p.len(),
    ensures
        flags_after(from, p + q, n) == flags_after(from, p, n),
        waits_end(from, p + q, n) == waits_end(from, p, n),
    decreases n,
{
    if n > 0 {
        lemma_run_prefix(from, p, q, (n - 1) as nat);
        assert((p + q)[n - 1] == p[n - 1]);
    }
}

proof fn lemma_run_concat(from: Flags, p: Seq<Action>, q: Seq<Action>, k: nat)
    requires
        k <= q.len(),
    ensures
        flags_after(from, p + q, p.len() + k) == flags_after(
            flags_after(from, p, p.len()),
            q,
            k,
        ),
        waits_end(from, p + q, p.len() + k) == (waits_end(from, p, p.len()) && waits_end(
            flags_after(from, p, p.len()),
            q,
            k,
        )),
    decreases k,
{
    if k == 0 {
        lemma_run_prefix(from, p, q, p.len());
    } else {
        lemma_run_concat(from, p, q, (k - 1) as nat);
        assert((p + q)[p.len() + k - 1] == q[k - 1]);
    }
}

/// Two transfers in succession, of any kinds, run as if each were alone: the
/// second finds the peripheral idle, every wait of both ends, and the
/// peripheral is idle afterwards.
pub proof fn lemma_back_to_back(t: Transfer, u: Transfer)
    ensures
        waits_end(idle(), program(t) + program(u), program(t).len() + program(u).len()),
        flags_after(idle(), program(t) + program(u), program(t).len() + program(u).len())
            == idle(),
{
    lemma_program_returns_to_idle(t);
    lemma_program_returns_to_idle(u);
    lemma_run_concat(idle(), program(t), program(u), program(u).len());
}

/// A combined transfer wires the shorts before it starts transmitting, never
/// starts reception or stops the bus itself, and waits exactly once, for
/// the stopped event.
pub proof fn lemma_combined_waits_once(address: u8, write_len: usize, read_len: usize)
    ensures
        ({
            let p = program(Transfer::WriteThenRead { address, write_len, read_len });
            &&& p[2] == Action::SetTxBuffer(write_len)
            &&& p[3] == Action::SetRxBuffer(read_len)
            &&& p[4] == Action::EnableShorts
            &&& p[5] == Action::Trigger(Task::StartTx)
            &&& p[6] == Action::Await(Event::Stopped)
            &&& forall|i: int| 0 <= i < p.len() && #[trigger] p[i] is Await ==> i == 6
            &&& forall|i: int|
                0 <= i < p.len() ==> #[trigger] p[i] != Action::Trigger(Task::StartRx) && p[i]
                    != Action::Trigger(Task::Stop)
        }),
{
}

} // verus!
