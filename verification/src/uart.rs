//! The UART peripheral: a queue of received bytes that the guest reads one
//! at a time, and a transmit register whose bytes go to the host's sink.
//!
//! The device does not hold the sink. A write tells the caller what to do
//! with it, and the caller does it.

use std::collections::VecDeque;
use vstd::prelude::*;

verus! {

/// Size of the UART's register window in bytes.
pub const UART_MEM_SIZE: u32 = 4096;

pub const REG_STATUS: u32 = 0x00;
pub const REG_TX: u32 = 0x01;
pub const REG_RX: u32 = 0x02;

/// In a write to the status register: clear the receive queue and flush the
/// sink.
pub const STATUSBIT_RESET: u32 = 1;
/// In a read of the status register: the transmit queue is empty. Always set.
pub const STATUSBIT_TX_EMPTY: u32 = 2;
/// In a read of the status register: the receive queue is empty.
pub const STATUSBIT_RX_EMPTY: u32 = 8;

/// What the host has to do with the output sink after a write to the UART.
#[derive(Clone, Copy, Debug, PartialEq, Eq, Structural)]
pub enum SinkAction {
    /// Nothing.
    Idle,
    /// Write this byte to the sink.
    Send { byte: u8 },
    /// Flush what the sink has buffered.
    Flush,
}

/// What a read of the status register returns when the receive queue holds
/// `rx`.
pub open spec fn status_word(rx: Seq<u8>) -> u32 {
    STATUSBIT_TX_EMPTY | (if rx.len() == 0 { STATUSBIT_RX_EMPTY } else { 0 })
}

/// A guest read of register `addr` when the receive queue holds `rx`: the
/// queue after it and the value read.
///
/// Reading the receive register takes the oldest byte out of the queue, or
/// reads 0 if there is none. No other read changes the queue, and a register
/// that does not exist reads 0.
pub open spec fn read_reg(rx: Seq<u8>, addr: u32) -> (Seq<u8>, u32) {
    if addr == REG_STATUS {
        (rx, status_word(rx))
    } else if addr == REG_RX {
        if rx.len() > 0 {
            (rx.drop_first(), rx[0] as u32)
        } else {
            (rx, 0)
        }
    } else {
        (rx, 0)
    }
}

/// A guest write of `val` to register `addr` when the receive queue holds
/// `rx`: the queue after it and what is to be done with the sink.
///
/// A write to the status register with the reset bit empties the receive
/// queue and has the sink flushed. A write to the transmit register sends
/// the low byte of `val` and leaves the receive queue alone. Any other write
/// is ignored.
pub open spec fn write_reg(rx: Seq<u8>, addr: u32, val: u32) -> (Seq<u8>, SinkAction) {
    if addr == REG_STATUS {
        if val & STATUSBIT_RESET != 0 {
            (Seq::empty(), SinkAction::Flush)
        } else {
            (rx, SinkAction::Idle)
        }
    } else if addr == REG_TX {
        (rx, SinkAction::Send { byte: (val % 0x100) as u8 })
    } else {
        (rx, SinkAction::Idle)
    }
}

/// The UART peripheral. Its view is the receive queue, oldest byte first.
pub struct UART {
    rx: VecDeque<u8>,
}

impl View for UART {
    type V = Seq<u8>;

    closed spec fn view(&self) -> Seq<u8> {
        self.rx@
    }
}

impl UART {
    /// A UART that has received nothing.
    pub fn new() -> (uart: UART)
        ensures
            uart@ == Seq::<u8>::empty(),
    {
        UART { rx: VecDeque::new() }
    }

    /// Feeds bytes from the host to the receive queue, behind those that
    /// are already there.
    pub fn push_input(&mut self, input: &[u8])
        ensures
            final(self)@ == old(self)@ + input@,
    {
        let mut i: usize = 0;
        while i < input.len()
            invariant
                i <= input@.len(),
                self.rx@ == old(self).rx@ + input@.subrange(0, i as int),
            decreases input@.len() - i,
        {
            self.rx.push_back(input[i]);
            i += 1;
        }
    }

    /// A guest read of register `addr`.
    pub fn read(&mut self, addr: u32) -> (value: u32)
        ensures
            (final(self)@, value) == read_reg(old(self)@, addr),
    {
        if addr == REG_STATUS {
            STATUSBIT_TX_EMPTY | (if self.rx.len() == 0 { STATUSBIT_RX_EMPTY } else { 0 })
        } else if addr == REG_RX {
            match self.rx.pop_front() {
                Some(byte) => byte as u32,
                None => 0,
            }
        } else {
            0
        }
    }

    /// A guest write of `val` to register `addr`. The caller carries out the
    /// action that is returned before the guest goes on.
    pub fn write(&mut self, addr: u32, val: u32) -> (action: SinkAction)
        ensures
            (final(self)@, action) == write_reg(old(self)@, addr, val),
    {
        if addr == REG_STATUS {
            if (val & STATUSBIT_RESET) != 0 {
                self.rx.clear();
                SinkAction::Flush
            } else {
                SinkAction::Idle
            }
        } else if addr == REG_TX {
            assert(val & 0xFF == val % 0x100) by (bit_vector);
            SinkAction::Send { byte: (val & 0xFF) as u8 }
        } else {
            SinkAction::Idle
        }
    }
    /// The number of received bytes that the guest has not read yet.
    pub fn pending_input(&self) -> (n: usize)
        ensures
            n == self@.len(),
    {
        self.rx.len()
    }
}

/// The queue after `n` reads of the receive register.
pub open spec fn after_rx_reads(rx: Seq<u8>, n: nat) -> Seq<u8>
    decreases n,
{
    if n == 0 {
        rx
    } else {
        read_reg(after_rx_reads(rx, (n - 1) as nat), REG_RX).0
    }
}

/// The value that the `n`-th read of the receive register returns, counting
/// from 0, when the queue holds `rx` before the first of them.
pub open spec fn nth_rx_read(rx: Seq<u8>, n: nat) -> u32 {
    read_reg(after_rx_reads(rx, n), REG_RX).1
}

proof fn lemma_after_rx_reads(rx: Seq<u8>, n: nat)
    ensures
        n <= rx.len() ==> after_rx_reads(rx, n) == rx.skip(n as int),
        n > rx.len() ==> after_rx_reads(rx, n) == Seq::<u8>::empty(),
    decreases n,
{
    if n > 0 {
        lemma_after_rx_reads(rx, (n - 1) as nat);
    }
}

/// Bytes come out in the order in which they went in.
///
/// When the receive queue holds `rx`, the first `rx.len()` reads of the
/// receive register return the bytes of `rx` in order. Every read after
/// those returns 0, and from then on the status register shows the receive
/// queue as empty.
pub proof fn lemma_rx_reads_in_order(rx: Seq<u8>, n: nat)
    ensures
        n < rx.len() ==> nth_rx_read(rx, n) == rx[n as int],
        n >= rx.len() ==> nth_rx_read(rx, n) == 0,
        n >= rx.len() ==> read_reg(after_rx_reads(rx, n), REG_STATUS).1 & STATUSBIT_RX_EMPTY
            == STATUSBIT_RX_EMPTY,
        n < rx.len() ==> read_reg(after_rx_reads(rx, n), REG_STATUS).1 & STATUSBIT_RX_EMPTY == 0,
{
    lemma_after_rx_reads(rx, n);
    assert((2u32 | 8u32) & 8u32 == 8u32) by (bit_vector);
    assert((2u32 | 0u32) & 8u32 == 0u32) by (bit_vector);
}

/// Output never touches input: a write to the transmit register leaves the
/// receive queue as it is, whatever is sent.
pub proof fn lemma_output_keeps_input(rx: Seq<u8>, val: u32)
    ensures
        write_reg(rx, REG_TX, val).0 == rx,
        write_reg(rx, REG_TX, val).1 is Send,
{
}

/// The status register always shows the transmit queue as empty, shows the
/// receive queue as empty exactly when it is, and shows nothing else.
pub proof fn lemma_status_bits(rx: Seq<u8>)
    ensures
        status_word(rx) & STATUSBIT_TX_EMPTY == STATUSBIT_TX_EMPTY,
        status_word(rx) & STATUSBIT_RX_EMPTY != 0 <==> rx.len() == 0,
        status_word(rx) & !(STATUSBIT_TX_EMPTY | STATUSBIT_RX_EMPTY) == 0,
{
    assert((2u32 | 8u32) & 2 == 2 && (2u32 | 8u32) & 8 != 0 && (2u32 | 8u32) & !(2u32 | 8u32) == 0)
        by (bit_vector);
    assert((2u32 | 0u32) & 2 == 2 && (2u32 | 0u32) & 8 == 0 && (2u32 | 0u32) & !(2u32 | 8u32) == 0)
        by (bit_vector);
}

} // verus!
