//! The PL011 UART: the register writes that configure it, and its character
//! conversions and counters.
//!
//! Register access, and the busy waiting on the flag register that goes with
//! it, stay with the caller.

use vstd::prelude::*;
use crate::sync::{Mutex, NullLock};

verus! {

/// A register of the PL011 that configuration writes.
#[derive(PartialEq, Eq, Structural, Clone, Copy, Debug)]
#[allow(non_camel_case_types)]
pub enum UartRegister {
    /// Control register.
    CR,
    /// Interrupt clear register.
    ICR,
    /// Integer baud rate divisor.
    IBRD,
    /// Fractional baud rate divisor.
    FBRD,
    /// Line control register.
    LCR_H,
}

/// One write of `value` to `register`.
#[derive(PartialEq, Eq, Structural, Clone, Copy, Debug)]
pub struct UartWrite {
    pub register: UartRegister,
    pub value: u32,
}

/// `CR` with every bit clear: the UART is off.
pub const CR_DISABLED: u32 = 0;

/// `ICR` with its `ALL` field (bits 10 to 0) at its clear value.
pub const ICR_ALL_CLEAR: u32 = 0;

/// Integer part of the baud rate divisor: `(48_000_000 / 16) / 921_600` is 3.2552083.
pub const IBRD_BAUD_DIVINT: u32 = 3;

/// Fractional part of the divisor, in 64ths: `INTEGER((0.2552083 * 64) + 0.5)` is 16.
pub const FBRD_BAUD_DIVFRAC: u32 = 16;

/// `LCR_H` with `WLEN` (bits 6 to 5) = eight bits and `FEN` (bit 4) set: 8N1 with FIFOs.
pub const LCR_H_8N1_FIFO: u32 = 0x70;

/// `CR` with `UARTEN` (bit 0), `TXE` (bit 8) and `RXE` (bit 9) set.
pub const CR_ENABLED: u32 = 0x301;

/// The configuration writes, in order: off, interrupts cleared, 921600 baud,
/// 8N1 with FIFOs (the line control write last, which latches the divisors),
/// then on with transmit and receive enabled.
pub open spec fn init_writes() -> Seq<UartWrite> {
    seq![
        UartWrite { register: UartRegister::CR, value: CR_DISABLED },
        UartWrite { register: UartRegister::ICR, value: ICR_ALL_CLEAR },
        UartWrite { register: UartRegister::IBRD, value: IBRD_BAUD_DIVINT },
        UartWrite { register: UartRegister::FBRD, value: FBRD_BAUD_DIVFRAC },
        UartWrite { register: UartRegister::LCR_H, value: LCR_H_8N1_FIFO },
        UartWrite { register: UartRegister::CR, value: CR_ENABLED },
    ]
}

/// The character a received data register value stands for: its low byte,
/// with a carriage return read as a newline.
pub open spec fn received_char(data: u32) -> char {
    let c = ((data % 256) as u8) as char;
    if c == '\r' {
        '\n'
    } else {
        c
    }
}

/// The counter after one more character, wrapping at the word size.
pub open spec fn bumped(n: usize) -> usize {
    if n == usize::MAX {
        0
    } else {
        (n + 1) as usize
    }
}

/// The driver's state: where its registers are and what it has moved.
pub struct PL011UartInner {
    mmio_start_addr: usize,
    chars_written: usize,
    chars_read: usize,
}

impl PL011UartInner {
    /// Base address of the registers.
    pub closed spec fn base(&self) -> usize {
        self.mmio_start_addr
    }

    /// Characters written so far, counted modulo the word size.
    pub closed spec fn written(&self) -> usize {
        self.chars_written
    }

    /// Characters read so far, counted modulo the word size.
    pub closed spec fn read_count(&self) -> usize {
        self.chars_read
    }

    /// A driver for the registers at `mmio_start_addr`, nothing moved yet.
    pub fn new(mmio_start_addr: usize) -> (r: Self)
        ensures
            r.base() == mmio_start_addr,
            r.written() == 0,
            r.read_count() == 0,
    {
        PL011UartInner { mmio_start_addr, chars_written: 0, chars_read: 0 }
    }

    /// Base address of the registers.
    pub fn mmio_start_addr(&self) -> (r: usize)
        ensures
            r == self.base(),
    {
        self.mmio_start_addr
    }

    /// The register writes that configure the UART. The caller first waits
    /// until the UART is no longer busy, so that no queued character is lost
    /// when it is switched off.
    pub fn init(&mut self) -> (r: Vec<UartWrite>)
        ensures
            r@ == init_writes(),
            *final(self) == *old(self),
    {
        let mut writes: Vec<UartWrite> = Vec::new();
        writes.push(UartWrite { register: UartRegister::CR, value: CR_DISABLED });
        writes.push(UartWrite { register: UartRegister::ICR, value: ICR_ALL_CLEAR });
        writes.push(UartWrite { register: UartRegister::IBRD, value: IBRD_BAUD_DIVINT });
        writes.push(UartWrite { register: UartRegister::FBRD, value: FBRD_BAUD_DIVFRAC });
        writes.push(UartWrite { register: UartRegister::LCR_H, value: LCR_H_8N1_FIFO });
        writes.push(UartWrite { register: UartRegister::CR, value: CR_ENABLED });
        assert(writes@ =~= init_writes());
        writes
    }

    /// The data register value that sends `c`, once the transmit FIFO has
    /// room; counts the character.
    pub fn write_char(&mut self, c: char) -> (r: u32)
        ensures
            r == c as u32,
            final(self).written() == bumped(old(self).written()),
            final(self).read_count() == old(self).read_count(),
            final(self).base() == old(self).base(),
    {
        self.chars_written = self.chars_written.wrapping_add(1);
        c as u32
    }

    /// The character read, given what the data register held, or nothing
    /// when the receive FIFO was empty and the caller does not block.
    /// A character read is counted.
    pub fn read_char_converting(&mut self, data: Option<u32>) -> (r: Option<char>)
        ensures
            match data {
                Some(d) => r == Some(received_char(d)) && final(self).read_count() == bumped(
                    old(self).read_count(),
                ),
                None => r is None && final(self).read_count() == old(self).read_count(),
            },
            final(self).written() == old(self).written(),
            final(self).base() == old(self).base(),
    {
        match data {
            None => None,
            Some(d) => {
                let mut ret = ((d % 256) as u8) as char;
                if ret == '\r' {
                    ret = '\n';
                }
                self.chars_read = self.chars_read.wrapping_add(1);
                Some(ret)
            },
        }
    }
}

/// The PL011 UART driver, its state reached through a [`NullLock`].
pub struct PL011Uart {
    inner: NullLock<PL011UartInner>,
}

impl PL011Uart {
    /// The lock holds the driver's state.
    pub closed spec fn wf(&self) -> bool {
        self.inner.wf()
    }

    /// The driver's state.
    pub closed spec fn state(&self) -> PL011UartInner {
        self.inner.data()
    }

    /// A driver for the registers at `mmio_start_addr`.
    pub fn new(mmio_start_addr: usize) -> (r: Self)
        ensures
            r.wf(),
            r.state().base() == mmio_start_addr,
            r.state().written() == 0,
            r.state().read_count() == 0,
    {
        PL011Uart { inner: NullLock::new(PL011UartInner::new(mmio_start_addr)) }
    }

    /// The driver's compatible name.
    pub fn compatible(&self) -> (r: &'static str)
        ensures
            r@ == "BCM PL011 UART"@,
    {
        "BCM PL011 UART"
    }

    /// The register writes that configure the UART.
    pub fn init(&mut self) -> (r: Vec<UartWrite>)
        requires
            old(self).wf(),
        ensures
            final(self).wf(),
            r@ == init_writes(),
            final(self).state() == old(self).state(),
    {
        let configure = |inner: PL011UartInner| -> (r: (PL011UartInner, Vec<UartWrite>))
            ensures
                r.0 == inner,
                r.1@ == init_writes(),
            {
                let mut inner = inner;
                let writes = inner.init();
                (inner, writes)
            };
        self.inner.lock(configure)
    }

    /// The data register value that sends `c`; counts the character.
    pub fn write_char(&mut self, c: char) -> (r: u32)
        requires
            old(self).wf(),
        ensures
            final(self).wf(),
            r == c as u32,
            final(self).state().written() == bumped(old(self).state().written()),
            final(self).state().read_count() == old(self).state().read_count(),
    {
        let send = |inner: PL011UartInner| -> (r: (PL011UartInner, u32))
            ensures
                r.1 == c as u32,
                r.0.written() == bumped(inner.written()),
                r.0.read_count() == inner.read_count(),
            {
                let mut inner = inner;
                let v = inner.write_char(c);
                (inner, v)
            };
        self.inner.lock(send)
    }

    /// The character read, given what the data register held, or nothing
    /// when the receive FIFO was empty and the caller does not block.
    pub fn read_char_converting(&mut self, data: Option<u32>) -> (r: Option<char>)
        requires
            old(self).wf(),
        ensures
            final(self).wf(),
            match data {
                Some(d) => r == Some(received_char(d)) && final(self).state().read_count()
                    == bumped(old(self).state().read_count()),
                None => r is None && final(self).state().read_count() == old(
                    self,
                ).state().read_count(),
            },
            final(self).state().written() == old(self).state().written(),
    {
        let receive = |inner: PL011UartInner| -> (r: (PL011UartInner, Option<char>))
            ensures
                match data {
                    Some(d) => r.1 == Some(received_char(d)) && r.0.read_count() == bumped(
                        inner.read_count(),
                    ),
                    None => r.1 is None && r.0.read_count() == inner.read_count(),
                },
                r.0.written() == inner.written(),
            {
                let mut inner = inner;
                let c = inner.read_char_converting(data);
                (inner, c)
            };
        self.inner.lock(receive)
    }

    /// Characters written so far.
    pub fn chars_written(&self) -> (r: usize)
        requires
            self.wf(),
        ensures
            r == self.state().written(),
    {
        let count = |inner: &PL011UartInner| -> (r: usize)
            ensures
                r == inner.written(),
            { inner.chars_written };
        self.inner.read(count)
    }

    /// Characters read so far.
    pub fn chars_read(&self) -> (r: usize)
        requires
            self.wf(),
        ensures
            r == self.state().read_count(),
    {
        let count = |inner: &PL011UartInner| -> (r: usize)
            ensures
                r == inner.read_count(),
            { inner.chars_read };
        self.inner.read(count)
    }
}

} // verus!
