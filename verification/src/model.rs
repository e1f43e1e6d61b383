//! The mathematical model of the device: its state as plain values and each
//! operation as a function from the state before to the state after.
//!
//! The device never calls its host. What it has to tell the host is appended
//! to `signals`, in order, and the embedder delivers it.

use vstd::prelude::*;
use crate::registers::{
    bit, data_byte, divisor, pending_word, register_at, watermark, with_data_byte, with_status,
    Register, BAUD_DIVISOR_DEFAULT,
};

verus! {

/// What the device tells its embedder.
#[derive(Clone, Copy, Debug, PartialEq, Eq)]
pub enum Signal {
    /// The interrupt request line is driven to this level.
    SetIrq(bool),
    /// This byte left the device on the transmit side.
    CharReceived(u8),
    /// A write addressed this offset, where no register is mapped.
    UnhandledWrite(i64),
}

/// An operation of the host on the device.
#[derive(Clone, Copy, Debug, PartialEq, Eq)]
pub enum Operation {
    /// Return to the power-on state.
    Reset,
    /// A byte arrives from the serial line: the low eight bits of the word.
    WriteChar(u32),
    /// Read the register at an offset.
    Read(i64),
    /// Write a word to the register at an offset.
    Write(i64, u32),
}

/// The state of the device.
pub struct UartModel {
    /// Transmit data register.
    pub transmit_data: u32,
    /// Receive data register.
    pub receive_data: u32,
    /// Transmit control register.
    pub transmit_control: u32,
    /// Receive control register.
    pub receive_control: u32,
    /// Interrupt enable register.
    pub interrupt_enable: u32,
    /// Interrupt pending register.
    pub interrupt_pending: u32,
    /// Baud rate divisor register.
    pub baud_divisor: u32,
    /// Whether bytes written to transmit data are sent.
    pub transmit_enable: bool,
    /// Whether arriving bytes are kept.
    pub receive_enable: bool,
    /// Two stop bits instead of one.
    pub two_stop_bits: bool,
    /// The baud rate divisor.
    pub divisor: u16,
    /// Transmit watermark level.
    pub transmit_watermark: u8,
    /// Receive watermark level.
    pub receive_watermark: u8,
    /// Transmit watermark interrupt enabled.
    pub transmit_irq_enable: bool,
    /// Receive watermark interrupt enabled.
    pub receive_irq_enable: bool,
    /// Transmit watermark interrupt pending, as of the last recomputation.
    pub transmit_pending: bool,
    /// Receive watermark interrupt pending, as of the last recomputation.
    pub receive_pending: bool,
    /// Level of the interrupt request line, as last signalled.
    pub irq: bool,
    /// Bytes received and not yet read, oldest first.
    pub queue: Seq<u8>,
    /// Signals not yet taken by the embedder, oldest first.
    pub signals: Seq<Signal>,
}

impl UartModel {
    /// The state after power-on: every register zero except the baud rate
    /// divisor, both directions enabled, no interrupt enabled or pending, the
    /// interrupt line low, nothing queued and nothing to signal.
    pub open spec fn power_on() -> Self {
        UartModel {
            transmit_data: 0,
            receive_data: 0,
            transmit_control: 0,
            receive_control: 0,
            interrupt_enable: 0,
            interrupt_pending: 0,
            baud_divisor: BAUD_DIVISOR_DEFAULT,
            transmit_enable: true,
            receive_enable: true,
            two_stop_bits: false,
            divisor: 0xFFFF,
            transmit_watermark: 0,
            receive_watermark: 0,
            transmit_irq_enable: false,
            receive_irq_enable: false,
            transmit_pending: false,
            receive_pending: false,
            irq: false,
            queue: Seq::empty(),
            signals: Seq::empty(),
        }
    }

    /// The stored value of a register.
    pub open spec fn register(self, register: Register) -> u32 {
        match register {
            Register::TransmitData => self.transmit_data,
            Register::ReceiveData => self.receive_data,
            Register::TransmitControl => self.transmit_control,
            Register::ReceiveControl => self.receive_control,
            Register::InterruptEnable => self.interrupt_enable,
            Register::InterruptPending => self.interrupt_pending,
            Register::BaudDivisor => self.baud_divisor,
        }
    }

    /// The transmit watermark condition: a positive level is configured.
    pub open spec fn transmit_condition(self) -> bool {
        self.transmit_watermark > 0
    }

    /// The receive watermark condition: more bytes are queued than the level.
    pub open spec fn receive_condition(self) -> bool {
        self.queue.len() > self.receive_watermark
    }

    /// The level the interrupt request line has to take in this state.
    pub open spec fn irq_level(self) -> bool {
        (self.transmit_irq_enable && self.transmit_condition())
            || (self.receive_irq_enable && self.receive_condition())
    }

    /// This state with `signal` appended to what is to be signalled.
    pub open spec fn signalling(self, signal: Signal) -> Self {
        UartModel { signals: self.signals.push(signal), ..self }
    }

    /// Interrupts recomputed: both pending conditions are taken from the
    /// current state, and the resulting line level is stored and signalled,
    /// whether or not it changed.
    pub open spec fn recomputed(self) -> Self {
        UartModel {
            transmit_pending: self.transmit_condition(),
            receive_pending: self.receive_condition(),
            irq: self.irq_level(),
            ..self
        }.signalling(Signal::SetIrq(self.irq_level()))
    }

    /// What follows the queue running empty: with the receiver enabled,
    /// interrupts are recomputed.
    pub open spec fn emptied(self) -> Self {
        if self.receive_enable {
            self.recomputed()
        } else {
            self
        }
    }

    /// The receive queue cleared.
    pub open spec fn cleared(self) -> Self {
        UartModel { queue: Seq::empty(), ..self }.emptied()
    }

    /// A byte arrived from the serial line. It joins the tail of the queue;
    /// a disabled receiver then discards the queue, an enabled one recomputes
    /// interrupts.
    pub open spec fn received(self, byte: u8) -> Self {
        let queued = UartModel { queue: self.queue.push(byte), ..self };
        if self.receive_enable {
            queued.recomputed()
        } else {
            queued.cleared()
        }
    }

    /// The byte at the head of the queue, if there is one.
    pub open spec fn head(self) -> Option<u8> {
        if self.queue.len() > 0 {
            Some(self.queue[0])
        } else {
            None
        }
    }

    /// The head of the queue removed, if there is one. When that leaves the
    /// queue empty, `emptied` follows.
    pub open spec fn popped(self) -> Self {
        if self.queue.len() == 0 {
            self
        } else {
            let rest = UartModel { queue: self.queue.drop_first(), ..self };
            if rest.queue.len() == 0 {
                rest.emptied()
            } else {
                rest
            }
        }
    }

    /// The state after a reset: the queue is cleared, registers and
    /// configuration return to their power-on values, and interrupts are
    /// recomputed. Signals not yet taken stay.
    pub open spec fn after_reset(self) -> Self {
        UartModel { signals: self.cleared().signals, ..Self::power_on() }.recomputed()
    }

    /// The receive data register as a read leaves it: bit 31 tells whether the
    /// queue was empty before the read, and the byte taken from the queue, if
    /// there was one, replaces bits 0 to 7.
    pub open spec fn receive_word(self) -> u32 {
        let flagged = with_status(self.receive_data, self.queue.len() == 0);
        match self.head() {
            Some(byte) => with_data_byte(flagged, byte),
            None => flagged,
        }
    }

    /// The state after a read of transmit data: its FULL bit is cleared, for
    /// the device sends at once and never holds a byte back.
    pub open spec fn after_transmit_data_read(self) -> Self {
        UartModel { transmit_data: with_status(self.transmit_data, false), ..self }
    }

    /// The state after a read of receive data: the head of the queue is taken
    /// and the word returned is stored.
    pub open spec fn after_receive_data_read(self) -> Self {
        UartModel { receive_data: self.receive_word(), ..self.popped() }
    }

    /// The state after a read of interrupt pending: both conditions are taken
    /// afresh from the state and stored, as flags and in the register. The
    /// interrupt line is not touched.
    pub open spec fn after_interrupt_pending_read(self) -> Self {
        UartModel {
            transmit_pending: self.transmit_condition(),
            receive_pending: self.receive_condition(),
            interrupt_pending: pending_word(self.transmit_condition(), self.receive_condition()),
            ..self
        }
    }

    /// The state after a read at `offset`. Only reads of transmit data, receive
    /// data and interrupt pending change anything.
    pub open spec fn after_read(self, offset: i64) -> Self {
        match register_at(offset) {
            Some(Register::TransmitData) => self.after_transmit_data_read(),
            Some(Register::ReceiveData) => self.after_receive_data_read(),
            Some(Register::InterruptPending) => self.after_interrupt_pending_read(),
            _ => self,
        }
    }

    /// The word that a read at `offset` returns: the value of the register
    /// once the read has had its effect, and 0 where no register is mapped.
    pub open spec fn read_value(self, offset: i64) -> u32 {
        match register_at(offset) {
            Some(register) => self.after_read(offset).register(register),
            None => 0,
        }
    }

    /// The state after `value` is written to transmit data: the word is
    /// stored and, with the transmitter enabled, its low byte is sent and
    /// interrupts are recomputed.
    pub open spec fn after_transmit_data(self, value: u32) -> Self {
        let stored = UartModel { transmit_data: value, ..self };
        if self.transmit_enable {
            stored.signalling(Signal::CharReceived(data_byte(value))).recomputed()
        } else {
            stored
        }
    }

    /// The transmit watermark level set to `level`. A level that differs from
    /// the one in force recomputes interrupts.
    pub open spec fn with_transmit_watermark(self, level: u8) -> Self {
        if level != self.transmit_watermark {
            UartModel { transmit_watermark: level, ..self }.recomputed()
        } else {
            self
        }
    }

    /// The receive watermark level set to `level`. A level that differs from
    /// the one in force recomputes interrupts.
    pub open spec fn with_receive_watermark(self, level: u8) -> Self {
        if level != self.receive_watermark {
            UartModel { receive_watermark: level, ..self }.recomputed()
        } else {
            self
        }
    }

    /// The transmit watermark interrupt enabled or disabled. A change
    /// recomputes interrupts.
    pub open spec fn with_transmit_irq_enable(self, enable: bool) -> Self {
        if enable != self.transmit_irq_enable {
            UartModel { transmit_irq_enable: enable, ..self }.recomputed()
        } else {
            self
        }
    }

    /// The receive watermark interrupt enabled or disabled. A change
    /// recomputes interrupts.
    pub open spec fn with_receive_irq_enable(self, enable: bool) -> Self {
        if enable != self.receive_irq_enable {
            UartModel { receive_irq_enable: enable, ..self }.recomputed()
        } else {
            self
        }
    }

    /// The receiver enabled or disabled. Disabling an enabled receiver clears
    /// the queue.
    pub open spec fn with_receive_enable(self, enable: bool) -> Self {
        let switched = UartModel { receive_enable: enable, ..self };
        if self.receive_enable && !enable {
            switched.cleared()
        } else {
            switched
        }
    }

    /// The state after `value` is written to transmit control: the word is
    /// stored, enable and stop bits take effect at once, and the watermark
    /// level is set.
    pub open spec fn after_transmit_control(self, value: u32) -> Self {
        UartModel {
            transmit_control: value,
            transmit_enable: bit(value, 0),
            two_stop_bits: bit(value, 1),
            ..self
        }.with_transmit_watermark(watermark(value))
    }

    /// The state after `value` is written to receive control: the word is
    /// stored, the receiver is enabled or disabled, and then the watermark
    /// level is set.
    pub open spec fn after_receive_control(self, value: u32) -> Self {
        UartModel { receive_control: value, ..self }.with_receive_enable(
            bit(value, 0),
        ).with_receive_watermark(watermark(value))
    }

    /// The state after `value` is written to interrupt enable: the word is
    /// stored and the two enables are set, the transmit one first.
    pub open spec fn after_interrupt_enable(self, value: u32) -> Self {
        UartModel { interrupt_enable: value, ..self }.with_transmit_irq_enable(
            bit(value, 0),
        ).with_receive_irq_enable(bit(value, 1))
    }

    /// The state after `value` is written to the baud rate divisor.
    pub open spec fn after_baud_divisor(self, value: u32) -> Self {
        UartModel { baud_divisor: value, divisor: divisor(value), ..self }
    }

    /// The state after `value` is written at `offset`.
    ///
    /// Writes to receive data and to interrupt pending are discarded. A write
    /// where no register is mapped changes no register and is signalled.
    pub open spec fn after_write(self, offset: i64, value: u32) -> Self {
        match register_at(offset) {
            Some(Register::TransmitData) => self.after_transmit_data(value),
            Some(Register::ReceiveData) => self,
            Some(Register::TransmitControl) => self.after_transmit_control(value),
            Some(Register::ReceiveControl) => self.after_receive_control(value),
            Some(Register::InterruptEnable) => self.after_interrupt_enable(value),
            Some(Register::InterruptPending) => self,
            Some(Register::BaudDivisor) => self.after_baud_divisor(value),
            None => self.signalling(Signal::UnhandledWrite(offset)),
        }
    }

    /// This state with all signals taken.
    pub open spec fn drained(self) -> Self {
        UartModel { signals: Seq::empty(), ..self }
    }

    /// The state after an operation.
    pub open spec fn after(self, operation: Operation) -> Self {
        match operation {
            Operation::Reset => self.after_reset(),
            Operation::WriteChar(value) => self.received(data_byte(value)),
            Operation::Read(offset) => self.after_read(offset),
            Operation::Write(offset, value) => self.after_write(offset, value),
        }
    }

    /// What holds of every state that operations lead to from power-on: the
    /// decoded configuration mirrors the registers it was decoded from, both
    /// watermark levels lie between 0 and 7, the stored transmit condition is
    /// current, and a disabled receiver holds no bytes.
    pub open spec fn valid(self) -> bool {
        &&& self.transmit_watermark == watermark(self.transmit_control)
        &&& self.receive_watermark == watermark(self.receive_control)
        &&& self.transmit_watermark <= 7
        &&& self.receive_watermark <= 7
        &&& self.two_stop_bits == bit(self.transmit_control, 1)
        &&& self.transmit_control != 0 ==> self.transmit_enable == bit(self.transmit_control, 0)
        &&& self.receive_control != 0 ==> self.receive_enable == bit(self.receive_control, 0)
        &&& self.transmit_irq_enable == bit(self.interrupt_enable, 0)
        &&& self.receive_irq_enable == bit(self.interrupt_enable, 1)
        &&& self.divisor == divisor(self.baud_divisor)
        &&& self.interrupt_pending <= 3
        &&& self.transmit_pending == self.transmit_condition()
        &&& !self.receive_enable ==> self.queue.len() == 0
    }
}

} // verus!
