//! The device itself: one owned instance that holds the register file, the
//! decoded configuration, the receive queue and the signals for the host.
//!
//! Every operation takes the device by exclusive reference, so a push from the
//! serial line and a pop by a register read can never interleave.

use std::collections::VecDeque;
use vstd::prelude::*;
use crate::laws::{law_operations_keep_valid, law_power_on_valid};
use crate::model::{Operation, Signal, UartModel};
use crate::registers::{
    bit, data_byte, decode_bit, decode_data_byte, decode_divisor, decode_offset,
    decode_watermark, encode_data_byte, encode_pending, encode_status, register_at, status,
    Register, BAUD_DIVISOR_DEFAULT, INTERRUPT_PENDING_OFFSET, RECEIVE_CONTROL_OFFSET,
    RECEIVE_DATA_OFFSET, TRANSMIT_DATA_OFFSET,
};

verus! {

/// A memory-mapped UART.
pub struct Uart {
    transmit_data: u32,
    receive_data: u32,
    transmit_control: u32,
    receive_control: u32,
    interrupt_enable: u32,
    interrupt_pending: u32,
    baud_divisor: u32,
    transmit_enable: bool,
    receive_enable: bool,
    two_stop_bits: bool,
    divisor: u16,
    transmit_watermark: u8,
    receive_watermark: u8,
    transmit_irq_enable: bool,
    receive_irq_enable: bool,
    transmit_pending: bool,
    receive_pending: bool,
    irq: bool,
    queue: VecDeque<u8>,
    signals: Vec<Signal>,
}

impl View for Uart {
    type V = UartModel;

    closed spec fn view(&self) -> UartModel {
        UartModel {
            transmit_data: self.transmit_data,
            receive_data: self.receive_data,
            transmit_control: self.transmit_control,
            receive_control: self.receive_control,
            interrupt_enable: self.interrupt_enable,
            interrupt_pending: self.interrupt_pending,
            baud_divisor: self.baud_divisor,
            transmit_enable: self.transmit_enable,
            receive_enable: self.receive_enable,
            two_stop_bits: self.two_stop_bits,
            divisor: self.divisor,
            transmit_watermark: self.transmit_watermark,
            receive_watermark: self.receive_watermark,
            transmit_irq_enable: self.transmit_irq_enable,
            receive_irq_enable: self.receive_irq_enable,
            transmit_pending: self.transmit_pending,
            receive_pending: self.receive_pending,
            irq: self.irq,
            queue: self.queue@,
            signals: self.signals@,
        }
    }
}

impl Default for Uart {
    /// A device in its power-on state.
    fn default() -> (device: Uart)
        ensures
            device@ == UartModel::power_on(),
            device@.valid(),
    {
        Uart::new()
    }
}

impl Uart {
    /// A device in its power-on state.
    pub fn new() -> (device: Uart)
        ensures
            device@ == UartModel::power_on(),
            device@.valid(),
    {
        proof {
            law_power_on_valid();
        }
        Uart {
            transmit_data: 0,
            receive_data: 0,
            transmit_control: 0,
            receive_control: 0,
            interrupt_enable: 0,
            interrupt_pending: 0,
            baud_divisor: BAUD_DIVISOR_DEFAULT,
            transmit_enable: true,
            receive_enable: true,
            two_stop_bits: false,
            divisor: 0xFFFF,
            transmit_watermark: 0,
            receive_watermark: 0,
            transmit_irq_enable: false,
            receive_irq_enable: false,
            transmit_pending: false,
            receive_pending: false,
            irq: false,
            queue: VecDeque::new(),
            signals: Vec::new(),
        }
    }

    /// Recomputes both pending conditions and the interrupt line, and signals
    /// the line's level.
    fn update_interrupts(&mut self)
        ensures
            final(self)@ == old(self)@.recomputed(),
    {
        self.transmit_pending = self.transmit_watermark > 0;
        self.receive_pending = self.queue.len() > self.receive_watermark as usize;
        let level = (self.transmit_irq_enable && self.transmit_pending)
            || (self.receive_irq_enable && self.receive_pending);
        self.irq = level;
        self.signals.push(Signal::SetIrq(level));
    }

    /// Follows the queue running empty: an enabled receiver recomputes
    /// interrupts.
    fn queue_emptied(&mut self)
        ensures
            final(self)@ == old(self)@.emptied(),
    {
        if self.receive_enable {
            self.update_interrupts();
        }
    }

    /// Empties the receive queue.
    fn clear_buffer(&mut self)
        ensures
            final(self)@ == old(self)@.cleared(),
    {
        self.queue.clear();
        self.queue_emptied();
    }

    /// Follows a byte joining the queue: a disabled receiver discards the
    /// queue, an enabled one recomputes interrupts.
    fn char_written(&mut self)
        ensures
            final(self)@ == (if old(self)@.receive_enable {
                old(self)@.recomputed()
            } else {
                old(self)@.cleared()
            }),
    {
        if !self.receive_enable {
            self.clear_buffer();
        } else {
            self.update_interrupts();
        }
    }

    /// Takes the byte at the head of the receive queue. An empty queue gives
    /// `None` and changes nothing.
    fn try_get_character(&mut self) -> (character: Option<u8>)
        ensures
            character == old(self)@.head(),
            character is Some <==> old(self)@.queue.len() > 0,
            final(self)@ == old(self)@.popped(),
    {
        let character = self.queue.pop_front();
        if character.is_some() && self.queue.len() == 0 {
            self.queue_emptied();
        }
        character
    }

    /// Hands a byte to the host.
    fn transmit_character(&mut self, character: u8)
        ensures
            final(self)@ == old(self)@.signalling(Signal::CharReceived(character)),
    {
        self.signals.push(Signal::CharReceived(character));
    }

    /// Restores registers and configuration to their power-on values. The
    /// queue and the signals stay.
    fn reset_registers(&mut self)
        ensures
            final(self)@ == (UartModel {
                queue: old(self)@.queue,
                signals: old(self)@.signals,
                ..UartModel::power_on()
            }),
    {
        self.transmit_data = 0;
        self.receive_data = 0;
        self.transmit_control = 0;
        self.receive_control = 0;
        self.interrupt_enable = 0;
        self.interrupt_pending = 0;
        self.baud_divisor = BAUD_DIVISOR_DEFAULT;
        self.transmit_enable = true;
        self.receive_enable = true;
        self.two_stop_bits = false;
        self.divisor = 0xFFFF;
        self.transmit_watermark = 0;
        self.receive_watermark = 0;
        self.transmit_irq_enable = false;
        self.receive_irq_enable = false;
        self.transmit_pending = false;
        self.receive_pending = false;
        self.irq = false;
    }

    /// Clears the FULL bit of transmit data and returns the register.
    fn read_transmit_data(&mut self) -> (word: u32)
        ensures
            final(self)@ == old(self)@.after_transmit_data_read(),
            word == final(self)@.transmit_data,
            !status(word),
    {
        self.transmit_data = encode_status(self.transmit_data, false);
        self.transmit_data
    }

    /// Sets the EMPTY bit of receive data by the queue as it is, then takes a
    /// byte from the queue into the low eight bits, and returns the register.
    fn read_receive_data(&mut self) -> (word: u32)
        ensures
            final(self)@ == old(self)@.after_receive_data_read(),
            word == final(self)@.receive_data,
            status(word) == (old(self)@.queue.len() == 0),
            old(self)@.queue.len() > 0 ==> data_byte(word) == old(self)@.queue[0],
    {
        let flagged = encode_status(self.receive_data, self.queue.len() == 0);
        let word = match self.try_get_character() {
            Some(character) => encode_data_byte(flagged, character),
            None => flagged,
        };
        self.receive_data = word;
        word
    }

    /// Stores both pending conditions afresh and returns the register built
    /// from them.
    fn read_interrupt_pending(&mut self) -> (word: u32)
        ensures
            final(self)@ == old(self)@.after_interrupt_pending_read(),
            word == final(self)@.interrupt_pending,
            bit(word, 0) == old(self)@.transmit_condition(),
            bit(word, 1) == old(self)@.receive_condition(),
    {
        self.transmit_pending = self.transmit_watermark > 0;
        self.receive_pending = self.queue.len() > self.receive_watermark as usize;
        self.interrupt_pending = encode_pending(self.transmit_pending, self.receive_pending);
        self.interrupt_pending
    }

    /// Stores a word in transmit data and, with the transmitter enabled,
    /// sends its low byte and recomputes interrupts.
    fn write_transmit_data(&mut self, value: u32)
        ensures
            final(self)@ == old(self)@.after_transmit_data(value),
            final(self)@.signals == (if old(self)@.transmit_enable {
                old(self)@.signals + seq![
                    Signal::CharReceived(data_byte(value)),
                    Signal::SetIrq(old(self)@.irq_level()),
                ]
            } else {
                old(self)@.signals
            }),
    {
        self.transmit_data = value;
        let character = decode_data_byte(value);
        if self.transmit_enable {
            self.transmit_character(character);
            self.update_interrupts();
        }
    }

    /// Sets the transmit watermark level and, if it changed, recomputes
    /// interrupts.
    fn set_transmit_watermark(&mut self, level: u8)
        ensures
            final(self)@ == old(self)@.with_transmit_watermark(level),
    {
        if level != self.transmit_watermark {
            self.transmit_watermark = level;
            self.update_interrupts();
        }
    }

    /// Sets the receive watermark level and, if it changed, recomputes
    /// interrupts.
    fn set_receive_watermark(&mut self, level: u8)
        ensures
            final(self)@ == old(self)@.with_receive_watermark(level),
    {
        if level != self.receive_watermark {
            self.receive_watermark = level;
            self.update_interrupts();
        }
    }

    /// Enables or disables the transmit watermark interrupt and, if that is a
    /// change, recomputes interrupts.
    fn set_transmit_irq_enable(&mut self, enable: bool)
        ensures
            final(self)@ == old(self)@.with_transmit_irq_enable(enable),
    {
        if enable != self.transmit_irq_enable {
            self.transmit_irq_enable = enable;
            self.update_interrupts();
        }
    }

    /// Enables or disables the receive watermark interrupt and, if that is a
    /// change, recomputes interrupts.
    fn set_receive_irq_enable(&mut self, enable: bool)
        ensures
            final(self)@ == old(self)@.with_receive_irq_enable(enable),
    {
        if enable != self.receive_irq_enable {
            self.receive_irq_enable = enable;
            self.update_interrupts();
        }
    }

    /// Enables or disables the receiver. Disabling an enabled receiver clears
    /// the queue.
    fn set_receive_enable(&mut self, enable: bool)
        ensures
            final(self)@ == old(self)@.with_receive_enable(enable),
    {
        if self.receive_enable != enable {
            self.receive_enable = enable;
            if !enable {
                self.clear_buffer();
            }
        }
    }

    /// Stores a word in transmit control and decodes its fields.
    fn write_transmit_control(&mut self, value: u32)
        ensures
            final(self)@ == old(self)@.after_transmit_control(value),
    {
        self.transmit_control = value;
        self.transmit_enable = decode_bit(value, 0);
        self.two_stop_bits = decode_bit(value, 1);
        self.set_transmit_watermark(decode_watermark(value));
    }

    /// Stores a word in receive control and decodes its fields.
    fn write_receive_control(&mut self, value: u32)
        ensures
            final(self)@ == old(self)@.after_receive_control(value),
            old(self)@.receive_enable && !bit(value, 0) ==> final(self)@.queue.len() == 0,
    {
        self.receive_control = value;
        self.set_receive_enable(decode_bit(value, 0));
        self.set_receive_watermark(decode_watermark(value));
    }

    /// Stores a word in interrupt enable and decodes its fields.
    fn write_interrupt_enable(&mut self, value: u32)
        ensures
            final(self)@ == old(self)@.after_interrupt_enable(value),
    {
        self.interrupt_enable = value;
        self.set_transmit_irq_enable(decode_bit(value, 0));
        self.set_receive_irq_enable(decode_bit(value, 1));
    }

    /// Stores a word in the baud rate divisor and decodes the divisor.
    fn write_baud_divisor(&mut self, value: u32)
        ensures
            final(self)@ == old(self)@.after_baud_divisor(value),
    {
        self.baud_divisor = value;
        self.divisor = decode_divisor(value);
    }

    /// Takes the signals that the operations so far have left for the host,
    /// oldest first.
    pub fn take_signals(&mut self) -> (signals: Vec<Signal>)
        ensures
            signals@ == old(self)@.signals,
            final(self)@ == old(self)@.drained(),
            old(self)@.valid() ==> final(self)@.valid(),
    {
        let mut taken: Vec<Signal> = Vec::new();
        core::mem::swap(&mut self.signals, &mut taken);
        taken
    }

    /// The stored value of a register. Unlike a read, this changes nothing.
    pub fn register(&self, register: Register) -> (word: u32)
        ensures
            word == self@.register(register),
    {
        match register {
            Register::TransmitData => self.transmit_data,
            Register::ReceiveData => self.receive_data,
            Register::TransmitControl => self.transmit_control,
            Register::ReceiveControl => self.receive_control,
            Register::InterruptEnable => self.interrupt_enable,
            Register::InterruptPending => self.interrupt_pending,
            Register::BaudDivisor => self.baud_divisor,
        }
    }

    /// The level of the interrupt request line, as last signalled.
    pub fn irq(&self) -> (level: bool)
        ensures
            level == self@.irq,
    {
        self.irq
    }

    /// The number of bytes received and not yet read.
    pub fn queue_count(&self) -> (count: usize)
        ensures
            count == self@.queue.len(),
    {
        self.queue.len()
    }

    /// Whether bytes written to transmit data are sent.
    pub fn transmit_enable(&self) -> (enable: bool)
        ensures
            enable == self@.transmit_enable,
    {
        self.transmit_enable
    }

    /// Whether arriving bytes are kept.
    pub fn receive_enable(&self) -> (enable: bool)
        ensures
            enable == self@.receive_enable,
    {
        self.receive_enable
    }

    /// Whether two stop bits are configured instead of one.
    pub fn two_stop_bits(&self) -> (two: bool)
        ensures
            two == self@.two_stop_bits,
    {
        self.two_stop_bits
    }

    /// The baud rate divisor.
    pub fn divisor(&self) -> (value: u16)
        ensures
            value == self@.divisor,
    {
        self.divisor
    }

    /// The transmit watermark level.
    pub fn transmit_watermark(&self) -> (level: u8)
        ensures
            level == self@.transmit_watermark,
    {
        self.transmit_watermark
    }

    /// The receive watermark level.
    pub fn receive_watermark(&self) -> (level: u8)
        ensures
            level == self@.receive_watermark,
    {
        self.receive_watermark
    }

    /// Whether the transmit watermark interrupt is enabled.
    pub fn transmit_irq_enable(&self) -> (enable: bool)
        ensures
            enable == self@.transmit_irq_enable,
    {
        self.transmit_irq_enable
    }

    /// Whether the receive watermark interrupt is enabled.
    pub fn receive_irq_enable(&self) -> (enable: bool)
        ensures
            enable == self@.receive_irq_enable,
    {
        self.receive_irq_enable
    }

    /// Whether the transmit watermark interrupt was pending when interrupts
    /// were last recomputed.
    pub fn transmit_pending(&self) -> (pending: bool)
        ensures
            pending == self@.transmit_pending,
    {
        self.transmit_pending
    }

    /// Whether the receive watermark interrupt was pending when interrupts
    /// were last recomputed.
    pub fn receive_pending(&self) -> (pending: bool)
        ensures
            pending == self@.receive_pending,
    {
        self.receive_pending
    }
}

/// Returns the device to its power-on state.
///
/// The queue is cleared first, which recomputes interrupts if the receiver was
/// enabled: with the queue empty only the transmit watermark can hold the line
/// high. Then registers and configuration are restored and interrupts are
/// recomputed, which signals a low interrupt line.
pub fn reset(device: &mut Uart)
    ensures
        final(device)@ == old(device)@.after_reset(),
        ({
            let before = old(device)@;
            let after = final(device)@;
            &&& after.drained() == UartModel::power_on()
            &&& after.signals == (if before.receive_enable {
                before.signals + seq![
                    Signal::SetIrq(before.transmit_irq_enable && before.transmit_watermark > 0),
                    Signal::SetIrq(false),
                ]
            } else {
                before.signals.push(Signal::SetIrq(false))
            })
        }),
        final(device)@.valid(),
{
    proof {
        law_power_on_valid();
    }
    device.clear_buffer();
    device.reset_registers();
    device.update_interrupts();
}

/// Takes a byte that arrived from the serial line: the low eight bits of
/// `value`.
///
/// An enabled receiver appends the byte to the queue and recomputes
/// interrupts. A disabled receiver discards it, with whatever the queue held,
/// and signals nothing.
pub fn write_char(device: &mut Uart, value: u32)
    ensures
        final(device)@ == old(device)@.received(data_byte(value)),
        ({
            let before = old(device)@;
            let after = final(device)@;
            if before.receive_enable {
                &&& after.queue == before.queue.push(data_byte(value))
                &&& after.signals == before.signals.push(Signal::SetIrq(after.irq_level()))
            } else {
                &&& after.queue.len() == 0
                &&& after.signals == before.signals
            }
        }),
        old(device)@.valid() ==> final(device)@.valid(),
{
    proof {
        if device@.valid() {
            law_operations_keep_valid(device@, Operation::WriteChar(value));
        }
    }
    let byte = decode_data_byte(value);
    device.queue.push_back(byte);
    device.char_written();
}

/// Reads the register at `offset`.
///
/// A read of transmit data, receive data or interrupt pending changes the
/// device as `UartModel::after_read` says. Where no register is mapped the
/// read gives 0 and changes nothing.
pub fn read_double_word(device: &mut Uart, offset: i64) -> (word: u32)
    ensures
        word == old(device)@.read_value(offset),
        final(device)@ == old(device)@.after_read(offset),
        register_at(offset) is None ==> word == 0 && final(device)@ == old(device)@,
        offset == TRANSMIT_DATA_OFFSET ==> !status(word),
        offset == RECEIVE_DATA_OFFSET ==> status(word) == (old(device)@.queue.len() == 0),
        offset == RECEIVE_DATA_OFFSET && old(device)@.queue.len() > 0 ==> data_byte(word)
            == old(device)@.queue[0],
        old(device)@.valid() ==> final(device)@.valid(),
{
    proof {
        if device@.valid() {
            law_operations_keep_valid(device@, Operation::Read(offset));
        }
    }
    match decode_offset(offset) {
        Some(Register::TransmitData) => device.read_transmit_data(),
        Some(Register::ReceiveData) => device.read_receive_data(),
        Some(Register::TransmitControl) => device.transmit_control,
        Some(Register::ReceiveControl) => device.receive_control,
        Some(Register::InterruptEnable) => device.interrupt_enable,
        Some(Register::InterruptPending) => device.read_interrupt_pending(),
        Some(Register::BaudDivisor) => device.baud_divisor,
        None => 0,
    }
}

/// Writes `value` to the register at `offset`.
///
/// Transmit data stores the word and, with the transmitter enabled, sends its
/// low byte and recomputes interrupts. The two control registers, interrupt
/// enable and the baud rate divisor store the word and decode their fields;
/// a changed watermark level or interrupt enable recomputes interrupts, and
/// disabling an enabled receiver clears the queue. Writes to receive data and
/// to interrupt pending are discarded. A write where no register is mapped
/// changes no register and leaves `Signal::UnhandledWrite` for the host.
pub fn write_double_word(device: &mut Uart, offset: i64, value: u32)
    ensures
        final(device)@ == old(device)@.after_write(offset, value),
        ({
            let before = old(device)@;
            let after = final(device)@;
            &&& offset == TRANSMIT_DATA_OFFSET ==> after.signals == (if before.transmit_enable {
                before.signals + seq![
                    Signal::CharReceived(data_byte(value)),
                    Signal::SetIrq(before.irq_level()),
                ]
            } else {
                before.signals
            })
            &&& offset == RECEIVE_CONTROL_OFFSET && before.receive_enable && !bit(value, 0)
                ==> after.queue.len() == 0
            &&& offset == RECEIVE_DATA_OFFSET || offset == INTERRUPT_PENDING_OFFSET ==> after
                == before
            &&& register_at(offset) is None ==> after == before.signalling(
                Signal::UnhandledWrite(offset),
            )
        }),
        old(device)@.valid() ==> final(device)@.valid(),
{
    proof {
        if device@.valid() {
            law_operations_keep_valid(device@, Operation::Write(offset, value));
        }
    }
    match decode_offset(offset) {
        Some(Register::TransmitData) => device.write_transmit_data(value),
        Some(Register::ReceiveData) => {},
        Some(Register::TransmitControl) => device.write_transmit_control(value),
        Some(Register::ReceiveControl) => device.write_receive_control(value),
        Some(Register::InterruptEnable) => device.write_interrupt_enable(value),
        Some(Register::InterruptPending) => {},
        Some(Register::BaudDivisor) => device.write_baud_divisor(value),
        None => device.signals.push(Signal::UnhandledWrite(offset)),
    }
}

} // verus!
