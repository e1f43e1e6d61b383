//! What holds of the device in every state, proved from the model.

use vstd::prelude::*;
use crate::model::{Operation, Signal, UartModel};
use crate::registers::{
    bit, data_byte, divisor, lemma_data_byte, lemma_power_on_words, lemma_status,
    lemma_watermark_range, register_at, status, watermark, with_data_byte, with_status, Register,
    BAUD_DIVISOR_OFFSET, RECEIVE_CONTROL_OFFSET, RECEIVE_DATA_OFFSET, STATUS_BIT,
    TRANSMIT_DATA_OFFSET,
};

verus! {

/// A reset leaves the power-on state whatever the state before: every register
/// holds 0 except the baud rate divisor, which holds 0xFFFF, and the interrupt
/// line is low, which is the last thing signalled. A read at any offset but
/// that of receive data then gives the register's power-on value; a read of
/// receive data gives the EMPTY bit alone, the queue being empty.
pub proof fn law_reset_restores_power_on(before: UartModel, offset: i64)
    ensures
        ({
            let after = before.after_reset();
            &&& after.drained() == UartModel::power_on()
            &&& forall|register: Register|
                register != Register::BaudDivisor ==> #[trigger] after.register(register) == 0
            &&& after.register(Register::BaudDivisor) == 0xFFFF
            &&& !after.irq
            &&& after.signals.last() == Signal::SetIrq(false)
            &&& offset != RECEIVE_DATA_OFFSET && offset != BAUD_DIVISOR_OFFSET
                ==> after.read_value(offset) == 0
            &&& after.read_value(BAUD_DIVISOR_OFFSET) == 0xFFFF
            &&& after.read_value(RECEIVE_DATA_OFFSET) == STATUS_BIT
        }),
{
    lemma_power_on_words();
}

/// A byte that arrives while the receiver is enabled and the queue is empty
/// is what the next read of receive data returns in its low eight bits. That
/// read has the EMPTY bit clear, for the queue held the byte when it began; it
/// leaves the queue empty, so the read after it has the EMPTY bit set.
pub proof fn law_received_byte_reads_back(before: UartModel, value: u32)
    requires
        before.receive_enable,
        before.queue.len() == 0,
    ensures
        ({
            let arrived = before.received(data_byte(value));
            let word = arrived.read_value(RECEIVE_DATA_OFFSET);
            let after = arrived.after_read(RECEIVE_DATA_OFFSET);
            &&& arrived.queue == seq![data_byte(value)]
            &&& data_byte(word) == data_byte(value)
            &&& !status(word)
            &&& after.queue.len() == 0
            &&& status(after.read_value(RECEIVE_DATA_OFFSET))
        }),
{
    let arrived = before.received(data_byte(value));
    let after = arrived.after_read(RECEIVE_DATA_OFFSET);
    lemma_status(arrived.receive_data, false);
    lemma_data_byte(with_status(arrived.receive_data, false), data_byte(value));
    lemma_status(after.receive_data, true);
}

/// The word that a read of transmit data returns never has the FULL bit set,
/// whatever was written before, and the register is left with the bit clear.
pub proof fn law_transmit_data_never_full(before: UartModel)
    ensures
        !status(before.read_value(TRANSMIT_DATA_OFFSET)),
        !status(before.after_read(TRANSMIT_DATA_OFFSET).transmit_data),
{
    lemma_status(before.transmit_data, false);
}

/// A write to transmit data with the transmitter enabled sends exactly one
/// byte, the low eight bits of the word written, and then signals the
/// interrupt line. With the transmitter disabled it signals nothing. Either
/// way the word is stored.
pub proof fn law_transmit_sends_one_byte(before: UartModel, value: u32)
    ensures
        ({
            let after = before.after_write(TRANSMIT_DATA_OFFSET, value);
            &&& after.transmit_data == value
            &&& after.signals == (if before.transmit_enable {
                before.signals + seq![
                    Signal::CharReceived(data_byte(value)),
                    Signal::SetIrq(before.irq_level()),
                ]
            } else {
                before.signals
            })
        }),
{
}

/// A write to receive control that disables an enabled receiver empties the
/// queue, and a read of receive data after it has the EMPTY bit set.
pub proof fn law_disabling_receiver_empties_queue(before: UartModel, value: u32)
    requires
        before.receive_enable,
        !bit(value, 0),
    ensures
        ({
            let after = before.after_write(RECEIVE_CONTROL_OFFSET, value);
            &&& !after.receive_enable
            &&& after.queue.len() == 0
            &&& status(after.read_value(RECEIVE_DATA_OFFSET))
        }),
{
    let after = before.after_write(RECEIVE_CONTROL_OFFSET, value);
    lemma_status(after.receive_data, true);
}

/// Recomputing interrupts drives the line high if and only if the transmit
/// watermark interrupt is enabled and the transmit level is positive, or the
/// receive watermark interrupt is enabled and more bytes are queued than the
/// receive level. That level is what is signalled, and it is the one that the
/// state left behind calls for.
pub proof fn law_irq_follows_watermarks(before: UartModel)
    ensures
        ({
            let after = before.recomputed();
            &&& after.irq <==> (before.transmit_irq_enable && before.transmit_watermark > 0)
                || (before.receive_irq_enable && before.queue.len() > before.receive_watermark)
            &&& after.signals == before.signals.push(Signal::SetIrq(after.irq))
            &&& after.irq == after.irq_level()
            &&& after.transmit_pending == (before.transmit_watermark > 0)
            &&& after.receive_pending == (before.queue.len() > before.receive_watermark)
        }),
{
}

/// Recomputing interrupts a second time, with nothing changed in between,
/// signals the same level again and leaves the state as the first time.
pub proof fn law_recompute_idempotent(before: UartModel)
    ensures
        ({
            let once = before.recomputed();
            let twice = once.recomputed();
            &&& twice.irq == once.irq
            &&& twice.signals == once.signals.push(Signal::SetIrq(once.irq))
            &&& twice.signals.last() == once.signals.last()
            &&& twice.drained() == once.drained()
        }),
{
}

/// Every field sits where the register map puts it, the word read as a binary
/// numeral: the data byte is the word modulo 2^8, the divisor the word modulo
/// 2^16, the watermark level the three binary digits from 2^16 up, bits 0 and 1
/// the two lowest digits, and the status bit the digit 2^31. Storing a data
/// byte or a status bit changes those digits and no others.
pub proof fn law_fields_by_position(word: u32, byte: u8)
    by (bit_vector)
    ensures
        data_byte(word) == word % 0x100,
        divisor(word) == word % 0x1_0000,
        watermark(word) == (word / 0x1_0000) % 8,
        bit(word, 0) == (word % 2 == 1),
        bit(word, 1) == ((word / 2) % 2 == 1),
        status(word) == (word >= 0x8000_0000),
        with_data_byte(word, byte) == word - word % 0x100 + byte,
        with_status(word, true) == word % 0x8000_0000 + 0x8000_0000,
        with_status(word, false) == word % 0x8000_0000,
{
}

/// The power-on state is valid.
pub proof fn law_power_on_valid()
    ensures
        UartModel::power_on().valid(),
{
    lemma_power_on_words();
}

/// Whether an operation changes what the interrupt line depends on without
/// recomputing it: a read of receive data that takes a byte and leaves others
/// queued, and a write to receive control that disables an enabled receiver
/// and keeps the watermark level.
pub open spec fn leaves_irq_stale(before: UartModel, operation: Operation) -> bool {
    match operation {
        Operation::Read(offset) => offset == RECEIVE_DATA_OFFSET && before.queue.len() >= 2,
        Operation::Write(offset, value) => {
            &&& offset == RECEIVE_CONTROL_OFFSET
            &&& before.receive_enable
            &&& !bit(value, 0)
            &&& watermark(value) == before.receive_watermark
        },
        _ => false,
    }
}

/// What an operation may do to the signals and the interrupt line: nothing to
/// either; or append signals the last of which is the line's new level, the
/// one that the new state calls for; or append a signal other than a line
/// level and leave the line alone.
pub open spec fn signals_in_step(before: UartModel, after: UartModel) -> bool {
    ||| after.signals == before.signals && after.irq == before.irq
    ||| {
        &&& after.signals.len() > before.signals.len()
        &&& after.signals.last() == Signal::SetIrq(after.irq)
        &&& after.irq == after.irq_level()
    }
    ||| {
        &&& after.signals.len() > before.signals.len()
        &&& !(after.signals.last() is SetIrq)
        &&& after.irq == before.irq
    }
}

/// The three things proved of each step from `before` to `after`: validity is
/// kept; the signals and the line change as `signals_in_step` says; and a line
/// that was current is current again, or, where the step is `stale`, is as it
/// was.
spec fn sound_step(before: UartModel, after: UartModel, stale: bool) -> bool {
    &&& before.valid() ==> after.valid()
    &&& signals_in_step(before, after)
    &&& before.valid() && before.irq == before.irq_level() ==> (if stale {
        after.irq == before.irq
    } else {
        after.irq == after.irq_level()
    })
}

/// A reset is a sound step.
proof fn lemma_reset_step(before: UartModel)
    ensures
        sound_step(before, before.after_reset(), false),
{
    lemma_power_on_words();
}

/// The arrival of a byte is a sound step.
proof fn lemma_received_step(before: UartModel, byte: u8)
    ensures
        sound_step(before, before.received(byte), false),
{
}

/// A read is a sound step, stale where it takes a byte and leaves others.
proof fn lemma_read_step(before: UartModel, offset: i64)
    ensures
        sound_step(
            before,
            before.after_read(offset),
            offset == RECEIVE_DATA_OFFSET && before.queue.len() >= 2,
        ),
{
}

/// A write to transmit data is a sound step.
proof fn lemma_transmit_data_step(before: UartModel, value: u32)
    ensures
        sound_step(before, before.after_transmit_data(value), false),
{
}

/// A write to transmit control is a sound step.
proof fn lemma_transmit_control_step(before: UartModel, value: u32)
    ensures
        sound_step(before, before.after_transmit_control(value), false),
{
    lemma_watermark_range(value);
}

/// A write to receive control is a sound step, stale where it disables an
/// enabled receiver and keeps the watermark level.
proof fn lemma_receive_control_step(before: UartModel, value: u32)
    ensures
        sound_step(
            before,
            before.after_receive_control(value),
            before.receive_enable && !bit(value, 0) && watermark(value)
                == before.receive_watermark,
        ),
{
    lemma_watermark_range(value);
}

/// A write to interrupt enable is a sound step.
proof fn lemma_interrupt_enable_step(before: UartModel, value: u32)
    ensures
        sound_step(before, before.after_interrupt_enable(value), false),
{
}

/// A write at any offset is a sound step.
proof fn lemma_write_step(before: UartModel, offset: i64, value: u32)
    ensures
        sound_step(
            before,
            before.after_write(offset, value),
            leaves_irq_stale(before, Operation::Write(offset, value)),
        ),
{
    match register_at(offset) {
        Some(Register::TransmitData) => lemma_transmit_data_step(before, value),
        Some(Register::TransmitControl) => lemma_transmit_control_step(before, value),
        Some(Register::ReceiveControl) => lemma_receive_control_step(before, value),
        Some(Register::InterruptEnable) => lemma_interrupt_enable_step(before, value),
        _ => {},
    }
}

/// Every operation is a sound step.
proof fn lemma_step(before: UartModel, operation: Operation)
    ensures
        sound_step(before, before.after(operation), leaves_irq_stale(before, operation)),
{
    match operation {
        Operation::Reset => lemma_reset_step(before),
        Operation::WriteChar(value) => lemma_received_step(before, data_byte(value)),
        Operation::Read(offset) => lemma_read_step(before, offset),
        Operation::Write(offset, value) => lemma_write_step(before, offset, value),
    }
}

/// Every operation leads from a valid state to a valid state.
pub proof fn law_operations_keep_valid(before: UartModel, operation: Operation)
    requires
        before.valid(),
    ensures
        before.after(operation).valid(),
{
    lemma_step(before, operation);
}

/// In a valid state whose interrupt line has the level that the state calls
/// for, every operation leaves the line at the level that the new state calls
/// for, but the two that `leaves_irq_stale` names: those leave the line as it
/// was.
pub proof fn law_irq_line_tracks_state(before: UartModel, operation: Operation)
    requires
        before.valid(),
        before.irq == before.irq_level(),
    ensures
        ({
            let after = before.after(operation);
            if leaves_irq_stale(before, operation) {
                after.irq == before.irq
            } else {
                after.irq == after.irq_level()
            }
        }),
{
    lemma_step(before, operation);
}

/// Every operation either signals nothing and leaves the interrupt line as it
/// was, or ends by signalling the line's level, which is then the level that
/// the state it leaves calls for, or signals an unhandled write and leaves the
/// line as it was.
pub proof fn law_irq_line_is_last_signalled(before: UartModel, operation: Operation)
    ensures
        signals_in_step(before, before.after(operation)),
{
    lemma_step(before, operation);
}

} // verus!
