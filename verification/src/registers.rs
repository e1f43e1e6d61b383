//! Register map of the device: the offsets of the seven registers and the
//! layout of the bit fields inside them.
//!
//! Every field has a fixed position in a 32-bit word, bit 0 being the least
//! significant bit. A field is described once, by a spec function, and decoded
//! or encoded by an executable function proved against it.

use vstd::prelude::*;

verus! {

/// Offset of the transmit data register.
pub const TRANSMIT_DATA_OFFSET: i64 = 0x00;

/// Offset of the receive data register.
pub const RECEIVE_DATA_OFFSET: i64 = 0x04;

/// Offset of the transmit control register.
pub const TRANSMIT_CONTROL_OFFSET: i64 = 0x08;

/// Offset of the receive control register.
pub const RECEIVE_CONTROL_OFFSET: i64 = 0x0C;

/// Offset of the interrupt enable register.
pub const INTERRUPT_ENABLE_OFFSET: i64 = 0x10;

/// Offset of the interrupt pending register.
pub const INTERRUPT_PENDING_OFFSET: i64 = 0x14;

/// Offset of the baud rate divisor register.
pub const BAUD_DIVISOR_OFFSET: i64 = 0x18;

/// Bit 31 of a data register: FULL in transmit data, EMPTY in receive data.
pub const STATUS_BIT: u32 = 0x8000_0000;

/// Value of the baud rate divisor register after power-on.
pub const BAUD_DIVISOR_DEFAULT: u32 = 0xFFFF;

/// The seven memory-mapped registers.
#[derive(Clone, Copy, Debug, PartialEq, Eq)]
pub enum Register {
    TransmitData,
    ReceiveData,
    TransmitControl,
    ReceiveControl,
    InterruptEnable,
    InterruptPending,
    BaudDivisor,
}

/// The register mapped at `offset`, if there is one.
pub open spec fn register_at(offset: i64) -> Option<Register> {
    if offset == TRANSMIT_DATA_OFFSET {
        Some(Register::TransmitData)
    } else if offset == RECEIVE_DATA_OFFSET {
        Some(Register::ReceiveData)
    } else if offset == TRANSMIT_CONTROL_OFFSET {
        Some(Register::TransmitControl)
    } else if offset == RECEIVE_CONTROL_OFFSET {
        Some(Register::ReceiveControl)
    } else if offset == INTERRUPT_ENABLE_OFFSET {
        Some(Register::InterruptEnable)
    } else if offset == INTERRUPT_PENDING_OFFSET {
        Some(Register::InterruptPending)
    } else if offset == BAUD_DIVISOR_OFFSET {
        Some(Register::BaudDivisor)
    } else {
        None
    }
}

/// Whether bit `index` of `word` is set.
pub open spec fn bit(word: u32, index: u32) -> bool {
    (word >> index) & 1 == 1
}

/// The byte in bits 0 to 7 of a data register.
pub open spec fn data_byte(word: u32) -> u8 {
    (word & 0xFF) as u8
}

/// `word` with bits 0 to 7 replaced by `byte`.
pub open spec fn with_data_byte(word: u32, byte: u8) -> u32 {
    (word & 0xFFFF_FF00) | (byte as u32)
}

/// Whether the status bit (bit 31) of a data register is set.
pub open spec fn status(word: u32) -> bool {
    word & STATUS_BIT != 0
}

/// `word` with the status bit (bit 31) set to `on`.
pub open spec fn with_status(word: u32, on: bool) -> u32 {
    if on {
        word | STATUS_BIT
    } else {
        word & !STATUS_BIT
    }
}

/// The watermark level in bits 16 to 18 of a control register.
pub open spec fn watermark(word: u32) -> u8 {
    ((word >> 16) & 0x7) as u8
}

/// The divisor in bits 0 to 15 of the baud rate divisor register.
pub open spec fn divisor(word: u32) -> u16 {
    (word & 0xFFFF) as u16
}

/// The interrupt pending register: bit 0 set when the transmit watermark
/// interrupt is pending, bit 1 when the receive watermark interrupt is.
pub open spec fn pending_word(transmit: bool, receive: bool) -> u32 {
    if transmit {
        if receive { 3 } else { 1 }
    } else {
        if receive { 2 } else { 0 }
    }
}

/// Finds the register mapped at `offset`.
pub fn decode_offset(offset: i64) -> (register: Option<Register>)
    ensures
        register == register_at(offset),
{
    if offset == TRANSMIT_DATA_OFFSET {
        Some(Register::TransmitData)
    } else if offset == RECEIVE_DATA_OFFSET {
        Some(Register::ReceiveData)
    } else if offset == TRANSMIT_CONTROL_OFFSET {
        Some(Register::TransmitControl)
    } else if offset == RECEIVE_CONTROL_OFFSET {
        Some(Register::ReceiveControl)
    } else if offset == INTERRUPT_ENABLE_OFFSET {
        Some(Register::InterruptEnable)
    } else if offset == INTERRUPT_PENDING_OFFSET {
        Some(Register::InterruptPending)
    } else if offset == BAUD_DIVISOR_OFFSET {
        Some(Register::BaudDivisor)
    } else {
        None
    }
}

/// Reads bit `index` of `word`.
pub fn decode_bit(word: u32, index: u32) -> (set: bool)
    requires
        index < 32,
    ensures
        set == bit(word, index),
{
    (word >> index) & 1 == 1
}

/// Reads the byte in bits 0 to 7 of a data register.
pub fn decode_data_byte(word: u32) -> (byte: u8)
    ensures
        byte == data_byte(word),
{
    assert(word & 0xFF <= 0xFF) by (bit_vector);
    (word & 0xFF) as u8
}

/// Replaces bits 0 to 7 of a data register by `byte` and leaves bits 8 to 31
/// as they are.
pub fn encode_data_byte(word: u32, byte: u8) -> (result: u32)
    ensures
        result == with_data_byte(word, byte),
        data_byte(result) == byte,
        status(result) == status(word),
{
    proof {
        lemma_data_byte(word, byte);
    }
    (word & 0xFFFF_FF00) | (byte as u32)
}

/// Sets or clears the status bit (bit 31) of a data register and leaves bits
/// 0 to 30 as they are.
pub fn encode_status(word: u32, on: bool) -> (result: u32)
    ensures
        result == with_status(word, on),
        status(result) == on,
        data_byte(result) == data_byte(word),
{
    proof {
        lemma_status(word, on);
    }
    if on {
        word | STATUS_BIT
    } else {
        word & !STATUS_BIT
    }
}

/// Reads the watermark level in bits 16 to 18 of a control register.
pub fn decode_watermark(word: u32) -> (level: u8)
    ensures
        level == watermark(word),
        level <= 7,
{
    assert((word >> 16) & 0x7 <= 7) by (bit_vector);
    ((word >> 16) & 0x7) as u8
}

/// Reads the divisor in bits 0 to 15 of the baud rate divisor register.
pub fn decode_divisor(word: u32) -> (value: u16)
    ensures
        value == divisor(word),
{
    assert(word & 0xFFFF <= 0xFFFF) by (bit_vector);
    (word & 0xFFFF) as u16
}

/// Builds the interrupt pending register from the two pending conditions.
pub fn encode_pending(transmit: bool, receive: bool) -> (word: u32)
    ensures
        word == pending_word(transmit, receive),
        bit(word, 0) == transmit,
        bit(word, 1) == receive,
{
    proof {
        lemma_pending_word(transmit, receive);
    }
    if transmit {
        if receive { 3 } else { 1 }
    } else {
        if receive { 2 } else { 0 }
    }
}

/// Setting the status bit of a word makes it read as set, and leaves the data
/// byte alone.
pub proof fn lemma_status(word: u32, on: bool)
    by (bit_vector)
    ensures
        status(with_status(word, on)) == on,
        data_byte(with_status(word, on)) == data_byte(word),
{
}

/// Replacing the data byte of a word makes it read as that byte, and leaves
/// the status bit alone.
pub proof fn lemma_data_byte(word: u32, byte: u8)
    by (bit_vector)
    ensures
        data_byte(with_data_byte(word, byte)) == byte,
        status(with_data_byte(word, byte)) == status(word),
{
}

/// A watermark level lies between 0 and 7.
pub proof fn lemma_watermark_range(word: u32)
    by (bit_vector)
    ensures
        watermark(word) <= 7,
{
}

/// Bit 0 of the interrupt pending register is the transmit condition, bit 1
/// the receive condition, and no other bit is set.
pub proof fn lemma_pending_word(transmit: bool, receive: bool)
    by (bit_vector)
    ensures
        bit(pending_word(transmit, receive), 0) == transmit,
        bit(pending_word(transmit, receive), 1) == receive,
        pending_word(transmit, receive) <= 3,
{
}

/// The fields of the two words that a register holds after power-on.
pub proof fn lemma_power_on_words()
    by (bit_vector)
    ensures
        !bit(0, 0),
        !bit(0, 1),
        watermark(0) == 0,
        data_byte(0) == 0,
        !status(0),
        with_status(0, false) == 0,
        with_status(0, true) == STATUS_BIT,
        divisor(BAUD_DIVISOR_DEFAULT) == 0xFFFF,
{
}

} // verus!
