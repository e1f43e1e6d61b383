//! The device driven as a host drives it: through reset, arriving bytes and
//! register accesses.

use uart_model::registers::{
    BAUD_DIVISOR_OFFSET, INTERRUPT_ENABLE_OFFSET, INTERRUPT_PENDING_OFFSET,
    RECEIVE_CONTROL_OFFSET, RECEIVE_DATA_OFFSET, STATUS_BIT, TRANSMIT_CONTROL_OFFSET,
    TRANSMIT_DATA_OFFSET,
};
use uart_model::{read_double_word, reset, write_char, write_double_word, Register, Signal, Uart};

const ALL_REGISTERS: [Register; 7] = [
    Register::TransmitData,
    Register::ReceiveData,
    Register::TransmitControl,
    Register::ReceiveControl,
    Register::InterruptEnable,
    Register::InterruptPending,
    Register::BaudDivisor,
];

/// A device with every register written and bytes queued.
fn busy_device() -> Uart {
    let mut device = Uart::new();
    write_double_word(&mut device, TRANSMIT_CONTROL_OFFSET, (5 << 16) | 0b11);
    write_double_word(&mut device, RECEIVE_CONTROL_OFFSET, (2 << 16) | 0b1);
    write_double_word(&mut device, INTERRUPT_ENABLE_OFFSET, 0b11);
    write_double_word(&mut device, BAUD_DIVISOR_OFFSET, 0x0012_3456);
    write_double_word(&mut device, TRANSMIT_DATA_OFFSET, 0xDEAD_BEEF);
    for byte in [0x10u32, 0x20, 0x30, 0x40] {
        write_char(&mut device, byte);
    }
    read_double_word(&mut device, RECEIVE_DATA_OFFSET);
    read_double_word(&mut device, INTERRUPT_PENDING_OFFSET);
    device
}

#[test]
fn new_device_is_in_power_on_state() {
    let mut device = Uart::new();
    for register in ALL_REGISTERS {
        let expected = if register == Register::BaudDivisor { 0xFFFF } else { 0 };
        assert_eq!(device.register(register), expected);
    }
    assert!(device.transmit_enable());
    assert!(device.receive_enable());
    assert!(!device.two_stop_bits());
    assert_eq!(device.divisor(), 0xFFFF);
    assert_eq!(device.transmit_watermark(), 0);
    assert_eq!(device.receive_watermark(), 0);
    assert!(!device.transmit_irq_enable());
    assert!(!device.receive_irq_enable());
    assert!(!device.transmit_pending());
    assert!(!device.receive_pending());
    assert!(!device.irq());
    assert_eq!(device.queue_count(), 0);
    assert!(device.take_signals().is_empty());
}

#[test]
fn reset_restores_every_register() {
    let mut device = busy_device();
    assert!(device.irq());
    reset(&mut device);
    for register in ALL_REGISTERS {
        let expected = if register == Register::BaudDivisor { 0xFFFF } else { 0 };
        assert_eq!(device.register(register), expected);
    }
    assert!(!device.irq());
    assert_eq!(device.queue_count(), 0);
    assert_eq!(device.take_signals().last(), Some(&Signal::SetIrq(false)));
}

#[test]
fn reset_restores_the_configuration() {
    let mut device = busy_device();
    write_double_word(&mut device, TRANSMIT_CONTROL_OFFSET, 7 << 16);
    write_double_word(&mut device, RECEIVE_CONTROL_OFFSET, 7 << 16);
    assert!(!device.transmit_enable());
    assert!(!device.receive_enable());
    reset(&mut device);
    assert!(device.transmit_enable());
    assert!(device.receive_enable());
    assert!(!device.two_stop_bits());
    assert_eq!(device.divisor(), 0xFFFF);
    assert_eq!(device.transmit_watermark(), 0);
    assert_eq!(device.receive_watermark(), 0);
    assert!(!device.transmit_irq_enable());
    assert!(!device.receive_irq_enable());
    assert!(!device.transmit_pending());
    assert!(!device.receive_pending());
}

#[test]
fn registers_read_as_power_on_values_after_reset() {
    for offset in [
        TRANSMIT_DATA_OFFSET,
        TRANSMIT_CONTROL_OFFSET,
        RECEIVE_CONTROL_OFFSET,
        INTERRUPT_ENABLE_OFFSET,
        INTERRUPT_PENDING_OFFSET,
    ] {
        let mut device = busy_device();
        reset(&mut device);
        assert_eq!(read_double_word(&mut device, offset), 0);
    }
    let mut device = busy_device();
    reset(&mut device);
    assert_eq!(read_double_word(&mut device, BAUD_DIVISOR_OFFSET), 0xFFFF);
    assert_eq!(read_double_word(&mut device, RECEIVE_DATA_OFFSET), STATUS_BIT);
}

#[test]
fn reset_signals_the_line_once_for_the_cleared_queue_and_once_at_the_end() {
    let mut device = busy_device();
    device.take_signals();
    reset(&mut device);
    assert_eq!(device.take_signals(), vec![Signal::SetIrq(true), Signal::SetIrq(false)]);
}

#[test]
fn reset_of_a_disabled_receiver_signals_the_line_once() {
    let mut device = busy_device();
    write_double_word(&mut device, RECEIVE_CONTROL_OFFSET, 2 << 16);
    device.take_signals();
    reset(&mut device);
    assert_eq!(device.take_signals(), vec![Signal::SetIrq(false)]);
}

#[test]
fn reset_keeps_signals_not_yet_taken() {
    let mut device = Uart::new();
    write_double_word(&mut device, TRANSMIT_DATA_OFFSET, 0x55);
    reset(&mut device);
    assert_eq!(
        device.take_signals(),
        vec![
            Signal::CharReceived(0x55),
            Signal::SetIrq(false),
            Signal::SetIrq(false),
            Signal::SetIrq(false),
        ]
    );
}

#[test]
fn received_char_reads_back_after_reset() {
    let mut device = Uart::new();
    reset(&mut device);
    write_char(&mut device, 0x41);
    let word = read_double_word(&mut device, RECEIVE_DATA_OFFSET);
    assert_eq!(word & 0xFF, 0x41);
    assert_eq!(word & STATUS_BIT, 0);
    assert_eq!(word, 0x41);
}

#[test]
fn receive_data_is_empty_after_reset() {
    let mut device = Uart::new();
    reset(&mut device);
    let word = read_double_word(&mut device, RECEIVE_DATA_OFFSET);
    assert_eq!(word & STATUS_BIT, STATUS_BIT);
    assert_eq!(device.queue_count(), 0);
}

#[test]
fn transmit_after_reset_sends_one_char() {
    let mut device = Uart::new();
    reset(&mut device);
    device.take_signals();
    write_double_word(&mut device, TRANSMIT_DATA_OFFSET, 0x42);
    assert_eq!(
        device.take_signals(),
        vec![Signal::CharReceived(0x42), Signal::SetIrq(false)]
    );
    let word = read_double_word(&mut device, TRANSMIT_DATA_OFFSET);
    assert_eq!(word & STATUS_BIT, 0);
    assert_eq!(word, 0x42);
}

#[test]
fn transmit_watermark_interrupt_asserts_when_enabled() {
    let mut device = Uart::new();
    write_double_word(&mut device, TRANSMIT_CONTROL_OFFSET, 3 << 16);
    assert!(!device.irq());
    write_double_word(&mut device, INTERRUPT_ENABLE_OFFSET, 1);
    assert!(device.irq());
    assert_eq!(device.take_signals(), vec![Signal::SetIrq(false), Signal::SetIrq(true)]);
    let pending = read_double_word(&mut device, INTERRUPT_PENDING_OFFSET);
    assert_eq!(pending & 1, 1);
    assert_eq!(pending, 1);
}

#[test]
fn received_byte_is_the_low_byte_of_the_next_read() {
    for value in [0x00u32, 0x01, 0x41, 0x7F, 0x80, 0xFF, 0x1FF, 0xFFFF_FF00, 0x1234_5678] {
        let mut device = Uart::new();
        write_char(&mut device, value);
        assert_eq!(device.queue_count(), 1);
        let word = read_double_word(&mut device, RECEIVE_DATA_OFFSET);
        assert_eq!(word & 0xFF, value & 0xFF);
        assert_eq!(word & STATUS_BIT, 0);
        assert_eq!(device.queue_count(), 0);
        let next = read_double_word(&mut device, RECEIVE_DATA_OFFSET);
        assert_eq!(next & STATUS_BIT, STATUS_BIT);
    }
}

#[test]
fn transmit_data_never_reads_full() {
    for value in [0u32, 0x42, STATUS_BIT, 0x8000_0042, 0xFFFF_FFFF] {
        let mut device = Uart::new();
        write_double_word(&mut device, TRANSMIT_DATA_OFFSET, value);
        assert_eq!(device.register(Register::TransmitData), value);
        let word = read_double_word(&mut device, TRANSMIT_DATA_OFFSET);
        assert_eq!(word, value & 0x7FFF_FFFF);
        assert_eq!(device.register(Register::TransmitData), value & 0x7FFF_FFFF);
    }
}

#[test]
fn enabled_transmitter_sends_exactly_one_char_per_write() {
    for value in [0u32, 0x42, 0xFF, 0x100, 0xABCD_EF99] {
        let mut device = Uart::new();
        write_double_word(&mut device, TRANSMIT_DATA_OFFSET, value);
        let signals = device.take_signals();
        let sent: Vec<&Signal> =
            signals.iter().filter(|signal| matches!(signal, Signal::CharReceived(_))).collect();
        assert_eq!(sent, vec![&Signal::CharReceived((value & 0xFF) as u8)]);
        assert_eq!(signals.len(), 2);
    }
}

#[test]
fn disabled_transmitter_stores_the_word_and_sends_nothing() {
    let mut device = Uart::new();
    write_double_word(&mut device, TRANSMIT_CONTROL_OFFSET, 0);
    assert!(!device.transmit_enable());
    write_double_word(&mut device, TRANSMIT_DATA_OFFSET, 0x42);
    assert!(device.take_signals().is_empty());
    assert_eq!(device.register(Register::TransmitData), 0x42);
}

#[test]
fn disabling_the_receiver_clears_the_queue() {
    let mut device = Uart::new();
    write_double_word(&mut device, RECEIVE_CONTROL_OFFSET, 1);
    for byte in [1u32, 2, 3] {
        write_char(&mut device, byte);
    }
    assert_eq!(device.queue_count(), 3);
    write_double_word(&mut device, RECEIVE_CONTROL_OFFSET, 0);
    assert!(!device.receive_enable());
    assert_eq!(device.queue_count(), 0);
    let word = read_double_word(&mut device, RECEIVE_DATA_OFFSET);
    assert_eq!(word & STATUS_BIT, STATUS_BIT);
}

#[test]
fn interrupt_line_follows_enables_levels_and_queue_count() {
    for transmit_irq in [false, true] {
        for receive_irq in [false, true] {
            for transmit_level in 0u32..8 {
                for receive_level in 0u32..8 {
                    for count in 0usize..10 {
                        let mut device = Uart::new();
                        write_double_word(
                            &mut device,
                            TRANSMIT_CONTROL_OFFSET,
                            (transmit_level << 16) | 1,
                        );
                        write_double_word(
                            &mut device,
                            RECEIVE_CONTROL_OFFSET,
                            (receive_level << 16) | 1,
                        );
                        for byte in 0..count {
                            write_char(&mut device, byte as u32);
                        }
                        let enables = (transmit_irq as u32) | ((receive_irq as u32) << 1);
                        write_double_word(&mut device, INTERRUPT_ENABLE_OFFSET, enables);
                        write_double_word(&mut device, TRANSMIT_DATA_OFFSET, 0);
                        let expected = (transmit_irq && transmit_level > 0)
                            || (receive_irq && count > receive_level as usize);
                        assert_eq!(device.irq(), expected);
                        assert_eq!(
                            device.take_signals().last(),
                            Some(&Signal::SetIrq(expected))
                        );
                        assert_eq!(device.transmit_pending(), transmit_level > 0);
                        assert_eq!(device.receive_pending(), count > receive_level as usize);
                    }
                }
            }
        }
    }
}

#[test]
fn recomputing_twice_signals_the_same_level() {
    for enables in [0u32, 1, 2, 3] {
        let mut device = Uart::new();
        write_double_word(&mut device, TRANSMIT_CONTROL_OFFSET, (2 << 16) | 1);
        write_char(&mut device, 0x11);
        write_double_word(&mut device, INTERRUPT_ENABLE_OFFSET, enables);
        device.take_signals();
        write_double_word(&mut device, TRANSMIT_DATA_OFFSET, 0x22);
        let first = device.take_signals();
        let level = device.irq();
        write_double_word(&mut device, TRANSMIT_DATA_OFFSET, 0x22);
        let second = device.take_signals();
        assert_eq!(first, vec![Signal::CharReceived(0x22), Signal::SetIrq(enables != 0)]);
        assert_eq!(second, first);
        assert_eq!(device.irq(), level);
    }
}

#[test]
fn default_device_is_in_power_on_state() {
    let mut device = Uart::default();
    for register in ALL_REGISTERS {
        let expected = if register == Register::BaudDivisor { 0xFFFF } else { 0 };
        assert_eq!(device.register(register), expected);
    }
    assert!(device.transmit_enable());
    assert!(device.receive_enable());
    assert!(!device.irq());
    assert_eq!(device.queue_count(), 0);
    assert!(device.take_signals().is_empty());
}
