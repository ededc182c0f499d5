use std::cell::{Cell, RefCell};

use nrf52dk::peripherals::uart::{Uart, DEFAULT_DIVISOR, UART_BASE};
use nrf52dk::register::{FieldSetting, RegWrite, Step};

const TABLE: [(u32, u32); 16] = [
    (1200, 0x0004_F000),
    (2400, 0x0009_D000),
    (4800, 0x0013_B000),
    (9600, 0x0027_5000),
    (14400, 0x003A_F000),
    (19200, 0x004E_A000),
    (28800, 0x0075_C000),
    (38400, 0x009D_0000),
    (57600, 0x00EB_0000),
    (76800, 0x013A_9000),
    (115200, 0x01D6_0000),
    (230400, 0x03B0_0000),
    (250000, 0x0400_0000),
    (460800, 0x0740_0000),
    (921600, 0x0F00_0000),
    (1000000, 0x1000_0000),
];

#[test]
fn divisor_table() {
    for (rate, d) in TABLE {
        assert_eq!(Uart::divisor(rate), d);
    }
}

#[test]
fn unknown_rates_fall_back_to_115200() {
    assert_eq!(DEFAULT_DIVISOR, 0x01D6_0000);
    for rate in [9999u32, 0, 1, 115201, 2_000_000, u32::MAX] {
        assert_eq!(Uart::divisor(rate), 0x01D6_0000);
    }
}

#[test]
fn initialize_routes_pins_then_sets_baud_rate() {
    let uart = Uart::new();
    for (rate, d) in TABLE {
        assert_eq!(
            uart.initialize(rate),
            vec![
                RegWrite { addr: 0x4000_250c, value: 6 },
                RegWrite { addr: 0x4000_2514, value: 8 },
                RegWrite { addr: 0x4000_2510, value: 7 },
                RegWrite { addr: 0x4000_2508, value: 5 },
                RegWrite { addr: 0x4000_2524, value: d },
            ]
        );
    }
    let w = uart.initialize(9999);
    assert_eq!(w[4], RegWrite { addr: UART_BASE + 0x524, value: 0x01D6_0000 });
}

#[test]
fn transmit_of_nothing_does_nothing() {
    let uart = Uart::new();
    let empty: [u8; 0] = [];
    assert!(uart.transmit(&empty, 0x2000_0000).is_empty());
    assert!(uart.transmit(&empty, 0).is_empty());
}

#[test]
fn transmit_program() {
    let uart = Uart::new();
    let hello = [0x48u8, 0x45, 0x4c, 0x4c, 0x4f];
    let ready = FieldSetting { mask: 1, value: 1 };
    assert_eq!(
        uart.transmit(&hello, 0x2000_0100),
        vec![
            Step::Write(RegWrite { addr: 0x4000_2544, value: 0x2000_0100 }),
            Step::Write(RegWrite { addr: 0x4000_2548, value: 5 }),
            Step::Write(RegWrite { addr: 0x4000_2500, value: 8 }),
            Step::Write(RegWrite { addr: 0x4000_200c, value: 1 }),
            Step::Write(RegWrite { addr: 0x4000_2008, value: 1 }),
            Step::WaitUntil { addr: 0x4000_2150, until: ready },
            Step::WaitUntil { addr: 0x4000_2120, until: ready },
        ]
    );
}

#[test]
fn transmit_program_runs_to_its_end_on_a_mock() {
    let uart = Uart::new();
    let data = [1u8, 2, 3];
    let written = RefCell::new(Vec::new());
    let polls = Cell::new(0u32);
    let read = |_a: u32| {
        polls.set(polls.get() + 1);
        if polls.get() % 3 == 0 { 1 } else { 0 }
    };
    for step in uart.transmit(&data, 0x2000_0000) {
        match step {
            Step::Write(w) => written.borrow_mut().push(w),
            Step::WaitUntil { addr, .. } => while !step.done(read(addr)) {},
        }
    }
    assert_eq!(written.borrow().len(), 5);
    assert_eq!(polls.get(), 6);
}
