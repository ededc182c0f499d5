use nrf52dk::board::{BUTTONS, LEDS, UART_CTS, UART_RTS, UART_RXD, UART_TXD};
use nrf52dk::peripherals::gpio::NUMBER_PINS;
use nrf52dk::{Interrupt, Termination};

#[test]
fn board_pins_are_valid() {
    assert_eq!(LEDS, [17, 18, 19, 20]);
    assert_eq!(BUTTONS, [13, 14, 15, 16, 21]);
    for p in LEDS.iter().chain(BUTTONS.iter()) {
        assert!(*p < NUMBER_PINS);
    }
    assert_eq!((UART_RTS, UART_TXD, UART_CTS, UART_RXD), (5, 6, 7, 8));
}

#[test]
fn interrupt_numbers() {
    assert_eq!(Interrupt::POWER_CLOCK.nr(), 0);
    assert_eq!(Interrupt::UARTE0_UART0.nr(), 2);
    assert_eq!(Interrupt::PDM.nr(), 29);
    assert_eq!(Interrupt::MWU.nr(), 32);
    assert_eq!(Interrupt::FPU.nr(), 38);
}

#[test]
fn unit_reports_success() {
    assert_eq!(().report(), 0);
}
