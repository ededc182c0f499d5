//! Pin assignments of the nRF52 DK board.
use vstd::prelude::*;

verus! {

/// LED 1 (see the back of the board).
pub const LED1_PIN: u32 = 17;
/// LED 2.
pub const LED2_PIN: u32 = 18;
/// LED 3.
pub const LED3_PIN: u32 = 19;
/// LED 4.
pub const LED4_PIN: u32 = 20;

/// Button 1.
pub const BUTTON1_PIN: u32 = 13;
/// Button 2.
pub const BUTTON2_PIN: u32 = 14;
/// Button 3.
pub const BUTTON3_PIN: u32 = 15;
/// Button 4.
pub const BUTTON4_PIN: u32 = 16;
/// Reset button.
pub const BUTTON_RESET_PIN: u32 = 21;

/// The board's LEDs.
pub const LEDS: [u32; 4] = [LED1_PIN, LED2_PIN, LED3_PIN, LED4_PIN];
/// The board's buttons.
pub const BUTTONS: [u32; 5] = [BUTTON1_PIN, BUTTON2_PIN, BUTTON3_PIN, BUTTON4_PIN, BUTTON_RESET_PIN];

/// UART ready to send.
pub const UART_RTS: u32 = 5;
/// UART transmit.
pub const UART_TXD: u32 = 6;
/// UART clear to send.
pub const UART_CTS: u32 = 7;
/// UART receive.
pub const UART_RXD: u32 = 8;

} // verus!
