//! Drivers for the memory-mapped peripherals.
pub mod clock;
pub mod gpio;
pub mod uart;
