//! Bare-metal support for the nRF52 DK board: startup memory initialisation,
//! typed register access, and drivers for the clock, GPIO and UART peripherals.
use vstd::prelude::*;

pub mod board;
pub mod register;
pub mod peripherals;
pub mod startup;

verus! {

/// The peripheral interrupts of the nRF52, each with its interrupt number.
#[allow(non_camel_case_types)]
#[derive(Clone, Copy, Debug, PartialEq, Eq, Structural)]
pub enum Interrupt {
    /// 0 - POWER_CLOCK
    POWER_CLOCK,
    /// 1 - RADIO
    RADIO,
    /// 2 - UARTE0_UART0
    UARTE0_UART0,
    /// 3 - SPIM0_SPIS0_TWIM0_TWIS0_SPI0_TWI0
    SPIM0_SPIS0_TWIM0_TWIS0_SPI0_TWI0,
    /// 4 - SPIM1_SPIS1_TWIM1_TWIS1_SPI1_TWI1
    SPIM1_SPIS1_TWIM1_TWIS1_SPI1_TWI1,
    /// 5 - NFCT
    NFCT,
    /// 6 - GPIOTE
    GPIOTE,
    /// 7 - SAADC
    SAADC,
    /// 8 - TIMER0
    TIMER0,
    /// 9 - TIMER1
    TIMER1,
    /// 10 - TIMER2
    TIMER2,
    /// 11 - RTC0
    RTC0,
    /// 12 - TEMP
    TEMP,
    /// 13 - RNG
    RNG,
    /// 14 - ECB
    ECB,
    /// 15 - CCM_AAR
    CCM_AAR,
    /// 16 - WDT
    WDT,
    /// 17 - RTC1
    RTC1,
    /// 18 - QDEC
    QDEC,
    /// 19 - COMP_LPCOMP
    COMP_LPCOMP,
    /// 20 - SWI0_EGU0
    SWI0_EGU0,
    /// 21 - SWI1_EGU1
    SWI1_EGU1,
    /// 22 - SWI2_EGU2
    SWI2_EGU2,
    /// 23 - SWI3_EGU3
    SWI3_EGU3,
    /// 24 - SWI4_EGU4
    SWI4_EGU4,
    /// 25 - SWI5_EGU5
    SWI5_EGU5,
    /// 26 - TIMER3
    TIMER3,
    /// 27 - TIMER4
    TIMER4,
    /// 28 - PWM0
    PWM0,
    /// 29 - PDM
    PDM,
    /// 32 - MWU
    MWU,
    /// 33 - PWM1
    PWM1,
    /// 34 - PWM2
    PWM2,
    /// 35 - SPIM2_SPIS2_SPI2
    SPIM2_SPIS2_SPI2,
    /// 36 - RTC2
    RTC2,
    /// 37 - I2S
    I2S,
    /// 38 - FPU
    FPU,
}

/// Number of entries of the chip's peripheral vector table.
pub const PERIPHERAL_VECTORS: u8 = 80;

impl Interrupt {
    /// The interrupt number, as the data sheet gives it.
    pub open spec fn number(self) -> u8 {
        match self {
            Interrupt::POWER_CLOCK => 0,
            Interrupt::RADIO => 1,
            Interrupt::UARTE0_UART0 => 2,
            Interrupt::SPIM0_SPIS0_TWIM0_TWIS0_SPI0_TWI0 => 3,
            Interrupt::SPIM1_SPIS1_TWIM1_TWIS1_SPI1_TWI1 => 4,
            Interrupt::NFCT => 5,
            Interrupt::GPIOTE => 6,
            Interrupt::SAADC => 7,
            Interrupt::TIMER0 => 8,
            Interrupt::TIMER1 => 9,
            Interrupt::TIMER2 => 10,
            Interrupt::RTC0 => 11,
            Interrupt::TEMP => 12,
            Interrupt::RNG => 13,
            Interrupt::ECB => 14,
            Interrupt::CCM_AAR => 15,
            Interrupt::WDT => 16,
            Interrupt::RTC1 => 17,
            Interrupt::QDEC => 18,
            Interrupt::COMP_LPCOMP => 19,
            Interrupt::SWI0_EGU0 => 20,
            Interrupt::SWI1_EGU1 => 21,
            Interrupt::SWI2_EGU2 => 22,
            Interrupt::SWI3_EGU3 => 23,
            Interrupt::SWI4_EGU4 => 24,
            Interrupt::SWI5_EGU5 => 25,
            Interrupt::TIMER3 => 26,
            Interrupt::TIMER4 => 27,
            Interrupt::PWM0 => 28,
            Interrupt::PDM => 29,
            Interrupt::MWU => 32,
            Interrupt::PWM1 => 33,
            Interrupt::PWM2 => 34,
            Interrupt::SPIM2_SPIS2_SPI2 => 35,
            Interrupt::RTC2 => 36,
            Interrupt::I2S => 37,
            Interrupt::FPU => 38,
        }
    }

    /// The interrupt number.
    pub fn nr(&self) -> (r: u8)
        ensures
            r == self.number(),
    {
        match *self {
            Interrupt::POWER_CLOCK => 0,
            Interrupt::RADIO => 1,
            Interrupt::UARTE0_UART0 => 2,
            Interrupt::SPIM0_SPIS0_TWIM0_TWIS0_SPI0_TWI0 => 3,
            Interrupt::SPIM1_SPIS1_TWIM1_TWIS1_SPI1_TWI1 => 4,
            Interrupt::NFCT => 5,
            Interrupt::GPIOTE => 6,
            Interrupt::SAADC => 7,
            Interrupt::TIMER0 => 8,
            Interrupt::TIMER1 => 9,
            Interrupt::TIMER2 => 10,
            Interrupt::RTC0 => 11,
            Interrupt::TEMP => 12,
            Interrupt::RNG => 13,
            Interrupt::ECB => 14,
            Interrupt::CCM_AAR => 15,
            Interrupt::WDT => 16,
            Interrupt::RTC1 => 17,
            Interrupt::QDEC => 18,
            Interrupt::COMP_LPCOMP => 19,
            Interrupt::SWI0_EGU0 => 20,
            Interrupt::SWI1_EGU1 => 21,
            Interrupt::SWI2_EGU2 => 22,
            Interrupt::SWI3_EGU3 => 23,
            Interrupt::SWI4_EGU4 => 24,
            Interrupt::SWI5_EGU5 => 25,
            Interrupt::TIMER3 => 26,
            Interrupt::TIMER4 => 27,
            Interrupt::PWM0 => 28,
            Interrupt::PDM => 29,
            Interrupt::MWU => 32,
            Interrupt::PWM1 => 33,
            Interrupt::PWM2 => 34,
            Interrupt::SPIM2_SPIS2_SPI2 => 35,
            Interrupt::RTC2 => 36,
            Interrupt::I2S => 37,
            Interrupt::FPU => 38,
        }
    }
}

/// Every interrupt has its own slot in the peripheral vector table: numbers are
/// distinct and below the table's length.
pub proof fn lemma_interrupt_slots(a: Interrupt, b: Interrupt)
    ensures
        a.number() < PERIPHERAL_VECTORS,
        a.number() == b.number() ==> a == b,
{
}

/// What the value returned by an application's `main` reports as exit code.
pub trait Termination {
    fn report(self) -> i32;
}

impl Termination for () {
    /// A `main` that returns nothing reports success.
    fn report(self) -> (code: i32)
        ensures
            code == 0,
    {
        0
    }
}

} // verus!
