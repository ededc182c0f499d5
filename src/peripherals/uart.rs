//! UART with EasyDMA (UARTE0): pin routing, baud rate and blocking transmission.
use vstd::prelude::*;
use crate::board::{UART_CTS, UART_RTS, UART_RXD, UART_TXD};
use crate::register::{ready_setting, Field, Register, RegWrite, Step};

verus! {

/// Base address of the UART.
pub const UART_BASE: u32 = 0x4000_2000;

/// Task: start transmitting.
pub const TASKS_STARTTX: u32 = 0x008;
/// Task: stop transmitting.
pub const TASKS_STOPTX: u32 = 0x00c;
/// Event: the last byte of the transmit buffer has been sent.
pub const EVENTS_ENDTX: u32 = 0x120;
/// Event: transmission has started.
pub const EVENTS_TXSTARTED: u32 = 0x150;
/// Enable register, bits 0..4.
pub const ENABLE: u32 = 0x500;
/// Pin select of ready to send.
pub const PSEL_RTS: u32 = 0x508;
/// Pin select of transmit.
pub const PSEL_TXD: u32 = 0x50c;
/// Pin select of clear to send.
pub const PSEL_CTS: u32 = 0x510;
/// Pin select of receive.
pub const PSEL_RXD: u32 = 0x514;
/// Baud rate divisor.
pub const BAUDRATE: u32 = 0x524;
/// Address of the transmit buffer.
pub const TXD_PTR: u32 = 0x544;
/// Number of bytes to transmit.
pub const TXD_MAXCNT: u32 = 0x548;

/// Value of the enable field that turns the UART on.
pub const ENABLED: u32 = 8;
/// Divisor of 115200 baud, also used for every rate that is not in the table.
pub const DEFAULT_DIVISOR: u32 = 0x01D6_0000;

/// The divisor for `rate`: that of the table, or that of 115200 baud.
pub open spec fn baud_divisor(rate: u32) -> u32 {
    if rate == 1200 { 0x0004_F000 }
    else if rate == 2400 { 0x0009_D000 }
    else if rate == 4800 { 0x0013_B000 }
    else if rate == 9600 { 0x0027_5000 }
    else if rate == 14400 { 0x003A_F000 }
    else if rate == 19200 { 0x004E_A000 }
    else if rate == 28800 { 0x0075_C000 }
    else if rate == 38400 { 0x009D_0000 }
    else if rate == 57600 { 0x00EB_0000 }
    else if rate == 76800 { 0x013A_9000 }
    else if rate == 115200 { 0x01D6_0000 }
    else if rate == 230400 { 0x03B0_0000 }
    else if rate == 250000 { 0x0400_0000 }
    else if rate == 460800 { 0x0740_0000 }
    else if rate == 921600 { 0x0F00_0000 }
    else if rate == 1000000 { 0x1000_0000 }
    else { DEFAULT_DIVISOR }
}

/// The rates that have a divisor of their own.
pub open spec fn recognized_rate(rate: u32) -> bool {
    rate == 1200 || rate == 2400 || rate == 4800 || rate == 9600 || rate == 14400
        || rate == 19200 || rate == 28800 || rate == 38400 || rate == 57600 || rate == 76800
        || rate == 115200 || rate == 230400 || rate == 250000 || rate == 460800
        || rate == 921600 || rate == 1000000
}

/// The store to the register at `offset`.
pub open spec fn uart_write(offset: u32, value: u32) -> RegWrite {
    RegWrite { addr: (UART_BASE + offset) as u32, value }
}

/// The stores that route transmit, receive, clear to send and ready to send to
/// the board's pins.
pub open spec fn pin_select_writes() -> Seq<RegWrite> {
    seq![
        uart_write(PSEL_TXD, UART_TXD),
        uart_write(PSEL_RXD, UART_RXD),
        uart_write(PSEL_CTS, UART_CTS),
        uart_write(PSEL_RTS, UART_RTS),
    ]
}

/// The stores of `initialize`: the pin selects, then the divisor of `rate`.
pub open spec fn initialize_writes(rate: u32) -> Seq<RegWrite> {
    pin_select_writes().push(uart_write(BAUDRATE, baud_divisor(rate)))
}

/// The program that sends `len` bytes from address `addr`: nothing at all for
/// an empty buffer; otherwise program the pointer and the count, enable, stop
/// any transfer still running, start, and wait for the started and then the
/// ended event.
pub open spec fn transmit_program(addr: u32, len: u32) -> Seq<Step> {
    if len == 0 {
        seq![]
    } else {
        seq![
            Step::Write(uart_write(TXD_PTR, addr)),
            Step::Write(uart_write(TXD_MAXCNT, len)),
            Step::Write(uart_write(ENABLE, ENABLED)),
            Step::Write(uart_write(TASKS_STOPTX, 1)),
            Step::Write(uart_write(TASKS_STARTTX, 1)),
            Step::WaitUntil { addr: (UART_BASE + EVENTS_TXSTARTED) as u32, until: ready_setting() },
            Step::WaitUntil { addr: (UART_BASE + EVENTS_ENDTX) as u32, until: ready_setting() },
        ]
    }
}

/// A rate outside the table gets the divisor of 115200 baud; a rate in it
/// gets its own, and only 115200 itself shares the default.
pub proof fn lemma_divisor_fallback(rate: u32)
    ensures
        !recognized_rate(rate) ==> baud_divisor(rate) == baud_divisor(115200),
        recognized_rate(rate) && rate != 115200 ==> baud_divisor(rate) != DEFAULT_DIVISOR,
{
}

/// Handle on the UART. Holds only its base address.
pub struct Uart {
    base: u32,
}

impl Uart {
    #[verifier::type_invariant]
    spec fn at_block(&self) -> bool {
        self.base == UART_BASE
    }

    /// The handle on the UART.
    pub fn new() -> (r: Uart) {
        Uart { base: UART_BASE }
    }

    fn reg(&self, offset: u32) -> (r: Register)
        requires
            offset <= TXD_MAXCNT,
        ensures
            r.addr == UART_BASE + offset,
    {
        proof {
            use_type_invariant(self);
        }
        Register::at(self.base, offset)
    }

    /// The divisor for `rate`; 115200 baud's for a rate not in the table.
    pub fn divisor(rate: u32) -> (d: u32)
        ensures
            d == baud_divisor(rate),
    {
        match rate {
            1200 => 0x0004_F000,
            2400 => 0x0009_D000,
            4800 => 0x0013_B000,
            9600 => 0x0027_5000,
            14400 => 0x003A_F000,
            19200 => 0x004E_A000,
            28800 => 0x0075_C000,
            38400 => 0x009D_0000,
            57600 => 0x00EB_0000,
            76800 => 0x013A_9000,
            115200 => 0x01D6_0000,
            230400 => 0x03B0_0000,
            250000 => 0x0400_0000,
            460800 => 0x0740_0000,
            921600 => 0x0F00_0000,
            1000000 => 0x1000_0000,
            _ => DEFAULT_DIVISOR,
        }
    }

    /// Routes the four UART lines to the board's pins.
    fn set_pins(&self, r: &mut Vec<RegWrite>)
        ensures
            final(r)@ == old(r)@ + pin_select_writes(),
    {
        let pin = Field { mask: 0x1f, shift: 0 };
        let txd = pin.val(UART_TXD);
        let rxd = pin.val(UART_RXD);
        let cts = pin.val(UART_CTS);
        let rts = pin.val(UART_RTS);
        assert((6u32 & 0x1fu32) << 0u32 == 6 && (8u32 & 0x1fu32) << 0u32 == 8
            && (7u32 & 0x1fu32) << 0u32 == 7 && (5u32 & 0x1fu32) << 0u32 == 5) by (bit_vector);
        r.push(self.reg(PSEL_TXD).write(txd));
        r.push(self.reg(PSEL_RXD).write(rxd));
        r.push(self.reg(PSEL_CTS).write(cts));
        r.push(self.reg(PSEL_RTS).write(rts));
        assert(r@ =~= old(r)@ + pin_select_writes());
    }

    /// Configures the pins used by the UART and the baud rate `rate`; a rate
    /// not in the table gets 115200 baud.
    pub fn initialize(&self, rate: u32) -> (r: Vec<RegWrite>)
        ensures
            r@ == initialize_writes(rate),
    {
        let mut r: Vec<RegWrite> = Vec::new();
        self.set_pins(&mut r);
        r.push(self.reg(BAUDRATE).set(Uart::divisor(rate)));
        assert(r@ =~= initialize_writes(rate));
        r
    }

    /// The program that sends `buffer`, which lies at address `addr`. The
    /// hardware reads the buffer while the program runs: it must stay in place
    /// until the program has ended.
    pub fn transmit(&self, buffer: &[u8], addr: u32) -> (r: Vec<Step>)
        requires
            buffer@.len() <= u32::MAX,
        ensures
            r@ == transmit_program(addr, buffer@.len() as u32),
            buffer@.len() == 0 ==> r@.len() == 0,
    {
        let mut r: Vec<Step> = Vec::new();
        if buffer.len() == 0 {
            return r;
        }
        let len = buffer.len() as u32;
        let task = Field { mask: 1, shift: 0 }.val(1);
        let enable = Field { mask: 0xf, shift: 0 }.val(ENABLED);
        assert(1u32 << 0u32 == 1 && (1u32 & 1u32) << 0u32 == 1 && (8u32 & 0xfu32) << 0u32 == 8)
            by (bit_vector);
        assert(task == ready_setting());
        r.push(Step::Write(self.reg(TXD_PTR).set(addr)));
        r.push(Step::Write(self.reg(TXD_MAXCNT).set(len)));
        r.push(Step::Write(self.reg(ENABLE).write(enable)));
        r.push(Step::Write(self.reg(TASKS_STOPTX).write(task)));
        r.push(Step::Write(self.reg(TASKS_STARTTX).write(task)));
        r.push(Step::WaitUntil { addr: self.reg(EVENTS_TXSTARTED).addr, until: task });
        r.push(Step::WaitUntil { addr: self.reg(EVENTS_ENDTX).addr, until: task });
        assert(r@ =~= transmit_program(addr, len));
        r
    }
}

} // verus!
