//! Clock control: start, stop and source selection of the low-frequency (LFCLK)
//! and high-frequency (HFCLK) clocks.
//!
//! LFCLK runs from the 32.768 kHz RC oscillator, the 32.768 kHz crystal, or is
//! synthesized from HFCLK. HFCLK runs from the 64 MHz internal oscillator or the
//! 64 MHz crystal. A source is to be selected only while its clock is stopped.
//! There is no timeout: a caller that waits for an oscillator that never starts
//! waits forever.
use vstd::prelude::*;
use crate::register::{ready_setting, reads_anywhere, Field, Register, RegWrite, Step};

verus! {

/// Base address of the clock control block.
pub const CLOCK_BASE: u32 = 0x4000_0000;

/// Task: start HFCLK.
pub const TASKS_HFCLKSTART: u32 = 0x000;
/// Task: stop HFCLK.
pub const TASKS_HFCLKSTOP: u32 = 0x004;
/// Task: start LFCLK.
pub const TASKS_LFCLKSTART: u32 = 0x008;
/// Task: stop LFCLK.
pub const TASKS_LFCLKSTOP: u32 = 0x00c;
/// Event: HFCLK has started. Latched by the hardware.
pub const EVENTS_HFCLKSTARTED: u32 = 0x100;
/// Event: LFCLK has started. Latched by the hardware.
pub const EVENTS_LFCLKSTARTED: u32 = 0x104;
/// HFCLK status: source in bit 0, running in bit 16.
pub const HFCLKSTAT: u32 = 0x40c;
/// LFCLK status: source in bits 0..2, running in bit 16.
pub const LFCLKSTAT: u32 = 0x418;
/// LFCLK source selection, bits 0..2.
pub const LFCLKSRC: u32 = 0x518;

/// Source of the low-frequency clock.
#[derive(Clone, Copy, Debug, PartialEq, Eq, Structural)]
pub enum LowClockSource {
    RC,
    XTAL,
    SYNTH,
}

/// Source of the high-frequency clock.
#[derive(Clone, Copy, Debug, PartialEq, Eq, Structural)]
pub enum HighClockSource {
    RC,
    XTAL,
}

/// Selector value of a low-frequency source.
pub open spec fn low_source_value(s: LowClockSource) -> u32 {
    match s {
        LowClockSource::RC => 0,
        LowClockSource::XTAL => 1,
        LowClockSource::SYNTH => 2,
    }
}

/// Selector value of a high-frequency source.
pub open spec fn high_source_value(s: HighClockSource) -> u32 {
    match s {
        HighClockSource::RC => 0,
        HighClockSource::XTAL => 1,
    }
}

/// An event register word with its readiness flag set.
pub open spec fn event_set(word: u32) -> bool {
    word & 1 == 1
}

/// A status register word that reports its clock running.
pub open spec fn state_running(word: u32) -> bool {
    word & 0x1_0000 == 0x1_0000
}

/// The store that triggers the task register at `offset`.
pub open spec fn task(offset: u32) -> RegWrite {
    RegWrite { addr: (CLOCK_BASE + offset) as u32, value: 1 }
}

/// The register program that stops both clocks, selects both crystals, starts
/// both clocks, and waits until LFCLK and then HFCLK report started.
pub open spec fn crystal_start_program() -> Seq<Step> {
    seq![
        Step::Write(task(TASKS_LFCLKSTOP)),
        Step::Write(task(TASKS_HFCLKSTOP)),
        Step::Write(RegWrite { addr: (CLOCK_BASE + LFCLKSRC) as u32, value: 1 }),
        Step::Write(task(TASKS_LFCLKSTART)),
        Step::Write(RegWrite { addr: (CLOCK_BASE + HFCLKSTAT) as u32, value: 1 }),
        Step::Write(task(TASKS_HFCLKSTART)),
        Step::WaitUntil { addr: (CLOCK_BASE + EVENTS_LFCLKSTARTED) as u32, until: ready_setting() },
        Step::WaitUntil { addr: (CLOCK_BASE + EVENTS_HFCLKSTARTED) as u32, until: ready_setting() },
    ]
}

/// Handle on the clock control block. Holds only its base address.
pub struct Clock {
    base: u32,
}

impl Clock {
    #[verifier::type_invariant]
    spec fn at_block(&self) -> bool {
        self.base == CLOCK_BASE
    }

    /// The handle on the clock control block.
    pub fn new() -> (r: Clock) {
        Clock { base: CLOCK_BASE }
    }

    fn reg(&self, offset: u32) -> (r: Register)
        requires
            offset <= LFCLKSRC,
        ensures
            r.addr == CLOCK_BASE + offset,
    {
        proof {
            use_type_invariant(self);
        }
        Register::at(self.base, offset)
    }

    /// The bit that starts or stops a clock, or that reports it started.
    fn flag() -> (f: Field)
        ensures
            f == (Field { mask: 1, shift: 0 }),
    {
        Field { mask: 1, shift: 0 }
    }

    /// The store that sets the flag of the task register at `offset`.
    fn trigger(&self, offset: u32) -> (w: RegWrite)
        requires
            offset <= TASKS_LFCLKSTOP,
        ensures
            w == task(offset),
    {
        let s = Clock::flag().val(1);
        assert(1u32 << 0u32 == 1 && (1u32 & 1u32) << 0u32 == 1) by (bit_vector);
        self.reg(offset).write(s)
    }

    /// Reads an event register and reports whether its flag is set. The flag
    /// stays set: reading does not clear it.
    fn event<R: Fn(u32) -> u32>(&self, offset: u32, read: &R) -> (r: bool)
        requires
            offset <= LFCLKSRC,
            reads_anywhere(read),
        ensures
            exists|v: u32| read.ensures(((CLOCK_BASE + offset) as u32,), v) && r == event_set(v),
    {
        let v = self.reg(offset).get(read);
        let f = Clock::flag();
        let b = f.read(v);
        assert((v & (1u32 << 0u32)) >> 0u32 == v & 1) by (bit_vector);
        assert(read.ensures(((CLOCK_BASE + offset) as u32,), v));
        assert(b == v & 1);
        let r = b == 1;
        assert(r == event_set(v));
        r
    }

    /// Reads a status register and reports whether its clock runs.
    fn running<R: Fn(u32) -> u32>(&self, offset: u32, read: &R) -> (r: bool)
        requires
            offset <= LFCLKSRC,
            reads_anywhere(read),
        ensures
            exists|v: u32| read.ensures(((CLOCK_BASE + offset) as u32,), v) && r == state_running(v),
    {
        let state = Field { mask: 1, shift: 16 };
        let s = state.val(1);
        assert(1u32 << 16u32 == 0x1_0000 && (1u32 & 1u32) << 16u32 == 0x1_0000) by (bit_vector);
        assert(0x1_0000u32 & 0x1_0000u32 == 0x1_0000u32) by (bit_vector);
        let v = self.reg(offset).get(read);
        assert(read.ensures(((CLOCK_BASE + offset) as u32,), v));
        let r = s.matches(v);
        assert(r == state_running(v));
        r
    }

    /// Triggers the HFCLK start task.
    pub fn high_start(&self) -> (w: RegWrite)
        ensures
            w == task(TASKS_HFCLKSTART),
    {
        self.trigger(TASKS_HFCLKSTART)
    }

    /// Triggers the HFCLK stop task.
    pub fn high_stop(&self) -> (w: RegWrite)
        ensures
            w == task(TASKS_HFCLKSTOP),
    {
        self.trigger(TASKS_HFCLKSTOP)
    }

    /// Whether the HFCLK started event has been latched.
    pub fn high_started<R: Fn(u32) -> u32>(&self, read: &R) -> (r: bool)
        requires
            reads_anywhere(read),
        ensures
            exists|v: u32|
                read.ensures(((CLOCK_BASE + EVENTS_HFCLKSTARTED) as u32,), v) && r == event_set(v),
    {
        self.event(EVENTS_HFCLKSTARTED, read)
    }

    /// Selects the HFCLK source. To be called while HFCLK is stopped.
    pub fn high_set_source(&self, source: HighClockSource) -> (w: RegWrite)
        ensures
            w == (RegWrite { addr: (CLOCK_BASE + HFCLKSTAT) as u32, value: high_source_value(source) }),
    {
        let src = Clock::flag();
        let v: u32 = match source {
            HighClockSource::RC => 0,
            HighClockSource::XTAL => 1,
        };
        let s = src.val(v);
        assert((v & 1u32) << 0u32 == v) by (bit_vector)
            requires
                v <= 1,
        ;
        self.reg(HFCLKSTAT).write(s)
    }

    /// Whether the status register reports HFCLK running.
    pub fn high_running<R: Fn(u32) -> u32>(&self, read: &R) -> (r: bool)
        requires
            reads_anywhere(read),
        ensures
            exists|v: u32| read.ensures(((CLOCK_BASE + HFCLKSTAT) as u32,), v) && r == state_running(v),
    {
        self.running(HFCLKSTAT, read)
    }

    /// Triggers the LFCLK start task.
    pub fn low_start(&self) -> (w: RegWrite)
        ensures
            w == task(TASKS_LFCLKSTART),
    {
        self.reg(TASKS_LFCLKSTART).set(1)
    }

    /// Triggers the LFCLK stop task.
    pub fn low_stop(&self) -> (w: RegWrite)
        ensures
            w == task(TASKS_LFCLKSTOP),
    {
        self.trigger(TASKS_LFCLKSTOP)
    }

    /// Whether the LFCLK started event has been latched.
    pub fn low_started<R: Fn(u32) -> u32>(&self, read: &R) -> (r: bool)
        requires
            reads_anywhere(read),
        ensures
            exists|v: u32|
                read.ensures(((CLOCK_BASE + EVENTS_LFCLKSTARTED) as u32,), v) && r == event_set(v),
    {
        self.event(EVENTS_LFCLKSTARTED, read)
    }

    /// Whether the status register reports LFCLK running.
    pub fn low_running<R: Fn(u32) -> u32>(&self, read: &R) -> (r: bool)
        requires
            reads_anywhere(read),
        ensures
            exists|v: u32| read.ensures(((CLOCK_BASE + LFCLKSTAT) as u32,), v) && r == state_running(v),
    {
        self.running(LFCLKSTAT, read)
    }

    /// Selects the LFCLK source. To be called while LFCLK is stopped.
    pub fn low_set_source(&self, source: LowClockSource) -> (w: RegWrite)
        ensures
            w == (RegWrite { addr: (CLOCK_BASE + LFCLKSRC) as u32, value: low_source_value(source) }),
    {
        let src = Field { mask: 3, shift: 0 };
        let v: u32 = match source {
            LowClockSource::RC => 0,
            LowClockSource::XTAL => 1,
            LowClockSource::SYNTH => 2,
        };
        let s = src.val(v);
        assert((v & 3u32) << 0u32 == v) by (bit_vector)
            requires
                v <= 2,
        ;
        self.reg(LFCLKSRC).write(s)
    }

    /// The program run at reset: stop both clocks, select both crystals, start
    /// both clocks, then wait for LFCLK and HFCLK to report started.
    pub fn start_crystal_clocks(&self) -> (r: Vec<Step>)
        ensures
            r@ == crystal_start_program(),
    {
        let ready = Clock::flag().val(1);
        assert(1u32 << 0u32 == 1 && (1u32 & 1u32) << 0u32 == 1) by (bit_vector);
        let mut r: Vec<Step> = Vec::new();
        r.push(Step::Write(self.low_stop()));
        r.push(Step::Write(self.high_stop()));
        r.push(Step::Write(self.low_set_source(LowClockSource::XTAL)));
        r.push(Step::Write(self.low_start()));
        r.push(Step::Write(self.high_set_source(HighClockSource::XTAL)));
        r.push(Step::Write(self.high_start()));
        r.push(Step::WaitUntil { addr: self.reg(EVENTS_LFCLKSTARTED).addr, until: ready });
        r.push(Step::WaitUntil { addr: self.reg(EVENTS_HFCLKSTARTED).addr, until: ready });
        assert(r@ =~= crystal_start_program());
        r
    }
}

} // verus!
