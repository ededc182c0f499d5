//! GPIO port: pin direction and output level.
//!
//! Every operation takes a pin number, which must be below `NUMBER_PINS`.
//! `set` and `clear` go through the dedicated set and clear registers, so they
//! never disturb other pins; `toggle` reads the output register and writes it
//! back, and is not atomic with respect to other writers of that register.
use vstd::prelude::*;
use crate::register::{reads_anywhere, Register, RegWrite};

verus! {

/// Base address of the GPIO port.
pub const GPIO_BASE: u32 = 0x5000_0000;
/// Number of pins of the port.
pub const NUMBER_PINS: u32 = 32;

/// Output level of all pins.
pub const OUT: u32 = 0x504;
/// Writing a 1 drives the pin high.
pub const OUTSET: u32 = 0x508;
/// Writing a 1 drives the pin low.
pub const OUTCLR: u32 = 0x50c;
/// Direction of all pins: 1 is output.
pub const DIR: u32 = 0x514;
/// Writing a 1 makes the pin an output.
pub const DIRSET: u32 = 0x518;
/// Writing a 1 makes the pin an input.
pub const DIRCLR: u32 = 0x51c;
/// Configuration of pin 0; that of pin `n` follows at `4 * n` bytes further.
/// Bit 0 of it is the pin's bit of `DIR`.
pub const PIN_CNF: u32 = 0x700;

/// Configuration word of an output with the input buffer connected, no pull,
/// standard drive and no sensing.
pub const CNF_OUTPUT: u32 = 1;
/// Configuration word of an input with the input buffer connected, no pull and
/// no sensing.
pub const CNF_INPUT: u32 = 0;

/// The bit of pin `pin` in the port-wide registers.
pub open spec fn pin_bit(pin: u32) -> u32 {
    1u32 << pin
}

/// Address of the configuration register of pin `pin`.
pub open spec fn cnf_addr(pin: u32) -> u32 {
    (GPIO_BASE + PIN_CNF + 4 * pin) as u32
}

/// The stores that make `pin` an output.
pub open spec fn output_writes(pin: u32) -> Seq<RegWrite> {
    seq![
        RegWrite { addr: (GPIO_BASE + DIRSET) as u32, value: pin_bit(pin) },
        RegWrite { addr: cnf_addr(pin), value: CNF_OUTPUT },
    ]
}

/// The stores that make `pin` an input.
pub open spec fn input_writes(pin: u32) -> Seq<RegWrite> {
    seq![
        RegWrite { addr: (GPIO_BASE + DIRCLR) as u32, value: pin_bit(pin) },
        RegWrite { addr: cnf_addr(pin), value: CNF_INPUT },
    ]
}

/// The output word after flipping the bit of `pin` in `out`.
pub open spec fn toggled(out: u32, pin: u32) -> u32 {
    out ^ pin_bit(pin)
}

/// Handle on the GPIO port. Holds only the port's base address.
pub struct Gpio {
    base: u32,
}

impl Gpio {
    #[verifier::type_invariant]
    spec fn at_port(&self) -> bool {
        self.base == GPIO_BASE
    }

    /// The handle on the port.
    pub fn new() -> (r: Gpio) {
        Gpio { base: GPIO_BASE }
    }

    fn reg(&self, offset: u32) -> (r: Register)
        requires
            offset <= PIN_CNF + 4 * NUMBER_PINS,
        ensures
            r.addr == GPIO_BASE + offset,
    {
        proof {
            use_type_invariant(self);
        }
        Register::at(self.base, offset)
    }

    /// Makes `pin` an output: sets its direction bit and its configuration.
    pub fn make_output(&self, pin: u32) -> (r: Vec<RegWrite>)
        requires
            pin < NUMBER_PINS,
        ensures
            r@ == output_writes(pin),
    {
        let mut r: Vec<RegWrite> = Vec::new();
        r.push(self.reg(DIRSET).set(1u32 << pin));
        r.push(self.reg(PIN_CNF + 4 * pin).set(CNF_OUTPUT));
        assert(r@ =~= output_writes(pin));
        r
    }

    /// Makes `pin` an input: clears its direction bit and resets its
    /// configuration.
    pub fn make_input(&self, pin: u32) -> (r: Vec<RegWrite>)
        requires
            pin < NUMBER_PINS,
        ensures
            r@ == input_writes(pin),
    {
        let mut r: Vec<RegWrite> = Vec::new();
        r.push(self.reg(DIRCLR).set(1u32 << pin));
        r.push(self.reg(PIN_CNF + 4 * pin).set(CNF_INPUT));
        assert(r@ =~= input_writes(pin));
        r
    }

    /// Drives `pin` high through the set register.
    pub fn set(&self, pin: u32) -> (w: RegWrite)
        requires
            pin < NUMBER_PINS,
        ensures
            w == (RegWrite { addr: (GPIO_BASE + OUTSET) as u32, value: pin_bit(pin) }),
    {
        self.reg(OUTSET).set(1u32 << pin)
    }

    /// Drives `pin` low through the clear register.
    pub fn clear(&self, pin: u32) -> (w: RegWrite)
        requires
            pin < NUMBER_PINS,
        ensures
            w == (RegWrite { addr: (GPIO_BASE + OUTCLR) as u32, value: pin_bit(pin) }),
    {
        self.reg(OUTCLR).set(1u32 << pin)
    }

    /// Reads the output register and gives the store that writes it back with
    /// the bit of `pin` flipped.
    pub fn toggle<R: Fn(u32) -> u32>(&self, pin: u32, read: &R) -> (w: RegWrite)
        requires
            pin < NUMBER_PINS,
            reads_anywhere(read),
        ensures
            w.addr == GPIO_BASE + OUT,
            exists|v: u32| read.ensures(((GPIO_BASE + OUT) as u32,), v) && w.value == toggled(v, pin),
    {
        let out = self.reg(OUT);
        let v = out.get(read);
        let w = out.set(v ^ (1u32 << pin));
        assert(read.ensures(((GPIO_BASE + OUT) as u32,), v));
        assert(w.value == toggled(v, pin));
        w
    }
}

} // verus!

verus! {

/// What the port's registers hold: the output levels, the directions, and the
/// configuration word of each pin (whose bit 0 is not kept here: it is the
/// pin's bit of `dir`).
pub struct PortState {
    pub out: u32,
    pub dir: u32,
    pub cnf: Seq<u32>,
}

/// The configuration register of pin `n` as read back: bit 0 is the pin's
/// direction bit.
pub open spec fn pin_config(s: PortState, n: u32) -> u32 {
    (s.cnf[n as int] & 0xffff_fffe) | ((s.dir >> n) & 1)
}

/// Whether `addr` is the configuration register of some pin.
pub open spec fn is_cnf_addr(addr: u32) -> bool {
    GPIO_BASE + PIN_CNF <= addr < GPIO_BASE + PIN_CNF + 4 * NUMBER_PINS
        && (addr - (GPIO_BASE + PIN_CNF)) % 4 == 0
}

/// The port after the store `w`: the set and clear registers set or clear the
/// bits written as 1; a configuration store also sets the pin's direction bit
/// to its bit 0. A store anywhere else changes nothing here.
pub open spec fn port_after(s: PortState, w: RegWrite) -> PortState {
    if w.addr == GPIO_BASE + OUT {
        PortState { out: w.value, ..s }
    } else if w.addr == GPIO_BASE + OUTSET {
        PortState { out: s.out | w.value, ..s }
    } else if w.addr == GPIO_BASE + OUTCLR {
        PortState { out: s.out & !w.value, ..s }
    } else if w.addr == GPIO_BASE + DIR {
        PortState { dir: w.value, ..s }
    } else if w.addr == GPIO_BASE + DIRSET {
        PortState { dir: s.dir | w.value, ..s }
    } else if w.addr == GPIO_BASE + DIRCLR {
        PortState { dir: s.dir & !w.value, ..s }
    } else if is_cnf_addr(w.addr) {
        let n = ((w.addr - (GPIO_BASE + PIN_CNF)) / 4) as u32;
        PortState {
            dir: (s.dir & !(1u32 << n)) | ((w.value & 1) << n),
            cnf: s.cnf.update(n as int, w.value),
            ..s
        }
    } else {
        s
    }
}

/// The port after the stores of `ws`, in order.
pub open spec fn port_after_all(s: PortState, ws: Seq<RegWrite>) -> PortState
    decreases ws.len(),
{
    if ws.len() == 0 {
        s
    } else {
        port_after_all(port_after(s, ws[0]), ws.drop_first())
    }
}

/// Toggling flips the bit of the pin and no other bit of the output word.
pub proof fn lemma_toggle_flips_one_bit(out: u32, pin: u32, j: u32)
    requires
        pin < NUMBER_PINS,
        j < 32,
    ensures
        ((toggled(out, pin) >> j) & 1 != (out >> j) & 1) == (j == pin),
{
    assert(((out ^ (1u32 << pin)) >> j) & 1 != (out >> j) & 1 <==> j == pin) by (bit_vector)
        requires
            pin < 32,
            j < 32,
    ;
}

/// Making an input pin an output and then an input again leaves it, and the
/// whole port, as it was.
pub proof fn lemma_output_then_input_restores(s: PortState, pin: u32)
    requires
        pin < NUMBER_PINS,
        s.cnf.len() == NUMBER_PINS,
        (s.dir >> pin) & 1 == 0,
        pin_config(s, pin) == CNF_INPUT,
    ensures
        ({
            let t = port_after_all(s, output_writes(pin) + input_writes(pin));
            &&& t.out == s.out
            &&& t.dir == s.dir
            &&& t.cnf.len() == s.cnf.len()
            &&& forall|n: u32| n < NUMBER_PINS ==> pin_config(t, n) == pin_config(s, n)
        }),
{
    let ws = output_writes(pin) + input_writes(pin);
    let b = 1u32 << pin;
    assert(is_cnf_addr(cnf_addr(pin)));
    assert((cnf_addr(pin) - (GPIO_BASE + PIN_CNF)) / 4 == pin);
    let s1 = port_after(s, ws[0]);
    let s2 = port_after(s1, ws[1]);
    let s3 = port_after(s2, ws[2]);
    let s4 = port_after(s3, ws[3]);
    assert(ws.drop_first().drop_first().drop_first().drop_first().len() == 0);
    assert(port_after_all(s, ws) == s4) by {
        reveal_with_fuel(port_after_all, 5);
        assert(ws.drop_first()[0] == ws[1]);
        assert(ws.drop_first().drop_first()[0] == ws[2]);
        assert(ws.drop_first().drop_first().drop_first()[0] == ws[3]);
    }
    let d = s.dir;
    assert(s4.dir == ((((((d | b) & !b) | ((1u32 & 1u32) << pin)) & !b) & !b) | ((0u32 & 1u32) << pin)));
    assert(((((((d | b) & !b) | ((1u32 & 1u32) << pin)) & !b) & !b) | ((0u32 & 1u32) << pin)) == d)
        by (bit_vector)
        requires
            b == 1u32 << pin,
            (d >> pin) & 1 == 0,
            pin < 32,
    ;
    assert(s4.cnf == s.cnf.update(pin as int, 0u32));
    assert forall|n: u32| n < NUMBER_PINS implies pin_config(s4, n) == pin_config(s, n) by {
        if n == pin {
            assert((0u32 & 0xffff_fffeu32) == 0) by (bit_vector);
            assert(s.cnf[n as int] & 0xffff_fffe == 0) by {
                let c = s.cnf[n as int];
                assert(((c & 0xffff_fffe) | ((d >> pin) & 1)) == 0 && (d >> pin) & 1 == 0 ==> c
                    & 0xffff_fffe == 0) by (bit_vector);
            }
        }
    }
}

} // verus!

verus! {

/// A model of the port's registers in ordinary memory, on which the stores of
/// the driver can be played.
#[derive(Debug)]
pub struct GpioPort {
    pub out: u32,
    pub dir: u32,
    pub cnf: Vec<u32>,
}

impl View for GpioPort {
    type V = PortState;

    open spec fn view(&self) -> PortState {
        PortState { out: self.out, dir: self.dir, cnf: self.cnf@ }
    }
}

impl GpioPort {
    /// One configuration word per pin.
    pub open spec fn wf(&self) -> bool {
        self.cnf@.len() == NUMBER_PINS
    }

    /// The port after reset: all pins inputs at level low, configurations zero.
    pub fn new() -> (p: GpioPort)
        ensures
            p.wf(),
            p@.out == 0,
            p@.dir == 0,
            p@.cnf == Seq::new(NUMBER_PINS as nat, |i: int| 0u32),
    {
        let mut cnf: Vec<u32> = Vec::new();
        let mut i: u32 = 0;
        while i < NUMBER_PINS
            invariant
                i <= NUMBER_PINS,
                cnf@ == Seq::new(i as nat, |k: int| 0u32),
            decreases NUMBER_PINS - i,
        {
            cnf.push(0);
            i = i + 1;
            assert(cnf@ =~= Seq::new(i as nat, |k: int| 0u32));
        }
        GpioPort { out: 0, dir: 0, cnf }
    }

    /// The word that a read of `addr` gives: the output or direction register,
    /// or a pin's configuration; zero anywhere else.
    pub fn read(&self, addr: u32) -> (r: u32)
        requires
            self.wf(),
        ensures
            addr == GPIO_BASE + OUT ==> r == self.out,
            addr == GPIO_BASE + DIR ==> r == self.dir,
            is_cnf_addr(addr) ==> r == pin_config(self@, ((addr - (GPIO_BASE + PIN_CNF)) / 4) as u32),
    {
        if addr == GPIO_BASE + OUT {
            self.out
        } else if addr == GPIO_BASE + DIR {
            self.dir
        } else if GPIO_BASE + PIN_CNF <= addr && addr < GPIO_BASE + PIN_CNF + 4 * NUMBER_PINS
            && (addr - (GPIO_BASE + PIN_CNF)) % 4 == 0 {
            let n = (addr - (GPIO_BASE + PIN_CNF)) / 4;
            (self.cnf[n as usize] & 0xffff_fffe) | ((self.dir >> n) & 1)
        } else {
            0
        }
    }

    /// Plays the store `w` on the port.
    pub fn apply(&mut self, w: &RegWrite)
        requires
            old(self).wf(),
        ensures
            final(self).wf(),
            final(self)@ == port_after(old(self)@, *w),
    {
        if w.addr == GPIO_BASE + OUT {
            self.out = w.value;
        } else if w.addr == GPIO_BASE + OUTSET {
            self.out = self.out | w.value;
        } else if w.addr == GPIO_BASE + OUTCLR {
            self.out = self.out & !w.value;
        } else if w.addr == GPIO_BASE + DIR {
            self.dir = w.value;
        } else if w.addr == GPIO_BASE + DIRSET {
            self.dir = self.dir | w.value;
        } else if w.addr == GPIO_BASE + DIRCLR {
            self.dir = self.dir & !w.value;
        } else if GPIO_BASE + PIN_CNF <= w.addr && w.addr < GPIO_BASE + PIN_CNF + 4 * NUMBER_PINS
            && (w.addr - (GPIO_BASE + PIN_CNF)) % 4 == 0 {
            let n = (w.addr - (GPIO_BASE + PIN_CNF)) / 4;
            self.dir = (self.dir & !(1u32 << n)) | ((w.value & 1) << n);
            self.cnf.set(n as usize, w.value);
        }
        assert(self@ =~= port_after(old(self)@, *w));
    }

    /// Plays the stores of `ws` on the port, in order.
    pub fn apply_all(&mut self, ws: &Vec<RegWrite>)
        requires
            old(self).wf(),
        ensures
            final(self).wf(),
            final(self)@ == port_after_all(old(self)@, ws@),
    {
        let mut i: usize = 0;
        assert(ws@.skip(0) =~= ws@);
        while i < ws.len()
            invariant
                i <= ws@.len(),
                self.wf(),
                port_after_all(self@, ws@.skip(i as int)) == port_after_all(old(self)@, ws@),
            decreases ws@.len() - i,
        {
            assert(ws@.skip(i as int).drop_first() =~= ws@.skip(i + 1));
            self.apply(&ws[i]);
            i = i + 1;
        }
        assert(ws@.skip(i as int).len() == 0);
    }
}

} // verus!
