//! Register access: every hardware register is reached through a `Register`.
//!
//! The library never touches memory itself. A store is handed out as a
//! `RegWrite` command, which the caller performs as one volatile write, and a
//! load goes through a read function supplied by the caller, which performs one
//! volatile read of the address it is given.
use vstd::prelude::*;

verus! {

/// A bit field of a 32-bit register: `mask` (unshifted, least significant bit
/// first) placed at bit `shift`.
#[derive(Clone, Copy, Debug, PartialEq, Eq, Structural)]
pub struct Field {
    pub mask: u32,
    pub shift: u32,
}

/// Values for one or more fields, shifted into their place in the register.
#[derive(Clone, Copy, Debug, PartialEq, Eq, Structural)]
pub struct FieldSetting {
    pub mask: u32,
    pub value: u32,
}

/// One volatile store of `value` to the word at address `addr`.
#[derive(Clone, Copy, Debug, PartialEq, Eq, Structural)]
pub struct RegWrite {
    pub addr: u32,
    pub value: u32,
}

/// A 32-bit memory-mapped register at a fixed address.
#[derive(Clone, Copy, Debug, PartialEq, Eq, Structural)]
pub struct Register {
    pub addr: u32,
}

impl Field {
    pub open spec fn wf(self) -> bool {
        self.shift < 32
    }
}

/// The bits of `word` that field `f` covers, shifted down to bit 0.
pub open spec fn field_bits(f: Field, word: u32) -> u32 {
    (word & (f.mask << f.shift)) >> f.shift
}

/// The setting that puts `v` (cut to the field's width) into field `f`.
pub open spec fn setting_of(f: Field, v: u32) -> FieldSetting {
    FieldSetting { mask: f.mask << f.shift, value: (v & f.mask) << f.shift }
}

/// `word` with the bits of `s.mask` replaced by those of `s.value`.
pub open spec fn modified(s: FieldSetting, word: u32) -> u32 {
    (word & !s.mask) | (s.value & s.mask)
}

/// Whether every field of `s` holds its value in `word`.
pub open spec fn matches_setting(s: FieldSetting, word: u32) -> bool {
    word & s.mask == s.value & s.mask
}

/// A read function that accepts every address.
pub open spec fn reads_anywhere<R: Fn(u32) -> u32>(read: &R) -> bool {
    forall|a: u32| read.requires((a,))
}

/// Relies on `tock_registers::fields::Field::read`: `(val & (mask << shift)) >> shift`.
#[verifier::external_body]
fn tock_field_read(f: Field, word: u32) -> (r: u32)
    requires
        f.wf(),
    ensures
        r == field_bits(f, word),
{
    tock_registers::fields::Field::<u32, ()>::new(f.mask, f.shift as usize).read(word)
}

/// Relies on `tock_registers::fields::FieldValue::<u32, _>::new`: the mask is
/// `mask << shift` and the value `(value & mask) << shift`.
#[verifier::external_body]
fn tock_field_value(f: Field, v: u32) -> (r: FieldSetting)
    requires
        f.wf(),
    ensures
        r == setting_of(f, v),
{
    let fv = tock_registers::fields::FieldValue::<u32, ()>::new(f.mask, f.shift as usize, v);
    FieldSetting { mask: fv.mask(), value: fv.value }
}

/// Relies on `tock_registers::fields::FieldValue::modify`: `(val & !mask) | value`,
/// where a value built with shift 0 is `value & mask`.
#[verifier::external_body]
fn tock_modify(s: FieldSetting, word: u32) -> (r: u32)
    ensures
        r == modified(s, word),
{
    tock_registers::fields::FieldValue::<u32, ()>::new(s.mask, 0, s.value).modify(word)
}

/// Relies on `tock_registers::fields::FieldValue::matches_all`:
/// `val & mask == value`, where a value built with shift 0 is `value & mask`.
#[verifier::external_body]
fn tock_matches_all(s: FieldSetting, word: u32) -> (r: bool)
    ensures
        r == matches_setting(s, word),
{
    tock_registers::fields::FieldValue::<u32, ()>::new(s.mask, 0, s.value).matches_all(word)
}

impl Field {
    /// The value of this field in `word`.
    pub fn read(&self, word: u32) -> (r: u32)
        requires
            self.wf(),
        ensures
            r == field_bits(*self, word),
    {
        tock_field_read(*self, word)
    }

    /// The setting that gives this field the value `v`.
    pub fn val(&self, v: u32) -> (r: FieldSetting)
        requires
            self.wf(),
        ensures
            r == setting_of(*self, v),
    {
        tock_field_value(*self, v)
    }
}

impl FieldSetting {
    /// `word` with this setting's fields replaced and all other bits kept.
    pub fn modify(&self, word: u32) -> (r: u32)
        ensures
            r == modified(*self, word),
    {
        tock_modify(*self, word)
    }

    /// Whether all of this setting's fields hold their values in `word`.
    pub fn matches(&self, word: u32) -> (r: bool)
        ensures
            r == matches_setting(*self, word),
    {
        tock_matches_all(*self, word)
    }
}

impl Register {
    /// The register at `base + offset`.
    pub fn at(base: u32, offset: u32) -> (r: Register)
        requires
            base + offset <= u32::MAX,
        ensures
            r.addr == base + offset,
    {
        Register { addr: base + offset }
    }

    /// The store of the whole word `value`.
    pub fn set(&self, value: u32) -> (w: RegWrite)
        ensures
            w == (RegWrite { addr: self.addr, value }),
    {
        RegWrite { addr: self.addr, value }
    }

    /// The store that writes the fields of `s` and zero everywhere else.
    pub fn write(&self, s: FieldSetting) -> (w: RegWrite)
        ensures
            w == (RegWrite { addr: self.addr, value: s.value }),
    {
        RegWrite { addr: self.addr, value: s.value }
    }

    /// One read of the whole word.
    pub fn get<R: Fn(u32) -> u32>(&self, read: &R) -> (r: u32)
        requires
            reads_anywhere(read),
        ensures
            read.ensures((self.addr,), r),
    {
        read(self.addr)
    }

    /// One read, then the store that puts the fields of `s` into the word read.
    /// Not atomic: a write by someone else between the two is lost.
    pub fn modify<R: Fn(u32) -> u32>(&self, s: FieldSetting, read: &R) -> (w: RegWrite)
        requires
            reads_anywhere(read),
        ensures
            w.addr == self.addr,
            exists|v: u32| read.ensures((self.addr,), v) && w.value == modified(s, v),
    {
        let v = read(self.addr);
        RegWrite { addr: self.addr, value: s.modify(v) }
    }

    /// One read, and whether every field of `s` holds its value in it.
    pub fn matches<R: Fn(u32) -> u32>(&self, s: FieldSetting, read: &R) -> (r: bool)
        requires
            reads_anywhere(read),
        ensures
            exists|v: u32| read.ensures((self.addr,), v) && r == matches_setting(s, v),
    {
        let v = read(self.addr);
        s.matches(v)
    }
}

} // verus!

verus! {

/// One step of a register program: a store, or a busy-wait that reads `addr`
/// again and again until every field of `until` holds its value in the word read.
#[derive(Clone, Copy, Debug, PartialEq, Eq, Structural)]
pub enum Step {
    Write(RegWrite),
    WaitUntil { addr: u32, until: FieldSetting },
}

/// The readiness flag of an event register: bit 0 set.
pub open spec fn ready_setting() -> FieldSetting {
    FieldSetting { mask: 1, value: 1 }
}

impl Step {
    /// Whether a busy-wait step is over once it has read `word`; a store is
    /// never waiting.
    pub fn done(&self, word: u32) -> (r: bool)
        ensures
            r == match *self {
                Step::Write(_) => true,
                Step::WaitUntil { addr, until } => matches_setting(until, word),
            },
    {
        match self {
            Step::Write(_) => true,
            Step::WaitUntil { addr, until } => until.matches(word),
        }
    }
}

} // verus!
