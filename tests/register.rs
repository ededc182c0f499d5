use nrf52dk::register::{Field, FieldSetting, RegWrite, Register, Step};

#[test]
fn field_read_extracts_bits() {
    let f = Field { mask: 0x3, shift: 4 };
    assert_eq!(f.read(0x0000_00f0), 3);
    assert_eq!(f.read(0x0000_0020), 2);
    assert_eq!(f.read(0xffff_ff0f), 0);
}

#[test]
fn field_val_shifts_and_cuts() {
    let f = Field { mask: 0x3, shift: 4 };
    assert_eq!(f.val(2), FieldSetting { mask: 0x30, value: 0x20 });
    assert_eq!(f.val(7), FieldSetting { mask: 0x30, value: 0x30 });
    let top = Field { mask: 1, shift: 31 };
    assert_eq!(top.val(1), FieldSetting { mask: 0x8000_0000, value: 0x8000_0000 });
}

#[test]
fn setting_modify_keeps_other_bits() {
    let s = Field { mask: 0x3, shift: 4 }.val(1);
    assert_eq!(s.modify(0xffff_ffff), 0xffff_ffdf);
    assert_eq!(s.modify(0), 0x10);
}

#[test]
fn setting_matches_only_its_fields() {
    let s = Field { mask: 1, shift: 16 }.val(1);
    assert!(s.matches(0x0001_0000));
    assert!(s.matches(0xffff_ffff));
    assert!(!s.matches(0xfffe_ffff));
}

#[test]
fn register_stores() {
    let r = Register::at(0x4000_0000, 0x518);
    assert_eq!(r.addr, 0x4000_0518);
    assert_eq!(r.set(7), RegWrite { addr: 0x4000_0518, value: 7 });
    let s = Field { mask: 0x3, shift: 0 }.val(2);
    assert_eq!(r.write(s), RegWrite { addr: 0x4000_0518, value: 2 });
}

#[test]
fn register_reads_through_the_read_function() {
    let r = Register::at(0x1000, 4);
    let read = |a: u32| if a == 0x1004 { 0xabcd_0000 } else { 0 };
    assert_eq!(r.get(&read), 0xabcd_0000);
    let w = r.modify(Field { mask: 0xffff, shift: 0 }.val(0x1234), &read);
    assert_eq!(w, RegWrite { addr: 0x1004, value: 0xabcd_1234 });
    assert!(r.matches(Field { mask: 0xffff, shift: 16 }.val(0xabcd), &read));
    assert!(!r.matches(Field { mask: 0xffff, shift: 0 }.val(1), &read));
}

#[test]
fn step_done() {
    let w = Step::Write(RegWrite { addr: 0, value: 0 });
    assert!(w.done(0));
    let wait = Step::WaitUntil { addr: 0x100, until: FieldSetting { mask: 1, value: 1 } };
    assert!(!wait.done(0));
    assert!(wait.done(1));
    assert!(wait.done(3));
    assert!(!wait.done(2));
}
