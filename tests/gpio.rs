use nrf52dk::peripherals::gpio::{
    Gpio, GpioPort, CNF_INPUT, CNF_OUTPUT, DIRCLR, DIRSET, GPIO_BASE, NUMBER_PINS, OUT, OUTCLR,
    OUTSET, PIN_CNF,
};
use nrf52dk::register::RegWrite;

#[test]
fn make_output_sets_direction_and_configuration() {
    let gpio = Gpio::new();
    let w = gpio.make_output(17);
    assert_eq!(
        w,
        vec![
            RegWrite { addr: 0x5000_0518, value: 1 << 17 },
            RegWrite { addr: 0x5000_0744, value: 1 },
        ]
    );
}

#[test]
fn make_input_clears_direction_and_configuration() {
    let gpio = Gpio::new();
    let w = gpio.make_input(3);
    assert_eq!(
        w,
        vec![
            RegWrite { addr: GPIO_BASE + DIRCLR, value: 1 << 3 },
            RegWrite { addr: GPIO_BASE + PIN_CNF + 12, value: CNF_INPUT },
        ]
    );
}

#[test]
fn last_valid_pin() {
    let gpio = Gpio::new();
    let w = gpio.make_output(NUMBER_PINS - 1);
    assert_eq!(w[0], RegWrite { addr: GPIO_BASE + DIRSET, value: 0x8000_0000 });
    assert_eq!(w[1], RegWrite { addr: 0x5000_077c, value: CNF_OUTPUT });
}

#[test]
fn set_and_clear_use_their_own_registers() {
    let gpio = Gpio::new();
    assert_eq!(gpio.set(20), RegWrite { addr: GPIO_BASE + OUTSET, value: 1 << 20 });
    assert_eq!(gpio.clear(20), RegWrite { addr: GPIO_BASE + OUTCLR, value: 1 << 20 });
    assert_eq!(gpio.set(0), RegWrite { addr: 0x5000_0508, value: 1 });
}

#[test]
fn toggle_flips_exactly_one_bit_for_every_pin() {
    let gpio = Gpio::new();
    for start in [0u32, 0xffff_ffff, 0xa5a5_5a5a] {
        let read = |a: u32| if a == GPIO_BASE + OUT { start } else { 0 };
        for pin in 0..NUMBER_PINS {
            let w = gpio.toggle(pin, &read);
            assert_eq!(w.addr, GPIO_BASE + OUT);
            assert_eq!(w.value ^ start, 1 << pin);
            assert_eq!((w.value ^ start).count_ones(), 1);
        }
    }
}

#[test]
fn toggle_twice_on_the_model_restores_output() {
    let gpio = Gpio::new();
    let mut port = GpioPort::new();
    port.apply(&gpio.set(4));
    let w = gpio.toggle(9, &|a: u32| port.read(a));
    port.apply(&w);
    assert_eq!(port.out, (1 << 4) | (1 << 9));
    let w = gpio.toggle(9, &|a: u32| port.read(a));
    port.apply(&w);
    assert_eq!(port.out, 1 << 4);
}

#[test]
fn output_then_input_restores_pin() {
    let gpio = Gpio::new();
    let mut port = GpioPort::new();
    port.apply_all(&gpio.make_output(2));
    let before_out = port.out;
    let before_dir = port.dir;
    let before: Vec<u32> = (0..NUMBER_PINS).map(|n| port.read(GPIO_BASE + PIN_CNF + 4 * n)).collect();
    port.apply_all(&gpio.make_output(7));
    assert_eq!(port.dir, before_dir | (1 << 7));
    assert_eq!(port.read(GPIO_BASE + PIN_CNF + 28), CNF_OUTPUT);
    port.apply_all(&gpio.make_input(7));
    assert_eq!(port.out, before_out);
    assert_eq!(port.dir, before_dir);
    for n in 0..NUMBER_PINS {
        assert_eq!(port.read(GPIO_BASE + PIN_CNF + 4 * n), before[n as usize]);
    }
}

#[test]
fn set_clear_on_the_model() {
    let gpio = Gpio::new();
    let mut port = GpioPort::new();
    port.apply(&gpio.set(1));
    port.apply(&gpio.set(30));
    assert_eq!(port.out, (1 << 1) | (1 << 30));
    port.apply(&gpio.clear(1));
    assert_eq!(port.out, 1 << 30);
    assert_eq!(port.dir, 0);
}
