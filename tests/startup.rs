use nrf52dk::startup::{clear_bss, init, init_data, MemoryLayout, MemoryRegion, Ram, WordCursor, WordStep};

fn ram(base: u32, n: u32) -> Ram {
    Ram { base, words: (0..n).map(|i| 0x1000 + i).collect() }
}

#[test]
fn cursor_walks_each_word_once() {
    let region = MemoryRegion { source: 0x100, start: 0x2000, end: 0x2010 };
    let mut c = WordCursor::new(&region);
    let mut steps = Vec::new();
    while let Some(s) = c.next() {
        steps.push(s);
    }
    assert_eq!(
        steps,
        vec![
            WordStep { from: 0x100, to: 0x2000 },
            WordStep { from: 0x104, to: 0x2004 },
            WordStep { from: 0x108, to: 0x2008 },
            WordStep { from: 0x10c, to: 0x200c },
        ]
    );
    assert_eq!(c.next(), None);
}

#[test]
fn cursor_on_empty_region() {
    let region = MemoryRegion { source: 0x100, start: 0x2000, end: 0x2000 };
    let mut c = WordCursor::new(&region);
    assert_eq!(c.next(), None);
}

#[test]
fn init_data_copies_exactly_the_region() {
    let mut m = ram(0x1000, 16);
    let region = MemoryRegion { source: 0x1000, start: 0x1020, end: 0x102c };
    let n = init_data(&mut m, &region);
    assert_eq!(n, 3);
    let mut expected: Vec<u32> = (0..16).map(|i| 0x1000 + i).collect();
    expected[8] = 0x1000;
    expected[9] = 0x1001;
    expected[10] = 0x1002;
    assert_eq!(m.words, expected);
}

#[test]
fn clear_bss_zeroes_exactly_the_region() {
    let mut m = ram(0x2000_0000, 8);
    let region = MemoryRegion { source: 0x2000_0008, start: 0x2000_0008, end: 0x2000_0018 };
    let n = clear_bss(&mut m, &region);
    assert_eq!(n, 4);
    assert_eq!(m.words, vec![0x1000, 0x1001, 0, 0, 0, 0, 0x1006, 0x1007]);
}

#[test]
fn empty_regions_write_nothing() {
    let mut m = ram(0, 4);
    let region = MemoryRegion { source: 0, start: 8, end: 8 };
    assert_eq!(init_data(&mut m, &region), 0);
    assert_eq!(clear_bss(&mut m, &region), 0);
    assert_eq!(m.words, vec![0x1000, 0x1001, 0x1002, 0x1003]);
}

#[test]
fn init_copies_then_zeroes() {
    let mut m = ram(0, 12);
    let layout = MemoryLayout { data_load: 0, data_start: 16, bss_start: 24, bss_end: 36 };
    assert_eq!(layout.data(), MemoryRegion { source: 0, start: 16, end: 24 });
    assert_eq!(layout.bss(), MemoryRegion { source: 24, start: 24, end: 36 });
    init(&mut m, &layout);
    assert_eq!(
        m.words,
        vec![0x1000, 0x1001, 0x1002, 0x1003, 0x1000, 0x1001, 0, 0, 0, 0x1009, 0x100a, 0x100b]
    );
}

#[test]
fn ram_words() {
    let mut m = ram(0x100, 4);
    assert_eq!(m.read_word(0x108), 0x1002);
    m.write_word(0x108, 7);
    assert_eq!(m.read_word(0x108), 7);
    assert_eq!(m.words, vec![0x1000, 0x1001, 7, 0x1003]);
}

#[test]
fn region_validity() {
    assert!(MemoryRegion { source: 0, start: 4, end: 8 }.is_valid());
    assert!(MemoryRegion { source: 0, start: 8, end: 8 }.is_valid());
    assert!(!MemoryRegion { source: 0, start: 8, end: 4 }.is_valid());
    assert!(!MemoryRegion { source: 0, start: 4, end: 10 }.is_valid());
    assert!(!MemoryRegion { source: 2, start: 4, end: 8 }.is_valid());
    assert!(!MemoryRegion { source: 0xffff_fffc, start: 0, end: 8 }.is_valid());
}
