//! Memory set-up at reset: copy the initialised data from program storage to
//! RAM, then zero the uninitialised data.
//!
//! A `MemoryRegion` describes one block. A `WordCursor` walks it one 32-bit word
//! at a time, stopping strictly before the end address; whoever holds the memory
//! performs each step. `Ram` is a plain model of word memory on which the whole
//! start-up sequence runs and is proved.
use vstd::prelude::*;

verus! {

/// One block to fill at reset: the words from `start` up to, not including,
/// `end`, taken from the words from `source` on (when copying).
#[derive(Clone, Copy, Debug, PartialEq, Eq, Structural)]
pub struct MemoryRegion {
    pub source: u32,
    pub start: u32,
    pub end: u32,
}

/// Addresses handed over by the link step: the initialised data's image in
/// program storage (`data_load`), its place in RAM (`data_start` up to
/// `bss_start`), and the uninitialised data (`bss_start` up to `bss_end`).
#[derive(Clone, Copy, Debug, PartialEq, Eq, Structural)]
pub struct MemoryLayout {
    pub data_load: u32,
    pub data_start: u32,
    pub bss_start: u32,
    pub bss_end: u32,
}

/// One step of a walk: copy the word at `from` to `to`; a zeroing walk has
/// `from == to` and stores zero there.
#[derive(Clone, Copy, Debug, PartialEq, Eq, Structural)]
pub struct WordStep {
    pub from: u32,
    pub to: u32,
}

/// Position of a walk over a region.
#[derive(Clone, Copy, Debug, PartialEq, Eq, Structural)]
pub struct WordCursor {
    pub src: u32,
    pub dst: u32,
    pub end: u32,
}

impl MemoryRegion {
    /// Word-aligned, `start <= end`, and the source block fits below 2^32.
    pub open spec fn wf(self) -> bool {
        &&& self.start <= self.end
        &&& self.start % 4 == 0
        &&& self.end % 4 == 0
        &&& self.source % 4 == 0
        &&& self.source + (self.end - self.start) <= u32::MAX
    }

    /// Number of words in the region.
    pub open spec fn words(self) -> int {
        (self.end - self.start) / 4
    }

    /// Whether the region is well formed: word-aligned, `start <= end`, and its
    /// source block below 2^32.
    pub fn is_valid(&self) -> (r: bool)
        ensures
            r == self.wf(),
    {
        self.start <= self.end && self.start % 4 == 0 && self.end % 4 == 0 && self.source % 4 == 0
            && self.end - self.start <= u32::MAX - self.source
    }
}

impl MemoryLayout {
    pub open spec fn wf(self) -> bool {
        &&& self.data_region().wf()
        &&& self.bss_region().wf()
    }

    /// The region of the initialised data.
    pub open spec fn data_region(self) -> MemoryRegion {
        MemoryRegion { source: self.data_load, start: self.data_start, end: self.bss_start }
    }

    /// The region of the uninitialised data.
    pub open spec fn bss_region(self) -> MemoryRegion {
        MemoryRegion { source: self.bss_start, start: self.bss_start, end: self.bss_end }
    }

    /// The region of the initialised data.
    pub fn data(&self) -> (r: MemoryRegion)
        ensures
            r == self.data_region(),
    {
        MemoryRegion { source: self.data_load, start: self.data_start, end: self.bss_start }
    }

    /// The region of the uninitialised data.
    pub fn bss(&self) -> (r: MemoryRegion)
        ensures
            r == self.bss_region(),
    {
        MemoryRegion { source: self.bss_start, start: self.bss_start, end: self.bss_end }
    }
}

impl WordCursor {
    pub open spec fn wf(self) -> bool {
        &&& self.dst <= self.end
        &&& (self.end - self.dst) % 4 == 0
        &&& self.src + (self.end - self.dst) <= u32::MAX
    }

    /// Number of steps left.
    pub open spec fn remaining(self) -> int {
        (self.end - self.dst) / 4
    }

    /// A walk over `region` from its first word.
    pub fn new(region: &MemoryRegion) -> (c: WordCursor)
        requires
            region.wf(),
        ensures
            c.wf(),
            c == (WordCursor { src: region.source, dst: region.start, end: region.end }),
            c.remaining() == region.words(),
    {
        WordCursor { src: region.source, dst: region.start, end: region.end }
    }

    /// The next step, while the destination is strictly below the end address;
    /// both addresses then advance by one word. `None` once the end is reached.
    pub fn next(&mut self) -> (r: Option<WordStep>)
        requires
            old(self).wf(),
        ensures
            final(self).wf(),
            final(self).end == old(self).end,
            old(self).dst < old(self).end ==> {
                &&& r == Some(WordStep { from: old(self).src, to: old(self).dst })
                &&& final(self).src == old(self).src + 4
                &&& final(self).dst == old(self).dst + 4
                &&& final(self).remaining() == old(self).remaining() - 1
                &&& r == Some(walk(*old(self))[0])
                &&& walk(*final(self)) == walk(*old(self)).drop_first()
            },
            old(self).dst >= old(self).end ==> r is None && *final(self) == *old(self),
    {
        if self.dst < self.end {
            let step = WordStep { from: self.src, to: self.dst };
            self.src = self.src + 4;
            self.dst = self.dst + 4;
            assert(walk(*old(self)) == seq![step] + walk(*self));
            assert((seq![step] + walk(*self)).drop_first() =~= walk(*self));
            Some(step)
        } else {
            None
        }
    }
}

} // verus!

verus! {

/// The steps that a walk from `c` makes, in order, as `WordCursor::next` hands
/// them out.
pub open spec fn walk(c: WordCursor) -> Seq<WordStep>
    decreases c.end - c.dst,
{
    if c.wf() && c.dst < c.end {
        seq![WordStep { from: c.src, to: c.dst }] + walk(
            WordCursor { src: (c.src + 4) as u32, dst: (c.dst + 4) as u32, end: c.end },
        )
    } else {
        seq![]
    }
}

proof fn lemma_walk(c: WordCursor)
    requires
        c.wf(),
    ensures
        walk(c).len() == c.remaining(),
        forall|i: int|
            0 <= i < walk(c).len() ==> walk(c)[i] == (WordStep {
                from: (c.src + 4 * i) as u32,
                to: (c.dst + 4 * i) as u32,
            }),
    decreases c.end - c.dst,
{
    if c.dst < c.end {
        let d = WordCursor { src: (c.src + 4) as u32, dst: (c.dst + 4) as u32, end: c.end };
        lemma_walk(d);
        assert forall|i: int| 0 <= i < walk(c).len() implies walk(c)[i] == (WordStep {
            from: (c.src + 4 * i) as u32,
            to: (c.dst + 4 * i) as u32,
        }) by {
            if i > 0 {
                assert(walk(c)[i] == walk(d)[i - 1]);
            }
        }
    }
}

/// A walk over a well-formed region makes exactly `(end - start) / 4` steps,
/// and step `i` copies the word at `source + 4 * i` to `start + 4 * i`: it
/// stops strictly before the end address and never steps past it.
pub proof fn lemma_walk_region(region: MemoryRegion)
    requires
        region.wf(),
    ensures
        ({
            let s = walk(WordCursor { src: region.source, dst: region.start, end: region.end });
            &&& s.len() == region.words()
            &&& forall|i: int|
                0 <= i < s.len() ==> s[i] == (WordStep {
                    from: (region.source + 4 * i) as u32,
                    to: (region.start + 4 * i) as u32,
                })
            &&& forall|i: int| 0 <= i < s.len() ==> region.start <= s[i].to && s[i].to + 4 <= region.end
        }),
{
    let c = WordCursor { src: region.source, dst: region.start, end: region.end };
    lemma_walk(c);
    assert forall|i: int| 0 <= i < walk(c).len() implies region.start <= walk(c)[i].to
        && walk(c)[i].to + 4 <= region.end by {
        lemma_word_index(region.end - region.start, 0);
        assert(region.start + 4 * i + 4 <= region.end);
    }
}

/// Word memory from `base` on: the word at `base + 4 * i` is `words[i]`.
#[derive(Debug)]
pub struct Ram {
    pub base: u32,
    pub words: Vec<u32>,
}

/// Word `i` of `mem` after copying `k` words from index `s0` to index `d0`.
pub open spec fn copied(mem: Seq<u32>, s0: int, d0: int, k: int, i: int) -> u32 {
    if d0 <= i < d0 + k {
        mem[s0 + (i - d0)]
    } else {
        mem[i]
    }
}

/// Word `i` of `mem` after zeroing `k` words from index `d0`.
pub open spec fn zeroed(mem: Seq<u32>, d0: int, k: int, i: int) -> u32 {
    if d0 <= i < d0 + k {
        0
    } else {
        mem[i]
    }
}

/// The word index of `x + 4 * j` is that of `x` plus `j`.
proof fn lemma_word_index(x: int, j: int)
    requires
        x % 4 == 0,
    ensures
        (x + 4 * j) / 4 == x / 4 + j,
        (x + 4 * j) % 4 == 0,
{
}

impl Ram {
    /// Word-aligned and below 2^32.
    pub open spec fn wf(&self) -> bool {
        &&& self.base % 4 == 0
        &&& self.base + 4 * self.words@.len() <= 0x1_0000_0000
    }

    /// Index in `words` of the word at `addr`.
    pub open spec fn index(&self, addr: int) -> int {
        (addr - self.base) / 4
    }

    /// Whether the block from `lo` up to `hi` lies in this memory.
    pub open spec fn covers(&self, lo: int, hi: int) -> bool {
        self.base <= lo <= hi <= self.base + 4 * self.words@.len()
    }

    /// The word at `addr`.
    pub fn read_word(&self, addr: u32) -> (r: u32)
        requires
            self.wf(),
            addr % 4 == 0,
            self.covers(addr as int, addr + 4),
        ensures
            r == self.words@[self.index(addr as int)],
    {
        self.words[((addr - self.base) / 4) as usize]
    }

    /// Stores `value` at `addr`.
    pub fn write_word(&mut self, addr: u32, value: u32)
        requires
            old(self).wf(),
            addr % 4 == 0,
            old(self).covers(addr as int, addr + 4),
        ensures
            final(self).base == old(self).base,
            final(self).words@ == old(self).words@.update(old(self).index(addr as int), value),
    {
        let i = ((addr - self.base) / 4) as usize;
        self.words.set(i, value);
    }
}

/// Copies the region's words from its source to its destination, one word at a
/// time, and returns how many it wrote: `(end - start) / 4`. Nothing else changes.
pub fn init_data(ram: &mut Ram, region: &MemoryRegion) -> (n: u32)
    requires
        old(ram).wf(),
        region.wf(),
        old(ram).covers(region.start as int, region.end as int),
        old(ram).covers(region.source as int, region.source + (region.end - region.start)),
        region.source + (region.end - region.start) <= region.start || region.end <= region.source,
    ensures
        n == region.words(),
        final(ram).base == old(ram).base,
        final(ram).words@.len() == old(ram).words@.len(),
        forall|i: int|
            0 <= i < old(ram).words@.len() ==> final(ram).words@[i] == copied(
                old(ram).words@,
                old(ram).index(region.source as int),
                old(ram).index(region.start as int),
                region.words(),
                i,
            ),
{
    let ghost mem = ram.words@;
    let ghost s0 = ram.index(region.source as int);
    let ghost d0 = ram.index(region.start as int);
    let mut c = WordCursor::new(region);
    let mut n: u32 = 0;
    while c.dst < c.end
        invariant
            c.wf(),
            c.end == region.end,
            c.dst == region.start + 4 * n,
            c.src == region.source + 4 * n,
            n <= region.words(),
            region.wf(),
            ram.wf(),
            ram.base == old(ram).base,
            ram.words@.len() == mem.len(),
            mem == old(ram).words@,
            s0 == ram.index(region.source as int),
            d0 == ram.index(region.start as int),
            ram.covers(region.start as int, region.end as int),
            ram.covers(region.source as int, region.source + (region.end - region.start)),
            region.source + (region.end - region.start) <= region.start || region.end <= region.source,
            forall|i: int| 0 <= i < mem.len() ==> ram.words@[i] == copied(mem, s0, d0, n as int, i),
        decreases c.remaining(),
    {
        proof {
            lemma_word_index(region.source - ram.base, n as int);
            lemma_word_index(region.start - ram.base, n as int);
        }
        match c.next() {
            Some(step) => {
                let v = ram.read_word(step.from);
                ram.write_word(step.to, v);
                n = n + 1;
                assert forall|i: int| 0 <= i < mem.len() implies ram.words@[i] == copied(mem, s0, d0, n as int, i) by {}
            },
            None => {},
        }
    }
    n
}

} // verus!

verus! {

/// Zeroes the words from `start` up to `end` (the source is not used), one word
/// at a time, and returns how many it wrote: `(end - start) / 4`. Nothing else
/// changes.
pub fn clear_bss(ram: &mut Ram, region: &MemoryRegion) -> (n: u32)
    requires
        old(ram).wf(),
        region.wf(),
        old(ram).covers(region.start as int, region.end as int),
    ensures
        n == region.words(),
        final(ram).base == old(ram).base,
        final(ram).words@.len() == old(ram).words@.len(),
        forall|i: int|
            0 <= i < old(ram).words@.len() ==> final(ram).words@[i] == zeroed(
                old(ram).words@,
                old(ram).index(region.start as int),
                region.words(),
                i,
            ),
{
    let ghost mem = ram.words@;
    let ghost d0 = ram.index(region.start as int);
    let mut c = WordCursor::new(region);
    let mut n: u32 = 0;
    while c.dst < c.end
        invariant
            c.wf(),
            c.end == region.end,
            c.dst == region.start + 4 * n,
            n <= region.words(),
            region.wf(),
            ram.wf(),
            ram.base == old(ram).base,
            ram.words@.len() == mem.len(),
            mem == old(ram).words@,
            d0 == ram.index(region.start as int),
            ram.covers(region.start as int, region.end as int),
            forall|i: int| 0 <= i < mem.len() ==> ram.words@[i] == zeroed(mem, d0, n as int, i),
        decreases c.remaining(),
    {
        proof {
            lemma_word_index(region.start - ram.base, n as int);
        }
        match c.next() {
            Some(step) => {
                let ghost prev = ram.words@;
                assert(ram.index(step.to as int) == d0 + n);
                ram.write_word(step.to, 0);
                assert(ram.words@ == prev.update(d0 + n, 0u32));
                n = n + 1;
                assert forall|i: int| 0 <= i < mem.len() implies ram.words@[i] == zeroed(mem, d0, n as int, i) by {
                    if i != d0 + n - 1 {
                        assert(ram.words@[i] == prev[i]);
                        assert(prev[i] == zeroed(mem, d0, n - 1, i));
                    }
                }
            },
            None => {},
        }
    }
    n
}

/// The memory image that start-up leaves: the initialised data copied from its
/// image, the uninitialised data zeroed, every other word as it was.
pub open spec fn initialised(mem: Seq<u32>, ram: Ram, layout: MemoryLayout, i: int) -> u32 {
    let data = layout.data_region();
    let bss = layout.bss_region();
    if ram.index(bss.start as int) <= i < ram.index(bss.start as int) + bss.words() {
        0
    } else {
        copied(mem, ram.index(data.source as int), ram.index(data.start as int), data.words(), i)
    }
}

/// The start-up memory sequence: copy the initialised data, then zero the
/// uninitialised data.
pub fn init(ram: &mut Ram, layout: &MemoryLayout)
    requires
        old(ram).wf(),
        layout.wf(),
        old(ram).covers(layout.data_start as int, layout.bss_end as int),
        old(ram).covers(
            layout.data_load as int,
            layout.data_load + (layout.bss_start - layout.data_start),
        ),
        layout.data_load + (layout.bss_start - layout.data_start) <= layout.data_start
            || layout.bss_start <= layout.data_load,
    ensures
        final(ram).base == old(ram).base,
        final(ram).words@.len() == old(ram).words@.len(),
        forall|i: int|
            0 <= i < old(ram).words@.len() ==> final(ram).words@[i] == initialised(
                old(ram).words@,
                *old(ram),
                *layout,
                i,
            ),
{
    init_data(ram, &layout.data());
    clear_bss(ram, &layout.bss());
}

} // verus!
