use vstd::prelude::*;

verus! {

/// Number of general-purpose registers.
pub const NUM_REGS: usize = 32;

/// Register `i` of the file `r` as the machine observes it: register 0 reads
/// as zero whatever is stored.
pub open spec fn read_spec(r: Seq<u32>, i: int) -> u32 {
    if i == 0 {
        0
    } else {
        r[i]
    }
}

/// The file `r` after writing `v` to register `i`: a write to register 0 is
/// discarded.
pub open spec fn write_spec(r: Seq<u32>, i: int, v: u32) -> Seq<u32> {
    if i == 0 {
        r
    } else {
        r.update(i, v)
    }
}

/// A file of 32 machine words in which register 0 is hardwired to zero.
pub struct RegFile {
    x: Vec<u32>,
}

impl View for RegFile {
    type V = Seq<u32>;

    closed spec fn view(&self) -> Seq<u32> {
        self.x@
    }
}

impl RegFile {
    pub open spec fn wf(&self) -> bool {
        self@.len() == NUM_REGS && self@[0] == 0
    }

    /// All registers zero.
    pub fn new() -> (r: Self)
        ensures
            r.wf(),
            forall|i: int| 0 <= i < NUM_REGS ==> r@[i] == 0,
    {
        let mut x: Vec<u32> = Vec::new();
        let mut i: usize = 0;
        while i < NUM_REGS
            invariant
                i <= NUM_REGS,
                x@.len() == i,
                forall|j: int| 0 <= j < i ==> x@[j] == 0,
            decreases NUM_REGS - i,
        {
            x.push(0u32);
            i = i + 1;
        }
        RegFile { x }
    }

    pub fn read(&self, i: usize) -> (r: u32)
        requires
            self.wf(),
            i < NUM_REGS,
        ensures
            r == read_spec(self@, i as int),
            r == self@[i as int],
    {
        self.x[i]
    }

    pub fn write(&mut self, i: usize, v: u32)
        requires
            old(self).wf(),
            i < NUM_REGS,
        ensures
            final(self).wf(),
            final(self)@ == write_spec(old(self)@, i as int, v),
    {
        if i != 0 {
            self.x.set(i, v);
        }
    }
}

/// Writing `v` to register `i` and reading it back yields `v`, except for
/// register 0, which reads back as zero.
pub proof fn lemma_write_then_read(r: Seq<u32>, i: int, v: u32)
    requires
        r.len() == NUM_REGS,
        0 <= i < NUM_REGS,
    ensures
        read_spec(write_spec(r, i, v), i) == (if i == 0 {
            0
        } else {
            v
        }),
{
}

/// A write to one register leaves every other register as it was.
pub proof fn lemma_write_keeps_others(r: Seq<u32>, i: int, j: int, v: u32)
    requires
        r.len() == NUM_REGS,
        0 <= i < NUM_REGS,
        0 <= j < NUM_REGS,
        i != j,
    ensures
        read_spec(write_spec(r, i, v), j) == read_spec(r, j),
{
}

} // verus!
