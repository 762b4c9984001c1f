use vstd::prelude::*;

verus! {

/// Capacity of the flat memory, in bytes.
pub const MEM_LEN: usize = 0x1000;

/// Physical slot of the `k`-th byte of an access that starts at `addr`:
/// the start is reduced modulo the capacity, and so is each byte after it.
pub open spec fn slot(addr: int, k: int) -> int {
    ((addr % (MEM_LEN as int)) + k) % (MEM_LEN as int)
}

/// Little-endian value of two bytes.
pub open spec fn le_half(b0: u8, b1: u8) -> u16 {
    (b0 + 0x100 * b1) as u16
}

/// Little-endian value of four bytes.
pub open spec fn le_word(b0: u8, b1: u8, b2: u8, b3: u8) -> u32 {
    (b0 + 0x100 * b1 + 0x1_0000 * b2 + 0x100_0000 * b3) as u32
}

/// The `k`-th byte (counting from the least significant one) of a word.
pub open spec fn byte_of(w: u32, k: int) -> u8 {
    if k == 0 {
        (w % 0x100) as u8
    } else if k == 1 {
        (w / 0x100 % 0x100) as u8
    } else if k == 2 {
        (w / 0x1_0000 % 0x100) as u8
    } else {
        (w / 0x100_0000) as u8
    }
}

/// Memory contents right after loading `image`: the image at the start,
/// truncated to the capacity, and zero bytes after it.
pub open spec fn image_spec(image: Seq<u8>) -> Seq<u8> {
    Seq::new(MEM_LEN as nat, |i: int| if i < image.len() { image[i] } else { 0u8 })
}

pub open spec fn load_byte_spec(m: Seq<u8>, addr: int) -> u8 {
    m[slot(addr, 0)]
}

pub open spec fn load_half_spec(m: Seq<u8>, addr: int) -> u16 {
    le_half(m[slot(addr, 0)], m[slot(addr, 1)])
}

pub open spec fn load_word_spec(m: Seq<u8>, addr: int) -> u32 {
    le_word(m[slot(addr, 0)], m[slot(addr, 1)], m[slot(addr, 2)], m[slot(addr, 3)])
}

pub open spec fn store_byte_spec(m: Seq<u8>, addr: int, v: u8) -> Seq<u8> {
    m.update(slot(addr, 0), v)
}

pub open spec fn store_half_spec(m: Seq<u8>, addr: int, v: u16) -> Seq<u8> {
    m.update(slot(addr, 0), (v % 0x100) as u8).update(slot(addr, 1), (v / 0x100) as u8)
}

pub open spec fn store_word_spec(m: Seq<u8>, addr: int, v: u32) -> Seq<u8> {
    m.update(slot(addr, 0), byte_of(v, 0)).update(slot(addr, 1), byte_of(v, 1)).update(
        slot(addr, 2),
        byte_of(v, 2),
    ).update(slot(addr, 3), byte_of(v, 3))
}

/// A fixed-capacity flat byte store. Every address is valid: it is taken
/// modulo the capacity, so accesses alias circularly and never fault.
pub struct Mem {
    raw: Vec<u8>,
}

impl View for Mem {
    type V = Seq<u8>;

    closed spec fn view(&self) -> Seq<u8> {
        self.raw@
    }
}

impl Mem {
    pub open spec fn wf(&self) -> bool {
        self@.len() == MEM_LEN
    }

    /// Builds a memory holding `buf` at address 0 and zeros after it.
    /// An image longer than the capacity is truncated to it.
    pub fn from_buf(buf: Vec<u8>) -> (r: Self)
        ensures
            r.wf(),
            r@ == image_spec(buf@),
    {
        let mut raw: Vec<u8> = Vec::new();
        let mut i: usize = 0;
        while i < MEM_LEN
            invariant
                i <= MEM_LEN,
                raw@.len() == i,
                forall|j: int| 0 <= j < i ==> raw@[j] == image_spec(buf@)[j],
            decreases MEM_LEN - i,
        {
            if i < buf.len() {
                raw.push(buf[i]);
            } else {
                raw.push(0u8);
            }
            i = i + 1;
        }
        assert(raw@ =~= image_spec(buf@));
        Mem { raw }
    }

    pub fn len(&self) -> (r: usize)
        ensures
            r == MEM_LEN,
    {
        MEM_LEN
    }

    pub fn load_byte(&self, addr: usize) -> (r: u8)
        requires
            self.wf(),
        ensures
            r == load_byte_spec(self@, addr as int),
    {
        let idx = addr % MEM_LEN;
        self.raw[idx]
    }

    pub fn load_half(&self, addr: usize) -> (r: u16)
        requires
            self.wf(),
        ensures
            r == load_half_spec(self@, addr as int),
    {
        let idx = addr % MEM_LEN;
        let b0 = self.raw[idx] as u16;
        let b1 = self.raw[(idx + 1) % MEM_LEN] as u16;
        b0 + 0x100 * b1
    }

    pub fn load_word(&self, addr: usize) -> (r: u32)
        requires
            self.wf(),
        ensures
            r == load_word_spec(self@, addr as int),
    {
        let idx = addr % MEM_LEN;
        let b0 = self.raw[idx] as u32;
        let b1 = self.raw[(idx + 1) % MEM_LEN] as u32;
        let b2 = self.raw[(idx + 2) % MEM_LEN] as u32;
        let b3 = self.raw[(idx + 3) % MEM_LEN] as u32;
        b0 + 0x100 * b1 + 0x1_0000 * b2 + 0x100_0000 * b3
    }

    pub fn store_byte(&mut self, addr: usize, value: u8)
        requires
            old(self).wf(),
        ensures
            final(self).wf(),
            final(self)@ == store_byte_spec(old(self)@, addr as int, value),
    {
        let idx = addr % MEM_LEN;
        self.raw.set(idx, value);
    }

    pub fn store_half(&mut self, addr: usize, value: u16)
        requires
            old(self).wf(),
        ensures
            final(self).wf(),
            final(self)@ == store_half_spec(old(self)@, addr as int, value),
    {
        let idx = addr % MEM_LEN;
        self.raw.set(idx, (value % 0x100) as u8);
        self.raw.set((idx + 1) % MEM_LEN, (value / 0x100) as u8);
    }

    pub fn store_word(&mut self, addr: usize, value: u32)
        requires
            old(self).wf(),
        ensures
            final(self).wf(),
            final(self)@ == store_word_spec(old(self)@, addr as int, value),
    {
        let idx = addr % MEM_LEN;
        self.raw.set(idx, (value % 0x100) as u8);
        self.raw.set((idx + 1) % MEM_LEN, (value / 0x100 % 0x100) as u8);
        self.raw.set((idx + 2) % MEM_LEN, (value / 0x1_0000 % 0x100) as u8);
        self.raw.set((idx + 3) % MEM_LEN, (value / 0x100_0000) as u8);
    }
}

/// A word stored at `addr` reads back unchanged from `addr`, also where the
/// four bytes run past the end of the capacity and wrap to its start.
pub proof fn lemma_store_load_word(m: Seq<u8>, addr: int, w: u32)
    requires
        m.len() == MEM_LEN,
    ensures
        load_word_spec(store_word_spec(m, addr, w), addr) == w,
{
    let s = store_word_spec(m, addr, w);
    assert(s[slot(addr, 0)] == byte_of(w, 0));
    assert(s[slot(addr, 1)] == byte_of(w, 1));
    assert(s[slot(addr, 2)] == byte_of(w, 2));
    assert(s[slot(addr, 3)] == byte_of(w, 3));
    assert(w == (w % 0x100) + 0x100 * (w / 0x100 % 0x100) + 0x1_0000 * (w / 0x1_0000 % 0x100)
        + 0x100_0000 * (w / 0x100_0000)) by (bit_vector);
}

/// A half-word stored at `addr` reads back unchanged from `addr`.
pub proof fn lemma_store_load_half(m: Seq<u8>, addr: int, h: u16)
    requires
        m.len() == MEM_LEN,
    ensures
        load_half_spec(store_half_spec(m, addr, h), addr) == h,
{
    let s = store_half_spec(m, addr, h);
    assert(s[slot(addr, 0)] == (h % 0x100) as u8);
    assert(s[slot(addr, 1)] == (h / 0x100) as u8);
}

/// A byte stored at `addr` reads back unchanged from `addr`.
pub proof fn lemma_store_load_byte(m: Seq<u8>, addr: int, b: u8)
    requires
        m.len() == MEM_LEN,
    ensures
        load_byte_spec(store_byte_spec(m, addr, b), addr) == b,
{
}

} // verus!
