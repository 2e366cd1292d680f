//! The register file (R0 reads as zero and ignores writes) and the status flags.
use vstd::prelude::*;

verus! {

/// Sixteen 32-bit registers. R0 always reads 0; R12 is the frame pointer, R13 the stack
/// pointer, R14 the link register.
pub struct Registers {
    r: [u32; 16],
}

/// What reading register `i` yields from the stored values `regs`.
pub open spec fn reg_value(regs: Seq<u32>, i: int) -> u32 {
    if i == 0 {
        0
    } else {
        regs[i]
    }
}

/// The stored values after writing `value` to register `i` (a write to R0 is ignored).
pub open spec fn reg_write(regs: Seq<u32>, i: int, value: u32) -> Seq<u32> {
    if i == 0 {
        regs
    } else {
        regs.update(i, value)
    }
}

impl View for Registers {
    type V = Seq<u32>;

    closed spec fn view(&self) -> Seq<u32> {
        self.r@
    }
}

impl Registers {
    /// The largest value a register holds.
    pub const MAX_TO_CARRY: u32 = 0xFFFF_FFFFu32;

    /// Every register file holds sixteen values.
    pub proof fn lemma_len(&self)
        ensures
            self@.len() == 16,
    {
    }

    /// All registers zero.
    pub fn new() -> (regs: Self)
        ensures
            regs@ == Seq::new(16, |i: int| 0u32),
    {
        let regs = Self { r: [0u32; 16] };
        assert(regs@ =~= Seq::new(16, |i: int| 0u32));
        regs
    }

    /// Value of register `index`; R0 reads 0.
    pub fn get(&self, index: u8) -> (v: u32)
        requires
            index < 16,
        ensures
            v == reg_value(self@, index as int),
    {
        if index == 0 {
            0
        } else {
            self.r[index as usize]
        }
    }

    /// Stores `value` in register `index`; writes to R0 are ignored.
    pub fn set(&mut self, index: u8, value: u32)
        requires
            index < 16,
        ensures
            final(self)@ == reg_write(old(self)@, index as int, value),
    {
        if index == 0 {
            return ;
        }
        self.r[index as usize] = value;
    }
}

/// The status flags.
pub struct Flags {
    pub zero: bool,
    pub carry: bool,
    pub fault: bool,
}

impl Flags {
    /// All flags clear.
    pub fn new() -> (f: Self)
        ensures
            !f.zero && !f.carry && !f.fault,
    {
        Self { zero: false, carry: false, fault: false }
    }

    /// Clears all flags.
    pub fn clear(&mut self)
        ensures
            !final(self).zero && !final(self).carry && !final(self).fault,
    {
        self.zero = false;
        self.carry = false;
        self.fault = false;
    }
}

} // verus!
