//! 256 words of RAM, addressed by a byte and stored as a 16 × 16 grid.
use vstd::prelude::*;

verus! {

/// 256 32-bit words; address `a` lives at row `a % 16`, column `a / 16`.
pub struct RamUnit {
    locations: [[u32; 16]; 16],
}

impl View for RamUnit {
    type V = Seq<u32>;

    /// The words in address order.
    closed spec fn view(&self) -> Seq<u32> {
        Seq::new(256, |a: int| self.locations[a % 16][a / 16])
    }
}

/// The grid a snapshot holds for the words `words` (row `a % 16`, column `a / 16`).
pub open spec fn grid_of(words: Seq<u32>) -> Seq<Seq<u32>> {
    Seq::new(16, |row: int| Seq::new(16, |col: int| words[col * 16 + row]))
}

impl RamUnit {
    /// Number of words.
    pub const SIZE: usize = 256;

    /// Side of the storage grid.
    pub const GRID: usize = 16;

    /// Every RAM holds 256 words.
    pub proof fn lemma_len(&self)
        ensures
            self@.len() == 256,
    {
    }

    /// RAM with every word zero.
    pub fn new() -> (ram: Self)
        ensures
            ram@ == Seq::new(256, |a: int| 0u32),
    {
        let ram = Self { locations: [[0u32; 16]; 16] };
        assert(ram@ =~= Seq::new(256, |a: int| 0u32));
        ram
    }

    /// The word at address `requested`.
    pub fn fetch(&self, requested: u8) -> (v: u32)
        ensures
            v == self@[requested as int],
    {
        let row = (requested % 16) as usize;
        let col = (requested / 16) as usize;
        self.locations[row][col]
    }

    /// Stores `data` at address `addr`, leaving every other word as it was.
    pub fn write(&mut self, addr: u8, data: u32)
        ensures
            final(self)@ == old(self)@.update(addr as int, data),
    {
        let row = (addr % 16) as usize;
        let col = (addr / 16) as usize;
        self.locations[row][col] = data;
        assert forall|a: int| 0 <= a < 256 implies #[trigger] self@[a] == old(self)@.update(
            addr as int,
            data,
        )[a] by {
            if a != addr as int {
                assert(a % 16 != row as int || a / 16 != col as int);
            }
        }
        assert(self@ =~= old(self)@.update(addr as int, data));
    }

    /// A copy of the storage grid.
    pub fn snapshot(&self) -> (grid: [[u32; 16]; 16])
        ensures
            forall|row: int, col: int|
                0 <= row < 16 && 0 <= col < 16 ==> #[trigger] grid[row][col] == grid_of(
                    self@,
                )[row][col],
    {
        self.locations
    }
}

} // verus!
