//! The disk: 4096 rows of 16 bytes, read and written a byte or a four-byte word (most
//! significant byte first) at a time, and saved as text with one `[bbbbbbbb]` cell per byte.
use vstd::prelude::*;
use vstd::string::StrSliceExecFns;
use crate::helper::{bits_msb, push_char, u8_to_string, lemma_bits_msb_shape};

verus! {

/// Number of bytes on the disk.
pub open spec fn disk_size() -> nat {
    65536
}

/// The word stored big-endian at `pos..pos + 4`.
pub open spec fn word_at(bytes: Seq<u8>, pos: int) -> u32 {
    (bytes[pos] as nat * 0x100_0000 + bytes[pos + 1] as nat * 0x1_0000 + bytes[pos + 2] as nat
        * 0x100 + bytes[pos + 3] as nat) as u32
}

/// `bytes` with `value` stored big-endian at `pos..pos + 4`.
pub open spec fn put_word(bytes: Seq<u8>, pos: int, value: u32) -> Seq<u8> {
    bytes.update(pos, (value as nat / 0x100_0000 % 0x100) as u8).update(
        pos + 1,
        (value as nat / 0x1_0000 % 0x100) as u8,
    ).update(pos + 2, (value as nat / 0x100 % 0x100) as u8).update(
        pos + 3,
        (value as nat % 0x100) as u8,
    )
}

/// The text of one cell: the byte in binary between brackets.
pub open spec fn cell_text(b: u8) -> Seq<char> {
    seq!['['] + bits_msb(b as nat, 8) + seq![']']
}

/// The first `ncols` cells of row `row`.
pub open spec fn row_text(bytes: Seq<u8>, row: int, ncols: nat) -> Seq<char>
    decreases ncols,
{
    if ncols == 0 {
        Seq::<char>::empty()
    } else {
        row_text(bytes, row, (ncols - 1) as nat) + cell_text(bytes[row * 16 + ncols - 1])
    }
}

/// The first `nrows` rows of the saved disk, each of 16 cells ended by a newline.
pub open spec fn disk_text(bytes: Seq<u8>, nrows: nat) -> Seq<char>
    decreases nrows,
{
    if nrows == 0 {
        Seq::<char>::empty()
    } else {
        disk_text(bytes, (nrows - 1) as nat) + row_text(bytes, nrows - 1, 16) + seq!['\n']
    }
}

/// Each cell is ten characters long.
proof fn lemma_cell_len(b: u8)
    ensures
        cell_text(b).len() == 10,
{
    lemma_bits_msb_shape(b as nat, 8);
}

/// The first `ncols` cells of a row take ten characters each, and cell `c` of them is the
/// cell of byte `16 * row + c`.
pub proof fn lemma_row_cell(bytes: Seq<u8>, row: int, ncols: nat, c: int)
    requires
        0 <= c < ncols,
    ensures
        row_text(bytes, row, ncols).len() == 10 * ncols,
        row_text(bytes, row, ncols).subrange(10 * c, 10 * c + 10) == cell_text(bytes[16 * row + c]),
    decreases ncols,
{
    let prev = row_text(bytes, row, (ncols - 1) as nat);
    lemma_cell_len(bytes[16 * row + ncols - 1]);
    if c < ncols - 1 {
        lemma_row_cell(bytes, row, (ncols - 1) as nat, c);
        assert(row_text(bytes, row, ncols).subrange(10 * c, 10 * c + 10) =~= prev.subrange(10 * c, 10 * c + 10));
    } else {
        if ncols > 1 {
            lemma_row_cell(bytes, row, (ncols - 1) as nat, 0);
        }
        assert(prev.len() == 10 * c);
        assert(row_text(bytes, row, ncols).subrange(10 * c, 10 * c + 10) =~= cell_text(bytes[16 * row + c]));
    }
}

/// The first `nrows` lines of the saved disk take 161 characters each; line `r` holds the
/// cells of bytes `16 * r` to `16 * r + 15` and ends in a newline.
pub proof fn lemma_disk_text_cell(bytes: Seq<u8>, nrows: nat, r: int, c: int)
    requires
        0 <= r < nrows,
        0 <= c < 16,
    ensures
        disk_text(bytes, nrows).len() == 161 * nrows,
        disk_text(bytes, nrows).subrange(161 * r + 10 * c, 161 * r + 10 * c + 10) == cell_text(
            bytes[16 * r + c],
        ),
        disk_text(bytes, nrows)[161 * r + 160] == '\n',
    decreases nrows,
{
    let prev = disk_text(bytes, (nrows - 1) as nat);
    let line = row_text(bytes, nrows - 1, 16);
    let t = disk_text(bytes, nrows);
    lemma_row_cell(bytes, nrows - 1, 16, c);
    if r < nrows - 1 {
        lemma_disk_text_cell(bytes, (nrows - 1) as nat, r, c);
        assert(t.subrange(161 * r + 10 * c, 161 * r + 10 * c + 10) =~= prev.subrange(161 * r + 10 * c, 161 * r + 10 * c + 10));
        assert(t[161 * r + 160] == prev[161 * r + 160]);
    } else {
        if nrows > 1 {
            lemma_disk_text_cell(bytes, (nrows - 1) as nat, 0, 0);
        }
        assert(prev.len() == 161 * r);
        assert(t.subrange(161 * r + 10 * c, 161 * r + 10 * c + 10) =~= line.subrange(10 * c, 10 * c + 10));
    }
}

/// The disk and the file it is saved to.
pub struct disk {
    path: String,
    bytes: [u8; 65536],
}

impl View for disk {
    type V = Seq<u8>;

    closed spec fn view(&self) -> Seq<u8> {
        self.bytes@
    }
}

/// A disk always holds 65536 bytes.
pub proof fn lemma_disk_len(d: disk)
    ensures
        d@.len() == disk_size(),
{
}

/// Reading back a word that was just stored gives the stored word.
pub proof fn lemma_word_roundtrip(bytes: Seq<u8>, pos: int, value: u32)
    requires
        0 <= pos,
        pos + 4 <= bytes.len(),
    ensures
        word_at(put_word(bytes, pos, value), pos) == value,
{
    let v = value as nat;
    let b0 = v / 0x100_0000 % 0x100;
    let b1 = v / 0x1_0000 % 0x100;
    let b2 = v / 0x100 % 0x100;
    let b3 = v % 0x100;
    assert(b0 * 0x100_0000 + b1 * 0x1_0000 + b2 * 0x100 + b3 == v) by (nonlinear_arith)
        requires
            v < 0x1_0000_0000,
            b0 == v / 0x100_0000 % 0x100,
            b1 == v / 0x1_0000 % 0x100,
            b2 == v / 0x100 % 0x100,
            b3 == v % 0x100,
    ;
}

impl disk {
    /// Columns per row of the saved file.
    pub const COLS: u32 = 16;

    /// Rows of the saved file.
    pub const ROWS: u32 = 4096;

    /// The file the disk is saved to.
    pub closed spec fn file(&self) -> Seq<char> {
        self.path@
    }

    /// A zeroed disk saved to `diskBin.txt`.
    pub fn new() -> (d: disk)
        ensures
            d@ == Seq::new(disk_size(), |i: int| 0u8),
            d.file() == "diskBin.txt"@,
    {
        let d = disk { path: String::from_str("diskBin.txt"), bytes: [0u8; 65536] };
        assert(d@ =~= Seq::new(disk_size(), |i: int| 0u8));
        d
    }

    /// The name of the file the disk is saved to.
    pub fn path(&self) -> (p: &String)
        ensures
            p@ == self.file(),
    {
        &self.path
    }

    /// Sets every byte to zero.
    pub fn reformat(&mut self)
        ensures
            final(self)@ == Seq::new(disk_size(), |i: int| 0u8),
            final(self).file() == old(self).file(),
    {
        let mut i: usize = 0;
        while i < 65536
            invariant
                0 <= i <= 65536,
                self.bytes@.len() == 65536,
                self.path == old(self).path,
                forall|k: int| 0 <= k < i ==> #[trigger] self.bytes@[k] == 0u8,
            decreases 65536 - i,
        {
            self.bytes[i] = 0;
            i += 1;
        }
        assert(self.bytes@ =~= Seq::new(disk_size(), |i: int| 0u8));
    }

    /// The word stored big-endian at `pos..pos + 4`; the four bytes must lie on the disk.
    pub fn read(&self, pos: u16) -> (word: u32)
        requires
            pos as int + 4 <= disk_size(),
        ensures
            word == word_at(self@, pos as int),
            self@.len() == disk_size(),
    {
        let p = pos as usize;
        let mut result: u32 = 0;
        let mut i: usize = 0;
        while i < 4
            invariant
                0 <= i <= 4,
                p <= 65532,
                p + 4 <= self.bytes@.len(),
                result as nat == (if i == 0 {
                    0
                } else if i == 1 {
                    self.bytes@[p as int] as nat
                } else if i == 2 {
                    self.bytes@[p as int] as nat * 0x100 + self.bytes@[p + 1] as nat
                } else if i == 3 {
                    self.bytes@[p as int] as nat * 0x1_0000 + self.bytes@[p + 1] as nat * 0x100
                        + self.bytes@[p + 2] as nat
                } else {
                    self.bytes@[p as int] as nat * 0x100_0000 + self.bytes@[p + 1] as nat
                        * 0x1_0000 + self.bytes@[p + 2] as nat * 0x100 + self.bytes@[p + 3] as nat
                }),
            decreases 4 - i,
        {
            let byte_val = self.bytes[p + i];
            result = result * 256 + byte_val as u32;
            i += 1;
        }
        result
    }

    /// Stores `value` big-endian at `pos..pos + 4`; the four bytes must lie on the disk.
    pub fn write(&mut self, pos: u16, value: u32)
        requires
            pos as int + 4 <= disk_size(),
        ensures
            old(self)@.len() == disk_size(),
            final(self)@ == put_word(old(self)@, pos as int, value),
            final(self).file() == old(self).file(),
    {
        let p = pos as usize;
        self.bytes[p] = (value / 0x100_0000 % 0x100) as u8;
        self.bytes[p + 1] = (value / 0x1_0000 % 0x100) as u8;
        self.bytes[p + 2] = (value / 0x100 % 0x100) as u8;
        self.bytes[p + 3] = (value % 0x100) as u8;
    }

    /// The byte at `pos`.
    pub fn read_byte(&self, pos: u16) -> (b: u8)
        ensures
            b == self@[pos as int],
            self@.len() == disk_size(),
    {
        self.bytes[pos as usize]
    }

    /// Stores `b` at `pos`.
    pub fn write_byte(&mut self, pos: u16, b: u8)
        ensures
            old(self)@.len() == disk_size(),
            final(self)@ == old(self)@.update(pos as int, b),
            final(self).file() == old(self).file(),
    {
        self.bytes[pos as usize] = b;
    }

    /// The text the disk is saved as: 4096 lines of 16 cells `[bbbbbbbb]`.
    pub fn image(&self) -> (text: String)
        ensures
            text@ == disk_text(self@, 4096),
    {
        let mut text = String::new();
        let mut row: usize = 0;
        while row < 4096
            invariant
                0 <= row <= 4096,
                self.bytes@.len() == disk_size(),
                text@ == disk_text(self.bytes@, row as nat),
            decreases 4096 - row,
        {
            let mut col: usize = 0;
            while col < 16
                invariant
                    0 <= row < 4096,
                    0 <= col <= 16,
                    self.bytes@.len() == disk_size(),
                    text@ == disk_text(self.bytes@, row as nat) + row_text(self.bytes@, row as int, col as nat),
                decreases 16 - col,
            {
                let b = self.bytes[row * 16 + col];
                let bits = u8_to_string(b);
                proof {
                    lemma_bits_msb_shape(b as nat, 8);
                }
                let ghost before = text@;
                push_char(&mut text, '[');
                let mut k: usize = 0;
                while k < 8
                    invariant
                        0 <= k <= 8,
                        bits@ == bits_msb(b as nat, 8),
                        bits@.len() == 8,
                        text@ == before + seq!['['] + bits@.take(k as int),
                    decreases 8 - k,
                {
                    let c = bits.as_str().get_char(k);
                    push_char(&mut text, c);
                    assert(bits@.take(k + 1) =~= bits@.take(k as int).push(c));
                    k += 1;
                }
                push_char(&mut text, ']');
                assert(bits@.take(8) =~= bits@);
                assert(text@ =~= before + cell_text(b));
                col += 1;
            }
            push_char(&mut text, '\n');
            row += 1;
        }
        text
    }
}

} // verus!
