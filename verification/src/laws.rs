//! Properties that hold across the library's operations, stated over the models its
//! functions' contracts use.
use vstd::prelude::*;
use vstd::arithmetic::power2::{lemma2_to64};
use crate::bytestr::{ByteStr, chars_value, loaded, zero_chars, set_chars, lemma_bin_value_bound};
use crate::decode::{Mnemonic, decode, isa_opcode, law_decode_spelled_byte};
use crate::disk::{disk, disk_size, disk_text, word_at, put_word, lemma_word_roundtrip, lemma_disk_len, lemma_disk_text_cell};
use crate::helper::{bin_value, bits_msb, bytes_as_bits, is_binary, opposite_bits,
    lemma_bin_value_bits_msb, lemma_bits_msb_shape, lemma_complement_via_text, lemma_bin_value_concat};
use crate::ram::RamUnit;
use crate::bios::{bios_ram, bios_disk, bios_color};
use crate::registers::{Registers, reg_value, reg_write};
use crate::screen::{RGB, paint, is_grid};
use crate::semantics::{Machine, CpuState, step, reg, inc, dec, top_reg, bottom_reg, imm12, stack_reg, all_binary,
    alu_dest, alu_value, one_byte_op, two_byte_op, three_byte_op, lemma_stack_reg_bound};

verus! {

/// Reading a RAM address right after writing it gives the written word, and every other
/// address keeps its word.
pub proof fn law_ram_read_after_write(ram: RamUnit, addr: u8, data: u32, other: u8)
    ensures
        ram@.update(addr as int, data)[addr as int] == data,
        other != addr ==> ram@.update(addr as int, data)[other as int] == ram@[other as int],
{
    ram.lemma_len();
}

/// R0 reads zero whatever was written; a write to R1..R15 is read back; every other
/// register keeps its value.
pub proof fn law_register_write_read(regs: Registers, i: u8, v: u32, j: u8)
    requires
        i < 16,
        j < 16,
    ensures
        reg_value(reg_write(regs@, i as int, v), 0) == 0,
        i != 0 ==> reg_value(reg_write(regs@, i as int, v), i as int) == v,
        j != i ==> reg_value(reg_write(regs@, i as int, v), j as int) == reg_value(regs@, j as int),
{
    regs.lemma_len();
}

/// Reading a disk word right after writing it gives the written word; a word whose four
/// bytes do not overlap the written ones keeps its value.
pub proof fn law_disk_read_after_write(d: disk, pos: u16, value: u32, other: u16)
    requires
        pos as int + 4 <= disk_size(),
        other as int + 4 <= disk_size(),
    ensures
        word_at(put_word(d@, pos as int, value), pos as int) == value,
        (other + 4 <= pos || pos + 4 <= other) ==> word_at(put_word(d@, pos as int, value), other as int)
            == word_at(d@, other as int),
{
    lemma_disk_len(d);
    lemma_word_roundtrip(d@, pos as int, value);
}

/// Spelling a byte in binary and reading the spelling back gives the byte.
pub proof fn law_byte_text_roundtrip(x: u8)
    ensures
        bin_value(bits_msb(x as nat, 8)) % 256 == x,
{
    lemma_bin_value_bits_msb(x as nat, 8);
    lemma2_to64();
}

/// Spelling a word in binary and reading the spelling back gives the word.
pub proof fn law_word_text_roundtrip(x: u32)
    ensures
        bin_value(bits_msb(x as nat, 32)) % 0x1_0000_0000 == x,
{
    lemma_bin_value_bits_msb(x as nat, 32);
    lemma2_to64();
    vstd::arithmetic::power2::lemma2_to64_rest();
}

/// Flipping the binary spelling of a word and reading it back gives the bitwise
/// complement: this is what `NOT` computes.
pub proof fn law_complement(x: u32)
    ensures
        bin_value(opposite_bits(bits_msb(x as nat, 32), 32)) % 0x1_0000_0000 == !x,
{
    lemma_complement_via_text(x);
}

/// Flipping a binary string twice gives it back.
pub proof fn law_flip_twice(s: Seq<char>)
    requires
        is_binary(s),
    ensures
        opposite_bits(opposite_bits(s, s.len()), s.len()) == s,
{
    assert(opposite_bits(opposite_bits(s, s.len()), s.len()) =~= s) by {
        assert forall|i: int| 0 <= i < s.len() implies #[trigger] opposite_bits(
            opposite_bits(s, s.len()),
            s.len(),
        )[i] == s[i] by {
            assert(s[i] == '0' || s[i] == '1');
        }
    }
}

/// A program byte built from the binary spelling of `x` reads back as `x`.
pub proof fn law_bytestr_value(x: u8)
    ensures
        chars_value(loaded(zero_chars(), bits_msb(x as nat, 8))) == x,
{
    lemma_bits_msb_shape(x as nat, 8);
    assert(loaded(zero_chars(), bits_msb(x as nat, 8)) =~= bits_msb(x as nat, 8));
    law_byte_text_roundtrip(x);
    lemma_bin_value_bound(bits_msb(x as nat, 8));
    lemma2_to64();
}

/// Splitting eight characters into two halves of four: the value is the first half times
/// 16 plus the second half.
proof fn lemma_halves(s: Seq<char>)
    requires
        s.len() == 8,
    ensures
        bin_value(s) == bin_value(s.subrange(0, 4)) * 16 + bin_value(s.subrange(4, 8)),
        bin_value(s.subrange(0, 4)) < 16,
        bin_value(s.subrange(4, 8)) < 16,
{
    assert(s =~= s.subrange(0, 4) + s.subrange(4, 8));
    lemma_bin_value_concat(s.subrange(0, 4), s.subrange(4, 8));
    lemma_bin_value_bound(s.subrange(0, 4));
    lemma_bin_value_bound(s.subrange(4, 8));
    lemma2_to64();
}

/// The register operands of a binary operand byte are its two nibbles: the first names
/// the register written, the second the other source.
pub proof fn law_operand_nibbles(b: ByteStr)
    requires
        all_binary(b@),
    ensures
        top_reg(b) == b.value() / 16,
        bottom_reg(b) == b.value() % 16,
{
    b.lemma_len();
    lemma_halves(b@);
    lemma_bin_value_bound(b@);
    lemma2_to64();
}

/// `LOADIMM` loads the 12-bit immediate made of the low nibble of its first operand byte
/// followed by the whole second operand byte.
pub proof fn law_loadimm_immediate(op1: ByteStr, op2: ByteStr)
    requires
        all_binary(op1@),
        all_binary(op2@),
    ensures
        imm12(op1, op2) == (op1.value() % 16) as nat * 256 + op2.value() as nat,
{
    op1.lemma_len();
    op2.lemma_len();
    lemma_halves(op1@);
    assert(set_chars(op2@) =~= op2@) by {
        assert forall|i: int| 0 <= i < op2@.len() implies #[trigger] set_chars(op2@)[i] == op2@[i] by {
            assert(op2@[i] == '0' || op2@[i] == '1');
        }
    }
    lemma_bin_value_concat(op1@.subrange(4, 8), op2@);
    lemma_bin_value_bound(op1@);
    lemma_bin_value_bound(op2@);
    lemma2_to64();
    let lo = bin_value(op1@.subrange(4, 8));
    assert(lo * 256 + bin_value(op2@) < 0x1_0000_0000) by (nonlinear_arith)
        requires
            lo < 16,
            bin_value(op2@) < 256,
    ;
}

/// `PUSH Rx` followed by `POP Ry` copies Rx into Ry and leaves the stack pointer as it
/// was, provided the stack pointer holds a byte address and Ry is neither R0 nor the stack
/// pointer; the two instructions advance the program counter by four bytes in all.
pub proof fn law_push_then_pop(m: Machine, push_op: ByteStr, pop_op: ByteStr)
    requires
        m.cpu.regs.len() == 16,
        m.ram.len() == 256,
        stack_reg(push_op) is Some,
        stack_reg(pop_op) is Some,
        reg(m.cpu, 13) < 256,
        stack_reg(pop_op)->0 != 13,
        stack_reg(pop_op)->0 != 0,
    ensures
        ({
            let after = two_byte_op(Mnemonic::Pop, two_byte_op(Mnemonic::Push, m, push_op), pop_op);
            &&& reg(after.cpu, stack_reg(pop_op)->0 as int) == reg(m.cpu, stack_reg(push_op)->0 as int)
            &&& reg(after.cpu, 13) == reg(m.cpu, 13)
            &&& after.cpu.pc == inc(inc(m.cpu.pc))
        }),
{
    lemma_stack_reg_bound(push_op);
    lemma_stack_reg_bound(pop_op);
}

/// `CALL` followed by `RETURN` at the called address comes back to the instruction after
/// the `CALL` and leaves the stack pointer as it was, provided the stack pointer holds a
/// byte address.
pub proof fn law_call_then_return(m: Machine, op1: ByteStr, op2: ByteStr)
    requires
        m.cpu.regs.len() == 16,
        m.ram.len() == 256,
        reg(m.cpu, 13) < 256,
    ensures
        ({
            let called = three_byte_op(Mnemonic::Call, m, op1, op2);
            let back = one_byte_op(Mnemonic::Return, called);
            &&& called.cpu.pc == op2.value()
            &&& back.cpu.pc == inc(inc(m.cpu.pc))
            &&& reg(back.cpu, 13) == reg(m.cpu, 13)
        }),
{
}

/// Painting a pixel changes that pixel to the colour and no other.
pub proof fn law_paint_pixel(p: Seq<Seq<RGB>>, x: int, y: int, c: RGB, a: int, b: int)
    requires
        is_grid(p),
        0 <= x < 255,
        0 <= y < 255,
        0 <= a < 255,
        0 <= b < 255,
    ensures
        paint(p, x, y, c)[x][y] == c,
        (a != x || b != y) ==> paint(p, x, y, c)[a][b] == p[a][b],
{
}

/// The characters of the binary spelling of a sequence of bytes, cut into groups of eight,
/// read back as those bytes: loading a program text loses nothing.
pub proof fn law_program_bytes_roundtrip(bytes: Seq<u8>, k: int)
    requires
        0 <= k < bytes.len(),
    ensures
        bytes_as_bits(bytes).len() == 8 * bytes.len(),
        chars_value(Seq::new(8, |i: int| bytes_as_bits(bytes)[8 * k + i])) == bytes[k],
    decreases bytes.len(),
{
    crate::helper::lemma_bytes_as_bits_shape(bytes);
    let init = bytes.drop_last();
    let s = bytes_as_bits(bytes);
    let chunk = Seq::new(8, |i: int| s[8 * k + i]);
    crate::helper::lemma_bytes_as_bits_shape(init);
    lemma_bits_msb_shape(bytes.last() as nat, 8);
    if k < bytes.len() - 1 {
        law_program_bytes_roundtrip(init, k);
        let s0 = bytes_as_bits(init);
        assert(chunk =~= Seq::new(8, |i: int| s0[8 * k + i])) by {
            assert forall|i: int| 0 <= i < 8 implies #[trigger] chunk[i] == s0[8 * k + i] by {
                assert(8 * k + i < s0.len());
            }
        }
        assert(init[k] == bytes[k]);
    } else {
        assert(chunk =~= bits_msb(bytes.last() as nat, 8));
        law_byte_text_roundtrip(bytes.last());
        lemma_bin_value_bound(bits_msb(bytes.last() as nat, 8));
        lemma2_to64();
    }
}

/// A binary string is the spelling of its own value.
proof fn lemma_binary_spelling(s: Seq<char>)
    requires
        is_binary(s),
    ensures
        bits_msb(bin_value(s), s.len()) == s,
    decreases s.len(),
{
    if s.len() > 0 {
        assert(is_binary(s.drop_last()));
        lemma_binary_spelling(s.drop_last());
        assert(s.last() == s[s.len() - 1]);
        assert(bits_msb(bin_value(s), s.len()) =~= s);
    }
}

/// A program byte of binary characters, carrying the hash of its characters (as every byte
/// that `ByteStr::new` and `chars_to_bytestrs` build does), decodes to the instruction
/// whose opcode is its value, and to none when its value is no opcode.
pub proof fn law_decode_program_byte(b: ByteStr)
    requires
        all_binary(b@),
        b.hash_val() == crate::helper::fnv1a(vstd::utf8::encode_utf8(b@)),
    ensures
        decode(b.hash_val()) == isa_opcode(b.value()),
{
    b.lemma_len();
    assert(is_binary(b@)) by {
        assert forall|i: int| 0 <= i < b@.len() implies (#[trigger] b@[i] == '0' || b@[i] == '1') by {
            assert(b@[i] == '0' || b@[i] == '1');
        }
    }
    lemma_binary_spelling(b@);
    lemma_bin_value_bound(b@);
    lemma2_to64();
    assert(b.value() as nat == bin_value(b@));
    law_decode_spelled_byte(b.value());
}

/// The two-register arithmetic and logic instructions write only their destination
/// register (the second one for `OR`, the first one for the others), besides flags and
/// program counter: it receives the result when it is not R0 (and, for `DIV`, the divisor
/// is not zero), while every other register, RAM, the screen and the disk keep their
/// contents.
pub proof fn law_alu_writes_destination_only(mn: Mnemonic, m: Machine, op: ByteStr, j: int)
    requires
        mn == Mnemonic::Add || mn == Mnemonic::Sub || mn == Mnemonic::Div || mn == Mnemonic::Multi
            || mn == Mnemonic::Or || mn == Mnemonic::And || mn == Mnemonic::Eor,
        m.cpu.regs.len() == 16,
        0 <= j < 16,
    ensures
        j != alu_dest(mn, op) as int ==> reg(two_byte_op(mn, m, op).cpu, j) == reg(m.cpu, j),
        ({
            let a = reg(m.cpu, top_reg(op) as int);
            let b = reg(m.cpu, bottom_reg(op) as int);
            alu_dest(mn, op) != 0 && (mn != Mnemonic::Div || b != 0) ==> reg(
                two_byte_op(mn, m, op).cpu,
                alu_dest(mn, op) as int,
            ) == alu_value(mn, a, b)
        }),
        two_byte_op(mn, m, op).ram == m.ram,
        two_byte_op(mn, m, op).screen == m.screen,
        two_byte_op(mn, m, op).disk == m.disk,
{
    op.lemma_len();
    lemma_bin_value_bound(op@.subrange(0, 4));
    lemma_bin_value_bound(op@.subrange(4, 8));
    lemma2_to64();
}

/// No instruction restarts a halted processor: once halted, every further step leaves it
/// halted.
pub proof fn law_halt_is_permanent(m: Machine, instr: Option<ByteStr>, prog: Seq<ByteStr>)
    requires
        m.cpu.halted,
    ensures
        step(m, instr, prog).0.cpu.halted,
{
}

/// Saving R1 RAM locations to the disk with INT 0E and loading them back with INT 0D from
/// the same disk address gives the low byte of each saved location, in order.
pub proof fn law_bios_disk_roundtrip(ram: Seq<u32>, d: Seq<u8>, n: u32, src: u8, pos: u16, dst: u8, k: int)
    requires
        ram.len() == 256,
        d.len() == disk_size(),
        src + n <= 256,
        dst + n <= 256,
        pos + n <= disk_size(),
        0 <= k < n,
    ensures
        bios_ram(13, n, pos as u32, dst as u32, ram, bios_disk(14, n, src as u32, pos as u32, ram, d))[dst + k]
            == ram[src + k] % 256,
{
    assert((src as u32) as u8 == src) by (bit_vector);
    assert((pos as u32) as u16 == pos) by (bit_vector);
    assert((dst as u32) as u8 == dst) by (bit_vector);
}

/// A `LOAD` from the address a `STORE` wrote gives the stored register value, however many
/// steps ran in between, as long as none of them changed that RAM location; the `LOAD`
/// advances the program counter past its two operand bytes.
pub proof fn law_load_after_store(
    m0: Machine,
    st1: ByteStr,
    st2: ByteStr,
    m2: Machine,
    ld1: ByteStr,
    ld2: ByteStr,
)
    requires
        m0.cpu.regs.len() == 16,
        m2.cpu.regs.len() == 16,
        m0.ram.len() == 256,
        m2.ram[st2.value() as int] == three_byte_op(Mnemonic::Store, m0, st1, st2).ram[st2.value() as int],
        ld2.value() == st2.value(),
        top_reg(ld1) != 0,
    ensures
        ({
            let after = three_byte_op(Mnemonic::Load, m2, ld1, ld2);
            &&& reg(after.cpu, top_reg(ld1) as int) == reg(m0.cpu, top_reg(st1) as int)
            &&& after.cpu.pc == inc(inc(m2.cpu.pc))
        }),
{
    ld1.lemma_len();
    lemma_bin_value_bound(ld1@.subrange(0, 4));
    lemma2_to64();
}

/// A `RETURN` after a `CALL` comes back to the instruction after the `CALL` and restores
/// the stack pointer, however many steps ran in between, as long as the stack pointer and
/// the return address the `CALL` pushed are as the `CALL` left them, and the stack pointer
/// held a byte address at the `CALL`.
pub proof fn law_return_after_call(m0: Machine, op1: ByteStr, op2: ByteStr, m2: Machine)
    requires
        m0.cpu.regs.len() == 16,
        m2.cpu.regs.len() == 16,
        m0.ram.len() == 256,
        reg(m0.cpu, 13) < 256,
        ({
            let called = three_byte_op(Mnemonic::Call, m0, op1, op2);
            let slot = dec(reg(m0.cpu, 13) as u8) as int;
            &&& reg(m2.cpu, 13) == reg(called.cpu, 13)
            &&& m2.ram[slot] == called.ram[slot]
        }),
    ensures
        ({
            let back = one_byte_op(Mnemonic::Return, m2);
            &&& back.cpu.pc == inc(inc(m0.cpu.pc))
            &&& reg(back.cpu, 13) == reg(m0.cpu, 13)
        }),
{
}

/// The saved disk is 4096 lines of 161 characters: in line `r`, cell `c` is `[`, the eight
/// binary digits of disk byte `16 * r + c` (most significant first, reading back as that
/// byte) and `]`, and the line ends in a newline.
pub proof fn law_disk_image_cells(d: disk, r: int, c: int)
    requires
        0 <= r < 4096,
        0 <= c < 16,
    ensures
        ({
            let t = disk_text(d@, 4096);
            let at = 161 * r + 10 * c;
            &&& t.len() == 4096 * 161
            &&& t[at] == '['
            &&& t.subrange(at + 1, at + 9) == bits_msb(d@[16 * r + c] as nat, 8)
            &&& bin_value(t.subrange(at + 1, at + 9)) % 256 == d@[16 * r + c]
            &&& t[at + 9] == ']'
            &&& t[161 * r + 160] == '\n'
        }),
{
    lemma_disk_len(d);
    lemma_disk_text_cell(d@, 4096, r, c);
    let t = disk_text(d@, 4096);
    let at = 161 * r + 10 * c;
    let x = d@[16 * r + c];
    lemma_bits_msb_shape(x as nat, 8);
    let cell = seq!['['] + bits_msb(x as nat, 8) + seq![']'];
    assert(t.subrange(at, at + 10) == cell);
    assert(t[at] == t.subrange(at, at + 10)[0]);
    assert(t[at + 9] == t.subrange(at, at + 10)[9]);
    assert(t.subrange(at + 1, at + 9) =~= cell.subrange(1, 9));
    assert(cell.subrange(1, 9) =~= bits_msb(x as nat, 8));
    law_byte_text_roundtrip(x);
}

/// The sixteen BIOS colours, as red, green and blue: black (12, 10, 9), blue (20, 71, 230),
/// green (49, 201, 80), bright blue (83, 234, 253), red (231, 24, 11), purple
/// (127, 34, 254), orange (255, 137, 4), white (248, 250, 252), grey (144, 161, 185),
/// bright blue (83, 234, 253), bright green (154, 230, 48), bright cyan (83, 234, 253),
/// bright red (251, 44, 54), bright purple (237, 106, 255), yellow (255, 240, 133) and
/// bright white (248, 250, 252); every other number gives pure black (0, 0, 0).
pub proof fn law_bios_colors(n: u8)
    ensures
        bios_color(0) == (RGB { red: 12, green: 10, blue: 9 }),
        bios_color(1) == (RGB { red: 20, green: 71, blue: 230 }),
        bios_color(2) == (RGB { red: 49, green: 201, blue: 80 }),
        bios_color(3) == (RGB { red: 83, green: 234, blue: 253 }),
        bios_color(4) == (RGB { red: 231, green: 24, blue: 11 }),
        bios_color(5) == (RGB { red: 127, green: 34, blue: 254 }),
        bios_color(6) == (RGB { red: 255, green: 137, blue: 4 }),
        bios_color(7) == (RGB { red: 248, green: 250, blue: 252 }),
        bios_color(8) == (RGB { red: 144, green: 161, blue: 185 }),
        bios_color(9) == (RGB { red: 83, green: 234, blue: 253 }),
        bios_color(10) == (RGB { red: 154, green: 230, blue: 48 }),
        bios_color(11) == (RGB { red: 83, green: 234, blue: 253 }),
        bios_color(12) == (RGB { red: 251, green: 44, blue: 54 }),
        bios_color(13) == (RGB { red: 237, green: 106, blue: 255 }),
        bios_color(14) == (RGB { red: 255, green: 240, blue: 133 }),
        bios_color(15) == (RGB { red: 248, green: 250, blue: 252 }),
        n >= 16 ==> bios_color(n) == (RGB { red: 0, green: 0, blue: 0 }),
{
}

/// The jumps: `JMP` always goes to its target (the second operand byte); `JMPIF0` goes
/// there exactly when the zero flag is set, `JMPIFE0` exactly when it is clear, and
/// `JMPIFCRRY` exactly when the carry flag is set, whatever the zero flag; a jump not taken
/// continues after the operand bytes. No jump changes a register, a flag, RAM, the screen
/// or the disk.
pub proof fn law_jumps(m: Machine, op1: ByteStr, op2: ByteStr, mn: Mnemonic)
    requires
        mn == Mnemonic::Jmp || mn == Mnemonic::Jmpif0 || mn == Mnemonic::Jmpife0
            || mn == Mnemonic::Jmpifcrry,
    ensures
        ({
            let after = three_byte_op(mn, m, op1, op2);
            let taken = match mn {
                Mnemonic::Jmp => true,
                Mnemonic::Jmpif0 => m.cpu.zero,
                Mnemonic::Jmpife0 => !m.cpu.zero,
                _ => m.cpu.carry,
            };
            &&& after.cpu.pc == (if taken { op2.value() } else { inc(inc(m.cpu.pc)) })
            &&& after.cpu.regs == m.cpu.regs
            &&& after.cpu.zero == m.cpu.zero
            &&& after.cpu.carry == m.cpu.carry
            &&& after.cpu.fault == m.cpu.fault
            &&& after.cpu.halted == m.cpu.halted
            &&& after.ram == m.ram
            &&& after.screen == m.screen
            &&& after.disk == m.disk
        }),
        three_byte_op(Mnemonic::Jmpifcrry, m, op1, op2).cpu.pc == (if m.cpu.carry {
            op2.value()
        } else {
            inc(inc(m.cpu.pc))
        }),
{
}

/// What the two-register arithmetic and logic instructions compute from the values `a` of
/// the first register and `b` of the second: `ADD` leaves `(a + b) mod 2^32` in the first
/// register and sets carry to whether `a + b` exceeds `u32::MAX`, whatever carry was before;
/// `MULTI` likewise with `a * b`; `SUB` leaves `(a - b) mod 2^32`, `DIV` (divisor non-zero)
/// `a / b`, `AND` `a & b`, `EOR` `a ^ b`, all in the first register, and `OR` leaves `a | b`
/// in the second; these four keep the carry flag. None of them changes the zero flag. A
/// zero divisor halts with the fault flag set instead.
pub proof fn law_alu_results(m: Machine, op: ByteStr)
    requires
        m.cpu.regs.len() == 16,
    ensures
        ({
            let r1 = top_reg(op) as int;
            let r2 = bottom_reg(op) as int;
            let a = reg(m.cpu, r1);
            let b = reg(m.cpu, r2);
            let add = two_byte_op(Mnemonic::Add, m, op).cpu;
            let sub = two_byte_op(Mnemonic::Sub, m, op).cpu;
            let div = two_byte_op(Mnemonic::Div, m, op).cpu;
            let mul = two_byte_op(Mnemonic::Multi, m, op).cpu;
            let or = two_byte_op(Mnemonic::Or, m, op).cpu;
            let and = two_byte_op(Mnemonic::And, m, op).cpu;
            let eor = two_byte_op(Mnemonic::Eor, m, op).cpu;
            &&& add.carry == (a as nat + b as nat > u32::MAX)
            &&& r1 != 0 ==> reg(add, r1) as nat == (a as nat + b as nat) % 0x1_0000_0000
            &&& mul.carry == (a as nat * b as nat > u32::MAX)
            &&& r1 != 0 ==> reg(mul, r1) as nat == (a as nat * b as nat) % 0x1_0000_0000
            &&& r1 != 0 ==> reg(sub, r1) as int == (a as int - b as int) % 0x1_0000_0000
            &&& sub.carry == m.cpu.carry
            &&& (b != 0 && r1 != 0) ==> reg(div, r1) == a / b
            &&& b != 0 ==> div.carry == m.cpu.carry && !div.halted == !m.cpu.halted
            &&& b == 0 ==> div.halted && div.fault && div.regs == m.cpu.regs
            &&& r2 != 0 ==> reg(or, r2) == a | b
            &&& r1 != r2 ==> reg(or, r1) == a
            &&& r1 != 0 ==> reg(and, r1) == a & b
            &&& r1 != 0 ==> reg(eor, r1) == a ^ b
            &&& or.carry == m.cpu.carry && and.carry == m.cpu.carry && eor.carry == m.cpu.carry
            &&& add.zero == m.cpu.zero && sub.zero == m.cpu.zero && div.zero == m.cpu.zero
            &&& mul.zero == m.cpu.zero && or.zero == m.cpu.zero && and.zero == m.cpu.zero
            &&& eor.zero == m.cpu.zero
        }),
{
    op.lemma_len();
    lemma_bin_value_bound(op@.subrange(0, 4));
    lemma_bin_value_bound(op@.subrange(4, 8));
    lemma2_to64();
}

/// `NOT` leaves the bitwise complement of the first register in it; `MOVE` copies the
/// first register into the second and keeps the first; `MOVEACLR` copies it and then clears
/// the first. None of them changes a flag, RAM, the screen or the disk, and each moves the
/// program counter past its operand byte.
pub proof fn law_not_and_moves(m: Machine, op: ByteStr)
    requires
        m.cpu.regs.len() == 16,
    ensures
        ({
            let r1 = top_reg(op) as int;
            let r2 = bottom_reg(op) as int;
            let a = reg(m.cpu, r1);
            let not = two_byte_op(Mnemonic::Not, m, op);
            let mv = two_byte_op(Mnemonic::Move, m, op);
            let mc = two_byte_op(Mnemonic::Moveaclr, m, op);
            &&& r1 != 0 ==> reg(not.cpu, r1) == !a
            &&& r2 != 0 ==> reg(mv.cpu, r2) == a
            &&& r1 != r2 ==> reg(mv.cpu, r1) == a
            &&& r2 != 0 && r1 != r2 ==> reg(mc.cpu, r2) == a
            &&& reg(mc.cpu, r1) == 0
            &&& not.cpu.pc == inc(m.cpu.pc) && mv.cpu.pc == inc(m.cpu.pc) && mc.cpu.pc == inc(m.cpu.pc)
            &&& not.cpu.zero == m.cpu.zero && not.cpu.carry == m.cpu.carry && not.cpu.fault == m.cpu.fault
            &&& mv.cpu.zero == m.cpu.zero && mv.cpu.carry == m.cpu.carry && mv.cpu.fault == m.cpu.fault
            &&& mc.cpu.zero == m.cpu.zero && mc.cpu.carry == m.cpu.carry && mc.cpu.fault == m.cpu.fault
            &&& not.ram == m.ram && mv.ram == m.ram && mc.ram == m.ram
            &&& not.disk == m.disk && mv.disk == m.disk && mc.disk == m.disk
            &&& not.screen == m.screen && mv.screen == m.screen && mc.screen == m.screen
        }),
{
    op.lemma_len();
    lemma_bin_value_bound(op@.subrange(0, 4));
    lemma_bin_value_bound(op@.subrange(4, 8));
    lemma2_to64();
}

/// The one-byte instructions other than `RETURN`: `NOPERATION` changes nothing in the
/// processor, `HALT` only sets the halt bit, and `CLRFLAGS` clears the zero, carry and fault
/// flags and nothing else. None of them moves the program counter beyond the fetch, or
/// touches RAM, the screen or the disk.
pub proof fn law_one_byte_instructions(m: Machine)
    ensures
        one_byte_op(Mnemonic::Noperation, m).cpu == m.cpu,
        one_byte_op(Mnemonic::Halt, m).cpu == (CpuState { halted: true, ..m.cpu }),
        one_byte_op(Mnemonic::Clrflags, m).cpu == (CpuState { zero: false, carry: false, fault: false, ..m.cpu }),
        one_byte_op(Mnemonic::Noperation, m).ram == m.ram,
        one_byte_op(Mnemonic::Halt, m).ram == m.ram,
        one_byte_op(Mnemonic::Clrflags, m).ram == m.ram,
        one_byte_op(Mnemonic::Noperation, m).disk == m.disk,
        one_byte_op(Mnemonic::Halt, m).disk == m.disk,
        one_byte_op(Mnemonic::Clrflags, m).disk == m.disk,
        one_byte_op(Mnemonic::Noperation, m).screen == m.screen,
        one_byte_op(Mnemonic::Halt, m).screen == m.screen,
        one_byte_op(Mnemonic::Clrflags, m).screen == m.screen,
{
}

} // verus!
