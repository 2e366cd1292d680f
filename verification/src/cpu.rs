//! The processor: fetches program bytes and executes one instruction per step against RAM,
//! screen, disk and camera.
use vstd::prelude::*;
use vstd::string::{StrSliceExecFns, StringExecFns};
use crate::bios::{call_to_bios, BiosOutcome, bios_ok, char_for};
use crate::bytestr::{ByteStr, lemma_bin_value_bound};
use crate::cam::{CpuCam, CamView};
use crate::decode::{InstructionTable, Mnemonic};
use crate::disk::disk;
use crate::helper::{bin_value, string_to_u8, string_to_u32, u32_to_string, return_opp_string,
    lemma_complement_via_text, lemma_bin_prefix_le, push_char};
use crate::ram::{RamUnit, grid_of};
use crate::registers::{Registers, Flags, reg_value};
use crate::screen::Screen;
use crate::semantics::{Machine, CpuState, StepEvent, step, step_ok, op_ok, length_of, one_byte_op, two_byte_op, three_byte_op, has_byte, inc, fetch_spec, fetch_pc, top_reg, bottom_reg, radix2_u8, stack_reg, all_binary};

verus! {

/// The processor state plus its opcode table.
pub struct Cpu {
    pub regs: Registers,
    pub flags: Flags,
    pub pc: u8,
    pub halted: bool,
    pub table: InstructionTable,
}

/// The whole machine as the specification sees it.
pub open spec fn machine(cpu: &Cpu, ram: &RamUnit, screen: &Screen, dsk: &disk, cam: &CpuCam) -> Machine {
    Machine { cpu: cpu.state(), ram: ram@, screen: screen@, disk: dsk@, cam: cam@ }
}

/// The register named by the first (`top`) or last four characters of `op`.
fn nibble_reg(op: &ByteStr, top: bool) -> (r: u8)
    ensures
        r == (if top {
            top_reg(*op)
        } else {
            bottom_reg(*op)
        }),
        r < 16,
{
    let half = op.grab_half(top);
    proof {
        op.lemma_len();
        lemma_bin_value_bound(half@);
        vstd::arithmetic::power2::lemma2_to64();
    }
    string_to_u8(half)
}

/// `u8::from_str_radix(text, 2)`: an optional `+`, then binary digits whose value fits a byte.
pub fn from_binary_str(text: &str) -> (r: Option<u8>)
    ensures
        r == radix2_u8(text@),
{
    let n = text.unicode_len();
    let start: usize = if n > 0 && text.get_char(0) == '+' {
        1
    } else {
        0
    };
    let ghost digits = if text@.len() > 0 && text@[0] == '+' {
        text@.subrange(1, text@.len() as int)
    } else {
        text@
    };
    if start == n {
        assert(digits.len() == 0);
        return None;
    }
    assert(digits =~= text@.subrange(start as int, n as int));
    let mut value: u32 = 0;
    let mut i: usize = start;
    while i < n
        invariant
            n == text@.len(),
            start <= i <= n,
            start < n,
            digits == text@.subrange(start as int, n as int),
            digits == (if text@.len() > 0 && text@[0] == '+' {
                text@.subrange(1, text@.len() as int)
            } else {
                text@
            }),
            value <= 255,
            value == bin_value(digits.take(i - start)),
            forall|k: int| 0 <= k < i - start ==> (#[trigger] digits[k] == '0' || digits[k] == '1'),
        decreases n - i,
    {
        let c = text.get_char(i);
        if c != '0' && c != '1' {
            assert(!all_binary(digits)) by {
                assert(digits[i - start] == c);
            }
            return None;
        }
        let bit: u32 = if c == '1' {
            1
        } else {
            0
        };
        proof {
            assert(digits.take(i - start + 1).drop_last() =~= digits.take(i - start));
        }
        value = value * 2 + bit;
        i += 1;
        if value > 255 {
            proof {
                lemma_bin_prefix_le(digits, i - start);
                assert(bin_value(digits) > 255);
            }
            return None;
        }
    }
    assert(digits.take(n - start) =~= digits);
    Some(value as u8)
}

/// Number of bytes instruction `mn` occupies.
fn instruction_length(mn: Mnemonic) -> (n: u8)
    ensures
        n == length_of(mn),
{
    match mn {
        Mnemonic::Noperation | Mnemonic::Halt | Mnemonic::Return | Mnemonic::Clrflags => 1,
        Mnemonic::Loadimm | Mnemonic::Jmp | Mnemonic::Jmpif0 | Mnemonic::Jmpife0 | Mnemonic::Call
        | Mnemonic::Jmpifcrry | Mnemonic::Load | Mnemonic::Store => 3,
        _ => 2,
    }
}

/// Whether the BIOS can serve interrupt `n` with these arguments on this screen.
fn bios_args_ok(n: u8, reg1: u32, reg2: u32, reg3: u32, screen: &Screen) -> (ok: bool)
    ensures
        ok == bios_ok(n, reg1, reg2, reg3, screen@),
{
    if n == 10 {
        let w = glyph_width(reg1);
        (screen.get_cursor_x() as usize) + 5 <= 255 && (screen.get_cursor_y() as usize) + 5 * w <= 255
    } else if n == 13 {
        let ram_at: u8 = #[verifier::truncate] (reg3 as u8);
        let disk_at: u16 = #[verifier::truncate] (reg2 as u16);
        (ram_at as u64) + (reg1 as u64) <= 256 && (disk_at as u64) + (reg1 as u64) <= 65536
    } else if n == 14 {
        let ram_at: u8 = #[verifier::truncate] (reg2 as u8);
        let disk_at: u16 = #[verifier::truncate] (reg3 as u16);
        (ram_at as u64) + (reg1 as u64) <= 256 && (disk_at as u64) + (reg1 as u64) <= 65536
    } else {
        true
    }
}

/// The glyph width of the character INT 0A would draw for `reg1`.
fn glyph_width(reg1: u32) -> (w: usize)
    ensures
        w == crate::font::glyph(char_for(reg1))[0].len(),
        1 <= w <= 5,
{
    let code: u8 = (reg1 % 255) as u8;
    let c: char = code as char;
    let g = crate::font::what_is_char(c);
    proof {
        crate::font::lemma_glyph_shape(c);
        assert(g.deep_view()[0].len() == g@[0]@.len());
    }
    g[0].len()
}

impl Cpu {
    /// The processor state (registers, flags, program counter, halt bit).
    pub open spec fn state(&self) -> CpuState {
        CpuState {
            regs: self.regs@,
            zero: self.flags.zero,
            carry: self.flags.carry,
            fault: self.flags.fault,
            pc: self.pc,
            halted: self.halted,
        }
    }

    /// A processor at address 0, running, with its flags clear, the stack pointer R13 at the
    /// top of RAM (0xFF) and every other register zero.
    pub fn new() -> (cpu: Self)
        ensures
            cpu.state() =~~= (CpuState {
                regs: Seq::new(16, |i: int| if i == 13 { 0xFFu32 } else { 0u32 }),
                zero: false,
                carry: false,
                fault: false,
                pc: 0,
                halted: false,
            }),
            cpu.table.entries() == crate::decode::opcode_table(),
    {
        let mut regs = Registers::new();
        regs.set(13, 0xFF);
        let cpu = Self { regs, flags: Flags::new(), pc: 0, halted: false, table: InstructionTable::new() };
        assert(cpu.regs@ =~= Seq::new(16, |i: int| if i == 13 { 0xFFu32 } else { 0u32 }));
        cpu
    }

    /// The byte at the program counter, advancing the counter (wrapping at 256); `None`,
    /// with the counter unchanged, once the counter is past the end of the program.
    pub fn fetch(&mut self, bin_file: &[ByteStr]) -> (b: Option<ByteStr>)
        ensures
            b == fetch_spec(old(self).pc, bin_file@),
            final(self).state() == (CpuState { pc: fetch_pc(old(self).pc, bin_file@), ..old(self).state() }),
    {
        if self.pc as usize >= bin_file.len() {
            return None;
        }
        let byte = bin_file[self.pc as usize];
        self.pc = self.pc.wrapping_add(1);
        Some(byte)
    }

    /// Whether `execute` can run `instruction` to completion: its operand bytes exist, a
    /// `PUSH`/`POP` register parses, and an `INT` has arguments the BIOS handles.
    pub fn can_execute(
        &self,
        instruction: &Option<ByteStr>,
        bin_file: &[ByteStr],
        ram_unit: &RamUnit,
        cam: &CpuCam,
        screen: &Screen,
        disk: &disk,
    ) -> (ok: bool)
        ensures
            ok == step_ok(machine(self, ram_unit, screen, disk, cam), *instruction, bin_file@),
    {
        let instr = match instruction {
            None => {
                return true;
            },
            Some(b) => b,
        };
        let mn = match self.table.lookup(instr) {
            None => {
                return true;
            },
            Some(mn) => mn,
        };
        let pc = self.pc;
        let has1 = (pc as usize) < bin_file.len();
        let has2 = (pc.wrapping_add(1) as usize) < bin_file.len();
        let ghost m = machine(self, ram_unit, screen, disk, cam);
        assert(step_ok(m, *instruction, bin_file@) == op_ok(mn, m, bin_file@));
        let len = instruction_length(mn);
        if len == 1 {
            return true;
        }
        if len == 3 {
            return has1 && has2;
        }
        if !has1 {
            return false;
        }
        if mn == Mnemonic::Push || mn == Mnemonic::Pop {
            let op = &bin_file[pc as usize];
            from_binary_str(op.grab_half(true).as_str()).is_some()
        } else if mn == Mnemonic::Int {
            let n = bin_file[pc as usize].as_u8();
            bios_args_ok(n, self.regs.get(1), self.regs.get(2), self.regs.get(3), screen)
        } else {
            true
        }
    }

    /// Executes one instruction (already fetched; its operands are fetched here). A missing
    /// instruction or an unknown opcode halts the processor. The result says what happened.
    pub fn execute(
        &mut self,
        instruction: Option<ByteStr>,
        bin_file: &[ByteStr],
        ram_unit: &mut RamUnit,
        cam: &mut CpuCam,
        screen: &mut Screen,
        disk: &mut disk,
    ) -> (ev: StepEvent)
        requires
            step_ok(machine(old(self), old(ram_unit), old(screen), old(disk), old(cam)), instruction, bin_file@),
        ensures
            ev == step(machine(old(self), old(ram_unit), old(screen), old(disk), old(cam)), instruction, bin_file@).1,
            machine(final(self), final(ram_unit), final(screen), final(disk), final(cam)) =~~= step(
                machine(old(self), old(ram_unit), old(screen), old(disk), old(cam)),
                instruction,
                bin_file@,
            ).0,
            final(disk).file() == old(disk).file(),
    {
        let pc0 = self.pc;
        let instr = match instruction {
            None => {
                self.halted = true;
                return StepEvent::NoInstruction;
            },
            Some(b) => b,
        };
        let mn = match self.table.lookup(&instr) {
            None => {
                self.halted = true;
                return StepEvent::Unrecognized;
            },
            Some(mn) => mn,
        };
        match mn {
            Mnemonic::Noperation | Mnemonic::Halt | Mnemonic::Return | Mnemonic::Clrflags => {
                self.exec_one_byte(mn, ram_unit, cam, screen, disk);
                StepEvent::Executed(mn)
            },
            Mnemonic::Add | Mnemonic::Sub | Mnemonic::Multi => {
                self.exec_arith(mn, bin_file, ram_unit, cam, screen, disk);
                StepEvent::Executed(mn)
            },
            Mnemonic::Div => {
                self.exec_div(mn, bin_file, ram_unit, cam, screen, disk);
                StepEvent::Executed(mn)
            },
            Mnemonic::Or | Mnemonic::And | Mnemonic::Eor => {
                self.exec_logic(mn, bin_file, ram_unit, cam, screen, disk);
                StepEvent::Executed(mn)
            },
            Mnemonic::Not | Mnemonic::Move | Mnemonic::Moveaclr => {
                self.exec_move(mn, bin_file, ram_unit, cam, screen, disk);
                StepEvent::Executed(mn)
            },
            Mnemonic::Push | Mnemonic::Pop => {
                self.exec_stack(mn, bin_file, ram_unit, cam, screen, disk);
                StepEvent::Executed(mn)
            },
            Mnemonic::Int => {
                let outcome = self.exec_int(bin_file, ram_unit, cam, screen, disk);
                match outcome {
                    BiosOutcome::Served => StepEvent::Executed(mn),
                    BiosOutcome::OutOfRange => StepEvent::BiosOutOfRange(bin_file[pc0 as usize].as_u8()),
                }
            },
            Mnemonic::Loadimm => {
                self.exec_loadimm(bin_file, ram_unit, cam, screen, disk);
                StepEvent::Executed(mn)
            },
            Mnemonic::Load | Mnemonic::Store => {
                self.exec_memory(mn, bin_file, ram_unit, cam, screen, disk);
                StepEvent::Executed(mn)
            },
            _ => {
                self.exec_jump(mn, bin_file, ram_unit, cam, screen, disk);
                StepEvent::Executed(mn)
            },
        }
    }

    #[verifier::rlimit(50)]
    fn exec_one_byte(&mut self, mn: Mnemonic, ram_unit: &RamUnit, cam: &mut CpuCam, screen: &Screen, disk: &disk)
        requires
            length_of(mn) == 1,
        ensures
            machine(final(self), ram_unit, screen, disk, final(cam)) =~~= one_byte_op(
                mn,
                machine(old(self), ram_unit, screen, disk, old(cam)),
            ),
    {
        match mn {
            Mnemonic::Noperation => {
                cam.set_last_instr("NOPERATION");
            },
            Mnemonic::Halt => {
                self.halted = true;
                cam.set_last_instr("<CPU_EXECUTE> HALT");
                cam.halted = true;
            },
            Mnemonic::Clrflags => {
                self.flags.clear();
            },
            _ => {
                let sp = #[verifier::truncate] (self.regs.get(13) as u8);
                let return_addr = ram_unit.fetch(sp);
                self.regs.set(13, sp.wrapping_add(1) as u32);
                self.pc = #[verifier::truncate] (return_addr as u8);
                cam.set_last_instr("RETURN");
            },
        }
    }

    fn exec_arith(
        &mut self,
        mn: Mnemonic,
        bin_file: &[ByteStr],
        ram_unit: &RamUnit,
        cam: &mut CpuCam,
        screen: &Screen,
        disk: &disk,
    )
        requires
            mn == Mnemonic::Add || mn == Mnemonic::Sub || mn == Mnemonic::Multi,
            has_byte(old(self).pc, bin_file@),
        ensures
            machine(final(self), ram_unit, screen, disk, final(cam)) =~~= two_byte_op(
                mn,
                machine(old(self), ram_unit, screen, disk, old(cam)),
                bin_file@[old(self).pc as int],
            ),
    {
        let op = self.fetch(bin_file).unwrap();
        let r1 = nibble_reg(&op, true);
        let r2 = nibble_reg(&op, false);
        let a = self.regs.get(r1);
        let b = self.regs.get(r2);
        if mn == Mnemonic::Add {
            let carried = a.checked_add(b).is_none();
            let sum = a.wrapping_add(b);
            self.flags.carry = carried;
            self.regs.set(r1, sum);
            cam.reg_set(r1, sum);
            cam.set_last_instr("ADD");
        } else if mn == Mnemonic::Sub {
            let sum = a.wrapping_sub(b);
            self.regs.set(r1, sum);
            cam.reg_set(r1, sum);
        } else {
            let carried = a.checked_mul(b).is_none();
            let sum = a.wrapping_mul(b);
            self.flags.carry = carried;
            self.regs.set(r1, sum);
            cam.reg_set(r1, sum);
        }
    }

    fn exec_div(
        &mut self,
        mn: Mnemonic,
        bin_file: &[ByteStr],
        ram_unit: &RamUnit,
        cam: &mut CpuCam,
        screen: &Screen,
        disk: &disk,
    )
        requires
            mn == Mnemonic::Div,
            has_byte(old(self).pc, bin_file@),
        ensures
            machine(final(self), ram_unit, screen, disk, final(cam)) =~~= two_byte_op(
                mn,
                machine(old(self), ram_unit, screen, disk, old(cam)),
                bin_file@[old(self).pc as int],
            ),
    {
        let op = self.fetch(bin_file).unwrap();
        let r1 = nibble_reg(&op, true);
        let r2 = nibble_reg(&op, false);
        let a = self.regs.get(r1);
        let b = self.regs.get(r2);
        if b == 0 {
            self.flags.fault = true;
            self.halted = true;
            cam.halted = true;
            cam.fault = true;
            return ;
        }
        let sum = a / b;
        self.regs.set(r1, sum);
        cam.reg_set(r1, sum);
    }

    fn exec_logic(
        &mut self,
        mn: Mnemonic,
        bin_file: &[ByteStr],
        ram_unit: &RamUnit,
        cam: &mut CpuCam,
        screen: &Screen,
        disk: &disk,
    )
        requires
            mn == Mnemonic::Or || mn == Mnemonic::And || mn == Mnemonic::Eor,
            has_byte(old(self).pc, bin_file@),
        ensures
            machine(final(self), ram_unit, screen, disk, final(cam)) =~~= two_byte_op(
                mn,
                machine(old(self), ram_unit, screen, disk, old(cam)),
                bin_file@[old(self).pc as int],
            ),
    {
        let op = self.fetch(bin_file).unwrap();
        let r1 = nibble_reg(&op, true);
        let r2 = nibble_reg(&op, false);
        let a = self.regs.get(r1);
        let b = self.regs.get(r2);
        if mn == Mnemonic::Or {
            let sum = a | b;
            self.regs.set(r2, sum);
            cam.reg_set(r2, sum);
        } else {
            let sum = if mn == Mnemonic::And {
                a & b
            } else {
                a ^ b
            };
            self.regs.set(r1, sum);
            cam.reg_set(r1, sum);
        }
    }

    fn exec_move(
        &mut self,
        mn: Mnemonic,
        bin_file: &[ByteStr],
        ram_unit: &RamUnit,
        cam: &mut CpuCam,
        screen: &Screen,
        disk: &disk,
    )
        requires
            mn == Mnemonic::Not || mn == Mnemonic::Move || mn == Mnemonic::Moveaclr,
            has_byte(old(self).pc, bin_file@),
        ensures
            machine(final(self), ram_unit, screen, disk, final(cam)) =~~= two_byte_op(
                mn,
                machine(old(self), ram_unit, screen, disk, old(cam)),
                bin_file@[old(self).pc as int],
            ),
    {
        let op = self.fetch(bin_file).unwrap();
        let r1 = nibble_reg(&op, true);
        let r2 = nibble_reg(&op, false);
        match mn {
            Mnemonic::Not => {
                let value = u32_to_string(self.regs.get(r1));
                proof {
                    lemma_complement_via_text(self.regs@[r1 as int]);
                    lemma_complement_via_text(0);
                }
                let sum = string_to_u32(return_opp_string(value));
                self.regs.set(r1, sum);
                cam.reg_set(r1, sum);
            },
            Mnemonic::Move => {
                let move_val = self.regs.get(r1);
                self.regs.set(r2, move_val);
                cam.reg_set(r2, move_val);
            },
            _ => {
                let move_val = self.regs.get(r1);
                self.regs.set(r2, move_val);
                self.regs.set(r1, self.regs.get(0));
                cam.reg_set(r2, move_val);
                cam.reg_set(r1, self.regs.get(0));
            },
        }
    }

    fn exec_stack(
        &mut self,
        mn: Mnemonic,
        bin_file: &[ByteStr],
        ram_unit: &mut RamUnit,
        cam: &CpuCam,
        screen: &Screen,
        disk: &disk,
    )
        requires
            mn == Mnemonic::Push || mn == Mnemonic::Pop,
            has_byte(old(self).pc, bin_file@),
            stack_reg(bin_file@[old(self).pc as int]) is Some,
        ensures
            machine(final(self), final(ram_unit), screen, disk, cam) =~~= two_byte_op(
                mn,
                machine(old(self), old(ram_unit), screen, disk, cam),
                bin_file@[old(self).pc as int],
            ),
    {
        let operand = self.fetch(bin_file).unwrap();
        proof {
            crate::semantics::lemma_stack_reg_bound(operand);
        }
        let reg_idx = from_binary_str(operand.grab_half(true).as_str()).unwrap();
        if mn == Mnemonic::Push {
            let value: u32 = self.regs.get(reg_idx);
            let sp = #[verifier::truncate] (self.regs.get(13) as u8);
            let new_sp = sp.wrapping_sub(1);
            self.regs.set(13, new_sp as u32);
            ram_unit.write(new_sp, value);
        } else {
            let sp = #[verifier::truncate] (self.regs.get(13) as u8);
            let value = ram_unit.fetch(sp);
            self.regs.set(13, sp.wrapping_add(1) as u32);
            self.regs.set(reg_idx, value);
        }
    }

    fn exec_int(
        &mut self,
        bin_file: &[ByteStr],
        ram_unit: &mut RamUnit,
        cam: &mut CpuCam,
        screen: &mut Screen,
        disk: &mut disk,
    ) -> (outcome: BiosOutcome)
        requires
            has_byte(old(self).pc, bin_file@),
            op_ok(Mnemonic::Int, machine(old(self), old(ram_unit), old(screen), old(disk), old(cam)), bin_file@),
        ensures
            outcome == crate::bios::bios_outcome(bin_file@[old(self).pc as int].value()),
            machine(final(self), final(ram_unit), final(screen), final(disk), final(cam)) =~~= two_byte_op(
                Mnemonic::Int,
                machine(old(self), old(ram_unit), old(screen), old(disk), old(cam)),
                bin_file@[old(self).pc as int],
            ),
            final(disk).file() == old(disk).file(),
    {
        let int_num = self.fetch(bin_file).unwrap().as_u8();
        let reg1 = self.regs.get(1);
        let reg2 = self.regs.get(2);
        let reg3 = self.regs.get(3);
        let outcome = call_to_bios(int_num, reg1, reg2, reg3, cam, screen, disk, ram_unit);
        cam.set_last_instr("INT");
        outcome
    }

    fn exec_loadimm(
        &mut self,
        bin_file: &[ByteStr],
        ram_unit: &RamUnit,
        cam: &mut CpuCam,
        screen: &Screen,
        disk: &disk,
    )
        requires
            has_byte(old(self).pc, bin_file@),
            has_byte(inc(old(self).pc), bin_file@),
        ensures
            machine(final(self), ram_unit, screen, disk, final(cam)) =~~= three_byte_op(
                Mnemonic::Loadimm,
                machine(old(self), ram_unit, screen, disk, old(cam)),
                bin_file@[old(self).pc as int],
                bin_file@[inc(old(self).pc) as int],
            ),
    {
        let byte2 = self.fetch(bin_file).unwrap();
        let load_reg = nibble_reg(&byte2, true);
        let mut load_imm = byte2.grab_half(false);
        let byte3 = self.fetch(bin_file).unwrap();
        let tail = byte3.as_string();
        load_imm.append(tail.as_str());
        let load_num = string_to_u32(load_imm);
        self.regs.set(load_reg, load_num);
        cam.reg_set(load_reg, load_num);
    }

    fn exec_memory(
        &mut self,
        mn: Mnemonic,
        bin_file: &[ByteStr],
        ram_unit: &mut RamUnit,
        cam: &CpuCam,
        screen: &Screen,
        disk: &disk,
    )
        requires
            mn == Mnemonic::Load || mn == Mnemonic::Store,
            has_byte(old(self).pc, bin_file@),
            has_byte(inc(old(self).pc), bin_file@),
        ensures
            machine(final(self), final(ram_unit), screen, disk, cam) =~~= three_byte_op(
                mn,
                machine(old(self), old(ram_unit), screen, disk, cam),
                bin_file@[old(self).pc as int],
                bin_file@[inc(old(self).pc) as int],
            ),
    {
        let byte2 = self.fetch(bin_file).unwrap();
        let reg = nibble_reg(&byte2, true);
        if mn == Mnemonic::Load {
            let byte3 = self.fetch(bin_file).unwrap();
            let address = byte3.as_u8();
            let fetched_data = ram_unit.fetch(address);
            self.regs.set(reg, fetched_data);
        } else {
            let value_on_bus = self.regs.get(reg);
            let byte3 = self.fetch(bin_file).unwrap();
            let address = byte3.as_u8();
            ram_unit.write(address, value_on_bus);
        }
    }

    fn exec_jump(
        &mut self,
        mn: Mnemonic,
        bin_file: &[ByteStr],
        ram_unit: &mut RamUnit,
        cam: &CpuCam,
        screen: &Screen,
        disk: &disk,
    )
        requires
            mn == Mnemonic::Jmp || mn == Mnemonic::Jmpif0 || mn == Mnemonic::Jmpife0 || mn == Mnemonic::Call
                || mn == Mnemonic::Jmpifcrry,
            has_byte(old(self).pc, bin_file@),
            has_byte(inc(old(self).pc), bin_file@),
        ensures
            machine(final(self), final(ram_unit), screen, disk, cam) =~~= three_byte_op(
                mn,
                machine(old(self), old(ram_unit), screen, disk, cam),
                bin_file@[old(self).pc as int],
                bin_file@[inc(old(self).pc) as int],
            ),
    {
        let _operand = self.fetch(bin_file).unwrap();
        let addr = self.fetch(bin_file).unwrap();
        match mn {
            Mnemonic::Jmp => {
                self.pc = addr.as_u8();
            },
            Mnemonic::Jmpif0 => {
                if self.flags.zero {
                    self.pc = addr.as_u8();
                }
            },
            Mnemonic::Jmpife0 => {
                if !self.flags.zero {
                    self.pc = addr.as_u8();
                }
            },
            Mnemonic::Call => {
                let sp = #[verifier::truncate] (self.regs.get(13) as u8);
                let new_sp = sp.wrapping_sub(1);
                ram_unit.write(new_sp, self.pc as u32);
                self.regs.set(13, new_sp as u32);
                self.pc = addr.as_u8();
            },
            _ => {
                if self.flags.carry {
                    self.pc = addr.as_u8();
                }
            },
        }
    }

    /// Copies registers, flags, program counter, halt bit and RAM into the camera.
    pub fn sync_to_cam(&self, cam: &mut CpuCam, ram_unit: &RamUnit)
        ensures
            final(cam)@ =~~= (CamView {
                registers: Seq::new(16, |i: int| reg_value(self.regs@, i)),
                pc: self.pc,
                zero: self.flags.zero,
                carry: self.flags.carry,
                fault: self.flags.fault,
                halted: self.halted,
                ram: grid_of(ram_unit@),
                ..old(cam)@
            }),
    {
        let mut i: u8 = 0;
        while i < 16
            invariant
                0 <= i <= 16,
                forall|k: int| 0 <= k < i ==> #[trigger] cam.registers@[k] == reg_value(self.regs@, k),
                cam@ =~~= (CamView { registers: cam@.registers, ..old(cam)@ }),
            decreases 16 - i,
        {
            cam.registers[i as usize] = self.regs.get(i);
            i += 1;
        }
        cam.pc = self.pc;
        cam.zero = self.flags.zero;
        cam.carry = self.flags.carry;
        cam.fault = self.flags.fault;
        cam.halted = self.halted;
        cam.ram = ram_unit.snapshot();
        proof {
            ram_unit.lemma_len();
            assert(cam@.ram =~~= grid_of(ram_unit@));
            assert(cam@.registers =~= Seq::new(16, |k: int| reg_value(self.regs@, k)));
        }
    }
}

/// Splits a stream of characters into program bytes of eight characters each, the last one
/// padded with `'0'`.
pub fn chars_to_bytestrs(chars: &[char]) -> (bytes: Vec<ByteStr>)
    ensures
        bytes@.len() == (chars@.len() + 7) / 8,
        forall|k: int|
            0 <= k < bytes@.len() ==> #[trigger] bytes@[k]@ == Seq::new(
                8,
                |i: int| if 8 * k + i < chars@.len() { chars@[8 * k + i] } else { '0' },
            ),
        forall|k: int|
            0 <= k < bytes@.len() ==> #[trigger] bytes@[k].hash_val() == crate::helper::fnv1a(
                vstd::utf8::encode_utf8(bytes@[k]@),
            ),
{
    let n = chars.len();
    let chunks: usize = n / 8 + if n % 8 != 0 {
        1
    } else {
        0
    };
    assert(chunks == (n + 7) / 8);
    let mut bytes: Vec<ByteStr> = Vec::new();
    while bytes.len() < chunks
        invariant
            n == chars@.len(),
            chunks == (n + 7) / 8,
            bytes@.len() <= chunks,
            forall|k: int|
                0 <= k < bytes@.len() ==> #[trigger] bytes@[k]@ == Seq::new(
                    8,
                    |i: int| if 8 * k + i < n { chars@[8 * k + i] } else { '0' },
                ),
            forall|k: int|
                0 <= k < bytes@.len() ==> #[trigger] bytes@[k].hash_val() == crate::helper::fnv1a(
                    vstd::utf8::encode_utf8(bytes@[k]@),
                ),
        decreases chunks - bytes@.len(),
    {
        let start = 8 * bytes.len();
        let mut s = String::new();
        let mut i: usize = 0;
        while i < 8
            invariant
                0 <= i <= 8,
                start < n,
                n == chars@.len(),
                s@ =~= Seq::new(i as nat, |j: int| if start + j < n { chars@[start + j] } else { '0' }),
            decreases 8 - i,
        {
            let c = if i < n - start {
                chars[start + i]
            } else {
                '0'
            };
            push_char(&mut s, c);
            i += 1;
        }
        let b = ByteStr::new(s.as_str());
        proof {
            b.lemma_len();
        }
        let ghost k = bytes@.len() as int;
        assert(b@ =~= Seq::new(8, |j: int| if 8 * k + j < n { chars@[8 * k + j] } else { '0' }));
        bytes.push(b);
    }
    bytes
}

/// The characters of a program text that count: every `'0'` and `'1'`, in order.
pub fn program_stream(text: &str) -> (stream: Vec<char>)
    ensures
        stream@ == text@.filter(|c: char| c == '0' || c == '1'),
{
    let n = text.unicode_len();
    let mut stream: Vec<char> = Vec::new();
    let mut i: usize = 0;
    while i < n
        invariant
            0 <= i <= n,
            n == text@.len(),
            stream@ == text@.take(i as int).filter(|c: char| c == '0' || c == '1'),
        decreases n - i,
    {
        let c = text.get_char(i);
        proof {
            assert(text@.take(i + 1).drop_last() =~= text@.take(i as int));
            reveal_with_fuel(Seq::filter, 1);
        }
        if c == '0' || c == '1' {
            stream.push(c);
        }
        i += 1;
    }
    assert(text@.take(n as int) =~= text@);
    stream
}

} // verus!
