//! What one instruction does to the whole machine: the specification `Cpu::execute` meets.
use vstd::prelude::*;
use crate::bytestr::{ByteStr, set_chars};
use crate::cam::CamView;
use crate::decode::{Mnemonic, decode};
use crate::helper::bin_value;
use crate::bytestr::lemma_bin_value_bound;
use crate::registers::{reg_value, reg_write};
use crate::screen::ScreenView;
use crate::bios::{bios_ok, bios_screen, bios_cam, bios_ram, bios_disk, bios_outcome, BiosOutcome};

verus! {

/// The processor's registers, flags, program counter and halt bit.
#[verifier::ext_equal]
pub struct CpuState {
    pub regs: Seq<u32>,
    pub zero: bool,
    pub carry: bool,
    pub fault: bool,
    pub pc: u8,
    pub halted: bool,
}

/// Everything an instruction can change.
#[verifier::ext_equal]
pub struct Machine {
    pub cpu: CpuState,
    pub ram: Seq<u32>,
    pub screen: ScreenView,
    pub disk: Seq<u8>,
    pub cam: CamView,
}

/// What happened in one step, for the caller to report.
#[derive(Copy, Clone, PartialEq, Eq, Structural)]
pub enum StepEvent {
    /// The instruction ran.
    Executed(Mnemonic),
    /// There was no instruction (the program counter ran past the program); the CPU halted.
    NoInstruction,
    /// The byte names no instruction; the CPU halted.
    Unrecognized,
    /// `INT` with a number the BIOS does not serve; nothing else changed.
    BiosOutOfRange(u8),
}

/// Increment of a byte with wrap-around.
pub open spec fn inc(b: u8) -> u8 {
    ((b as nat + 1) % 256) as u8
}

/// Decrement of a byte with wrap-around.
pub open spec fn dec(b: u8) -> u8 {
    ((b as nat + 255) % 256) as u8
}

/// The byte `fetch` returns at program counter `pc`.
pub open spec fn fetch_spec(pc: u8, prog: Seq<ByteStr>) -> Option<ByteStr> {
    if (pc as int) < prog.len() {
        Some(prog[pc as int])
    } else {
        None
    }
}

/// The program counter after `fetch` at `pc`: one further (wrapping), or unchanged past the end.
pub open spec fn fetch_pc(pc: u8, prog: Seq<ByteStr>) -> u8 {
    if (pc as int) < prog.len() {
        inc(pc)
    } else {
        pc
    }
}

/// Whether a byte can be fetched at `pc`.
pub open spec fn has_byte(pc: u8, prog: Seq<ByteStr>) -> bool {
    (pc as int) < prog.len()
}

/// The register named by the first four characters of an operand byte.
pub open spec fn top_reg(b: ByteStr) -> u8 {
    (bin_value(b@.subrange(0, 4)) % 256) as u8
}

/// The register named by the last four characters of an operand byte.
pub open spec fn bottom_reg(b: ByteStr) -> u8 {
    (bin_value(b@.subrange(4, 8)) % 256) as u8
}

/// Whether every character is `'0'` or `'1'`.
pub open spec fn all_binary(s: Seq<char>) -> bool {
    forall|i: int| 0 <= i < s.len() ==> (#[trigger] s[i] == '0' || s[i] == '1')
}

/// What `u8::from_str_radix(s, 2)` gives: an optional leading `+`, then at least one binary
/// digit, and a value that fits a byte.
pub open spec fn radix2_u8(s: Seq<char>) -> Option<u8> {
    let digits = if s.len() > 0 && s[0] == '+' {
        s.subrange(1, s.len() as int)
    } else {
        s
    };
    if digits.len() > 0 && all_binary(digits) && bin_value(digits) <= 255 {
        Some(bin_value(digits) as u8)
    } else {
        None
    }
}

/// The register operand of `PUSH` / `POP`, read from the first four characters.
pub open spec fn stack_reg(b: ByteStr) -> Option<u8> {
    radix2_u8(b@.subrange(0, 4))
}

/// Number of bytes an instruction occupies.
pub open spec fn length_of(mn: Mnemonic) -> nat {
    match mn {
        Mnemonic::Noperation | Mnemonic::Halt | Mnemonic::Return | Mnemonic::Clrflags => 1,
        Mnemonic::Loadimm | Mnemonic::Jmp | Mnemonic::Jmpif0 | Mnemonic::Jmpife0 | Mnemonic::Call
        | Mnemonic::Jmpifcrry | Mnemonic::Load | Mnemonic::Store => 3,
        _ => 2,
    }
}

/// The value register `i` reads in `c`.
pub open spec fn reg(c: CpuState, i: int) -> u32 {
    reg_value(c.regs, i)
}

/// `c` with `v` written to register `i` (ignored for R0).
pub open spec fn set_reg(c: CpuState, i: int, v: u32) -> CpuState {
    CpuState { regs: reg_write(c.regs, i, v), ..c }
}

/// The camera showing `v` in register `i` (ignored past R15).
pub open spec fn cam_reg(cam: CamView, i: int, v: u32) -> CamView {
    if 0 <= i < 16 {
        CamView { registers: cam.registers.update(i, v), ..cam }
    } else {
        cam
    }
}

/// The camera showing `s` as last instruction.
pub open spec fn cam_last(cam: CamView, s: Seq<char>) -> CamView {
    CamView { last_instruction: s, ..cam }
}

/// Result of the two-register arithmetic and logic instructions (divisor non-zero for DIV).
pub open spec fn alu_value(mn: Mnemonic, a: u32, b: u32) -> u32 {
    match mn {
        Mnemonic::Add => ((a as nat + b as nat) % 0x1_0000_0000) as u32,
        Mnemonic::Sub => (if a >= b {
            a - b
        } else {
            a - b + 0x1_0000_0000
        }) as u32,
        Mnemonic::Div => (a / b) as u32,
        Mnemonic::Multi => ((a as nat * b as nat) % 0x1_0000_0000) as u32,
        Mnemonic::Or => a | b,
        Mnemonic::And => a & b,
        _ => a ^ b,
    }
}

/// The register a two-register arithmetic or logic instruction writes: the second one for
/// `OR`, the first one for the others.
pub open spec fn alu_dest(mn: Mnemonic, op: ByteStr) -> u8 {
    if mn == Mnemonic::Or {
        bottom_reg(op)
    } else {
        top_reg(op)
    }
}

/// The carry flag after an arithmetic or logic instruction: ADD and MULTI set it to
/// whether the true result exceeds 32 bits, the others leave it.
pub open spec fn alu_carry(mn: Mnemonic, a: u32, b: u32, carry: bool) -> bool {
    match mn {
        Mnemonic::Add => a as nat + b as nat > u32::MAX,
        Mnemonic::Multi => a as nat * b as nat > u32::MAX,
        _ => carry,
    }
}

/// The 12-bit immediate of `LOADIMM`: the low four characters of the first operand byte
/// followed by the eight characters of the second, read as binary.
pub open spec fn imm12(op1: ByteStr, op2: ByteStr) -> u32 {
    (bin_value(op1@.subrange(4, 8) + set_chars(op2@)) % 0x1_0000_0000) as u32
}

/// The inputs on which an instruction runs to completion: its operand bytes exist, the
/// register of `PUSH`/`POP` parses, and an interrupt's arguments are ones the BIOS handles.
pub open spec fn op_ok(mn: Mnemonic, m: Machine, prog: Seq<ByteStr>) -> bool {
    let c = m.cpu;
    let pc = c.pc;
    if length_of(mn) == 1 {
        true
    } else if length_of(mn) == 2 {
        &&& has_byte(pc, prog)
        &&& (mn == Mnemonic::Push || mn == Mnemonic::Pop) ==> stack_reg(prog[pc as int]) is Some
        &&& mn == Mnemonic::Int ==> bios_ok(
            prog[pc as int].value(),
            reg(c, 1),
            reg(c, 2),
            reg(c, 3),
            m.screen,
        )
    } else {
        has_byte(pc, prog) && has_byte(inc(pc), prog)
    }
}

/// The inputs on which one step runs to completion.
pub open spec fn step_ok(m: Machine, instr: Option<ByteStr>, prog: Seq<ByteStr>) -> bool {
    match instr {
        None => true,
        Some(b) => match decode(b.hash_val()) {
            None => true,
            Some(mn) => op_ok(mn, m, prog),
        },
    }
}

/// The machine after a one-byte instruction.
pub open spec fn one_byte_op(mn: Mnemonic, m: Machine) -> Machine {
    let c = m.cpu;
    match mn {
        Mnemonic::Noperation => Machine { cam: cam_last(m.cam, "NOPERATION"@), ..m },
        Mnemonic::Halt => Machine {
            cpu: CpuState { halted: true, ..c },
            cam: CamView { halted: true, ..cam_last(m.cam, "<CPU_EXECUTE> HALT"@) },
            ..m
        },
        Mnemonic::Return => {
            let sp = reg(c, 13) as u8;
            Machine {
                cpu: CpuState { pc: m.ram[sp as int] as u8, ..set_reg(c, 13, inc(sp) as u32) },
                cam: cam_last(m.cam, "RETURN"@),
                ..m
            }
        },
        _ => Machine { cpu: CpuState { zero: false, carry: false, fault: false, ..c }, ..m },
    }
}

/// The machine after a two-byte instruction whose operand byte is `op`.
pub open spec fn two_byte_op(mn: Mnemonic, m: Machine, op: ByteStr) -> Machine {
    let c = CpuState { pc: inc(m.cpu.pc), ..m.cpu };
    let r1 = top_reg(op) as int;
    let r2 = bottom_reg(op) as int;
    let a = reg(c, r1);
    let b = reg(c, r2);
    match mn {
        Mnemonic::Div => if b == 0 {
            Machine {
                cpu: CpuState { fault: true, halted: true, ..c },
                cam: CamView { halted: true, fault: true, ..m.cam },
                ..m
            }
        } else {
            Machine {
                cpu: set_reg(c, r1, alu_value(mn, a, b)),
                cam: cam_reg(m.cam, r1, alu_value(mn, a, b)),
                ..m
            }
        },
        Mnemonic::Add => Machine {
            cpu: CpuState { carry: alu_carry(mn, a, b, c.carry), ..set_reg(c, r1, alu_value(mn, a, b)) },
            cam: cam_last(cam_reg(m.cam, r1, alu_value(mn, a, b)), "ADD"@),
            ..m
        },
        Mnemonic::Or => Machine {
            cpu: set_reg(c, r2, alu_value(mn, a, b)),
            cam: cam_reg(m.cam, r2, alu_value(mn, a, b)),
            ..m
        },
        Mnemonic::Sub | Mnemonic::Multi | Mnemonic::And | Mnemonic::Eor => Machine {
            cpu: CpuState { carry: alu_carry(mn, a, b, c.carry), ..set_reg(c, r1, alu_value(mn, a, b)) },
            cam: cam_reg(m.cam, r1, alu_value(mn, a, b)),
            ..m
        },
        Mnemonic::Not => Machine { cpu: set_reg(c, r1, !a), cam: cam_reg(m.cam, r1, !a), ..m },
        Mnemonic::Move => Machine { cpu: set_reg(c, r2, a), cam: cam_reg(m.cam, r2, a), ..m },
        Mnemonic::Moveaclr => Machine {
            cpu: set_reg(set_reg(c, r2, a), r1, 0),
            cam: cam_reg(cam_reg(m.cam, r2, a), r1, 0),
            ..m
        },
        Mnemonic::Push => {
            let idx = stack_reg(op)->0 as int;
            let sp = reg(c, 13) as u8;
            Machine {
                cpu: set_reg(c, 13, dec(sp) as u32),
                ram: m.ram.update(dec(sp) as int, reg(c, idx)),
                ..m
            }
        },
        Mnemonic::Pop => {
            let idx = stack_reg(op)->0 as int;
            let sp = reg(c, 13) as u8;
            Machine { cpu: set_reg(set_reg(c, 13, inc(sp) as u32), idx, m.ram[sp as int]), ..m }
        },
        _ => {
            // INT
            let n = op.value();
            let (x1, x2, x3) = (reg(c, 1), reg(c, 2), reg(c, 3));
            Machine {
                cpu: c,
                ram: bios_ram(n, x1, x2, x3, m.ram, m.disk),
                screen: bios_screen(n, x1, x2, x3, m.screen),
                disk: bios_disk(n, x1, x2, x3, m.ram, m.disk),
                cam: cam_last(bios_cam(n, x1, x2, x3, m.screen, m.cam), "INT"@),
            }
        },
    }
}

/// The machine after a three-byte instruction with operand bytes `op1`, `op2`.
pub open spec fn three_byte_op(mn: Mnemonic, m: Machine, op1: ByteStr, op2: ByteStr) -> Machine {
    let c = CpuState { pc: inc(inc(m.cpu.pc)), ..m.cpu };
    let target = op2.value();
    let r = top_reg(op1) as int;
    match mn {
        Mnemonic::Loadimm => Machine {
            cpu: set_reg(c, r, imm12(op1, op2)),
            cam: cam_reg(m.cam, r, imm12(op1, op2)),
            ..m
        },
        Mnemonic::Jmp => Machine { cpu: CpuState { pc: target, ..c }, ..m },
        Mnemonic::Jmpif0 => Machine { cpu: CpuState { pc: if c.zero { target } else { c.pc }, ..c }, ..m },
        Mnemonic::Jmpife0 => Machine { cpu: CpuState { pc: if !c.zero { target } else { c.pc }, ..c }, ..m },
        Mnemonic::Jmpifcrry => Machine { cpu: CpuState { pc: if c.carry { target } else { c.pc }, ..c }, ..m },
        Mnemonic::Call => {
            let sp = reg(c, 13) as u8;
            Machine {
                cpu: CpuState { pc: target, ..set_reg(c, 13, dec(sp) as u32) },
                ram: m.ram.update(dec(sp) as int, c.pc as u32),
                ..m
            }
        },
        Mnemonic::Load => Machine { cpu: set_reg(c, r, m.ram[target as int]), ..m },
        _ => {
            // STORE
            Machine { cpu: c, ram: m.ram.update(target as int, reg(c, r)), ..m }
        },
    }
}

/// The machine after instruction `mn`, whose operand bytes follow at the program counter.
pub open spec fn op_result(mn: Mnemonic, m: Machine, prog: Seq<ByteStr>) -> Machine {
    let pc = m.cpu.pc;
    if length_of(mn) == 1 {
        one_byte_op(mn, m)
    } else if length_of(mn) == 2 {
        two_byte_op(mn, m, prog[pc as int])
    } else {
        three_byte_op(mn, m, prog[pc as int], prog[inc(pc) as int])
    }
}

/// One step: the machine after executing `instr` (already fetched) and what to report.
pub open spec fn step(m: Machine, instr: Option<ByteStr>, prog: Seq<ByteStr>) -> (Machine, StepEvent) {
    match instr {
        None => (Machine { cpu: CpuState { halted: true, ..m.cpu }, ..m }, StepEvent::NoInstruction),
        Some(b) => match decode(b.hash_val()) {
            None => (Machine { cpu: CpuState { halted: true, ..m.cpu }, ..m }, StepEvent::Unrecognized),
            Some(mn) => {
                let ev = if mn == Mnemonic::Int && bios_outcome(prog[m.cpu.pc as int].value())
                    == BiosOutcome::OutOfRange {
                    StepEvent::BiosOutOfRange(prog[m.cpu.pc as int].value())
                } else {
                    StepEvent::Executed(mn)
                };
                (op_result(mn, m, prog), ev)
            },
        },
    }
}

/// A register operand parsed by `from_binary_str` from four characters names R0..R15.
pub proof fn lemma_stack_reg_bound(b: ByteStr)
    ensures
        stack_reg(b) matches Some(r) ==> r < 16,
{
    b.lemma_len();
    let s = b@.subrange(0, 4);
    let digits = if s.len() > 0 && s[0] == '+' {
        s.subrange(1, s.len() as int)
    } else {
        s
    };
    lemma_bin_value_bound(digits);
    vstd::arithmetic::power2::lemma2_to64();
    if digits.len() == 3 {
        assert(bin_value(digits) < 8);
    }
}

} // verus!
