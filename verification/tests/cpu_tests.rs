use cpuem::bytestr::ByteStr;
use cpuem::cam::CpuCam;
use cpuem::cpu::{chars_to_bytestrs, from_binary_str, program_stream, Cpu};
use cpuem::decode::{InstructionTable, Mnemonic};
use cpuem::disk::disk;
use cpuem::helper::{fallback_starting_operation, u8_to_string};
use cpuem::ram::RamUnit;
use cpuem::screen::Screen;
use cpuem::semantics::StepEvent;

struct Machine {
    cpu: Cpu,
    ram: RamUnit,
    cam: CpuCam,
    screen: Screen,
    disk: disk,
}

fn machine() -> Machine {
    Machine {
        cpu: Cpu::new(),
        ram: RamUnit::new(),
        cam: CpuCam::new(),
        screen: Screen::new(),
        disk: disk::new(),
    }
}

fn program(bytes: &[u8]) -> Vec<ByteStr> {
    let chars: Vec<char> = bytes.iter().flat_map(|b| u8_to_string(*b).chars().collect::<Vec<_>>()).collect();
    chars_to_bytestrs(&chars)
}

/// Runs until halted (at most `limit` steps); returns the events.
fn run(m: &mut Machine, prog: &[ByteStr], limit: usize) -> Vec<StepEvent> {
    let mut events = Vec::new();
    let mut steps = 0;
    while !m.cpu.halted && steps < limit {
        let instr = m.cpu.fetch(prog);
        assert!(m.cpu.can_execute(&instr, prog, &m.ram, &m.cam, &m.screen, &m.disk));
        events.push(m.cpu.execute(instr, prog, &mut m.ram, &mut m.cam, &mut m.screen, &mut m.disk));
        steps += 1;
    }
    events
}

#[test]
fn demo_program_runs_to_halt() {
    // LOADIMM R1 25, LOADIMM R2 26, ADD R1 R2, HALT
    let prog = chars_to_bytestrs(&fallback_starting_operation());
    assert_eq!(prog.len(), 9);
    let mut m = machine();
    let events = run(&mut m, &prog, 10);
    assert_eq!(events.len(), 4);
    assert_eq!(m.cpu.regs.get(0), 0);
    assert_eq!(m.cpu.regs.get(1), 51);
    assert_eq!(m.cpu.regs.get(2), 26);
    assert!(m.cpu.halted);
    assert!(!m.cpu.flags.carry);
    assert_eq!(m.cam.registers[1], 51);
    assert_eq!(m.cam.registers[2], 26);
    assert_eq!(m.cam.last_instruction, "<CPU_EXECUTE> HALT");
    assert!(m.cam.halted);
}

#[test]
fn running_off_the_end_halts() {
    let prog = program(&[0x00]);
    let mut m = machine();
    let events = run(&mut m, &prog, 10);
    assert!(events[0] == StepEvent::Executed(Mnemonic::Noperation));
    assert!(events[1] == StepEvent::NoInstruction);
    assert!(m.cpu.halted);
    assert_eq!(m.cam.last_instruction, "NOPERATION");
}

#[test]
fn unknown_opcode_halts() {
    let prog = program(&[0xFF]);
    let mut m = machine();
    let events = run(&mut m, &prog, 10);
    assert!(events == vec![StepEvent::Unrecognized]);
    assert!(m.cpu.halted);
}

#[test]
fn every_binary_byte_decodes_to_its_opcode() {
    let table = InstructionTable::new();
    let expected: [(u8, Mnemonic); 25] = [
        (0x00, Mnemonic::Noperation), (0x01, Mnemonic::Halt), (0x02, Mnemonic::Return),
        (0x03, Mnemonic::Clrflags), (0x40, Mnemonic::Add), (0x41, Mnemonic::Sub),
        (0x42, Mnemonic::Div), (0x43, Mnemonic::Multi), (0x44, Mnemonic::Or),
        (0x45, Mnemonic::And), (0x46, Mnemonic::Eor), (0x47, Mnemonic::Not),
        (0x48, Mnemonic::Move), (0x49, Mnemonic::Moveaclr), (0x4A, Mnemonic::Push),
        (0x4B, Mnemonic::Pop), (0x4C, Mnemonic::Int), (0x80, Mnemonic::Loadimm),
        (0x81, Mnemonic::Jmp), (0x82, Mnemonic::Jmpif0), (0x83, Mnemonic::Jmpife0),
        (0x84, Mnemonic::Call), (0x85, Mnemonic::Jmpifcrry), (0x87, Mnemonic::Load),
        (0x88, Mnemonic::Store),
    ];
    for x in 0..=255u8 {
        let b = ByteStr::new(&u8_to_string(x));
        let want = expected.iter().find(|(op, _)| *op == x).map(|(_, m)| *m);
        assert!(table.lookup(&b) == want, "byte {:#04x}", x);
    }
    assert_eq!(Mnemonic::Eor.name(), "EOR");
    assert_eq!(Mnemonic::Jmpife0.name(), "JMPIFE0");
}

#[test]
fn add_sets_carry_on_overflow() {
    // LOADIMM R1 0xFFF; LOADIMM R2 1; MULTI R1 R1 (0xFFF^2); MULTI R1 R1 overflows; HALT
    let prog = program(&[0x80, 0x1F, 0xFF, 0x80, 0x20, 0x01, 0x43, 0x11, 0x43, 0x11, 0x01]);
    let mut m = machine();
    run(&mut m, &prog, 20);
    let sq = 0xFFFu32 * 0xFFF;
    assert_eq!(m.cpu.regs.get(1), sq.wrapping_mul(sq));
    assert!(m.cpu.flags.carry);
    // ADD: 0xFFFFFFFF + 1 wraps to 0 with carry
    let prog = program(&[0x80, 0x10, 0x01, 0x47, 0x10, 0x40, 0x12, 0x01]);
    let mut m = machine();
    run(&mut m, &prog, 20);
    // R1 = !1 = 0xFFFFFFFE; R2 = 0 so no overflow
    assert_eq!(m.cpu.regs.get(1), 0xFFFF_FFFE);
    assert!(!m.cpu.flags.carry);
    let prog = program(&[0x80, 0x10, 0x00, 0x47, 0x10, 0x80, 0x20, 0x01, 0x40, 0x12, 0x01]);
    let mut m = machine();
    run(&mut m, &prog, 20);
    assert_eq!(m.cpu.regs.get(1), 0);
    assert!(m.cpu.flags.carry);
}

#[test]
fn sub_div_logic_and_moves() {
    let prog = program(&[
        0x80, 0x10, 0x0C, // LOADIMM R1 12
        0x80, 0x20, 0x05, // LOADIMM R2 5
        0x41, 0x12, // SUB R1 R2 -> 7
        0x48, 0x13, // MOVE R1 -> R3
        0x42, 0x32, // DIV R3 R2 -> 1
        0x80, 0x40, 0x06, // LOADIMM R4 6
        0x44, 0x24, // OR R2 R4 -> R4 = 5 | 6 = 7, R2 unchanged
        0x80, 0x50, 0x06, // LOADIMM R5 6
        0x45, 0x52, // AND R5 R2 -> 4
        0x80, 0x60, 0x06, // LOADIMM R6 6
        0x46, 0x62, // EOR R6 R2 -> 3
        0x49, 0x67, // MOVEACLR R6 -> R7, R6 = 0
        0x41, 0x02, // SUB R0 R2 (R0 stays 0)
        0x01,
    ]);
    let mut m = machine();
    run(&mut m, &prog, 50);
    assert_eq!(m.cpu.regs.get(1), 7);
    assert_eq!(m.cpu.regs.get(2), 5);
    assert_eq!(m.cpu.regs.get(3), 1);
    assert_eq!(m.cpu.regs.get(4), 7);
    assert_eq!(m.cpu.regs.get(5), 4);
    assert_eq!(m.cpu.regs.get(6), 0);
    assert_eq!(m.cpu.regs.get(7), 3);
    assert_eq!(m.cpu.regs.get(0), 0);
    assert_eq!(m.cam.registers[7], 3);
}

#[test]
fn sub_wraps_below_zero() {
    let prog = program(&[0x80, 0x20, 0x01, 0x41, 0x12, 0x01]);
    let mut m = machine();
    run(&mut m, &prog, 10);
    assert_eq!(m.cpu.regs.get(1), u32::MAX);
}

#[test]
fn divide_by_zero_faults_and_halts() {
    let prog = program(&[0x80, 0x10, 0x07, 0x42, 0x12, 0x01]);
    let mut m = machine();
    let events = run(&mut m, &prog, 10);
    assert_eq!(events.len(), 2);
    assert!(m.cpu.halted && m.cpu.flags.fault);
    assert!(m.cam.halted && m.cam.fault);
    assert_eq!(m.cpu.regs.get(1), 7);
}

#[test]
fn not_is_bitwise_complement() {
    let prog = program(&[0x80, 0x10, 0x04, 0x47, 0x10, 0x01]);
    let mut m = machine();
    run(&mut m, &prog, 10);
    assert_eq!(m.cpu.regs.get(1), !4u32);
}

#[test]
fn loadimm_takes_twelve_bits() {
    let prog = program(&[0x80, 0x3A, 0xBC, 0x01]);
    let mut m = machine();
    run(&mut m, &prog, 10);
    assert_eq!(m.cpu.regs.get(3), 0xABC);
}

#[test]
fn push_then_pop_copies_and_restores_the_stack_pointer() {
    let prog = program(&[
        0x80, 0xD0, 0xFF, // LOADIMM R13 255
        0x80, 0x10, 0x2A, // LOADIMM R1 42
        0x4A, 0x10, // PUSH R1
        0x4B, 0x20, // POP R2
        0x01,
    ]);
    let mut m = machine();
    run(&mut m, &prog, 10);
    assert_eq!(m.cpu.regs.get(2), 42);
    assert_eq!(m.cpu.regs.get(13), 255);
    assert_eq!(m.ram.fetch(254), 42);
}

#[test]
fn call_then_return_comes_back() {
    let prog = program(&[
        0x80, 0xD0, 0xFF, // 0: LOADIMM R13 255
        0x84, 0x00, 0x08, // 3: CALL 8
        0x01, // 6: HALT
        0x00, // 7: NOPERATION
        0x80, 0x10, 0x05, // 8: LOADIMM R1 5
        0x02, // 11: RETURN
    ]);
    let mut m = machine();
    let events = run(&mut m, &prog, 20);
    assert_eq!(events.len(), 5);
    assert_eq!(m.cpu.regs.get(1), 5);
    assert_eq!(m.cpu.regs.get(13), 255);
    assert_eq!(m.ram.fetch(254), 6);
    assert_eq!(m.cam.last_instruction, "<CPU_EXECUTE> HALT");
}

#[test]
fn jumps() {
    let prog = program(&[
        0x81, 0x00, 0x05, // 0: JMP 5
        0x80, 0x10, // 3: (skipped)
        0x82, 0x00, 0x0B, // 5: JMPIF0 11 (zero flag is clear: falls through)
        0x83, 0x00, 0x0F, // 8: JMPIFE0 15 (taken)
        0x80, 0x10, 0x01, 0x01, // 11: LOADIMM R1 1; HALT (not reached)
        0x85, 0x00, 0x00, // 15: JMPIFCRRY 0 (carry clear: falls through)
        0x80, 0x20, 0x02, // 18: LOADIMM R2 2
        0x01, // 21: HALT
    ]);
    let mut m = machine();
    run(&mut m, &prog, 20);
    assert_eq!(m.cpu.regs.get(1), 0);
    assert_eq!(m.cpu.regs.get(2), 2);
}

#[test]
fn load_store_and_clrflags() {
    let prog = program(&[
        0x80, 0x10, 0x63, // LOADIMM R1 99
        0x88, 0x10, 0x30, // STORE R1 -> [0x30]
        0x87, 0x40, 0x30, // LOAD R4 <- [0x30]
        0x03, // CLRFLAGS
        0x01,
    ]);
    let mut m = machine();
    m.cpu.flags.carry = true;
    run(&mut m, &prog, 10);
    assert_eq!(m.ram.fetch(0x30), 99);
    assert_eq!(m.cpu.regs.get(4), 99);
    assert!(!m.cpu.flags.carry);
}

#[test]
fn int_draws_and_reports_unknown_interrupts() {
    let prog = program(&[
        0x80, 0x10, 0x21, // LOADIMM R1 '!'
        0x80, 0x20, 0x42, // LOADIMM R2 colours
        0x4C, 0x0A, // INT 0A
        0x4C, 0x05, // INT 05 (out of range)
        0x01,
    ]);
    let mut m = machine();
    let events = run(&mut m, &prog, 10);
    assert!(events[2] == StepEvent::Executed(Mnemonic::Int));
    assert!(events[3] == StepEvent::BiosOutOfRange(5));
    assert_eq!((m.screen.get_cursor_x(), m.screen.get_cursor_y()), (5, 5));
    assert_eq!(m.cam.last_instruction, "<CPU_EXECUTE> HALT");
}

#[test]
fn missing_operands_cannot_execute() {
    let prog = program(&[0x80, 0x10]);
    let mut m = machine();
    let instr = m.cpu.fetch(&prog);
    assert!(!m.cpu.can_execute(&instr, &prog, &m.ram, &m.cam, &m.screen, &m.disk));
}

#[test]
fn sync_copies_state_to_the_camera() {
    let prog = program(&[0x80, 0x10, 0x07, 0x88, 0x10, 0x11, 0x01]);
    let mut m = machine();
    run(&mut m, &prog, 10);
    let mut cam = CpuCam::new();
    m.cpu.sync_to_cam(&mut cam, &m.ram);
    assert_eq!(cam.registers[1], 7);
    assert_eq!(cam.pc, 7);
    assert!(cam.halted);
    assert_eq!(cam.ram[1][1], 7);
}

#[test]
fn binary_register_operands_parse_like_from_str_radix() {
    for s in ["0", "1", "0101", "+101", "+", "", "-1", "2", "111111111", "11111111"] {
        assert_eq!(from_binary_str(s), u8::from_str_radix(s, 2).ok(), "{:?}", s);
    }
}

#[test]
fn program_text_keeps_only_binary_digits() {
    assert_eq!(program_stream("10 0\n1x1"), vec!['1', '0', '0', '1', '1']);
    let bytes = chars_to_bytestrs(&['1', '0', '1']);
    assert_eq!(bytes.len(), 1);
    assert_eq!(bytes[0].as_string(), "10100000");
    assert!(chars_to_bytestrs(&[]).is_empty());
}

#[test]
fn program_bytes_survive_loading() {
    let bytes: Vec<u8> = (0..=255u8).collect();
    let prog = program(&bytes);
    assert_eq!(prog.len(), 256);
    for (k, b) in prog.iter().enumerate() {
        assert_eq!(b.as_u8() as usize, k);
        assert_eq!(b.my_hashed_value(), b.hash());
    }
}

#[test]
fn add_leaves_the_second_register_unchanged() {
    let prog = program(&[0x80, 0x10, 0x03, 0x80, 0x20, 0x04, 0x40, 0x12, 0x01]);
    let mut m = machine();
    run(&mut m, &prog, 10);
    assert_eq!(m.cpu.regs.get(1), 7);
    assert_eq!(m.cpu.regs.get(2), 4);
    assert_eq!(m.cam.last_instruction, "<CPU_EXECUTE> HALT");
}

#[test]
fn a_halted_cpu_stays_halted() {
    let prog = program(&[0x01, 0x00, 0x4A, 0x10]);
    let mut m = machine();
    run(&mut m, &prog, 10);
    assert!(m.cpu.halted);
    for _ in 0..3 {
        let instr = m.cpu.fetch(&prog);
        if m.cpu.can_execute(&instr, &prog, &m.ram, &m.cam, &m.screen, &m.disk) {
            m.cpu.execute(instr, &prog, &mut m.ram, &mut m.cam, &mut m.screen, &mut m.disk);
        }
        assert!(m.cpu.halted);
    }
}

#[test]
fn or_leaves_its_value_in_the_second_register() {
    let prog = program(&[
        0x80, 0x10, 0x0C, // LOADIMM R1 12
        0x80, 0x20, 0x03, // LOADIMM R2 3
        0x44, 0x12, // OR R1 R2 -> R2 = 15
        0x01,
    ]);
    let mut m = machine();
    run(&mut m, &prog, 10);
    assert_eq!(m.cpu.regs.get(1), 12);
    assert_eq!(m.cpu.regs.get(2), 15);
    assert_eq!(m.cam.registers[2], 15);
    assert_eq!(m.cam.registers[1], 12);
}

#[test]
fn a_new_cpu_has_its_stack_pointer_at_the_top_of_ram() {
    let cpu = Cpu::new();
    for i in 0..16u8 {
        assert_eq!(cpu.regs.get(i), if i == 13 { 0xFF } else { 0 });
    }
    assert_eq!(cpu.pc, 0);
    assert!(!cpu.halted);
    assert!(!cpu.flags.zero && !cpu.flags.carry && !cpu.flags.fault);
    // so a PUSH without setting up R13 first lands just below the top
    let prog = program(&[0x80, 0x10, 0x2A, 0x4A, 0x10, 0x01]);
    let mut m = machine();
    run(&mut m, &prog, 10);
    assert_eq!(m.cpu.regs.get(13), 0xFE);
    assert_eq!(m.ram.fetch(0xFE), 42);
}

#[test]
fn load_after_store_with_steps_between() {
    let prog = program(&[
        0x80, 0x10, 0x63, // LOADIMM R1 99
        0x88, 0x10, 0x30, // STORE R1 -> [0x30]
        0x80, 0x10, 0x05, // LOADIMM R1 5
        0x88, 0x10, 0x31, // STORE R1 -> [0x31]
        0x40, 0x11, // ADD R1 R1
        0x87, 0x40, 0x30, // LOAD R4 <- [0x30]
        0x01,
    ]);
    let mut m = machine();
    run(&mut m, &prog, 20);
    assert_eq!(m.cpu.regs.get(4), 99);
    assert_eq!(m.cpu.regs.get(1), 10);
    assert_eq!(m.ram.fetch(0x31), 5);
}

#[test]
fn return_after_call_with_steps_between() {
    let prog = program(&[
        0x84, 0x00, 0x05, // 0: CALL 5
        0x01, // 3: HALT
        0x00, // 4: NOPERATION
        0x80, 0x10, 0x05, // 5: LOADIMM R1 5
        0x80, 0x20, 0x06, // 8: LOADIMM R2 6
        0x40, 0x12, // 11: ADD R1 R2
        0x4A, 0x10, // 13: PUSH R1
        0x4B, 0x30, // 15: POP R3
        0x02, // 17: RETURN
    ]);
    let mut m = machine();
    let events = run(&mut m, &prog, 20);
    assert_eq!(events.len(), 8);
    assert_eq!(m.cpu.regs.get(3), 11);
    assert_eq!(m.cpu.regs.get(13), 0xFF);
    assert_eq!(m.ram.fetch(0xFE), 3);
    assert_eq!(m.cam.last_instruction, "<CPU_EXECUTE> HALT");
}
