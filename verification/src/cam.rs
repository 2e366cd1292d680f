//! `CpuCam`: the picture of the machine that the renderer draws — registers, flags, RAM,
//! screen, keyboard and which buses were active.
use vstd::prelude::*;
use crate::screen::{RGB, grid_view, paint, filled, black};
use crate::ram::grid_of;

verus! {

/// Which of the three views the renderer shows.
#[derive(Copy, Clone, PartialEq, Eq, Structural)]
pub enum CurrentScreenOn {
    Techinical,
    HalfAndHalf,
    Normal,
}

/// The contents of a `CpuCam`, with arrays and strings as sequences.
#[verifier::ext_equal]
pub struct CamView {
    pub registers: Seq<u32>,
    pub pc: u8,
    pub halted: bool,
    pub zero: bool,
    pub carry: bool,
    pub fault: bool,
    pub last_instruction: Seq<char>,
    pub ram: Seq<Seq<u32>>,
    pub last_ram_write: Option<(u8, u32)>,
    pub last_ram_read: Option<u8>,
    pub screen: Seq<Seq<RGB>>,
    pub keys_held: Seq<bool>,
    pub keys_pressed: Seq<bool>,
    pub wire_cpu_to_screen: bool,
    pub wire_screen_to_cpu: bool,
    pub wire_ram_to_cpu: bool,
    pub wire_cpu_to_ram: bool,
    pub screen_on: CurrentScreenOn,
    pub step_just_done: Seq<char>,
}

/// The renderer's picture of the machine.
pub struct CpuCam {
    pub registers: [u32; 16],
    pub pc: u8,
    pub halted: bool,
    pub zero: bool,
    pub carry: bool,
    pub fault: bool,
    /// Human-readable name of the last instruction.
    pub last_instruction: String,
    /// RAM as a grid, word `a` at `[a % 16][a / 16]`.
    pub ram: [[u32; 16]; 16],
    pub last_ram_write: Option<(u8, u32)>,
    pub last_ram_read: Option<u8>,
    pub screen: [[RGB; 255]; 255],
    pub keys_held: [bool; 45],
    pub keys_pressed: [bool; 45],
    pub wire_cpu_to_screen: bool,
    pub wire_screen_to_cpu: bool,
    pub wire_ram_to_cpu: bool,
    pub wire_cpu_to_ram: bool,
    pub screen_on: CurrentScreenOn,
    pub step_just_done: String,
}

/// A 16 × 16 word grid as nested sequences.
pub open spec fn word_grid_view(g: [[u32; 16]; 16]) -> Seq<Seq<u32>> {
    Seq::new(16, |r: int| g[r]@)
}

impl View for CpuCam {
    type V = CamView;

    open spec fn view(&self) -> CamView {
        CamView {
            registers: self.registers@,
            pc: self.pc,
            halted: self.halted,
            zero: self.zero,
            carry: self.carry,
            fault: self.fault,
            last_instruction: self.last_instruction@,
            ram: word_grid_view(self.ram),
            last_ram_write: self.last_ram_write,
            last_ram_read: self.last_ram_read,
            screen: grid_view(self.screen),
            keys_held: self.keys_held@,
            keys_pressed: self.keys_pressed@,
            wire_cpu_to_screen: self.wire_cpu_to_screen,
            wire_screen_to_cpu: self.wire_screen_to_cpu,
            wire_ram_to_cpu: self.wire_ram_to_cpu,
            wire_cpu_to_ram: self.wire_cpu_to_ram,
            screen_on: self.screen_on,
            step_just_done: self.step_just_done@,
        }
    }
}

/// The register, flag and PC part of the picture.
pub struct CpuSnapshot {
    pub registers: [u32; 16],
    pub pc: u8,
    pub halted: bool,
    pub zero: bool,
    pub carry: bool,
    pub fault: bool,
}

/// The RAM part of the picture, in the same grid layout as `RamUnit`.
pub struct RamSnapshot {
    pub cells: [[u32; 16]; 16],
}

/// The picture of a freshly started machine.
pub open spec fn initial_cam() -> CamView {
    CamView {
        registers: Seq::new(16, |i: int| 0u32),
        pc: 0,
        halted: false,
        zero: false,
        carry: false,
        fault: false,
        last_instruction: seq!['-', '-', '-'],
        ram: grid_of(Seq::new(256, |a: int| 0u32)),
        last_ram_write: None,
        last_ram_read: None,
        screen: filled(black()),
        keys_held: Seq::new(45, |i: int| false),
        keys_pressed: Seq::new(45, |i: int| false),
        wire_cpu_to_screen: false,
        wire_screen_to_cpu: false,
        wire_ram_to_cpu: false,
        wire_cpu_to_ram: false,
        screen_on: CurrentScreenOn::HalfAndHalf,
        step_just_done: seq!['N', 'o', 'n', 'e'],
    }
}

impl CpuCam {
    /// The picture of a freshly started machine: all zero, nothing lit, the screen black,
    /// `"---"` as last instruction and the half-and-half view selected.
    pub fn new() -> (cam: Self)
        ensures
            cam@ =~~= initial_cam(),
    {
        let black_px = RGB::new(0, 0, 0);
        let cam = Self {
            registers: [0u32; 16],
            pc: 0,
            halted: false,
            zero: false,
            carry: false,
            fault: false,
            last_instruction: String::from_str("---"),
            ram: [[0u32; 16]; 16],
            last_ram_write: None,
            last_ram_read: None,
            screen: [[black_px; 255]; 255],
            keys_held: [false; 45],
            keys_pressed: [false; 45],
            wire_cpu_to_screen: false,
            wire_screen_to_cpu: false,
            wire_ram_to_cpu: false,
            wire_cpu_to_ram: false,
            screen_on: CurrentScreenOn::HalfAndHalf,
            step_just_done: String::from_str("None"),
        };
        proof {
            reveal_strlit("---");
            reveal_strlit("None");
            assert(cam@.registers =~= initial_cam().registers);
            assert(cam@.ram =~~= initial_cam().ram);
            assert(cam@.screen =~~= initial_cam().screen);
            assert(cam@.keys_held =~= initial_cam().keys_held);
            assert(cam@.keys_pressed =~= initial_cam().keys_pressed);
            assert(cam@.last_instruction =~= initial_cam().last_instruction);
            assert(cam@.step_just_done =~= initial_cam().step_just_done);
        }
        cam
    }

    /// Shows `value` in register `ind`; indices past 15 are ignored.
    pub fn reg_set(&mut self, ind: u8, value: u32)
        ensures
            final(self)@ == (if ind < 16 {
                CamView { registers: old(self)@.registers.update(ind as int, value), ..old(self)@ }
            } else {
                old(self)@
            }),
    {
        if (ind as usize) < 16 {
            self.registers[ind as usize] = value;
        }
    }

    /// Shows a RAM write of `value` at `addr` and lights the CPU-to-RAM wire.
    pub fn ram_set(&mut self, addr: u8, value: u32)
        ensures
            final(self)@ =~~= (CamView {
                ram: old(self)@.ram.update(
                    addr as int % 16,
                    old(self)@.ram[addr as int % 16].update(addr as int / 16, value),
                ),
                last_ram_write: Some((addr, value)),
                wire_cpu_to_ram: true,
                ..old(self)@
            }),
    {
        let row = (addr % 16) as usize;
        let col = (addr / 16) as usize;
        let ghost before = self.ram;
        self.ram[row][col] = value;
        proof {
            assert forall|r: int| 0 <= r < 16 implies #[trigger] word_grid_view(self.ram)[r]
                =~= old(self)@.ram.update(
                addr as int % 16,
                old(self)@.ram[addr as int % 16].update(addr as int / 16, value),
            )[r] by {
                if r != row as int {
                    assert(self.ram[r] == before[r]);
                }
            }
        }
        self.last_ram_write = Some((addr, value));
        self.wire_cpu_to_ram = true;
    }

    /// Shows a RAM read at `addr` and lights the RAM-to-CPU wire.
    pub fn ram_read_notify(&mut self, addr: u8)
        ensures
            final(self)@ == (CamView {
                last_ram_read: Some(addr),
                wire_ram_to_cpu: true,
                ..old(self)@
            }),
    {
        self.last_ram_read = Some(addr);
        self.wire_ram_to_cpu = true;
    }

    /// Shows pixel `(x, y)` in `color` and lights the CPU-to-screen wire. The pixel must lie
    /// on the screen.
    pub fn screen_set(&mut self, x: u8, y: u8, color: RGB)
        requires
            x < 255,
            y < 255,
        ensures
            final(self)@ == (CamView {
                screen: paint(old(self)@.screen, x as int, y as int, color),
                wire_cpu_to_screen: true,
                ..old(self)@
            }),
    {
        let ghost before = self.screen;
        self.screen[x as usize][y as usize] = color;
        proof {
            crate::screen::lemma_grid_paint(before, self.screen, x as int, y as int, color);
        }
        self.wire_cpu_to_screen = true;
    }

    /// Shows key `ind` as held and/or pressed; indices past 44 are ignored.
    pub fn key_set(&mut self, ind: u8, held: bool, pressed: bool)
        ensures
            final(self)@ == (if ind < 45 {
                CamView {
                    keys_held: old(self)@.keys_held.update(ind as int, held),
                    keys_pressed: old(self)@.keys_pressed.update(ind as int, pressed),
                    ..old(self)@
                }
            } else {
                old(self)@
            }),
    {
        if (ind as usize) < 45 {
            self.keys_held[ind as usize] = held;
            self.keys_pressed[ind as usize] = pressed;
        }
    }

    /// Records the name of the last instruction.
    pub fn set_last_instr(&mut self, msg: &str)
        ensures
            final(self)@ == (CamView { last_instruction: msg@, ..old(self)@ }),
    {
        self.last_instruction = String::from_str(msg);
    }

    /// Clears the one-frame signals: read/write markers, wires and key presses.
    pub fn end_frame(&mut self)
        ensures
            final(self)@ == (CamView {
                last_ram_write: None,
                last_ram_read: None,
                wire_cpu_to_screen: false,
                wire_screen_to_cpu: false,
                wire_ram_to_cpu: false,
                wire_cpu_to_ram: false,
                keys_pressed: Seq::new(45, |i: int| false),
                ..old(self)@
            }),
    {
        self.last_ram_write = None;
        self.last_ram_read = None;
        self.wire_cpu_to_screen = false;
        self.wire_screen_to_cpu = false;
        self.wire_ram_to_cpu = false;
        self.wire_cpu_to_ram = false;
        self.keys_pressed = [false; 45];
        assert(self.keys_pressed@ =~= Seq::new(45, |i: int| false));
    }

    /// Registers, PC and flags.
    pub fn as_cpu_snapshot(&self) -> (snap: CpuSnapshot)
        ensures
            snap.registers == self.registers,
            snap.pc == self.pc,
            snap.halted == self.halted,
            snap.zero == self.zero,
            snap.carry == self.carry,
            snap.fault == self.fault,
    {
        CpuSnapshot {
            registers: self.registers,
            pc: self.pc,
            halted: self.halted,
            zero: self.zero,
            carry: self.carry,
            fault: self.fault,
        }
    }

    /// The RAM grid.
    pub fn as_ram_snapshot(&self) -> (snap: RamSnapshot)
        ensures
            snap.cells == self.ram,
    {
        RamSnapshot { cells: self.ram }
    }
}

} // verus!
