//! What a host sees: a console built from a cartridge image, advanced a cycle
//! or a frame at a time, with its frame, its buttons and its registers.

use vstd::prelude::*;
use vstd::string::StringSliceAdditionalSpecFns;
use crate::apu::APU;
use crate::bus::BUS;
use crate::cpu::chip::CPU;
use crate::cpu::chip::Registers;
use crate::cpu::chip::RESET_STATUS;
use crate::cpu::chip::word;
use crate::input::Controller;
use crate::input::Key;
use crate::ppu::PPU;
use crate::ppu::FRAMEBUFFER_SIZE;
use crate::rom::rejection;
use crate::rom::RomError;
use crate::rom::ROM;

verus! {

/// Pixels in a frame.
pub const FRAME_PIXELS: usize = 61440;

/// Bytes in a frame with an alpha channel.
pub const RGBA_SIZE: usize = 245760;

// Names of the host keys, as UTF-8.
/// `z`
pub const KEY_A: [u8; 1] = [0x7A];

/// `x`
pub const KEY_B: [u8; 1] = [0x78];

/// `Control`
pub const KEY_SELECT: [u8; 7] = [0x43, 0x6F, 0x6E, 0x74, 0x72, 0x6F, 0x6C];

/// `Enter`
pub const KEY_START: [u8; 5] = [0x45, 0x6E, 0x74, 0x65, 0x72];

/// `ArrowUp`
pub const KEY_UP: [u8; 7] = [0x41, 0x72, 0x72, 0x6F, 0x77, 0x55, 0x70];

/// `ArrowDown`
pub const KEY_DOWN: [u8; 9] = [0x41, 0x72, 0x72, 0x6F, 0x77, 0x44, 0x6F, 0x77, 0x6E];

/// `ArrowLeft`
pub const KEY_LEFT: [u8; 9] = [0x41, 0x72, 0x72, 0x6F, 0x77, 0x4C, 0x65, 0x66, 0x74];

/// `ArrowRight`
pub const KEY_RIGHT: [u8; 10] = [0x41, 0x72, 0x72, 0x6F, 0x77, 0x52, 0x69, 0x67, 0x68, 0x74];

/// The button that a host key with the given UTF-8 name stands for.
pub open spec fn spec_map_key(name: Seq<u8>) -> Option<Key> {
    if name == KEY_A@ {
        Some(Key::A)
    } else if name == KEY_B@ {
        Some(Key::B)
    } else if name == KEY_SELECT@ {
        Some(Key::Select)
    } else if name == KEY_START@ {
        Some(Key::Start)
    } else if name == KEY_UP@ {
        Some(Key::Up)
    } else if name == KEY_DOWN@ {
        Some(Key::Down)
    } else if name == KEY_LEFT@ {
        Some(Key::Left)
    } else if name == KEY_RIGHT@ {
        Some(Key::Right)
    } else {
        None
    }
}

fn same_bytes(a: &[u8], b: &[u8]) -> (r: bool)
    ensures
        r == (a@ == b@),
{
    if a.len() != b.len() {
        return false;
    }
    let mut i: usize = 0;
    while i < a.len()
        invariant
            i <= a@.len(),
            a@.len() == b@.len(),
            forall|k: int| 0 <= k < i ==> a@[k] == b@[k],
        decreases a@.len() - i,
    {
        if a[i] != b[i] {
            return false;
        }
        i = i + 1;
    }
    assert(a@ =~= b@);
    true
}

/// Maps the name of a host key to a button.
pub fn map_key(key: &str) -> (r: Option<Key>)
    ensures
        r == spec_map_key(key.spec_bytes()),
{
    let name = key.as_bytes();
    if same_bytes(name, KEY_A.as_slice()) {
        Some(Key::A)
    } else if same_bytes(name, KEY_B.as_slice()) {
        Some(Key::B)
    } else if same_bytes(name, KEY_SELECT.as_slice()) {
        Some(Key::Select)
    } else if same_bytes(name, KEY_START.as_slice()) {
        Some(Key::Start)
    } else if same_bytes(name, KEY_UP.as_slice()) {
        Some(Key::Up)
    } else if same_bytes(name, KEY_DOWN.as_slice()) {
        Some(Key::Down)
    } else if same_bytes(name, KEY_LEFT.as_slice()) {
        Some(Key::Left)
    } else if same_bytes(name, KEY_RIGHT.as_slice()) {
        Some(Key::Right)
    } else {
        None
    }
}

impl CPU {
    /// `n` CPU cycles of the whole machine: what the last one reported, and
    /// the machine after them.
    pub open spec fn spec_clocks(&self, n: nat) -> (bool, CPU)
        decreases n,
    {
        if n == 0 {
            (false, *self)
        } else {
            self.spec_clocks((n - 1) as nat).1.spec_clock()
        }
    }

    /// `after` is the machine at the end of the frame in progress: it is
    /// reached by `n` cycles, of which the last and no earlier one completed
    /// a frame.
    pub open spec fn spec_runs_frame(&self, n: nat, after: &CPU) -> bool {
        &&& n >= 1
        &&& self.spec_clocks(n) == (true, *after)
        &&& forall|k: nat| 1 <= k < n ==> !(#[trigger] self.spec_clocks(k)).0
    }
}

pub struct Emulator {
    pub cpu: CPU,
}

impl Emulator {
    /// The console right after power-on and reset with the cartridge that
    /// `rom_data` describes in it.
    pub open spec fn spec_starts_from(&self, rom_data: Seq<u8>) -> bool {
        let bus = self.cpu.bus;
        &&& bus.rom.describes(rom_data)
        &&& bus.ppu.is_power_on()
        &&& bus.apu == APU::spec_new()
        &&& bus.controller == Controller::spec_new()
        &&& bus.dma_stall == 0
        &&& forall|i: int| 0 <= i < 2048 ==> bus.ram[i] == 0
        &&& self.cpu.registers == (Registers {
            acc: 0,
            index_x: 0,
            index_y: 0,
            stack_pointer: 0xFD,
            status_register: RESET_STATUS,
            program_counter: word(bus.rom.spec_read(0xFFFC), bus.rom.spec_read(0xFFFD)),
        })
        &&& self.cpu.remaining_cycles == 7
        &&& !self.cpu.nmi_pending
        &&& !self.cpu.page_crossed
    }

    /// Builds a console around the cartridge in `rom_data` and resets it. An
    /// image is accepted exactly when `rejection` finds nothing, and is
    /// otherwise refused with the error it names.
    pub fn new(rom_data: &[u8]) -> (r: Result<Emulator, RomError>)
        ensures
            match r {
                Ok(emulator) => rejection(rom_data@) is None && emulator.spec_starts_from(rom_data@)
                    && emulator.cpu.wf() && emulator.cpu.flags_wf(),
                Err(e) => rejection(rom_data@) == Some(e),
            },
    {
        reveal(BUS::spec_read);
        match ROM::from_bytes(rom_data) {
            Err(e) => Err(e),
            Ok(rom) => {
                let bus = BUS::new(PPU::new(), rom, APU::new());
                let mut cpu = CPU::new(bus);
                cpu.reset();
                Ok(Emulator { cpu })
            },
        }
    }

    /// Presses the reset button.
    pub fn reset(&mut self)
        requires
            old(self).cpu.wf(),
        ensures
            final(self).cpu == old(self).cpu.spec_reset(),
            final(self).cpu.wf(),
    {
        self.cpu.reset();
    }

    /// Advances the console by one CPU cycle and tells whether that
    /// completed a frame.
    pub fn clock(&mut self) -> (r: bool)
        requires
            old(self).cpu.wf(),
        ensures
            (r, final(self).cpu) == old(self).cpu.spec_clock(),
            final(self).cpu.wf(),
            old(self).cpu.flags_wf() ==> final(self).cpu.flags_wf(),
    {
        self.cpu.clock()
    }

    /// Advances the console to the end of the frame in progress.
    #[verifier::rlimit(30)]
    pub fn tick(&mut self)
        requires
            old(self).cpu.wf(),
        ensures
            exists|n: nat| old(self).cpu.spec_runs_frame(n, &final(self).cpu),
            final(self).cpu.wf(),
            old(self).cpu.flags_wf() ==> final(self).cpu.flags_wf(),
    {
        let ghost mut n: nat = 0;
        let mut frame_complete = false;
        while !frame_complete
            invariant
                self.cpu.wf(),
                old(self).cpu.flags_wf() ==> self.cpu.flags_wf(),
                (frame_complete, self.cpu) == old(self).cpu.spec_clocks(n),
                frame_complete ==> n >= 1,
                forall|k: nat| 1 <= k < n ==> !(#[trigger] old(self).cpu.spec_clocks(k)).0,
            decreases
                    (if frame_complete {
                        0
                    } else {
                        self.cpu.bus.ppu.spec_dots_left() + 1
                    }),
        {
            frame_complete = self.cpu.clock();
            proof {
                n = n + 1;
            }
        }
        assert(old(self).cpu.spec_runs_frame(n, &self.cpu));
    }

    /// The frame as RGB888, row-major from the top left.
    pub fn get_framebuffer(&self) -> (r: &[u8; FRAMEBUFFER_SIZE])
        ensures
            *r == *self.cpu.bus.ppu.framebuffer,
    {
        self.cpu.bus.ppu.get_framebuffer()
    }

    /// Byte `at` of the frame as RGBA8888: the pixel's red, green and blue,
    /// then an alpha of 255.
    pub open spec fn spec_rgba_byte(&self, at: int) -> u8 {
        if at % 4 == 3 {
            255
        } else {
            self.cpu.bus.ppu.framebuffer[(at / 4) * 3 + at % 4]
        }
    }

    /// The frame as RGBA8888 with every pixel opaque.
    pub fn render(&self) -> (r: Vec<u8>)
        ensures
            r@.len() == RGBA_SIZE,
            forall|at: int| 0 <= at < RGBA_SIZE ==> r@[at] == self.spec_rgba_byte(at),
    {
        let framebuffer = self.cpu.bus.ppu.get_framebuffer();
        let mut rgba: Vec<u8> = Vec::with_capacity(RGBA_SIZE);
        let mut pixel: usize = 0;
        while pixel < FRAME_PIXELS
            invariant
                pixel <= FRAME_PIXELS,
                *framebuffer == *self.cpu.bus.ppu.framebuffer,
                rgba@.len() == 4 * pixel,
                forall|at: int| 0 <= at < 4 * pixel ==> rgba@[at] == self.spec_rgba_byte(at),
            decreases FRAME_PIXELS - pixel,
        {
            rgba.push(framebuffer[3 * pixel]);
            rgba.push(framebuffer[3 * pixel + 1]);
            rgba.push(framebuffer[3 * pixel + 2]);
            rgba.push(255);
            pixel = pixel + 1;
        }
        rgba
    }

    /// A, X, Y, PC, S and P.
    pub fn get_registers_cpu(&self) -> (r: (u8, u8, u8, u16, u8, u8))
        ensures
            r == (
                self.cpu.registers.acc,
                self.cpu.registers.index_x,
                self.cpu.registers.index_y,
                self.cpu.registers.program_counter,
                self.cpu.registers.stack_pointer,
                self.cpu.registers.status_register,
            ),
    {
        self.cpu.get_all_registers()
    }

    /// CTRL, MASK, STATUS, OAMADDR, the last `$2005` byte, the low byte of
    /// the `$2006` address, and `v`.
    pub fn get_registers_ppu(&self) -> (r: (u8, u8, u8, u8, u8, u8, u16))
        ensures
            r == (
                self.cpu.bus.ppu.ctrl,
                self.cpu.bus.ppu.mask,
                self.cpu.bus.ppu.status,
                self.cpu.bus.ppu.oam_addr,
                self.cpu.bus.ppu.scroll,
                (self.cpu.bus.ppu.addr % 256) as u8,
                self.cpu.bus.ppu.v,
            ),
    {
        self.cpu.bus.ppu.get_all_registers()
    }

    /// Presses or releases a button.
    pub fn set_button(&mut self, button: Key, pressed: bool)
        ensures
            *final(self) == (Emulator {
                cpu: CPU {
                    bus: BUS {
                        controller: old(self).cpu.bus.controller.spec_update(button, pressed),
                        ..old(self).cpu.bus
                    },
                    ..old(self).cpu
                },
            }),
    {
        self.cpu.bus.controller.update(button, pressed);
    }

    /// The console after the host key named `key` went down or up: a key
    /// that maps to no button changes nothing.
    pub open spec fn spec_key(&self, key: Seq<u8>, pressed: bool) -> Emulator {
        match spec_map_key(key) {
            Some(button) => Emulator {
                cpu: CPU {
                    bus: BUS {
                        controller: self.cpu.bus.controller.spec_update(button, pressed),
                        ..self.cpu.bus
                    },
                    ..self.cpu
                },
            },
            None => *self,
        }
    }

    pub fn key_down(&mut self, key: &str)
        ensures
            *final(self) == old(self).spec_key(key.spec_bytes(), true),
    {
        if let Some(button) = map_key(key) {
            self.cpu.bus.controller.update(button, true);
        }
    }

    pub fn key_up(&mut self, key: &str)
        ensures
            *final(self) == old(self).spec_key(key.spec_bytes(), false),
    {
        if let Some(button) = map_key(key) {
            self.cpu.bus.controller.update(button, false);
        }
    }
}

} // verus!
