//! Platform-level tests: the full load-and-run pipeline, the peripheral
//! chips and the bus permission model.

use emulite::emulator::Emulator;
use emulite::memory::{MemoryAccess, MemoryDevice, MemoryMapper, RamDevice};
use emulite::platforms::atari2600::{Atari2600, RiaChip, TiaChip};
use emulite::platforms::nes::Nes;
use emulite::input::PadState;
use emulite::EmuliteError;

/// A minimal valid iNES image: a header and one 16 KiB PRG bank.
fn ines_image() -> Vec<u8> {
    let mut image = vec![0u8; 16 + 16384];
    image[0] = 0x4E;
    image[1] = 0x45;
    image[2] = 0x53;
    image[3] = 0x1A;
    image[4] = 1; // one PRG bank
    image[5] = 0; // no CHR banks
    image
}

#[test]
fn emulator_pipeline_detects_and_runs_nes() {
    let mut emulator = Emulator::new().unwrap();
    emulator.load_rom(ines_image(), "nes", "auto").unwrap();
    let info = emulator.platform_info().info();
    assert_eq!(info.name, "Nintendo Entertainment System");
    emulator.start().unwrap();
    assert!(emulator.is_running());
    for _ in 0..5 {
        emulator.step().unwrap();
    }
    emulator.pause().unwrap();
    assert!(emulator.is_paused());
    // A paused emulator's step is a no-op.
    emulator.step().unwrap();
    let frame = emulator.get_frame_data().unwrap();
    assert_eq!(frame.len(), 256 * 240 * 4);
}

#[test]
fn nes_parses_ines_header_fields() {
    let mut nes = Nes::new().unwrap();
    let mut image = ines_image();
    image[6] = 0x01; // vertical mirroring
    image[7] = 0x40; // upper mapper nibble
    nes.load_rom(image).unwrap();
    assert_eq!(nes.cart.mapper, 0x40);
    assert_eq!(nes.cart.prg_rom.len(), 16384);
    assert_eq!(nes.cart.chr_rom.len(), 8192);
    assert!(!nes.cart.trainer);

    let mut nes = Nes::new().unwrap();
    let r = nes.load_rom(vec![0u8; 8]);
    assert!(matches!(r, Err(EmuliteError::InvalidRom(_))));
    let mut nes = Nes::new().unwrap();
    let r = nes.load_rom(vec![0u8; 32]);
    assert!(matches!(r, Err(EmuliteError::InvalidRom(_))));
}

#[test]
fn atari_runs_a_program_from_its_cartridge_window() {
    let mut atari = Atari2600::new().unwrap();
    // A 4 KiB cartridge: LDA #$42 at its base, reset vector pointing there.
    let mut image = vec![0xEAu8; 4096]; // NOP filler
    image[0] = 0xA9;
    image[1] = 0x42;
    image[0xFFC] = 0x00; // reset vector low: 0xF000
    image[0xFFD] = 0xF0;
    atari.load_rom(image).unwrap();
    let cpu = atari.get_cpu();
    assert_eq!(cpu.pc(), 0xF000);
    atari.step().unwrap();
    assert_eq!(atari.get_cpu().get_register("a").unwrap(), 0x42);
    let frame = atari.get_frame_data().unwrap();
    assert_eq!(frame.len(), 160 * 192 * 4);
}

#[test]
fn tia_beam_wraps_and_registers_hold_bytes() {
    let mut tia = TiaChip::new();
    tia.write_register(0x09, 0x2A); // background colour
    assert_eq!(tia.read_register(0x09), 0x2A);
    assert_eq!(tia.read_register(0x7F), 0);
    for _ in 0..228 {
        tia.step().unwrap();
    }
    assert_eq!(tia.cycle, 0);
    assert_eq!(tia.scanline, 1);
    // With no blanking and no sprites, the frame shows the background.
    assert_eq!(tia.frame_buffer[0], 0x2A);
    // During vertical blanking the frame is black.
    tia.write_register(0x01, 0x02);
    tia.step().unwrap();
    assert_eq!(tia.frame_buffer[0], 0);
}

#[test]
fn riot_latches_pads_into_port_bytes() {
    let mut ria = RiaChip::new();
    let mut pad0 = PadState::released();
    pad0.right = true;
    pad0.fire = true;
    let pad1 = PadState::released();
    ria.update_input(pad0, pad1);
    // A cleared bit means pressed: right (0x80) and fire-0 (0x08) drop.
    assert_eq!(ria.swcha, 0x70);
    assert_eq!(ria.swchb, 0xF4);
    ria.write_register(0x80, 0x5A);
    assert_eq!(ria.read_register(0x80), 0x5A);
}

#[test]
fn read_only_region_keeps_its_bytes() {
    let mut mapper = MemoryMapper::new(0x10000);
    let ram = RamDevice::new(0x10, 0x5000, "RO".to_string());
    mapper
        .add_device_with_access("RO".to_string(), MemoryDevice::Ram(ram), MemoryAccess::ReadOnly)
        .unwrap();
    assert_eq!(mapper.read(0x5000).unwrap(), 0);
    assert!(matches!(
        mapper.write(0x5000, 0x99),
        Err(EmuliteError::MemoryAccessViolation(0x5000))
    ));
    assert_eq!(mapper.read(0x5000).unwrap(), 0);
}

#[test]
fn bus_words_compose_little_endian() {
    let mut mapper = MemoryMapper::new(0x10000);
    let ram = RamDevice::new(0x100, 0x0000, "RAM".to_string());
    mapper.add_device("RAM".to_string(), MemoryDevice::Ram(ram)).unwrap();
    mapper.write32(0x10, 0xDDCCBBAA).unwrap();
    assert_eq!(mapper.read(0x10).unwrap(), 0xAA);
    assert_eq!(mapper.read(0x13).unwrap(), 0xDD);
    assert_eq!(mapper.read16(0x10).unwrap(), 0xBBAA);
    assert_eq!(mapper.read32(0x10).unwrap(), 0xDDCCBBAA);
    // Removing the device unmaps its region.
    mapper.remove_device("RAM").unwrap();
    assert!(mapper.read(0x10).is_err());
    assert_eq!(mapper.regions().len(), 0);
}

#[test]
fn generic_cpu_runs_its_instruction_set() {
    let mut cpu = emulite::cpu::generic::GenericCpu::new(1024);
    cpu.set_register("r1", 7).unwrap();
    cpu.set_register("r2", 5).unwrap();
    cpu.write_memory(0, 0x03).unwrap(); // ADD
    cpu.step().unwrap();
    assert_eq!(cpu.get_register("r0").unwrap(), 12);
    // Division by zero is a CPU error.
    cpu.set_register("r2", 0).unwrap();
    cpu.write_memory(1, 0x1E).unwrap(); // DIV
    match cpu.step() {
        Err(EmuliteError::CpuError(m)) => assert_eq!(m, "Division by zero"),
        other => panic!("expected a CPU error, got {:?}", other),
    }
    // HLT halts; further steps are no-ops.
    cpu.write_memory(2, 0x01).unwrap();
    cpu.step().unwrap();
    assert!(cpu.is_halted());
    cpu.step().unwrap();
}
