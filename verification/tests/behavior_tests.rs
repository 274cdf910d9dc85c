//! Behaviour tests: reset vectors, register and flag round trips, bus
//! permissions, bank switching, the hardware map and platform detection.

use emulite::cpu::arm::Arm;
use emulite::cpu::m68k::M68k;
use emulite::cpu::mips::Mips;
use emulite::cpu::mos6502::Mos6502;
use emulite::cpu::x86::X86;
use emulite::cpu::{CpuFactory, CpuFlags};
use emulite::emulator::{detect_platform, detect_platform_from_header};
use emulite::memory::{MemoryAccess, MemoryBankController, MemoryDevice, MemoryMapper, RamDevice, RomDevice};
use emulite::platforms::atari2600::Atari2600;
use emulite::platforms::PlatformFactory;
use emulite::utils::{FileUtils, HashUtils, MathUtils, StringUtils, TimeUtils};
use emulite::EmuliteError;

#[test]
fn reset_vector_mos6502() {
    let mut cpu = Mos6502::new().unwrap();
    cpu.load_bytes(0xFFFC, &vec![0x34, 0x12]).unwrap();
    cpu.reset().unwrap();
    assert_eq!(cpu.pc(), 0x1234);
}

#[test]
fn reset_vector_m68k() {
    let mut cpu = M68k::new().unwrap();
    cpu.load_bytes(0, &vec![0x12, 0x34, 0x56, 0x78]).unwrap();
    cpu.reset().unwrap();
    assert_eq!(cpu.pc(), 0x12345678);
    assert_eq!(cpu.get_register("sr").unwrap(), 0x2000);
}

#[test]
fn reset_vector_mips_and_x86_read_zero_beyond_memory() {
    let mut mips = Mips::new().unwrap();
    mips.set_register("r5", 7).unwrap();
    mips.reset().unwrap();
    // The reset vector lies beyond the allocated memory and reads zero.
    assert_eq!(mips.pc(), 0);
    assert_eq!(mips.get_register("r5").unwrap(), 0);

    let mut x86 = X86::new().unwrap();
    x86.reset().unwrap();
    assert_eq!(x86.pc(), 0);
    assert_eq!(x86.get_register("eflags").unwrap(), 0x00000002);
}

#[test]
fn reset_vector_arm() {
    let mut cpu = Arm::new().unwrap();
    cpu.load_bytes(0, &vec![0x78, 0x56, 0x34, 0x12]).unwrap();
    cpu.reset().unwrap();
    assert_eq!(cpu.pc(), 0x12345678);
    assert_eq!(cpu.get_register("cpsr").unwrap(), 0x000000D3);
}

#[test]
fn register_round_trip_every_architecture() {
    let mut c = Mos6502::new().unwrap();
    for name in ["a", "x", "y", "sp"] {
        c.set_register(name, 0x5A).unwrap();
        assert_eq!(c.get_register(name).unwrap(), 0x5A);
    }
    c.set_register("PC", 0xBEEF).unwrap();
    assert_eq!(c.get_register("pc").unwrap(), 0xBEEF);

    let mut c = Mips::new().unwrap();
    for name in ["r1", "t5", "sp", "ra", "pc"] {
        c.set_register(name, 0xDEADBEEF).unwrap();
        assert_eq!(c.get_register(name).unwrap(), 0xDEADBEEF);
    }

    let mut c = X86::new().unwrap();
    for name in ["eax", "esp", "eip", "eflags"] {
        c.set_register(name, 0xCAFEBABE).unwrap();
        assert_eq!(c.get_register(name).unwrap(), 0xCAFEBABE);
    }
    c.set_register("cs", 0x1234).unwrap();
    assert_eq!(c.get_register("cs").unwrap(), 0x1234);

    let mut c = Arm::new().unwrap();
    for name in ["r0", "sp", "lr", "pc", "cpsr"] {
        c.set_register(name, 0x13579BDF).unwrap();
        assert_eq!(c.get_register(name).unwrap(), 0x13579BDF);
    }

    let mut c = M68k::new().unwrap();
    for name in ["d3", "a7", "pc"] {
        c.set_register(name, 0x2468ACE0).unwrap();
        assert_eq!(c.get_register(name).unwrap(), 0x2468ACE0);
    }

    let mut c = emulite::cpu::generic::GenericCpu::new(1024);
    c.set_register("anything", 99).unwrap();
    assert_eq!(c.get_register("anything").unwrap(), 99);
}

#[test]
fn unknown_register_fails_naming_it() {
    let c = Mos6502::new().unwrap();
    match c.get_register("zz") {
        Err(EmuliteError::CpuError(m)) => assert_eq!(m, "Unknown register: zz"),
        other => panic!("expected a CPU error, got {:?}", other),
    }
}

#[test]
fn set_flags_of_get_flags_is_identity() {
    let mut cpus = vec![
        CpuFactory::create("6502").unwrap(),
        CpuFactory::create("68000").unwrap(),
        CpuFactory::create("mips").unwrap(),
        CpuFactory::create("x86").unwrap(),
        CpuFactory::create("arm").unwrap(),
    ];
    for cpu in cpus.iter_mut() {
        let mut noisy = CpuFlags::default();
        noisy.carry = true;
        noisy.zero = true;
        noisy.decimal = true;
        noisy.parity = true;
        cpu.set_flags(noisy).unwrap();
        let first = cpu.get_flags();
        cpu.set_flags(first).unwrap();
        let second = cpu.get_flags();
        assert_eq!(first, second);
    }
    // The x86 status register itself is untouched by the round trip.
    let mut x86 = X86::new().unwrap();
    x86.set_register("eflags", 0x000008D5).unwrap();
    let flags = x86.get_flags();
    x86.set_flags(flags).unwrap();
    assert_eq!(x86.get_register("eflags").unwrap(), 0x000008D5);
}

#[test]
fn bus_rejects_overlap_and_keeps_regions() {
    let mut mapper = MemoryMapper::new(0x10000);
    let a = RamDevice::new(0x100, 0x0000, "A".to_string());
    mapper.add_device("A".to_string(), MemoryDevice::Ram(a)).unwrap();
    assert_eq!(mapper.regions().len(), 1);

    // Overlaps the first region by one byte.
    let b = RamDevice::new(0x100, 0x00FF, "B".to_string());
    let r = mapper.add_device("B".to_string(), MemoryDevice::Ram(b));
    assert!(matches!(r, Err(EmuliteError::MemoryAccessViolation(0x00FF))));
    assert_eq!(mapper.regions().len(), 1);
}

#[test]
fn bus_enforces_permissions() {
    let mut mapper = MemoryMapper::new(0x10000);
    let rom = RomDevice::new(vec![0xAA, 0xBB], 0x1000, "ROM".to_string());
    mapper.add_device("ROM".to_string(), MemoryDevice::Rom(rom)).unwrap();

    // Writing to read-only backing fails and leaves the bytes unchanged.
    assert!(mapper.write(0x1000, 0x55).is_err());
    assert_eq!(mapper.read(0x1000).unwrap(), 0xAA);
    assert_eq!(mapper.read(0x1001).unwrap(), 0xBB);

    // A write-only region refuses reads, a no-access region refuses both.
    let wo = RamDevice::new(0x10, 0x2000, "WO".to_string());
    mapper.add_device_with_access("WO".to_string(), MemoryDevice::Ram(wo), MemoryAccess::WriteOnly).unwrap();
    assert!(mapper.write(0x2000, 1).is_ok());
    assert!(mapper.read(0x2000).is_err());

    let na = RamDevice::new(0x10, 0x3000, "NA".to_string());
    mapper.add_device_with_access("NA".to_string(), MemoryDevice::Ram(na), MemoryAccess::NoAccess).unwrap();
    assert!(mapper.read(0x3000).is_err());
    assert!(mapper.write(0x3000, 1).is_err());

    // An unmapped gap fails closed.
    assert!(mapper.read(0x4000).is_err());
}

#[test]
fn bank_switch_out_of_range_leaves_bank() {
    let mut mbc = MemoryBankController::new(2048, 4);
    mbc.write(0, 0x11).unwrap();
    let r = mbc.switch_bank(4);
    assert!(matches!(r, Err(EmuliteError::MemoryAccessViolation(4))));
    // Still on bank zero.
    assert_eq!(mbc.read(0).unwrap(), 0x11);

    // After a valid switch, reads resolve into the new bank's bytes.
    let mut bank1 = vec![0u8; 2048];
    bank1[0] = 0x77;
    mbc.load_bank(1, bank1).unwrap();
    mbc.switch_bank(1).unwrap();
    assert_eq!(mbc.read(0).unwrap(), 0x77);
    assert!(mbc.read(2048).is_err());

    // A wrong-sized bank image is refused.
    assert!(mbc.load_bank(1, vec![0u8; 100]).is_err());
}

#[test]
fn atari_write_only_window_reads_zero() {
    let mut cpu = Mos6502::new().unwrap();
    for addr in [0x0000u32, 0x0040, 0x007F] {
        cpu.write_memory(addr, 0xFF).unwrap();
        assert_eq!(cpu.read_memory(addr).unwrap(), 0);
    }
    // RAM and its stack mirror do hold bytes.
    cpu.write_memory(0x0080, 0x12).unwrap();
    assert_eq!(cpu.read_memory(0x0080).unwrap(), 0x12);
    assert_eq!(cpu.read_memory(0x0180).unwrap(), 0x12);
}

#[test]
fn scenario_lda_immediate() {
    let mut cpu = Mos6502::new().unwrap();
    let pc = cpu.pc();
    cpu.load_bytes(pc, &vec![0xA9, 0x42]).unwrap();
    cpu.step().unwrap();
    assert_eq!(cpu.get_register("a").unwrap(), 0x42);
    let flags = cpu.get_flags();
    assert!(!flags.zero);
    assert!(!flags.negative);
}

#[test]
fn scenario_mips_addi() {
    let mut cpu = Mips::new().unwrap();
    cpu.set_register("r1", 5).unwrap();
    // ADDI $2, $1, 10
    let instr: u32 = (0x08 << 26) | (1 << 21) | (2 << 16) | 10;
    cpu.load_bytes(0, &instr.to_le_bytes().to_vec()).unwrap();
    cpu.set_register("pc", 0).unwrap();
    cpu.step().unwrap();
    assert_eq!(cpu.get_register("r2").unwrap(), 15);
}

#[test]
fn scenario_bank_switch_window() {
    let mut atari = Atari2600::new().unwrap();
    let mut image = vec![0u8; 16384];
    image[2 * 2048] = 0xAB;
    atari.load_rom(image.clone()).unwrap();
    assert_eq!(atari.cart.bank_count, 8);
    atari.cart.write(0x1FF8, 2);
    assert_eq!(atari.cart.current_bank, 2);
    assert_eq!(atari.cart.read(0x0000), image[2 * 2048]);
}

#[test]
fn scenario_detection() {
    let mut nes_image = vec![0u8; 16];
    nes_image[0] = 0x4E;
    nes_image[1] = 0x45;
    nes_image[2] = 0x53;
    nes_image[3] = 0x1A;
    assert_eq!(detect_platform("xyz", &nes_image).unwrap(), "nes");
    assert_eq!(detect_platform_from_header(&nes_image).unwrap(), "nes");

    let mut exe_image = vec![0u8; 4 * 1024];
    exe_image[0x800..0x808].copy_from_slice(b"PS-X EXE");
    assert_eq!(detect_platform("xyz", &exe_image).unwrap(), "ps1");
    assert_eq!(detect_platform_from_header(&exe_image).unwrap(), "ps1");

    let plain = vec![0u8; 20 * 1024];
    assert_eq!(detect_platform("bin", &plain).unwrap(), "atari2600");
    let large = vec![0u8; 2 * 1024 * 1024];
    assert_eq!(detect_platform("bin", &large).unwrap(), "ps1");
    assert_eq!(detect_platform("iso", &plain).unwrap(), "ps1");
    assert_eq!(detect_platform("a26", &plain).unwrap(), "atari2600");
    assert!(matches!(
        detect_platform("xyz", &plain),
        Err(EmuliteError::UnsupportedPlatform(_))
    ));
}

#[test]
fn atari_rom_size_is_validated() {
    let mut atari = Atari2600::new().unwrap();
    let r = atari.load_rom(vec![0u8; 100]);
    assert!(matches!(r, Err(EmuliteError::InvalidRom(_))));
    let r = atari.load_rom(vec![0u8; 100_000]);
    assert!(matches!(r, Err(EmuliteError::InvalidRom(_))));
}

#[test]
fn unimplemented_opcode_is_reported() {
    let mut cpu = Mos6502::new().unwrap();
    cpu.set_register("pc", 0x0080).unwrap();
    cpu.write_memory(0x0080, 0xFF).unwrap();
    match cpu.step() {
        Err(EmuliteError::CpuError(m)) => assert_eq!(m, "Unimplemented opcode: 0xFF"),
        other => panic!("expected a CPU error, got {:?}", other),
    }
}

#[test]
fn factory_rejects_unknown_names() {
    match CpuFactory::create("65816") {
        Err(EmuliteError::CpuError(m)) => assert_eq!(m, "Unsupported CPU type: 65816"),
        other => panic!("expected a CPU error, got {:?}", other),
    }
    assert!(matches!(
        PlatformFactory::create("dreamcast"),
        Err(EmuliteError::UnsupportedPlatform(_))
    ));
    assert_eq!(CpuFactory::supported_cpus(), vec!["6502", "68000", "mips", "x86", "arm"]);
    assert_eq!(
        PlatformFactory::supported_platforms(),
        vec!["atari2600", "nes", "snes", "ps1", "ps2", "ps3"]
    );
}

#[test]
fn error_messages_are_formatted() {
    let e = EmuliteError::MemoryAccessViolation(0xDEADBEEF);
    assert_eq!(e.message(), "Memory access violation at address: 0xDEADBEEF");
    let e = EmuliteError::UnsupportedPlatform("vic20".to_string());
    assert_eq!(e.message(), "Platform not supported: vic20");
}

#[test]
fn string_and_path_utilities() {
    assert_eq!(StringUtils::split("a,b,c", ","), vec!["a", "b", "c"]);
    assert_eq!(
        StringUtils::join(&vec!["a".to_string(), "b".to_string(), "c".to_string()], "-"),
        "a-b-c"
    );
    assert!(StringUtils::starts_with("hello", "he"));
    assert!(!StringUtils::starts_with("hello", "lo"));
    assert!(StringUtils::ends_with("hello", "lo"));
    assert_eq!(StringUtils::replace_all("aaa", "a", "b"), "bbb");
    assert_eq!(StringUtils::trim("\t hi \n"), "hi");

    assert_eq!(FileUtils::get_extension("dir/game.NES"), Some("nes".to_string()));
    assert_eq!(FileUtils::get_extension("noext"), None);
    assert_eq!(FileUtils::get_stem("dir/game.nes"), Some("game".to_string()));
    assert_eq!(FileUtils::get_parent("dir/game.nes"), Some("dir".to_string()));
}

#[test]
fn math_and_time_utilities() {
    assert!(MathUtils::is_power_of_2(64));
    assert!(!MathUtils::is_power_of_2(0));
    assert!(!MathUtils::is_power_of_2(6));
    assert_eq!(MathUtils::next_power_of_2(0), 1);
    assert_eq!(MathUtils::next_power_of_2(1), 2);
    assert_eq!(MathUtils::next_power_of_2(5), 8);
    assert_eq!(TimeUtils::format_duration(65), "01:05");
    assert_eq!(TimeUtils::format_duration(3665), "01:01:05");
}

#[test]
fn crc32_matches_reference_value() {
    assert_eq!(HashUtils::crc32(b"123456789"), 0xCBF43926);
    assert_eq!(HashUtils::simple_hash(b"a"), 97);
}
