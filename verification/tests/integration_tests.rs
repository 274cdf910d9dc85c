//! Integration tests across the emulator's public surface.

use emulite::cpu::CpuFactory;
use emulite::emulator::Emulator;
use emulite::memory::{MemoryBankController, MemoryDevice, MemoryMapper, RamDevice};
use emulite::platforms::PlatformFactory;
use emulite::utils::{HashUtils, MathUtils, StringUtils, TimeUtils};
use emulite::EmuliteError;
use std::path::Path;

#[test]
fn test_emulator_creation() {
    let emulator = Emulator::new();
    assert!(emulator.is_ok());
}

#[test]
fn test_platform_detection() {
    // Test NES ROM detection
    let nes_extensions = ["nes"];
    for ext in &nes_extensions {
        let path = format!("test.{}", ext);
        // This would test platform detection logic
        assert!(Path::new(&path).extension().is_some());
    }
}

#[test]
fn test_memory_mapping() {
    let mut mapper = MemoryMapper::new(0x10000);
    let ram = RamDevice::new(1024, 0x0000, "RAM".to_string());

    let result = mapper.add_device("RAM".to_string(), MemoryDevice::Ram(ram));
    assert!(result.is_ok());

    // Test memory access
    let read_result = mapper.read(0x0000);
    assert!(read_result.is_ok());

    let write_result = mapper.write(0x0000, 0x42);
    assert!(write_result.is_ok());

    let read_after_write = mapper.read(0x0000);
    assert_eq!(read_after_write.unwrap(), 0x42);
}

#[test]
fn test_cpu_creation() {
    let cpu_types = ["6502", "68000", "mips", "x86", "arm"];

    for cpu_type in &cpu_types {
        let cpu = CpuFactory::create(cpu_type);
        assert!(cpu.is_ok(), "Failed to create CPU type: {}", cpu_type);

        let cpu = cpu.unwrap();
        assert_eq!(cpu.name(), *cpu_type);
    }
}

#[test]
fn test_cpu_execution() {
    let mut cpu = CpuFactory::create("6502").unwrap();

    // Test basic execution
    let result = cpu.step();
    assert!(result.is_ok());

    // Test reset
    let result = cpu.reset();
    assert!(result.is_ok());
}

#[test]
fn test_platform_factory() {
    let platforms = ["atari2600", "nes", "snes", "ps1", "ps2", "ps3"];

    for platform in &platforms {
        let platform_instance = PlatformFactory::create(platform);
        assert!(platform_instance.is_ok(), "Failed to create platform: {}", platform);
    }
}

#[test]
fn test_utils() {
    // Test math utilities
    assert_eq!(MathUtils::clamp(5, 0, 10), 5);
    assert_eq!(MathUtils::clamp(-1, 0, 10), 0);
    assert_eq!(MathUtils::clamp(15, 0, 10), 10);

    // Test string utilities
    assert_eq!(StringUtils::to_lowercase("HELLO"), "hello");
    assert_eq!(StringUtils::to_uppercase("hello"), "HELLO");
    assert_eq!(StringUtils::trim("  hello  "), "hello");

    // Test time utilities
    let timestamp = TimeUtils::current_timestamp();
    assert!(timestamp > 0);
}

#[test]
fn test_error_handling() {
    // Test error creation
    let error = EmuliteError::UnsupportedPlatform("test".to_string());
    assert!(matches!(error, EmuliteError::UnsupportedPlatform(_)));

    // Test error conversion
    let io_error = std::io::Error::new(std::io::ErrorKind::NotFound, "test");
    let emulite_error: EmuliteError = io_error.into();
    assert!(matches!(emulite_error, EmuliteError::IoError(_)));
}

#[test]
fn test_memory_bank_controller() {
    let mut mbc = MemoryBankController::new(2048, 4);

    // Test bank switching
    let result = mbc.switch_bank(1);
    assert!(result.is_ok());

    // Test memory access
    let result = mbc.write(0x0000, 0x42);
    assert!(result.is_ok());

    let result = mbc.read(0x0000);
    assert_eq!(result.unwrap(), 0x42);
}

#[test]
fn test_hash_utils() {
    let data = b"Hello, World!";

    // Test CRC32
    let crc32 = HashUtils::crc32(data);
    assert!(crc32 > 0);

    // Test simple hash
    let simple_hash = HashUtils::simple_hash(data);
    assert!(simple_hash > 0);

    // Test MD5 (placeholder)
    let md5 = HashUtils::md5(data);
    assert_eq!(md5.len(), 32);
}
