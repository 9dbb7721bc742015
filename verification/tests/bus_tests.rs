use nesrs::cpu_bus::CpuBus;
use nesrs::memory_bus::MemoryBus;
use nesrs::mock_bus::MockBus;

#[test]
fn mock_bus_test_memory_read_write() {
    let mut bus = MockBus::new();

    bus.write(0x2000, 0x42);
    assert_eq!(bus.memory[0x2000], 0x42);

    let value = bus.read(0x2000);
    assert_eq!(value, 0x42);
}

#[test]
fn mock_bus_test_memory_write_read_u16() {
    let mut bus = MockBus::new();

    bus.write(0x2000, 0x42);
    bus.write(0x2001, 0x42);
    assert_eq!(bus.memory[0x2000], 0x42);
    assert_eq!(bus.memory[0x2001], 0x42);

    let value0 = bus.read(0x2000);
    assert_eq!(value0, 0x42);
    let value1 = bus.read(0x2001);
    assert_eq!(value1, 0x42);

    let value2 = bus.read_u16(0x2000);
    assert_eq!(value2, 0x4242);
}

#[test]
fn mock_bus_test_memory_read_write_u16() {
    let mut bus = MockBus::new();

    bus.write_u16(0x3000, 0x1234);
    let value = bus.read_u16(0x3000);
    assert_eq!(value, 0x1234);
}

#[test]
fn mock_bus_test_non_maskable_interrupt() {
    let mut bus = MockBus::new();
    bus.nmi_interrupt = Some(0x10);
    assert_eq!(bus.nmi_interrupt, Some(0x10));
}

#[test]
fn test_bus_cycles() {
    let mut bus = MockBus::new();

    assert_eq!(bus.cycles, 0);

    bus.tick(2);
    assert_eq!(bus.cycles, 2);
}

#[test]
fn memory_bus_test_memory_read_write() {
    let mut bus = MemoryBus::new();
    bus.write(0x2000, 0x42);
    let value = bus.read(0x2000);

    assert_eq!(value, 0x42);
}

#[test]
fn memory_bus_test_memory_write_read_u16() {
    let mut bus = MemoryBus::new();

    bus.write(0x2000, 0x42);
    bus.write(0x2001, 0x42);
    assert_eq!(bus.memory[0x2000], 0x42);
    assert_eq!(bus.memory[0x2001], 0x42);

    let value0 = bus.read(0x2000);
    assert_eq!(value0, 0x42);
    let value1 = bus.read(0x2001);
    assert_eq!(value1, 0x42);

    let value2 = bus.read_u16(0x2000);
    assert_eq!(value2, 0x4242);
}

#[test]
fn memory_bus_test_memory_read_write_u16() {
    let mut bus = MemoryBus::new();
    bus.write_u16(0x3000, 0x1234);
    let value = bus.read_u16(0x3000);

    assert_eq!(value, 0x1234);
}

#[test]
fn mock_bus_load_program_places_bytes() {
    let mut bus = MockBus::new();
    bus.load_program(&[0xde, 0xad, 0xbe, 0xef], 0x8000);
    assert_eq!(bus.memory[0x8000], 0xde);
    assert_eq!(bus.memory[0x8003], 0xef);
    assert_eq!(bus.memory[0x8004], 0x00);
}

#[test]
fn read_u16_wraps_at_top_of_address_space() {
    let mut bus = MockBus::new();
    bus.write(0xffff, 0x34);
    bus.write(0x0000, 0x12);
    assert_eq!(bus.read_u16(0xffff), 0x1234);
}

#[test]
fn test_memory_read_write() {
    let mut bus = MockBus::new();
    bus.write(0x2000, 0x42);
    let value = bus.read(0x2000);

    assert_eq!(value, 0x42);
}

#[test]
fn test_memory_read_write_u16() {
    let mut bus = MockBus::new();
    bus.write_u16(0x3000, 0x1234);
    let value = bus.read_u16(0x3000);

    assert_eq!(value, 0x1234);
}

#[test]
fn test_non_maskable_interrupt() {
    let mut bus = MockBus::new();
    bus.nmi_interrupt = Some(0x10);
    assert_eq!(bus.nmi_interrupt, Some(0x10));
}
