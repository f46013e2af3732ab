use bobs8085::bus::io::Io;
use bobs8085::bus::mem::Memory;
use bobs8085::bus::Bus;
use bobs8085::changes::Changes;
use bobs8085::utils::parse_u16;
use bobs8085::Simulator;

#[test]
fn memory_word_orders() {
    let mut mem = Memory::new();
    mem.set16(0x1000, 0x1234);
    assert_eq!(mem.get8(0x1000), 0x12);
    assert_eq!(mem.get8(0x1001), 0x34);
    assert_eq!(mem.get16(0x1000), 0x1234);
    assert_eq!(mem.get16_reverse(0x1000), 0x3412);
    mem.set16_reverse(0x2000, 0x1234);
    assert_eq!(mem.get8(0x2000), 0x34);
    assert_eq!(mem.get8(0x2001), 0x12);
    assert_eq!(mem.get16_reverse(0x2000), 0x1234);
}

#[test]
fn memory_guard_byte_at_the_top() {
    let mut mem = Memory::new();
    mem.set16(0xFFFF, 0xABCD);
    assert_eq!(mem.get8(0xFFFF), 0xAB);
    assert_eq!(mem.get16(0xFFFF), 0xAB00);
    mem.set16_reverse(0xFFFF, 0xABCD);
    assert_eq!(mem.get8(0xFFFF), 0xCD);
    assert_eq!(mem.get16_reverse(0xFFFF), 0x00CD);
    assert_eq!(mem.get8(0x0000), 0x00);
}

#[test]
fn memory_diff_and_apply() {
    let mut old = Memory::new();
    old.set8(0x0000, 0x11);
    let mut cur = old.clone();
    cur.set8(0x0000, 0x22);
    cur.set8(0xFFFF, 0x33);
    cur.set8(0x8000, 0x44);
    let changes = cur.diff(old.clone());
    assert_eq!(changes, vec![(0x0000, 0x11), (0x8000, 0x00), (0xFFFF, 0x00)]);
    cur.apply(&changes);
    assert!(cur.diff(old).is_empty());
}

#[test]
fn memory_dump_round_trip() {
    let mut mem = Memory::new();
    mem.set8(0xC000, 0x3E);
    mem.set8(0xFFFF, 0x01);
    let image = mem.dump();
    assert_eq!(image.len(), 0x10000);
    assert_eq!(image[0xC000], 0x3E);
    let mut other = Memory::new();
    assert!(other.read_dump(&image));
    assert_eq!(other.get8(0xC000), 0x3E);
    assert_eq!(other.get8(0xFFFF), 0x01);
    assert!(!other.read_dump(&vec![0u8; 16]));
    assert_eq!(other.get8(0xC000), 0x3E);
}

#[test]
fn io_ports() {
    let mut io = Io::new();
    io.set8(0x10, 0x99);
    assert_eq!(io.get8(0x10), 0x99);
    io.set16(0x20, 0x1234);
    assert_eq!(io.get16(0x20), 0x1234);
    io.set16_reverse(0x30, 0x1234);
    assert_eq!(io.get8(0x30), 0x34);
    assert_eq!(io.get16_reverse(0x30), 0x1234);
    io.set16(0xFF, 0xBEEF);
    assert_eq!(io.get16(0xFF), 0xBE00);
    let before = Io::new();
    let changes = io.diff(before.clone());
    assert_eq!(changes[0], (0x10, 0x00));
    io.apply(&changes);
    assert!(io.diff(before).is_empty());
}

#[test]
fn bus_routes_memory_and_ports() {
    let mut bus = Bus::new();
    bus.mem_set8(0x1234, 0x56);
    bus.io_set8(0x34, 0x78);
    assert_eq!(bus.mem_get8(0x1234), 0x56);
    assert_eq!(bus.io_get8(0x34), 0x78);
    assert_eq!(bus.io_get8(0x12), 0x00);
    bus.mem_set16_reverse(0x4000, 0xA1B2);
    assert_eq!(bus.mem_get16(0x4000), 0xB2A1);
    assert_eq!(bus.mem_get16_reverse(0x4000), 0xA1B2);
}

#[test]
fn programs_load_at_the_origin() {
    let mut bus = Bus::new();
    assert!(bus.load_program(&vec![0x3E, 0x05]));
    assert_eq!(bus.mem_get8(0xC000), 0x3E);
    assert_eq!(bus.mem_get8(0xC001), 0x05);
    assert!(!bus.load_program(&vec![0u8; 0x4001]));
    assert!(Simulator::from_program(&vec![0u8; 0x4000]).is_some());
    assert!(Simulator::from_program(&vec![0u8; 0x4001]).is_none());
}

#[test]
fn simulator_from_memory_image() {
    let mut image = vec![0u8; 0x10000];
    image[0xC000] = 0x3E;
    image[0xC001] = 0x2A;
    image[0xC002] = 0x76;
    let mut sim = Simulator::from_memory_image(&image).unwrap();
    assert_eq!(sim.get_pc(), 0xC000);
    while sim.execute().unwrap() {}
    assert_eq!(sim.cpu_get_reg(7), 0x2A);
    assert!(Simulator::from_memory_image(&vec![0u8; 100]).is_none());
}

#[test]
fn restore_writes_back_a_record() {
    let mut sim = Simulator::new();
    let mut changes = Changes::default();
    changes.cpu.a = 0x12;
    changes.cpu.pc = 0xC123;
    changes.memory.push((0x2000, 0x34));
    changes.io.push((0x05, 0x56));
    sim.restore(&changes);
    assert_eq!(sim.cpu_get_reg(7), 0x12);
    assert_eq!(sim.get_pc(), 0xC123);
    assert_eq!(sim.mem_get8(0x2000), 0x34);
    assert_eq!(sim.io_get8(0x05), 0x56);
}

#[test]
fn numbers_from_arguments() {
    assert_eq!(parse_u16("0x1F"), Ok(0x1F));
    assert_eq!(parse_u16("0xffff"), Ok(0xFFFF));
    assert_eq!(parse_u16("42"), Ok(42));
    assert_eq!(parse_u16("+7"), Ok(7));
    assert!(parse_u16("0x").is_err());
    assert!(parse_u16("65536").is_err());
    assert!(parse_u16("abc").is_err());
    assert!(parse_u16("0X10").is_err());
    assert!(parse_u16("").is_err());
    assert!(parse_u16("-1").is_err());
}
