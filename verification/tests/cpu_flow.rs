use gba_core::gamepack::GamePack;
use gba_core::gba::Gba;
use gba_core::cpsr::Mode;
use gba_core::interrupts::IRQ_VBLANK;
use gba_core::backup::BackupKind;

fn machine_with(program: &[u32]) -> Gba {
    let mut rom = vec![0u8; 0x400];
    for (k, op) in program.iter().enumerate() {
        rom[4 * k..4 * k + 4].copy_from_slice(&op.to_le_bytes());
    }
    let pack = GamePack::new(vec![0u8; 0x4000], rom).unwrap();
    Gba::new(0x0800_0000, pack)
}

#[test]
fn load_store_word_round_trip() {
    // MOV R0,#0x02000000 ; MOV R1,#0xAB ; STR R1,[R0,#4] ; LDR R2,[R0,#4]
    let mut gba = machine_with(&[0xe3a0_0402, 0xe3a0_10ab, 0xe580_1004, 0xe590_2004]);
    for _ in 0..4 {
        gba.cpu.step(&mut gba.bus);
    }
    assert_eq!(gba.cpu.regs[2], 0xab);
    assert_eq!(gba.bus.read8(0x0200_0004), 0xab);
}

#[test]
fn block_transfer_ascending_order() {
    // MOV R0,#0x02000000 ; MOV R1,#1 ; MOV R2,#2 ; STMIA R0!,{R1,R2} ;
    // LDR R3,[R0,#-8] : the lowest register landed at the lowest address.
    let mut gba = machine_with(&[
        0xe3a0_0402,
        0xe3a0_1001,
        0xe3a0_2002,
        0xe8a0_0006,
        0xe510_3008,
    ]);
    for _ in 0..5 {
        gba.cpu.step(&mut gba.bus);
    }
    assert_eq!(gba.cpu.regs[0], 0x0200_0008);
    assert_eq!(gba.cpu.regs[3], 1);
    assert_eq!(gba.bus.read32(0x0200_0004), 2);
}

#[test]
fn bx_switches_to_thumb_and_back() {
    let mut rom = vec![0u8; 0x400];
    // MOV R0,#0x08000000 ; ADD R0,R0,#0x100 ; ADD R0,R0,#1 ; BX R0:
    // the low bit selects the 16-bit width at 0x08000100.
    let arm_code: [u32; 4] = [0xe3a0_0302, 0xe280_0c01, 0xe280_0001, 0xe12f_ff10];
    for (k, op) in arm_code.iter().enumerate() {
        rom[4 * k..4 * k + 4].copy_from_slice(&op.to_le_bytes());
    }
    // THUMB at 0x100: MOV R1,#7 (0x2107) ; LSL R1,R1,#1 (0x0049).
    rom[0x100..0x102].copy_from_slice(&0x2107u16.to_le_bytes());
    rom[0x102..0x104].copy_from_slice(&0x0049u16.to_le_bytes());
    let pack = GamePack::new(vec![0u8; 0x4000], rom).unwrap();
    let mut gba = Gba::new(0x0800_0000, pack);
    for _ in 0..6 {
        gba.cpu.step(&mut gba.bus);
    }
    assert!(gba.cpu.cpsr.thumb);
    assert_eq!(gba.cpu.regs[1], 14);
}

#[test]
fn software_interrupt_enters_supervisor_vector() {
    let mut gba = machine_with(&[0xef00_0000]); // SWI #0
    gba.cpu.step(&mut gba.bus);
    assert_eq!(gba.cpu.regs[15], 0x08);
    assert_eq!(gba.cpu.cpsr.mode, Mode::Supervisor);
    assert!(gba.cpu.cpsr.irq_disable);
    // The banked link register holds the return address.
    assert_eq!(gba.cpu.regs[14], 0x0800_0004);
}

#[test]
fn undefined_opcode_is_a_guest_exception_not_a_host_error() {
    // An undefined encoding (bits 25-27 = 011 with bit 4 set).
    let mut gba = machine_with(&[0xe7f0_00f0]);
    gba.cpu.step(&mut gba.bus);
    assert_eq!(gba.cpu.regs[15], 0x04);
    assert_eq!(gba.cpu.cpsr.mode, Mode::Undefined);
}

#[test]
fn irq_enters_vector_when_enabled() {
    let mut gba = machine_with(&[0xe3a0_0005]);
    // Enable VBlank interrupts at the controller and in the core.
    gba.bus.irq.write_enable(IRQ_VBLANK);
    gba.bus.irq.write_master(1);
    gba.bus.irq.raise(IRQ_VBLANK);
    gba.cpu.cpsr.irq_disable = false;
    gba.cpu.step(&mut gba.bus);
    assert_eq!(gba.cpu.regs[15], 0x18);
    assert_eq!(gba.cpu.cpsr.mode, Mode::Irq);
    assert!(gba.cpu.cpsr.irq_disable);
}

#[test]
fn eeprom_region_reads_ready_over_the_bus() {
    let mut rom = vec![0u8; 0x200];
    rom[0xc0..0xc8].copy_from_slice(b"EEPROM_V");
    let pack = GamePack::new(vec![0u8; 0x4000], rom).unwrap();
    let mut gba = Gba::new(0x0800_0000, pack);
    assert_eq!(gba.bus.pack.backup.kind, BackupKind::Eeprom);
    // With no request in flight the serial line reports ready.
    assert_eq!(gba.bus.read16(0x0d00_0000), 1);
    // Driving bits through half-word writes steps the protocol.
    gba.bus.write16(0x0d00_0000, 1);
    gba.bus.write16(0x0d00_0000, 0);
    // A write request is now collecting address bits; reads say ready.
    assert_eq!(gba.bus.read16(0x0d00_0000), 1);
}
