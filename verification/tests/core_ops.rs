use gba_core::alu::{alu_add, alu_sub, alu_logic, condition_passed, lsl, lsr, asr, ror_shift, rrx, alu_umull};
use gba_core::cpsr::{Cpsr, Mode};
use gba_core::gamepack::{GamePack, detect_backup};
use gba_core::backup::BackupKind;
use gba_core::gba::Gba;

fn flags(n: bool, z: bool, c: bool, v: bool) -> Cpsr {
    Cpsr {
        n,
        z,
        c,
        v,
        irq_disable: false,
        fiq_disable: false,
        thumb: false,
        mode: Mode::System,
    }
}

#[test]
fn add_carry_and_zero() {
    let out = alu_add(0xffff_ffff, 1, false);
    assert_eq!(out.val, 0);
    assert!(out.z);
    assert!(out.c);
    assert!(!out.n);
    assert!(!out.v);
}

#[test]
fn add_signed_overflow() {
    let out = alu_add(0x7fff_ffff, 1, false);
    assert_eq!(out.val, 0x8000_0000);
    assert!(out.n);
    assert!(!out.z);
    assert!(!out.c);
    assert!(out.v);
}

#[test]
fn adc_uses_carry_in() {
    let out = alu_add(5, 7, true);
    assert_eq!(out.val, 13);
    assert!(!out.c);
}

#[test]
fn sub_no_borrow_sets_carry() {
    let out = alu_sub(8, 5, false);
    assert_eq!(out.val, 3);
    assert!(out.c);
    assert!(!out.n);
    assert!(!out.z);
    assert!(!out.v);
}

#[test]
fn sub_borrow_clears_carry() {
    let out = alu_sub(5, 8, false);
    assert_eq!(out.val, 0xffff_fffd);
    assert!(!out.c);
    assert!(out.n);
}

#[test]
fn cmp_equal_sets_zero_and_carry() {
    let out = alu_sub(42, 42, false);
    assert!(out.z);
    assert!(out.c);
    assert!(!out.n);
    assert!(!out.v);
}

#[test]
fn sub_signed_overflow() {
    let out = alu_sub(0x8000_0000, 1, false);
    assert_eq!(out.val, 0x7fff_ffff);
    assert!(out.v);
    assert!(!out.n);
    assert!(out.c);
}

#[test]
fn logic_sets_n_and_z_only() {
    let out = alu_logic(0x8000_0000, true, false);
    assert!(out.n);
    assert!(!out.z);
    assert!(out.c);
    assert!(!out.v);
    let out = alu_logic(0, false, true);
    assert!(out.z);
    assert!(!out.c);
    assert!(out.v);
}

#[test]
fn all_sixteen_condition_codes() {
    // N=1 Z=0 C=1 V=0: a typical negative compare result.
    let s = flags(true, false, true, false);
    let expect = [
        false, // EQ
        true,  // NE
        true,  // CS
        false, // CC
        true,  // MI
        false, // PL
        false, // VS
        true,  // VC
        true,  // HI
        false, // LS
        false, // GE (N != V)
        true,  // LT
        false, // GT
        true,  // LE
        true,  // AL
        false, // NV
    ];
    for cond in 0..16u32 {
        assert_eq!(condition_passed(cond, &s), expect[cond as usize], "cond {}", cond);
    }
    // Z=1: EQ holds, NE fails, LE holds.
    let s = flags(false, true, true, true);
    assert!(condition_passed(0, &s));
    assert!(!condition_passed(1, &s));
    assert!(!condition_passed(10, &s)); // GE needs N == V
    assert!(condition_passed(11, &s)); // LT: N != V
    assert!(!condition_passed(12, &s)); // GT needs Z clear
    assert!(condition_passed(13, &s)); // LE
}

#[test]
fn shifter_edge_cases() {
    // LSL by zero keeps value and old carry.
    let r = lsl(0x1234, 0, true);
    assert_eq!(r.val, 0x1234);
    assert!(r.carry);
    // LSL by 32 leaves zero, carry = old bit 0.
    let r = lsl(1, 32, false);
    assert_eq!(r.val, 0);
    assert!(r.carry);
    // LSR by 32: carry = bit 31.
    let r = lsr(0x8000_0000, 32, false);
    assert_eq!(r.val, 0);
    assert!(r.carry);
    // ASR floods with the sign bit.
    let r = asr(0x8000_0000, 4, false);
    assert_eq!(r.val, 0xf800_0000);
    // ASR by 32 or more gives all sign bits.
    let r = asr(0x8000_0000, 33, false);
    assert_eq!(r.val, 0xffff_ffff);
    assert!(r.carry);
    // ROR wraps bits around.
    let r = ror_shift(0x0000_00f1, 4, false);
    assert_eq!(r.val, 0x1000_000f);
    // The last bit rotated out was bit 3 of the input, which is clear.
    assert!(!r.carry);
    // RRX shifts the old carry into bit 31.
    let r = rrx(2, true);
    assert_eq!(r.val, 0x8000_0001);
    assert!(!r.carry);
}

#[test]
fn umull_splits_product() {
    let (lo, hi) = alu_umull(0xffff_ffff, 0xffff_ffff);
    assert_eq!(lo, 0x0000_0001);
    assert_eq!(hi, 0xffff_fffe);
}

fn small_pack() -> GamePack {
    let bios = vec![0u8; 0x4000];
    let rom = vec![0u8; 0x200];
    GamePack::new(bios, rom).unwrap()
}

#[test]
fn pack_rejects_truncated_buffers() {
    assert!(GamePack::new(vec![0u8; 0x100], vec![0u8; 0x200]).is_err());
    assert!(GamePack::new(vec![0u8; 0x4000], vec![0u8; 0x10]).is_err());
    assert!(GamePack::new(vec![0u8; 0x4000], vec![0u8; 0x200]).is_ok());
}

#[test]
fn backup_kind_detection() {
    let mut rom = vec![0u8; 0x200];
    assert_eq!(detect_backup(&rom).0, BackupKind::Sram);
    rom[0xc0..0xc8].copy_from_slice(b"EEPROM_V");
    assert_eq!(detect_backup(&rom).0, BackupKind::Eeprom);
    let mut rom = vec![0u8; 0x200];
    rom[0xc0..0xc9].copy_from_slice(b"FLASH1M_V");
    assert_eq!(detect_backup(&rom), (BackupKind::Flash, true));
    let mut rom = vec![0u8; 0x200];
    rom[0xc0..0xc7].copy_from_slice(b"FLASH_V");
    assert_eq!(detect_backup(&rom), (BackupKind::Flash, false));
    let mut rom = vec![0u8; 0x200];
    rom[0xc0..0xc6].copy_from_slice(b"SRAM_V");
    assert_eq!(detect_backup(&rom), (BackupKind::Sram, false));
}

#[test]
fn cpu_executes_data_processing() {
    let mut rom = vec![0u8; 0x200];
    // MOV R0,#5 ; ADD R1,R0,#3 ; SUBS R2,R0,R1 ; ADDMI R2,R2,#1
    let program: [u32; 4] = [0xe3a0_0005, 0xe280_1003, 0xe050_2001, 0x4282_2001];
    for (k, op) in program.iter().enumerate() {
        rom[4 * k..4 * k + 4].copy_from_slice(&op.to_le_bytes());
    }
    let pack = GamePack::new(vec![0u8; 0x4000], rom).unwrap();
    let mut gba = Gba::new(0x0800_0000, pack);
    for _ in 0..4 {
        gba.cpu.step(&mut gba.bus);
    }
    assert_eq!(gba.cpu.regs[0], 5);
    assert_eq!(gba.cpu.regs[1], 8);
    // 5 - 8 wraps negative: N set, and the conditional add then runs.
    assert_eq!(gba.cpu.regs[2], 0xffff_fffdu32.wrapping_add(1));
    assert!(gba.cpu.cpsr.n);
    assert!(!gba.cpu.cpsr.c);
}

#[test]
fn cpu_branch_flushes_to_target() {
    let mut rom = vec![0u8; 0x200];
    // B +8 (skips one instruction), then MOV R0,#1 at the target.
    let program: [u32; 3] = [0xea00_0000, 0xe3a0_0063, 0xe3a0_0001];
    for (k, op) in program.iter().enumerate() {
        rom[4 * k..4 * k + 4].copy_from_slice(&op.to_le_bytes());
    }
    let pack = GamePack::new(vec![0u8; 0x4000], rom).unwrap();
    let mut gba = Gba::new(0x0800_0000, pack);
    gba.cpu.step(&mut gba.bus);
    assert_eq!(gba.cpu.regs[15], 0x0800_0008);
    gba.cpu.step(&mut gba.bus);
    assert_eq!(gba.cpu.regs[0], 1);
}

#[test]
fn bus_rotates_misaligned_word_reads() {
    let pack = small_pack();
    let mut gba = Gba::new(0x0800_0000, pack);
    gba.bus.write8(0x0200_0010, 0x11);
    gba.bus.write8(0x0200_0011, 0x22);
    gba.bus.write8(0x0200_0012, 0x33);
    gba.bus.write8(0x0200_0013, 0x44);
    assert_eq!(gba.bus.read32(0x0200_0010), 0x4433_2211);
    // One byte of misalignment rotates the word right by eight bits.
    assert_eq!(gba.bus.read32(0x0200_0011), 0x1144_3322);
    assert_eq!(gba.bus.read32(0x0200_0012), 0x2211_4433);
    assert_eq!(gba.bus.read32(0x0200_0013), 0x3322_1144);
}

#[test]
fn interrupt_flags_clear_only_on_written_ones() {
    let pack = small_pack();
    let mut gba = Gba::new(0x0800_0000, pack);
    gba.bus.irq.raise(0x0005);
    // Writing 1 to bit 0 clears only that bit.
    gba.bus.write16(0x0400_0202, 0x0001);
    assert_eq!(gba.bus.irq.pending, 0x0004);
    // Writing 1s never sets pending bits.
    gba.bus.write16(0x0400_0202, 0xfffb);
    assert_eq!(gba.bus.irq.pending, 0x0004);
    gba.bus.write16(0x0400_0202, 0x0004);
    assert_eq!(gba.bus.irq.pending, 0x0000);
}

#[test]
fn open_bus_returns_last_fetch_lanes() {
    let pack = small_pack();
    let mut gba = Gba::new(0x0800_0000, pack);
    gba.bus.open_bus = 0xaabb_ccdd;
    assert_eq!(gba.bus.read8(0x0100_0000), 0xdd);
    assert_eq!(gba.bus.read8(0x0100_0001), 0xcc);
    assert_eq!(gba.bus.read8(0x0100_0002), 0xbb);
    assert_eq!(gba.bus.read8(0x0100_0003), 0xaa);
}

#[test]
fn logger_threshold_gates_levels() {
    let logger = gba_core::logger::init_logger().unwrap();
    assert!(logger.enabled(1));
    assert!(logger.enabled(5));
    assert!(!logger.enabled(6));
}
