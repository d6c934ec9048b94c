use gba_core::gamepack::GamePack;
use gba_core::gba::Gba;

fn looping_pack() -> (Vec<u8>, Vec<u8>) {
    let bios = vec![0u8; 0x4000];
    let mut rom = vec![0u8; 0x200];
    // MOV R0,#5 ; ADD R0,R0,#1 ; B -8 (back to the ADD): a busy loop that
    // keeps mutating state.
    let program: [u32; 3] = [0xe3a0_0005, 0xe280_0001, 0xeaff_fffd];
    for (k, op) in program.iter().enumerate() {
        rom[4 * k..4 * k + 4].copy_from_slice(&op.to_le_bytes());
    }
    (bios, rom)
}

#[test]
fn snapshot_restore_resumes_identically() {
    let (bios, rom) = looping_pack();
    let pack = GamePack::new(bios.clone(), rom.clone()).unwrap();
    let mut one = Gba::new(0x0800_0000, pack);
    one.frame();
    let state = one.snapshot();
    let mut two = Gba::restore(&state, bios, rom).unwrap();
    // The restored machine is the captured one: its own snapshot is
    // bit-identical.
    assert_eq!(two.snapshot(), state);
    assert_eq!(two.cpu.regs, one.cpu.regs);
    assert_eq!(two.cpu.cpsr, one.cpu.cpsr);
    // Resuming produces bit-identical frame-buffer output.
    for _ in 0..3 {
        one.frame();
        two.frame();
        assert_eq!(one.bus.ppu.frame_buffer, two.bus.ppu.frame_buffer);
    }
    assert_eq!(one.cpu.regs, two.cpu.regs);
}

#[test]
fn restore_rejects_truncated_buffers() {
    let (bios, rom) = looping_pack();
    let pack = GamePack::new(bios.clone(), rom.clone()).unwrap();
    let one = Gba::new(0x0800_0000, pack);
    let state = one.snapshot();
    assert!(Gba::restore(&state, vec![0u8; 0x10], rom.clone()).is_err());
    assert!(Gba::restore(&state, bios.clone(), vec![0u8; 0x10]).is_err());
    let mut short = state.clone();
    short.pop();
    assert!(Gba::restore(&short, bios.clone(), rom.clone()).is_err());
    assert!(Gba::restore(&state, bios, rom).is_ok());
}

#[test]
fn save_file_round_trip_through_machine() {
    let (bios, rom) = looping_pack();
    let pack = GamePack::new(bios, rom).unwrap();
    let mut gba = Gba::new(0x0800_0000, pack);
    let seeded = vec![0xa5u8; 0x8000];
    assert!(gba.load_save_file(&seeded).is_ok());
    assert!(gba.load_save_file(&vec![0u8; 3]).is_err());
    assert_eq!(gba.get_save_data(), seeded);
    assert!(!gba.save_dirty());
    // A store through the bus marks the contents changed.
    gba.bus.write8(0x0e00_0000, 0x77);
    assert!(gba.save_dirty());
    let out = gba.get_save_data();
    assert_eq!(out[0], 0x77);
}

#[test]
fn keys_reach_the_input_register() {
    let (bios, rom) = looping_pack();
    let pack = GamePack::new(bios, rom).unwrap();
    let mut gba = Gba::new(0x0800_0000, pack);
    gba.set_keys(0xfffe);
    assert_eq!(gba.bus.io_read16(0x130), 0xfffe);
}
