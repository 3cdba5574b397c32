use lvm32::register::{Registers, PSR};

fn psr_from_bits(bits: u32) -> PSR {
    PSR {
        n: bits & 1 != 0,
        z: bits & 2 != 0,
        c: bits & 4 != 0,
        v: bits & 8 != 0,
        i: bits & 16 != 0,
        f: bits & 32 != 0,
        p: bits & 64 != 0,
    }
}

#[test]
fn psr_round_trip_all_tuples() {
    for bits in 0u32..128 {
        let p = psr_from_bits(bits);
        let packed = p.to_u32();
        let back = PSR::from_u32(packed);
        assert_eq!(back, p);
    }
}

#[test]
fn psr_encode_all_false_is_zero() {
    let p = psr_from_bits(0);
    assert_eq!(p.to_u32(), 0);
}

#[test]
fn psr_encode_all_true_sets_documented_bits_only() {
    let p = psr_from_bits(127);
    assert_eq!(p.to_u32(), 0xF000_00C1);
}

#[test]
fn psr_encode_single_fields() {
    assert_eq!(PSR { n: true, ..psr_from_bits(0) }.to_u32(), 0x8000_0000);
    assert_eq!(PSR { z: true, ..psr_from_bits(0) }.to_u32(), 0x4000_0000);
    assert_eq!(PSR { c: true, ..psr_from_bits(0) }.to_u32(), 0x2000_0000);
    assert_eq!(PSR { v: true, ..psr_from_bits(0) }.to_u32(), 0x1000_0000);
    assert_eq!(PSR { i: true, ..psr_from_bits(0) }.to_u32(), 0x0000_0080);
    assert_eq!(PSR { f: true, ..psr_from_bits(0) }.to_u32(), 0x0000_0040);
    assert_eq!(PSR { p: true, ..psr_from_bits(0) }.to_u32(), 0x0000_0001);
}

#[test]
fn psr_decode_ignores_undocumented_bits() {
    let p = PSR::from_u32(0x0FFF_FF3E);
    assert_eq!(p, psr_from_bits(0));
}

#[test]
fn psr_set_zncv_overwrites_flags_and_keeps_masks() {
    let mut p = psr_from_bits(127);
    p.set_zncv_from_result(0, true, false);
    assert!(p.z);
    assert!(!p.n);
    assert!(p.c);
    assert!(!p.v);
    assert!(p.i);
    assert!(p.f);
    assert!(p.p);

    let mut q = psr_from_bits(0);
    q.set_zncv_from_result(0x8000_0000, false, true);
    assert!(!q.z);
    assert!(q.n);
    assert!(!q.c);
    assert!(q.v);
}

fn zero_regs() -> Registers {
    Registers { gpr: [0u32; 13], sp: 0, lr: 0, pc: 0, psr: psr_from_bits(0) }
}

#[test]
fn register_get_and_set_general_purpose() {
    let mut r = zero_regs();
    for idx in 0u8..13 {
        r.set(idx, 100 + idx as u32);
    }
    for idx in 0u8..13 {
        assert_eq!(r.get(idx), 100 + idx as u32);
    }
}

#[test]
fn register_dedicated_slots() {
    let mut r = zero_regs();
    r.set(13, 0xAAAA_0001);
    r.set(14, 0xBBBB_0002);
    assert_eq!(r.sp, 0xAAAA_0001);
    assert_eq!(r.lr, 0xBBBB_0002);
    assert_eq!(r.get(13), 0xAAAA_0001);
    assert_eq!(r.get(14), 0xBBBB_0002);
}

#[test]
fn register_pc_write_is_aligned() {
    let mut r = zero_regs();
    r.set(15, 0x1003);
    assert_eq!(r.pc, 0x1000);
    r.set(15, 0xFFFF_FFFF);
    assert_eq!(r.pc, 0xFFFF_FFFC);
    r.set(15, 0x2000_0010);
    assert_eq!(r.pc, 0x2000_0010);
}

#[test]
fn register_out_of_range_reads_zero_writes_ignored() {
    let mut r = zero_regs();
    r.set(0, 7);
    r.set(16, 0xDEAD_BEEF);
    r.set(255, 0xDEAD_BEEF);
    assert_eq!(r.get(16), 0);
    assert_eq!(r.get(255), 0);
    assert_eq!(r.get(0), 7);
    assert_eq!(r.sp, 0);
    assert_eq!(r.lr, 0);
    assert_eq!(r.pc, 0);
}
