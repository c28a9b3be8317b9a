use interrupts::{aarch64, riscv64, unsupported, x86_64};

#[test]
fn x86_read_disable_saves_the_interrupt_flag() {
    assert_eq!(x86_64::read_disable(0x246), (true, 0x046));
    assert_eq!(x86_64::read_disable(0x046), (false, 0x046));
}

#[test]
fn x86_restore_sets_the_flag_only_when_saved() {
    assert_eq!(x86_64::restore(true, 0x046), 0x246);
    assert_eq!(x86_64::restore(false, 0x046), 0x046);
}

#[test]
fn x86_round_trip_and_nesting() {
    let rflags: u64 = 0x0000_0000_0024_0ED7;
    let (outer, after) = x86_64::read_disable(rflags);
    let (inner, after_inner) = x86_64::read_disable(after);
    assert!(!inner);
    let released = x86_64::restore(inner, after_inner);
    assert_eq!(released & x86_64::INTERRUPT_FLAG, 0);
    assert_eq!(x86_64::restore(outer, released), rflags);
}

#[test]
fn x86_restore_leaves_other_bits_that_changed() {
    let (saved, after) = x86_64::read_disable(0x246);
    let toggled = after | 0x801;
    assert_eq!(x86_64::restore(saved, toggled), 0xA47);
}

#[test]
fn aarch64_read_disable_masks_d_a_i_and_f() {
    assert_eq!(aarch64::read_disable(0), (0, 0x3C0));
    assert_eq!(aarch64::read_disable(0x040), (0x040, 0x3C0));
    assert_eq!(aarch64::read_disable(0x200), (0x200, 0x3C0));
}

#[test]
fn aarch64_round_trip_and_nesting() {
    let daif: u64 = 0x200;
    let (outer, after) = aarch64::read_disable(daif);
    let (inner, after_inner) = aarch64::read_disable(after);
    let released = aarch64::restore(inner, after_inner);
    assert_eq!(released, 0x3C0);
    assert_eq!(aarch64::restore(outer, released), daif);
}

#[test]
fn riscv_read_disable_clears_sie_and_mie() {
    assert_eq!(riscv64::read_disable(0x1A8A), (0x8A, 0x1A80));
    assert_eq!(riscv64::read_disable(0x1A80), (0x80, 0x1A80));
}

#[test]
fn riscv_round_trip_and_nesting() {
    let mstatus: u64 = 0x0000_000A_0000_1A8A;
    let (outer, after) = riscv64::read_disable(mstatus);
    let (inner, after_inner) = riscv64::read_disable(after);
    let released = riscv64::restore(inner, after_inner);
    assert_eq!(released & riscv64::ENABLE_BITS, 0);
    assert_eq!(riscv64::restore(outer, released), mstatus);
}

#[test]
fn riscv_restore_sets_only_the_saved_bits() {
    let (saved, after) = riscv64::read_disable(0x1A8A);
    let toggled = (after & !0x1000) | 0x20;
    assert_eq!(toggled, 0x0AA0);
    assert_eq!(riscv64::restore(saved, toggled), 0x0AAA);
}

#[test]
fn riscv_restore_leaves_mpie_cleared_since_disable() {
    let (saved, after) = riscv64::read_disable(0x8A);
    assert_eq!((saved, after), (0x8A, 0x80));
    let cleared = after & !0x80;
    assert_eq!(riscv64::restore(saved, cleared), 0x0A);
}

#[test]
fn riscv_restore_leaves_spie_cleared_since_disable() {
    let (saved, after) = riscv64::read_disable(0x22);
    assert_eq!(riscv64::restore(saved, after & !0x20), 0x02);
}

#[test]
fn unsupported_backend_does_nothing() {
    let flags = unsupported::read_disable();
    assert_eq!(flags, ());
    unsupported::restore(flags);
}
