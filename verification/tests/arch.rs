//! CPU control primitives and translation-register access.

use std::cell::Cell;

use nucleus::arch::DebugSyncFlag;
use nucleus::arch::PhysicalAddress;
use nucleus::arch::TranslationRegisters;
use nucleus::arch::VirtualAddress;
use nucleus::arch::core_id_from_affinity;
use nucleus::arch::exception_level_from_raw;
use nucleus::arch::jtag_dbg_wait;
use nucleus::arch::loop_delay;
use nucleus::arch::loop_until;

#[test]
fn core_id_masks_the_low_two_bits() {
    assert_eq!(core_id_from_affinity(0b10), 2);
    assert_eq!(core_id_from_affinity(0b101), 1);
    assert_eq!(core_id_from_affinity(0), 0);
    assert_eq!(core_id_from_affinity(u64::MAX), 3);
}

#[test]
fn exception_level_sits_in_bits_three_and_two() {
    assert_eq!(exception_level_from_raw(0x4), 1);
    assert_eq!(exception_level_from_raw(0x8), 2);
    assert_eq!(exception_level_from_raw(0xC), 3);
    assert_eq!(exception_level_from_raw(0x0), 0);
}

#[test]
fn spin_returns_at_the_first_true_and_never_polls_again() {
    let polls = Cell::new(0u32);
    loop_until(|| {
        polls.set(polls.get() + 1);
        polls.get() >= 5
    });
    assert_eq!(polls.get(), 5);
}

#[test]
fn spin_with_immediately_true_predicate_polls_once() {
    let polls = Cell::new(0u32);
    loop_until(|| {
        polls.set(polls.get() + 1);
        true
    });
    assert_eq!(polls.get(), 1);
}

#[test]
fn delay_completes() {
    loop_delay(150);
    loop_delay(0);
}

#[test]
fn debug_wait_returns_after_external_clear_and_rearms() {
    let mut flag = DebugSyncFlag::new();
    assert!(flag.is_set());
    flag.debugger_clear();
    assert!(!flag.is_set());
    jtag_dbg_wait(&mut flag);
    // re-armed on return: the next wait blocks until a fresh clear
    assert!(flag.is_set());
}

#[test]
fn address_spaces_carry_their_values() {
    let phys = PhysicalAddress::new(0x4000);
    let virt = VirtualAddress::new(0x4000);
    assert_eq!(phys.value(), 0x4000);
    assert_eq!(virt.value(), 0x4000);
}

#[test]
fn translation_table_base_write_touches_only_its_register() {
    let mut regs = TranslationRegisters::new(0x4000, 0x3518_3518, 0x44E0_48E0);
    assert_eq!(regs.read_translation_table_base().value(), 0x4000);
    assert_eq!(regs.read_translation_control(), 0x3518_3518);
    assert_eq!(regs.read_mair(), 0x44E0_48E0);
    regs.write_translation_table_base(PhysicalAddress::new(0x8000));
    assert_eq!(regs.read_translation_table_base().value(), 0x8000);
    // the control and attribute registers are untouched
    assert_eq!(regs.read_translation_control(), 0x3518_3518);
    assert_eq!(regs.read_mair(), 0x44E0_48E0);
}
