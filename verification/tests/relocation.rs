use mem_manager::relocate::EMULATOR_BASE;
use mem_manager::{Relocatable, VirtAddr};

#[test]
fn the_base_is_the_start_of_the_upper_half_of_canonical_addresses() {
    assert_eq!(EMULATOR_BASE, 0xffff_8000_0000_0000);
}

#[test]
fn relocating_once_adds_the_base() {
    let mut v = VirtAddr(0x1000);
    v.relocate();
    assert!(v == VirtAddr(0xffff_8000_0000_1000));

    let mut zero = VirtAddr(0);
    zero.relocate();
    assert!(zero == VirtAddr(EMULATOR_BASE));

    let mut last = VirtAddr(0x7fff_ffff_ffff);
    last.relocate();
    assert!(last == VirtAddr(u64::MAX));
}

#[test]
fn relocating_twice_adds_the_base_twice() {
    let mut v = VirtAddr(0x1000);
    v.relocate();
    let once = v;
    v.relocate();
    assert!(v != once);
    assert!(v == VirtAddr(0x1000u64.wrapping_add(EMULATOR_BASE.wrapping_mul(2))));
    assert!(v == VirtAddr(0xffff_0000_0000_1000));
}

#[test]
fn relocating_is_adding_the_base_modulo_the_address_space() {
    let numbers = [0u64, 1, 0x1000, 0x7fff_ffff_ffff, 0x8000_0000_0000, 0xffff_8000_0000_0000, u64::MAX];
    for &n in numbers.iter() {
        let mut v = VirtAddr(n);
        v.relocate();
        let once = ((n as u128 + EMULATOR_BASE as u128) % (1u128 << 64)) as u64;
        assert!(v == VirtAddr(once));
        assert!(v == VirtAddr(n) + VirtAddr(EMULATOR_BASE));
        v.relocate();
        let twice = ((n as u128 + 2 * EMULATOR_BASE as u128) % (1u128 << 64)) as u64;
        assert!(v == VirtAddr(twice));
        assert!(twice != once);
    }
}

#[test]
fn relocating_past_the_lower_half_wraps() {
    let mut v = VirtAddr(0x8000_0000_0000);
    v.relocate();
    assert!(v == VirtAddr(0));

    let mut top = VirtAddr(u64::MAX);
    top.relocate();
    assert!(top == VirtAddr(0xffff_7fff_ffff_ffff));
}

#[test]
fn relocating_lower_half_addresses_keeps_their_order_and_distance() {
    let mut a = VirtAddr(0x2000);
    let mut b = VirtAddr(0x5000);
    a.relocate();
    b.relocate();
    assert!(a < b);
    assert!(b - a == VirtAddr(0x3000));
    assert!(a >= VirtAddr(EMULATOR_BASE));
}

fn relocate_all<T: Relocatable>(values: &mut [T]) {
    for value in values.iter_mut() {
        value.relocate();
    }
}

#[test]
fn a_pass_relocates_each_value_once() {
    let mut values = [VirtAddr(0), VirtAddr(8), VirtAddr(0x40_0000)];
    relocate_all(&mut values);
    assert!(values[0] == VirtAddr(0xffff_8000_0000_0000));
    assert!(values[1] == VirtAddr(0xffff_8000_0000_0008));
    assert!(values[2] == VirtAddr(0xffff_8000_0040_0000));
}
