use dosdbg::stub::debug_regs::{
    dr7_update, merge_dr7, Watchpoint, WatchpointAction, WatchpointSize,
};

fn wp(action: WatchpointAction, global: bool, size: WatchpointSize) -> Watchpoint {
    Watchpoint { address: 0x1000, action, global, size }
}

#[test]
fn masks_per_register() {
    assert_eq!(Watchpoint::dr7_mask_for_num(0), Some(0x000f_0003));
    assert_eq!(Watchpoint::dr7_mask_for_num(1), Some(0x00f0_000c));
    assert_eq!(Watchpoint::dr7_mask_for_num(2), Some(0x0f00_0030));
    assert_eq!(Watchpoint::dr7_mask_for_num(3), Some(0xf000_00c0));
    assert_eq!(Watchpoint::dr7_mask_for_num(4), None);
    assert_eq!(Watchpoint::dr7_mask_for_num(255), None);
}

#[test]
fn enable_bits() {
    let w = wp(WatchpointAction::Write, true, WatchpointSize::Size1);
    assert_eq!(w.to_dr7_repr(0), Some(0x0001_0002));
    let w = wp(WatchpointAction::Read, false, WatchpointSize::Size4);
    assert_eq!(w.to_dr7_repr(3), Some(0x3000_0040));
    let w = wp(WatchpointAction::Execute, false, WatchpointSize::Size2);
    assert_eq!(w.to_dr7_repr(1), Some(0x0010_0004));
    assert_eq!(w.to_dr7_repr(4), None);
}

#[test]
fn update_touches_only_own_field() {
    let w = wp(WatchpointAction::Write, true, WatchpointSize::Size1);
    let (keep, value) = dr7_update(1, &w).unwrap();
    assert_eq!(keep, !0x00f0_000c);
    assert_eq!(value, 0x0010_0008);
    let new = merge_dr7(0xffff_ffff, keep, value);
    assert_eq!(new, 0xff1f_fffb);
    assert_eq!(new & !0x00f0_000c, 0xffff_ffff & !0x00f0_000c);
    assert_eq!(merge_dr7(0, keep, value), 0x0010_0008);
    assert_eq!(dr7_update(4, &w), None);
}
