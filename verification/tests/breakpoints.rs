use dosdbg::stub::gdb::{BreakSlots, DosTarget, BREAKPOINT_SLOTS, UNUSED_SLOT_ADDR};

#[test]
fn new_target_has_no_breakpoints() {
    let t = DosTarget::new();
    let slots = BreakSlots::new();
    assert_eq!(t.breakpoint_count(), 0);
    // every slot starts out unused
    assert_eq!(t.find_breakpoint(&slots, UNUSED_SLOT_ADDR), Some(0));
    assert_eq!(t.find_breakpoint(&slots, 0x100), None);
}

#[test]
fn add_then_remove_gives_back_opcode() {
    let mut t = DosTarget::new();
    let mut s = BreakSlots::new();
    assert!(t.add_breakpoint(&mut s, 0x1234, 0x90));
    assert_eq!(t.breakpoint_count(), 1);
    assert_eq!(t.find_breakpoint(&s, 0x1234), Some(0));
    assert_eq!(t.remove_breakpoint(&mut s, 0x1234), Some(0x90));
    assert_eq!(t.breakpoint_count(), 0);
}

#[test]
fn remove_absent_address_changes_nothing() {
    let mut t = DosTarget::new();
    let mut s = BreakSlots::new();
    assert!(t.add_breakpoint(&mut s, 0x10, 0x55));
    assert_eq!(t.remove_breakpoint(&mut s, 0x20), None);
    assert_eq!(t.breakpoint_count(), 1);
    assert_eq!(t.find_breakpoint(&s, 0x10), Some(0));
}

#[test]
fn remove_moves_top_into_the_gap() {
    let mut t = DosTarget::new();
    let mut s = BreakSlots::new();
    assert!(t.add_breakpoint(&mut s, 0xa, 1));
    assert!(t.add_breakpoint(&mut s, 0xb, 2));
    assert!(t.add_breakpoint(&mut s, 0xc, 3));
    assert_eq!(t.remove_breakpoint(&mut s, 0xa), Some(1));
    assert_eq!(t.breakpoint_count(), 2);
    // the top breakpoint took slot 0, the removed one now sits in slot 2
    assert_eq!(t.find_breakpoint(&s, 0xc), Some(0));
    assert_eq!(t.find_breakpoint(&s, 0xb), Some(1));
    assert_eq!(t.find_breakpoint(&s, 0xa), Some(2));
    assert_eq!(t.remove_breakpoint(&mut s, 0xb), Some(2));
    assert_eq!(t.remove_breakpoint(&mut s, 0xc), Some(3));
    assert_eq!(t.breakpoint_count(), 0);
}

#[test]
fn removing_a_stale_slot_with_one_planted_empties_the_stack() {
    let mut t = DosTarget::new();
    let mut s = BreakSlots::new();
    assert!(t.add_breakpoint(&mut s, 0xa, 1));
    assert!(t.add_breakpoint(&mut s, 0xb, 2));
    assert_eq!(t.remove_breakpoint(&mut s, 0xa), Some(1));
    assert_eq!(t.breakpoint_count(), 1);
    // 0xa is no longer planted, but its old slot still names it
    assert_eq!(t.remove_breakpoint(&mut s, 0xa), Some(1));
    assert_eq!(t.breakpoint_count(), 0);
}

#[test]
fn a_new_target_keeps_the_slots() {
    let mut s = BreakSlots::new();
    let mut t = DosTarget::new();
    assert!(t.add_breakpoint(&mut s, 0x77, 9));
    let t2 = DosTarget::new();
    assert_eq!(t2.breakpoint_count(), 0);
    // the slot written by the first target still names 0x77
    assert_eq!(t2.find_breakpoint(&s, 0x77), Some(0));
}

#[test]
fn table_fills_to_capacity() {
    let mut t = DosTarget::new();
    let mut s = BreakSlots::new();
    for i in 0..BREAKPOINT_SLOTS {
        assert!(t.add_breakpoint(&mut s, i as u32, i as u8));
    }
    assert_eq!(t.breakpoint_count() as usize, BREAKPOINT_SLOTS);
    assert_eq!(t.find_breakpoint(&s, 127), Some(127));
    assert_eq!(t.remove_breakpoint(&mut s, 5), Some(5));
    assert_eq!(t.find_breakpoint(&s, 127), Some(5));
}

#[test]
fn re_adding_an_address_finds_the_lower_slot_first() {
    let mut t = DosTarget::new();
    let mut s = BreakSlots::new();
    assert!(t.add_breakpoint(&mut s, 0x40, 7));
    assert!(t.add_breakpoint(&mut s, 0x40, 0xcc));
    assert_eq!(t.remove_breakpoint(&mut s, 0x40), Some(7));
    assert_eq!(t.breakpoint_count(), 1);
}
