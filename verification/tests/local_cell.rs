use dosdbg::local_cell::LocalCell;
use std::cell::RefCell;

#[test]
fn cell_holds_value() {
    let c = LocalCell::new(5u32);
    *c.borrow_mut() += 1;
    assert_eq!(*c.borrow(), 6);
    let inner: RefCell<u32> = c.into_inner();
    assert_eq!(inner.into_inner(), 6);
}

#[test]
fn cell_from_ref_cell() {
    let c: LocalCell<&str> = LocalCell::from(RefCell::new("x"));
    assert_eq!(*c.borrow(), "x");
}
