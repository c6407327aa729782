//! BIOS services: serial ports (`com`), memory sizing (`mem`) and the
//! register split used by the wait service.
pub mod com;
pub mod mem;

use vstd::prelude::*;

verus! {

/// The `(CX, DX)` register pair with which the BIOS wait service
/// (INT 15h, AH = 86h) is asked to wait `u_time` microseconds:
/// CX holds the high word and DX the low word.
pub fn sleep_registers(u_time: u32) -> (r: (u16, u16))
    ensures
        r.0 == u_time / 0x1_0000,
        r.1 == u_time % 0x1_0000,
        r.0 * 0x1_0000 + r.1 == u_time,
{
    let cx: u16 = ((u_time & 0xffff_0000) >> 16) as u16;
    let dx: u16 = u_time as u16;
    assert(((u_time & 0xffff_0000) >> 16) == u_time / 0x1_0000) by (bit_vector);
    assert((u_time as u16) == u_time % 0x1_0000) by (bit_vector);
    (cx, dx)
}

} // verus!
