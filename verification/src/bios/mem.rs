//! Extended-memory sizing through the BIOS (INT 15h, AX = E801h).
use vstd::prelude::*;

verus! {

/// The amount of extended memory the BIOS reports.
#[derive(Debug, Clone, Copy, PartialEq, Eq, Structural)]
pub struct MemorySizes {
    /// Extended memory from 1MiB to 16MiB in KiB.
    pub extended1: u16,
    /// Extended memory from 16MiB in 64KiB blocks.
    pub extended2: u16,
}

/// The reply of INT 15h, AX = E801h, from the carry flag and AX, BX, CX, DX
/// after the call (CX and DX cleared before it): an error when the carry is
/// set or AH is 86h (unsupported) or 80h (invalid command); otherwise the
/// sizes in CX/DX, or in AX/BX when CX was left zero.
pub fn upper_memory_from_registers(carry: bool, ax: u16, bx: u16, cx: u16, dx: u16) -> (r: Result<
    MemorySizes,
    (),
>)
    ensures
        r == (if carry || ax / 0x100 == 0x86 || ax / 0x100 == 0x80 {
            Err::<MemorySizes, ()>(())
        } else if cx == 0 {
            Ok::<MemorySizes, ()>(MemorySizes { extended1: ax, extended2: bx })
        } else {
            Ok::<MemorySizes, ()>(MemorySizes { extended1: cx, extended2: dx })
        }),
{
    let ah: u16 = ax >> 8;
    assert(ax >> 8 == ax / 0x100) by (bit_vector);
    if carry || ah == 0x86 || ah == 0x80 {
        Err(())
    } else if cx == 0 {
        Ok(MemorySizes { extended1: ax, extended2: bx })
    } else {
        Ok(MemorySizes { extended1: cx, extended2: dx })
    }
}

impl MemorySizes {
    /// The extended memory in bytes, in 32 bits.
    pub open spec fn spec_total(self) -> int {
        self.extended1 * 1024 + self.extended2 * 64 * 1024
    }

    /// The extended memory is the sum of its two parts: KiB below 16 MiB and
    /// 64 KiB blocks above, so one more block below adds 1024 bytes and one
    /// more block above adds 65536.
    pub proof fn lemma_total(self)
        ensures
            self.spec_total() == self.extended1 * 1024 + self.extended2 * 65536,
            self.extended1 < 0xffff ==> (MemorySizes {
                extended1: (self.extended1 + 1) as u16,
                ..self
            }).spec_total() == self.spec_total() + 1024,
            self.extended2 < 0xffff ==> (MemorySizes {
                extended2: (self.extended2 + 1) as u16,
                ..self
            }).spec_total() == self.spec_total() + 65536,
    {
    }

    /// The extended memory in bytes. A total that does not fit in 32 bits is
    /// outside what this method accepts.
    pub fn total_size(&self) -> (r: u32)
        requires
            self.spec_total() <= u32::MAX,
        ensures
            r == self.spec_total(),
            r == self.extended1 * 1024 + self.extended2 * 65536,
    {
        (self.extended1 as u32) * 1024 + (self.extended2 as u32) * 64 * 1024
    }
}

} // verus!
