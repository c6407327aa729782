//! Hardware watchpoints through the x86 debug registers: DR0-DR3 hold the
//! watched addresses and DR7 enables them and sets what each one watches.
use vstd::prelude::*;

verus! {

/// What a watchpoint traps on (the R/W field of DR7).
#[derive(Debug, Clone, Copy, PartialEq, Eq, Structural)]
pub enum WatchpointAction {
    Execute,
    Write,
    Read,
}

/// How many bytes a watchpoint covers.
#[derive(Debug, Clone, Copy, PartialEq, Eq, Structural)]
pub enum WatchpointSize {
    Size1,
    Size2,
    Size4,
}

/// A hardware watchpoint.
#[derive(Debug, Clone, Copy)]
pub struct Watchpoint {
    pub address: u32,
    pub action: WatchpointAction,
    pub global: bool,
    pub size: WatchpointSize,
}

/// The two-bit code of an action: execute 0b00, write 0b01, read 0b11.
pub open spec fn action_code(a: WatchpointAction) -> u32 {
    match a {
        WatchpointAction::Execute => 0b00,
        WatchpointAction::Write => 0b01,
        WatchpointAction::Read => 0b11,
    }
}

/// The code of a size: its position in the declaration, 0, 1 or 2.
pub open spec fn size_code(s: WatchpointSize) -> u32 {
    match s {
        WatchpointSize::Size1 => 0,
        WatchpointSize::Size2 => 1,
        WatchpointSize::Size4 => 2,
    }
}

/// The DR7 bits that belong to debug register `num` (< 4): its two enable
/// bits at `2 * num` and its four-bit control field at `16 + 4 * num`.
pub open spec fn dr7_mask(num: u32) -> u32 {
    ((0b11u32 << (2 * num) as u32) | (0b1111u32 << (16 + 4 * num) as u32)) as u32
}

/// The DR7 bits that enable `w` as debug register `num` (< 4): the global
/// (0b10) or local (0b01) enable bits at `2 * num`, and the size code or-ed
/// with the action code at `16 + 4 * num`.
pub open spec fn dr7_bits(w: Watchpoint, num: u32) -> u32 {
    let locality: u32 = if w.global { 0b10u32 } else { 0b01u32 };
    ((locality << (2 * num) as u32) | ((size_code(w.size) | action_code(w.action)) << (16 + 4
        * num) as u32)) as u32
}

impl WatchpointAction {
    fn code(self) -> (c: u32)
        ensures
            c == action_code(self),
            self is Execute ==> c == 0b00,
            self is Write ==> c == 0b01,
            self is Read ==> c == 0b11,
    {
        match self {
            WatchpointAction::Execute => 0b00,
            WatchpointAction::Write => 0b01,
            WatchpointAction::Read => 0b11,
        }
    }
}

impl WatchpointSize {
    fn code(self) -> (c: u32)
        ensures
            c == size_code(self),
            self is Size1 ==> c == 0,
            self is Size2 ==> c == 1,
            self is Size4 ==> c == 2,
    {
        match self {
            WatchpointSize::Size1 => 0,
            WatchpointSize::Size2 => 1,
            WatchpointSize::Size4 => 2,
        }
    }
}

impl Watchpoint {
    /// The DR7 bits of debug register `num`; `None` when `num` names no
    /// debug register (4 or more). The mask is never zero.
    pub fn dr7_mask_for_num(num: u8) -> (r: Option<u32>)
        ensures
            r == (if num < 4 {
                Some(dr7_mask(num as u32))
            } else {
                None::<u32>
            }),
            r matches Some(m) ==> m != 0,
    {
        if num < 4 {
            let n: u32 = num as u32;
            let m: u32 = (0b11u32 << (2 * n)) | (0b1111u32 << (16 + 4 * n));
            assert(n < 4 ==> ((0b11u32 << (2 * n)) | (0b1111u32 << (16 + 4 * n))) != 0)
                by (bit_vector);
            Some(m)
        } else {
            None
        }
    }

    /// The DR7 bits that enable this watchpoint as debug register `num`;
    /// `None` when `num` names no debug register. They are never zero.
    pub fn to_dr7_repr(&self, num: u8) -> (r: Option<u32>)
        ensures
            r == (if num < 4 {
                Some(dr7_bits(*self, num as u32))
            } else {
                None::<u32>
            }),
            r matches Some(v) ==> v != 0,
            r matches Some(v) ==> (v >> (2 * num) as u32) & 0b11 == (if self.global {
                0b10u32
            } else {
                0b01u32
            }),
            r matches Some(v) ==> (v >> (16 + 4 * num) as u32) & 0xf == ((if self.size is Size1 {
                0u32
            } else if self.size is Size2 {
                1u32
            } else {
                2u32
            }) | (if self.action is Execute {
                0b00u32
            } else if self.action is Write {
                0b01u32
            } else {
                0b11u32
            })),
    {
        proof {
            if num < 4 {
                lemma_dr7_fields(*self, num as u32);
            }
        }
        if num < 4 {
            let n: u32 = num as u32;
            let locality: u32 = if self.global {
                0b10u32
            } else {
                0b01u32
            };
            let code: u32 = self.size.code() | self.action.code();
            let v: u32 = (locality << (2 * n)) | (code << (16 + 4 * n));
            assert(n < 4 && (locality == 1 || locality == 2) ==> ((locality << (2 * n)) | (code
                << (16 + 4 * n))) != 0) by (bit_vector);
            Some(v)
        } else {
            None
        }
    }
}

/// The two values with which DR7 is updated to enable `watchpoint` as debug
/// register `num`: the mask that keeps every bit but those of `num`, and the
/// bits to set. `None` when `num` names no debug register.
pub fn dr7_update(num: u8, watchpoint: &Watchpoint) -> (r: Option<(u32, u32)>)
    ensures
        r == (if num < 4 {
            Some((!dr7_mask(num as u32), dr7_bits(*watchpoint, num as u32)))
        } else {
            None::<(u32, u32)>
        }),
{
    let mask = match Watchpoint::dr7_mask_for_num(num) {
        Some(m) => !m,
        None => {
            return None;
        },
    };
    let repr = match watchpoint.to_dr7_repr(num) {
        Some(v) => v,
        None => {
            return None;
        },
    };
    Some((mask, repr))
}

/// The new DR7: the old value with the bits outside `keep` cleared, then the
/// bits of `value` set.
pub fn merge_dr7(old: u32, keep: u32, value: u32) -> (new: u32)
    ensures
        new == (old & keep) | value,
{
    (old & keep) | value
}

/// Enabling a watchpoint as debug register `num` writes exactly its bits
/// into that register's DR7 field and leaves every other bit of DR7 as it
/// was.
pub proof fn lemma_dr7_update(old: u32, w: Watchpoint, num: u32)
    requires
        num < 4,
    ensures
        dr7_bits(w, num) & dr7_mask(num) == dr7_bits(w, num),
        ((old & !dr7_mask(num)) | dr7_bits(w, num)) & dr7_mask(num) == dr7_bits(w, num),
        ((old & !dr7_mask(num)) | dr7_bits(w, num)) & !dr7_mask(num) == old & !dr7_mask(num),
{
    let loc: u32 = if w.global { 0b10u32 } else { 0b01u32 };
    let sc: u32 = size_code(w.size);
    let ac: u32 = action_code(w.action);
    let code: u32 = sc | ac;
    let m = dr7_mask(num);
    let b = dr7_bits(w, num);
    assert(code <= 3) by (bit_vector)
        requires
            code == sc | ac,
            sc <= 2,
            ac <= 3,
    ;
    assert(b == (loc << (2 * num)) | (code << (16 + 4 * num)));
    assert(m == (0b11u32 << (2 * num)) | (0b1111u32 << (16 + 4 * num)));
    assert(b & m == b && ((old & !m) | b) & m == b && ((old & !m) | b) & !m == old & !m)
        by (bit_vector)
        requires
            num < 4,
            loc == 1 || loc == 2,
            code <= 3,
            b == (loc << (2 * num)) | (code << (16 + 4 * num)),
            m == (0b11u32 << (2 * num)) | (0b1111u32 << (16 + 4 * num)),
    ;
}

/// The DR7 fields of two different debug registers share no bit, so
/// enabling a watchpoint in one leaves the other's field as it was.
pub proof fn lemma_dr7_masks_disjoint(a: u32, b: u32)
    requires
        a < 4,
        b < 4,
        a != b,
    ensures
        dr7_mask(a) & dr7_mask(b) == 0,
        forall|old: u32, w: Watchpoint|
            #![trigger dr7_bits(w, a), old & dr7_mask(b)]
            ((old & !dr7_mask(a)) | dr7_bits(w, a)) & dr7_mask(b) == old & dr7_mask(b),
{
    let ma = dr7_mask(a);
    let mb = dr7_mask(b);
    assert(ma == (0b11u32 << (2 * a)) | (0b1111u32 << (16 + 4 * a)));
    assert(mb == (0b11u32 << (2 * b)) | (0b1111u32 << (16 + 4 * b)));
    assert(ma & mb == 0) by (bit_vector)
        requires
            a < 4,
            b < 4,
            a != b,
            ma == (0b11u32 << (2 * a)) | (0b1111u32 << (16 + 4 * a)),
            mb == (0b11u32 << (2 * b)) | (0b1111u32 << (16 + 4 * b)),
    ;
    assert forall|old: u32, w: Watchpoint|
        #![trigger dr7_bits(w, a), old & dr7_mask(b)]
        ((old & !dr7_mask(a)) | dr7_bits(w, a)) & dr7_mask(b) == old & dr7_mask(b) by {
        let bits = dr7_bits(w, a);
        lemma_dr7_update(old, w, a);
        assert(bits & ma == bits);
        assert(((old & !ma) | bits) & mb == old & mb) by (bit_vector)
            requires
                ma & mb == 0,
                bits & ma == bits,
        ;
    }
}

/// The R/W code of an action, as DR7 defines it: execute 0b00, write 0b01,
/// read (or write) 0b11.
pub proof fn lemma_action_codes()
    ensures
        action_code(WatchpointAction::Execute) == 0b00,
        action_code(WatchpointAction::Write) == 0b01,
        action_code(WatchpointAction::Read) == 0b11,
        size_code(WatchpointSize::Size1) == 0,
        size_code(WatchpointSize::Size2) == 1,
        size_code(WatchpointSize::Size4) == 2,
{
}

/// What the DR7 bits of a watchpoint in debug register `num` hold: the two
/// enable bits at `2 * num` are 0b10 for a global and 0b01 for a local
/// watchpoint; the four-bit field at `16 + 4 * num` is the size index (0, 1,
/// 2) or-ed with the action's R/W code (0b00, 0b01, 0b11); no other bit is
/// set.
pub proof fn lemma_dr7_fields(w: Watchpoint, num: u32)
    requires
        num < 4,
    ensures
        (dr7_bits(w, num) >> (2 * num) as u32) & 0b11 == (if w.global {
            0b10u32
        } else {
            0b01u32
        }),
        (dr7_bits(w, num) >> (16 + 4 * num) as u32) & 0xf == ((if w.size is Size1 {
            0u32
        } else if w.size is Size2 {
            1u32
        } else {
            2u32
        }) | (if w.action is Execute {
            0b00u32
        } else if w.action is Write {
            0b01u32
        } else {
            0b11u32
        })),
        dr7_bits(w, num) & !dr7_mask(num) == 0,
{
    let loc: u32 = if w.global { 0b10u32 } else { 0b01u32 };
    let sc: u32 = size_code(w.size);
    let ac: u32 = action_code(w.action);
    let code: u32 = sc | ac;
    let b = dr7_bits(w, num);
    let m = dr7_mask(num);
    assert(code <= 3) by (bit_vector)
        requires
            code == sc | ac,
            sc <= 2,
            ac <= 3,
    ;
    assert(b == (loc << (2 * num)) | (code << (16 + 4 * num)));
    assert(m == (0b11u32 << (2 * num)) | (0b1111u32 << (16 + 4 * num)));
    assert((b >> (2 * num)) & 0b11 == loc && (b >> (16 + 4 * num)) & 0xf == code && b & !m == 0)
        by (bit_vector)
        requires
            num < 4,
            loc == 1 || loc == 2,
            code <= 3,
            b == (loc << (2 * num)) | (code << (16 + 4 * num)),
            m == (0b11u32 << (2 * num)) | (0b1111u32 << (16 + 4 * num)),
    ;
}

} // verus!
