//! The debugging target: the saved register file of the debugged program and
//! the table of software breakpoints planted in its code.
use vstd::prelude::*;

use crate::stub::core_regs::{GdbCoreRegs, GdbSegmentRegs};
use crate::stub::{TargetRegisters, EFLAGS_TRAP};

verus! {

/// Number of slots in the software-breakpoint table.
pub const BREAKPOINT_SLOTS: usize = 128;

/// The address that marks a slot that was never used.
pub const UNUSED_SLOT_ADDR: u32 = 0xdeadbeef;

/// One software breakpoint: where the `int3` opcode was planted and the byte
/// of code it replaced.
#[derive(Debug, Clone, Copy, PartialEq, Eq, Structural)]
pub struct Breakpoint {
    pub addr: u32,
    pub opcode: u8,
}

/// Mathematical model of the breakpoint table: every slot, and the stack
/// head. The slots below `head` hold the planted breakpoints; the slots at
/// and above it keep whatever they held before (never-used slots, or
/// breakpoints removed earlier).
pub struct BreakTable {
    pub entries: Seq<Breakpoint>,
    pub head: nat,
}

/// The lowest slot of `s` whose address is `addr` (meaningful when there is
/// one).
pub open spec fn first_match(s: Seq<Breakpoint>, addr: u32) -> int {
    choose|i: int| is_first_match(s, addr, i)
}

/// `i` is the lowest slot of `s` whose address is `addr`.
pub open spec fn is_first_match(s: Seq<Breakpoint>, addr: u32, i: int) -> bool {
    &&& 0 <= i < s.len()
    &&& s[i].addr == addr
    &&& forall|j: int| 0 <= j < i ==> s[j].addr != addr
}

impl BreakTable {
    pub open spec fn wf(self) -> bool {
        &&& self.entries.len() == BREAKPOINT_SLOTS
        &&& self.head <= BREAKPOINT_SLOTS
    }

    /// The planted breakpoints, bottom of the stack first.
    pub open spec fn live(self) -> Seq<Breakpoint> {
        self.entries.take(self.head as int)
    }

    /// Some slot, live or not, holds `addr`.
    pub open spec fn holds(self, addr: u32) -> bool {
        exists|i: int| 0 <= i < self.entries.len() && self.entries[i].addr == addr
    }

    /// The lowest slot that holds `addr` (meaningful when `holds(addr)`).
    pub open spec fn find(self, addr: u32) -> int {
        first_match(self.entries, addr)
    }

    /// The table after pushing a breakpoint at `addr` that replaced `opcode`.
    pub open spec fn add(self, addr: u32, opcode: u8) -> BreakTable {
        BreakTable {
            entries: self.entries.update(self.head as int, Breakpoint { addr, opcode }),
            head: self.head + 1,
        }
    }

    /// The table after removing the breakpoint found in slot `i`: with one
    /// planted breakpoint the stack is emptied; otherwise slot `i` and the top
    /// slot trade places and the stack shrinks by one.
    pub open spec fn remove_at(self, i: int) -> BreakTable {
        if self.head == 1 {
            BreakTable { entries: self.entries, head: 0 }
        } else {
            let top = self.head - 1;
            BreakTable {
                entries: self.entries.update(i, self.entries[top]).update(top, self.entries[i]),
                head: (self.head - 1) as nat,
            }
        }
    }

    /// Removing `addr`: the new table, and the opcode to write back at `addr`
    /// (`None` when no slot holds `addr`).
    pub open spec fn remove(self, addr: u32) -> (BreakTable, Option<u8>) {
        if self.holds(addr) {
            let i = self.find(addr);
            (self.remove_at(i), Some(self.entries[i].opcode))
        } else {
            (self, None)
        }
    }

    /// Removing `addr` from this table would pop an empty stack.
    pub open spec fn remove_underflows(self, addr: u32) -> bool {
        self.head == 0 && self.holds(addr)
    }
}

/// A slot that holds `addr` has a lowest such slot, and `find` names it.
pub proof fn lemma_find_is_first(t: BreakTable, addr: u32)
    requires
        t.holds(addr),
    ensures
        is_first_match(t.entries, addr, t.find(addr)),
{
    let w = choose|i: int| 0 <= i < t.entries.len() && t.entries[i].addr == addr;
    lemma_first_below(t.entries, addr, w + 1);
}

/// Below any slot that holds `addr` there is a first such slot.
proof fn lemma_first_below(s: Seq<Breakpoint>, addr: u32, n: int)
    requires
        0 <= n <= s.len(),
        (exists|i: int| 0 <= i < n && s[i].addr == addr),
    ensures
        (exists|i: int| is_first_match(s, addr, i)),
    decreases n,
{
    if exists|i: int| 0 <= i < n - 1 && s[i].addr == addr {
        lemma_first_below(s, addr, n - 1);
    } else {
        assert(is_first_match(s, addr, n - 1));
    }
}

/// The first slot that holds `addr` is unique.
pub proof fn lemma_first_match_unique(s: Seq<Breakpoint>, addr: u32, i: int)
    requires
        is_first_match(s, addr, i),
    ensures
        first_match(s, addr) == i,
{
    let k = choose|j: int| is_first_match(s, addr, j);
    assert(is_first_match(s, addr, k));
    if k < i {
        assert(s[k].addr != addr);
    } else if k > i {
        assert(s[i].addr != addr);
    }
}

/// No planted breakpoint is at `addr`.
pub open spec fn not_planted(t: BreakTable, addr: u32) -> bool {
    forall|j: int| 0 <= j < t.head ==> #[trigger] t.entries[j].addr != addr
}

/// Planting a breakpoint at an address where none is planted and removing it
/// again hands back the code byte it replaced and leaves the same planted
/// breakpoints, in the same order, as before.
pub proof fn lemma_add_then_remove(t: BreakTable, addr: u32, opcode: u8)
    requires
        t.wf(),
        t.head < BREAKPOINT_SLOTS,
        not_planted(t, addr),
    ensures
        t.add(addr, opcode).remove(addr).1 == Some(opcode),
        t.add(addr, opcode).remove(addr).0.wf(),
        t.add(addr, opcode).remove(addr).0.head == t.head,
        t.add(addr, opcode).remove(addr).0.live() == t.live(),
{
    let t1 = t.add(addr, opcode);
    let h = t.head as int;
    assert(is_first_match(t1.entries, addr, h));
    lemma_first_match_unique(t1.entries, addr, h);
    assert(t1.holds(addr));
    let t2 = t1.remove_at(h);
    assert(t2.live() =~= t.live());
}

/// Removing an address that is planted takes the lowest planted breakpoint
/// at it out of the stack: the top of the stack moves into its place and the
/// stack shrinks by one; its code byte is handed back.
pub proof fn lemma_remove_planted(t: BreakTable, addr: u32)
    requires
        t.wf(),
        !not_planted(t, addr),
    ensures
        t.holds(addr),
        0 <= t.find(addr) < t.head,
        t.remove(addr).1 == Some(t.live()[t.find(addr)].opcode),
        t.remove(addr).0.wf(),
        t.remove(addr).0.head == t.head - 1,
        t.remove(addr).0.live() == t.live().update(t.find(addr), t.live().last()).drop_last(),
{
    let j = choose|j: int| 0 <= j < t.head && t.entries[j].addr == addr;
    assert(t.holds(addr));
    lemma_find_is_first(t, addr);
    let i = t.find(addr);
    assert(i <= j);
    let t2 = t.remove_at(i);
    assert(t2.live() =~= t.live().update(i, t.live().last()).drop_last());
}

/// Removing an address that no slot holds changes nothing and hands back
/// nothing.
pub proof fn lemma_remove_absent(t: BreakTable, addr: u32)
    requires
        !t.holds(addr),
    ensures
        t.remove(addr) == (t, None::<u8>),
{
}

/// Removing always keeps the table well formed, and a removal that finds
/// its address shrinks the stack by one.
pub proof fn lemma_remove_shrinks(t: BreakTable, addr: u32)
    requires
        t.wf(),
        !t.remove_underflows(addr),
        t.holds(addr),
    ensures
        t.remove(addr).0.wf(),
        t.remove(addr).0.head == t.head - 1,
{
    lemma_find_is_first(t, addr);
}

/// The saved registers as GDB is told them, over the register file `base`:
/// the stack pointer is reported 6 bytes higher than saved (the interrupt
/// frame pushed by the stop), segment registers are widened to 32 bits, and
/// the FPU and SSE registers of `base` are left as they were.
pub open spec fn reported_registers(r: TargetRegisters, base: GdbCoreRegs) -> GdbCoreRegs {
    GdbCoreRegs {
        eax: r.eax,
        ebx: r.ebx,
        ecx: r.ecx,
        edx: r.edx,
        esi: r.esi,
        edi: r.edi,
        esp: (r.esp + 6) as u32,
        ebp: r.ebp,
        eip: r.eip,
        eflags: r.eflags,
        segments: GdbSegmentRegs {
            cs: r.cs as u32,
            ds: r.ds as u32,
            es: r.es as u32,
            ss: r.ss as u32,
            fs: r.fs as u32,
            gs: r.gs as u32,
        },
        ..base
    }
}

/// The register file GDB sends, as it is saved: segment registers keep their
/// low 16 bits.
pub open spec fn registers_from_gdb(g: GdbCoreRegs) -> TargetRegisters {
    TargetRegisters {
        eax: g.eax,
        ebx: g.ebx,
        ecx: g.ecx,
        edx: g.edx,
        esi: g.esi,
        edi: g.edi,
        esp: g.esp,
        ebp: g.ebp,
        eip: g.eip,
        eflags: g.eflags,
        cs: g.segments.cs as u16,
        ds: g.segments.ds as u16,
        es: g.segments.es as u16,
        ss: g.segments.ss as u16,
        fs: g.segments.fs as u16,
        gs: g.segments.gs as u16,
    }
}

proof fn lemma_low_half(x: u32)
    ensures
        ((x as u16) as u32) == x % 0x1_0000,
{
    assert(((x as u16) as u32) == x % 0x1_0000) by (bit_vector);
}

proof fn lemma_widen_narrow(x: u16)
    ensures
        ((x as u32) as u16) == x,
{
    assert(((x as u32) as u16) == x) by (bit_vector);
}

/// Reporting puts each saved register in GDB's field of the same name: the
/// general registers unchanged, the stack pointer 6 bytes higher, each
/// segment register widened to 32 bits with the same value; the FPU and SSE
/// registers are those of `base`.
pub proof fn lemma_reported_fields(r: TargetRegisters, base: GdbCoreRegs)
    requires
        r.esp + 6 <= u32::MAX,
    ensures
        ({
            let g = reported_registers(r, base);
            &&& g.eax == r.eax && g.ecx == r.ecx && g.edx == r.edx && g.ebx == r.ebx
            &&& g.esp == r.esp + 6 && g.ebp == r.ebp && g.esi == r.esi && g.edi == r.edi
            &&& g.eip == r.eip && g.eflags == r.eflags
            &&& g.segments.cs == r.cs && g.segments.ss == r.ss && g.segments.ds == r.ds
            &&& g.segments.es == r.es && g.segments.fs == r.fs && g.segments.gs == r.gs
            &&& g.st == base.st && g.fpu == base.fpu && g.xmm == base.xmm
            &&& g.mxcsr == base.mxcsr
        }),
{
}

/// Taking GDB's registers saves each one in the field of the same name; a
/// segment register keeps its value modulo 2^16.
pub proof fn lemma_saved_fields(g: GdbCoreRegs)
    ensures
        ({
            let r = registers_from_gdb(g);
            &&& r.eax == g.eax && r.ecx == g.ecx && r.edx == g.edx && r.ebx == g.ebx
            &&& r.esp == g.esp && r.ebp == g.ebp && r.esi == g.esi && r.edi == g.edi
            &&& r.eip == g.eip && r.eflags == g.eflags
            &&& r.cs == g.segments.cs % 0x1_0000 && r.ss == g.segments.ss % 0x1_0000
            &&& r.ds == g.segments.ds % 0x1_0000 && r.es == g.segments.es % 0x1_0000
            &&& r.fs == g.segments.fs % 0x1_0000 && r.gs == g.segments.gs % 0x1_0000
        }),
{
    let s = g.segments;
    lemma_low_half(s.cs);
    lemma_low_half(s.ss);
    lemma_low_half(s.ds);
    lemma_low_half(s.es);
    lemma_low_half(s.fs);
    lemma_low_half(s.gs);
}

/// Writing registers and reading them back gives GDB the same general
/// registers, except that the stack pointer comes back 6 bytes higher and
/// each segment register keeps only its low 16 bits.
pub proof fn lemma_write_then_read(g: GdbCoreRegs, base: GdbCoreRegs)
    requires
        g.esp + 6 <= u32::MAX,
    ensures
        ({
            let back = reported_registers(registers_from_gdb(g), base);
            &&& back.eax == g.eax && back.ebx == g.ebx && back.ecx == g.ecx && back.edx == g.edx
            &&& back.esi == g.esi && back.edi == g.edi && back.ebp == g.ebp
            &&& back.eip == g.eip && back.eflags == g.eflags
            &&& back.esp == g.esp + 6
            &&& back.segments.cs == g.segments.cs % 0x1_0000
            &&& back.segments.ss == g.segments.ss % 0x1_0000
            &&& back.segments.ds == g.segments.ds % 0x1_0000
            &&& back.segments.es == g.segments.es % 0x1_0000
            &&& back.segments.fs == g.segments.fs % 0x1_0000
            &&& back.segments.gs == g.segments.gs % 0x1_0000
            &&& back.st == base.st && back.fpu == base.fpu && back.xmm == base.xmm
            &&& back.mxcsr == base.mxcsr
        }),
{
    let s = g.segments;
    lemma_low_half(s.cs);
    lemma_low_half(s.ss);
    lemma_low_half(s.ds);
    lemma_low_half(s.es);
    lemma_low_half(s.fs);
    lemma_low_half(s.gs);
}

/// Reading registers and writing the same values back keeps the saved
/// register file, except that the stack pointer grows by 6.
pub proof fn lemma_read_then_write(r: TargetRegisters, base: GdbCoreRegs)
    requires
        r.esp + 6 <= u32::MAX,
    ensures
        registers_from_gdb(reported_registers(r, base)) == (TargetRegisters {
            esp: (r.esp + 6) as u32,
            ..r
        }),
{
    lemma_widen_narrow(r.cs);
    lemma_widen_narrow(r.ss);
    lemma_widen_narrow(r.ds);
    lemma_widen_narrow(r.es);
    lemma_widen_narrow(r.fs);
    lemma_widen_narrow(r.gs);
}

/// The slots of the software-breakpoint table. The program keeps one set of
/// slots for its whole run; a target keeps only the stack head over them, so
/// a new target starts with an empty stack over the slots as they are.
pub struct BreakSlots {
    entries: Vec<Breakpoint>,
}

impl BreakSlots {
    /// What the slots hold, lowest first.
    pub closed spec fn spec_entries(&self) -> Seq<Breakpoint> {
        self.entries@
    }

    pub open spec fn wf(&self) -> bool {
        self.spec_entries().len() == BREAKPOINT_SLOTS
    }

    /// `BREAKPOINT_SLOTS` unused slots.
    pub fn new() -> (s: BreakSlots)
        ensures
            s.wf(),
            forall|i: int|
                0 <= i < BREAKPOINT_SLOTS ==> #[trigger] s.spec_entries()[i] == (Breakpoint {
                    addr: UNUSED_SLOT_ADDR,
                    opcode: 0,
                }),
    {
        let mut entries: Vec<Breakpoint> = Vec::new();
        while entries.len() < BREAKPOINT_SLOTS
            invariant
                entries.len() <= BREAKPOINT_SLOTS,
                forall|i: int|
                    0 <= i < entries.len() ==> #[trigger] entries@[i] == (Breakpoint {
                        addr: UNUSED_SLOT_ADDR,
                        opcode: 0,
                    }),
            decreases BREAKPOINT_SLOTS - entries.len(),
        {
            entries.push(Breakpoint { addr: UNUSED_SLOT_ADDR, opcode: 0 });
        }
        BreakSlots { entries }
    }
}

/// The debugging target: the register file saved when the debugged program
/// stopped, and the head of the software-breakpoint stack.
pub struct DosTarget {
    registers: TargetRegisters,
    break_stack_head: u8,
}

impl DosTarget {
    /// The saved register file.
    pub closed spec fn regs(&self) -> TargetRegisters {
        self.registers
    }

    /// The head of the breakpoint stack.
    pub closed spec fn head(&self) -> nat {
        self.break_stack_head as nat
    }

    /// The breakpoint table: `slots` with this target's stack head.
    pub open spec fn table(&self, slots: BreakSlots) -> BreakTable {
        BreakTable { entries: slots.spec_entries(), head: self.head() }
    }

    pub open spec fn wf(&self, slots: BreakSlots) -> bool {
        self.table(slots).wf()
    }

    /// A target with a zeroed register file and an empty breakpoint stack.
    pub fn new() -> (t: DosTarget)
        ensures
            t.regs() == TargetRegisters::zeroed(),
            t.head() == 0,
    {
        DosTarget { registers: TargetRegisters::default(), break_stack_head: 0 }
    }

    /// Mutable access to the saved register file.
    pub fn registers(&mut self) -> (r: &mut TargetRegisters)
        ensures
            *r == old(self).regs(),
            final(self).regs() == *final(r),
            final(self).head() == old(self).head(),
    {
        &mut self.registers
    }

    /// The number of planted breakpoints.
    pub fn breakpoint_count(&self) -> (n: u8)
        ensures
            n == self.head(),
    {
        self.break_stack_head
    }

    /// Plants, in the table, a breakpoint at `addr` over the code byte
    /// `opcode` (the caller reads that byte and writes `int3` in its place).
    /// The table holds at most `BREAKPOINT_SLOTS` breakpoints: a full table
    /// is outside what this method accepts.
    pub fn add_breakpoint(&mut self, slots: &mut BreakSlots, addr: u32, opcode: u8) -> (added:
        bool)
        requires
            old(self).wf(*old(slots)),
            old(self).head() < BREAKPOINT_SLOTS,
        ensures
            added,
            final(self).wf(*final(slots)),
            final(self).table(*final(slots)) == old(self).table(*old(slots)).add(addr, opcode),
            final(self).table(*final(slots)).live() == old(self).table(*old(slots)).live().push(
                Breakpoint { addr, opcode },
            ),
            final(self).regs() == old(self).regs(),
    {
        if self.break_stack_head as usize > slots.entries.len() {
            false
        } else {
            let h = self.break_stack_head as usize;
            slots.entries.set(h, Breakpoint { addr, opcode });
            self.break_stack_head = self.break_stack_head + 1;
            assert(self.table(*slots).live() =~= old(self).table(*old(slots)).live().push(
                Breakpoint { addr, opcode },
            ));
            true
        }
    }

    /// The lowest slot, live or not, that holds `addr`.
    pub fn find_breakpoint(&self, slots: &BreakSlots, addr: u32) -> (r: Option<usize>)
        requires
            self.wf(*slots),
        ensures
            match r {
                Some(i) => is_first_match(slots.spec_entries(), addr, i as int),
                None => !self.table(*slots).holds(addr),
            },
    {
        let mut i: usize = 0;
        while i < slots.entries.len()
            invariant
                self.wf(*slots),
                0 <= i <= slots.entries.len(),
                forall|j: int| 0 <= j < i ==> #[trigger] slots.entries@[j].addr != addr,
            decreases slots.entries.len() - i,
        {
            if slots.entries[i].addr == addr {
                return Some(i);
            }
            i = i + 1;
        }
        None
    }

    /// Removes the breakpoint at `addr` from the table and returns the code
    /// byte to write back at `addr`; `None` when no slot holds `addr`. The
    /// search runs over all slots, live or not. Popping an empty stack is
    /// outside what this method accepts.
    pub fn remove_breakpoint(&mut self, slots: &mut BreakSlots, addr: u32) -> (restored: Option<
        u8,
    >)
        requires
            old(self).wf(*old(slots)),
            !old(self).table(*old(slots)).remove_underflows(addr),
        ensures
            final(self).wf(*final(slots)),
            final(self).table(*final(slots)) == old(self).table(*old(slots)).remove(addr).0,
            restored == old(self).table(*old(slots)).remove(addr).1,
            final(self).regs() == old(self).regs(),
    {
        match self.find_breakpoint(slots, addr) {
            None => None,
            Some(i) => {
                proof {
                    lemma_first_match_unique(slots.entries@, addr, i as int);
                }
                let to_fill = slots.entries[i].opcode;
                if self.break_stack_head == 1 {
                    self.break_stack_head = 0;
                } else {
                    let top = (self.break_stack_head - 1) as usize;
                    let found = slots.entries[i];
                    let last = slots.entries[top];
                    slots.entries.set(i, last);
                    slots.entries.set(top, found);
                    self.break_stack_head = self.break_stack_head - 1;
                }
                Some(to_fill)
            },
        }
    }

    /// Arms single-stepping: sets the trap flag in the saved EFLAGS.
    pub fn step(&mut self)
        ensures
            final(self).regs() == (TargetRegisters {
                eflags: old(self).regs().eflags | EFLAGS_TRAP,
                ..old(self).regs()
            }),
            final(self).regs().eflags & EFLAGS_TRAP == EFLAGS_TRAP,
            final(self).head() == old(self).head(),
    {
        let registers = self.registers();
        let f = registers.eflags;
        assert((f | 0x100u32) & 0x100u32 == 0x100u32) by (bit_vector);
        registers.eflags = registers.eflags | EFLAGS_TRAP;
    }

    /// Reports the saved register file in GDB's layout (see
    /// `reported_registers`).
    pub fn read_registers(&mut self, regs: &mut GdbCoreRegs)
        requires
            old(self).regs().esp + 6 <= u32::MAX,
        ensures
            *final(regs) == reported_registers(old(self).regs(), *old(regs)),
            final(regs).eax == old(self).regs().eax,
            final(regs).ecx == old(self).regs().ecx,
            final(regs).edx == old(self).regs().edx,
            final(regs).ebx == old(self).regs().ebx,
            final(regs).esp == old(self).regs().esp + 6,
            final(regs).ebp == old(self).regs().ebp,
            final(regs).esi == old(self).regs().esi,
            final(regs).edi == old(self).regs().edi,
            final(regs).eip == old(self).regs().eip,
            final(regs).eflags == old(self).regs().eflags,
            final(regs).segments.cs == old(self).regs().cs,
            final(regs).segments.ss == old(self).regs().ss,
            final(regs).segments.ds == old(self).regs().ds,
            final(regs).segments.es == old(self).regs().es,
            final(regs).segments.fs == old(self).regs().fs,
            final(regs).segments.gs == old(self).regs().gs,
            final(regs).st == old(regs).st,
            final(regs).fpu == old(regs).fpu,
            final(regs).xmm == old(regs).xmm,
            final(regs).mxcsr == old(regs).mxcsr,
            final(self).regs() == old(self).regs(),
            final(self).head() == old(self).head(),
    {
        let registers = self.registers();
        regs.eax = registers.eax;
        regs.ebx = registers.ebx;
        regs.ecx = registers.ecx;
        regs.edx = registers.edx;
        regs.esi = registers.esi;
        regs.edi = registers.edi;
        regs.esp = registers.esp + 6;
        regs.ebp = registers.ebp;
        regs.eip = registers.eip;
        regs.eflags = registers.eflags;
        regs.segments.cs = registers.cs as u32;
        regs.segments.ds = registers.ds as u32;
        regs.segments.es = registers.es as u32;
        regs.segments.ss = registers.ss as u32;
        regs.segments.fs = registers.fs as u32;
        regs.segments.gs = registers.gs as u32;
    }

    /// Takes the register file GDB sends as the saved one (see
    /// `registers_from_gdb`).
    pub fn write_registers(&mut self, regs: &GdbCoreRegs)
        ensures
            final(self).regs() == registers_from_gdb(*regs),
            final(self).regs().eax == regs.eax,
            final(self).regs().ecx == regs.ecx,
            final(self).regs().edx == regs.edx,
            final(self).regs().ebx == regs.ebx,
            final(self).regs().esp == regs.esp,
            final(self).regs().ebp == regs.ebp,
            final(self).regs().esi == regs.esi,
            final(self).regs().edi == regs.edi,
            final(self).regs().eip == regs.eip,
            final(self).regs().eflags == regs.eflags,
            final(self).regs().cs == regs.segments.cs % 0x1_0000,
            final(self).regs().ss == regs.segments.ss % 0x1_0000,
            final(self).regs().ds == regs.segments.ds % 0x1_0000,
            final(self).regs().es == regs.segments.es % 0x1_0000,
            final(self).regs().fs == regs.segments.fs % 0x1_0000,
            final(self).regs().gs == regs.segments.gs % 0x1_0000,
            final(self).head() == old(self).head(),
    {
        let registers = self.registers();
        registers.eax = regs.eax;
        registers.ebx = regs.ebx;
        registers.ecx = regs.ecx;
        registers.edx = regs.edx;
        registers.esi = regs.esi;
        registers.edi = regs.edi;
        registers.esp = regs.esp;
        registers.ebp = regs.ebp;
        registers.eip = regs.eip;
        registers.eflags = regs.eflags;
        registers.cs = regs.segments.cs as u16;
        registers.ds = regs.segments.ds as u16;
        registers.es = regs.segments.es as u16;
        registers.ss = regs.segments.ss as u16;
        registers.fs = regs.segments.fs as u16;
        registers.gs = regs.segments.gs as u16;
        proof {
            lemma_saved_fields(*regs);
        }
    }
}

/// The end of the memory the stub can reach: one 64 KiB segment.
pub const SEGMENT_LIMIT: u32 = 0x1_0000;

/// `a - b`, or 0 when `b` is larger.
pub open spec fn sat_sub(a: u32, b: u32) -> u32 {
    if a >= b {
        (a - b) as u32
    } else {
        0
    }
}

pub open spec fn min3(a: u32, b: u32, c: u32) -> u32 {
    if a <= b && a <= c {
        a
    } else if b <= c {
        b
    } else {
        c
    }
}

/// The length `access_len` gives.
pub open spec fn window_len(total_mem: u32, start_addr: u32, data_len: usize) -> nat {
    min3(sat_sub(total_mem, start_addr), data_len as u32, sat_sub(SEGMENT_LIMIT, start_addr)) as nat
}

/// `k` bytes at `start_addr` stay within `req` bytes, `total_mem` bytes of
/// memory and the first 64 KiB segment.
pub open spec fn access_fits(total_mem: u32, start_addr: u32, req: int, k: int) -> bool {
    &&& 0 <= k <= req
    &&& start_addr + k <= total_mem
    &&& start_addr + k <= 0x1_0000
}

proof fn lemma_u32_of_usize(l: usize)
    ensures
        (l as u32) as int == l as int % 0x1_0000_0000,
{
    let w: u64 = l as u64;
    assert(((l as u32) as u64) == (l as u64) % 0x1_0000_0000u64) by (bit_vector);
    assert(w as int == l as int);
}

/// The window of a memory access is the longest one that fits all three
/// bounds: the request (as a 32-bit count), the end of memory and the end of
/// the first 64 KiB segment. A request that fits all of them is carried out
/// whole.
pub proof fn lemma_window_len(total_mem: u32, start_addr: u32, data_len: usize)
    ensures
        ({
            let n = window_len(total_mem, start_addr, data_len) as int;
            let req = data_len as int % 0x1_0000_0000;
            &&& 0 <= n <= req
            &&& n == 0 || (start_addr + n <= total_mem && start_addr + n <= 0x1_0000)
            &&& forall|k: int| #[trigger] access_fits(total_mem, start_addr, req, k) ==> k <= n
            &&& (start_addr + data_len <= total_mem && start_addr + data_len <= 0x1_0000) ==> n
                == data_len
        }),
{
    lemma_u32_of_usize(data_len);
}

/// How many bytes of a memory read or write of `data_len` bytes at
/// `start_addr` the stub carries out: no more than the request (taken as a
/// 32-bit count), and nothing at or past the end of memory (`total_mem`
/// bytes) or of the first 64 KiB segment.
pub fn access_len(total_mem: u32, start_addr: u32, data_len: usize) -> (n: usize)
    ensures
        n == window_len(total_mem, start_addr, data_len),
        n <= data_len as int % 0x1_0000_0000,
        n == 0 || (start_addr + n <= total_mem && start_addr + n <= 0x1_0000),
        forall|k: int|
            #[trigger] access_fits(total_mem, start_addr, data_len as int % 0x1_0000_0000, k) ==> k
                <= n,
        (start_addr + data_len <= total_mem && start_addr + data_len <= 0x1_0000) ==> n
            == data_len,
        n <= data_len,
        start_addr + n <= total_mem || n == 0,
        start_addr + n <= SEGMENT_LIMIT || n == 0,
{
    let to_end: u32 = total_mem.saturating_sub(start_addr);
    let requested: u32 = data_len as u32;
    let to_limit: u32 = SEGMENT_LIMIT.saturating_sub(start_addr);
    let mut n: u32 = to_end;
    if requested < n {
        n = requested;
    }
    if to_limit < n {
        n = to_limit;
    }
    assert((data_len as u32) as usize <= data_len) by (bit_vector);
    proof {
        lemma_window_len(total_mem, start_addr, data_len);
    }
    n as usize
}

/// `data` with `source` copied over its start.
pub open spec fn prefix_copy(data: Seq<u8>, source: Seq<u8>) -> Seq<u8> {
    source + data.skip(source.len() as int)
}

/// Copies `source` over the start of `data`; the rest of `data` is kept.
pub fn copy_prefix(data: &mut [u8], source: &[u8])
    requires
        source@.len() <= old(data)@.len(),
    ensures
        final(data)@ == prefix_copy(old(data)@, source@),
{
    let mut i: usize = 0;
    while i < source.len()
        invariant
            source@.len() <= data@.len(),
            data@.len() == old(data)@.len(),
            i <= source@.len(),
            forall|j: int| 0 <= j < i ==> #[trigger] data@[j] == source@[j],
            forall|j: int| i <= j < data@.len() ==> #[trigger] data@[j] == old(data)@[j],
        decreases source@.len() - i,
    {
        data[i] = source[i];
        i = i + 1;
    }
    assert(data@ =~= source@ + old(data)@.skip(source@.len() as int));
}

/// Memory, as bytes indexed by address, after the bytes of `w` are copied to
/// address `a`.
pub open spec fn store(mem: Seq<u8>, a: int, w: Seq<u8>) -> Seq<u8> {
    mem.subrange(0, a) + prefix_copy(mem.subrange(a, a + w.len()), w) + mem.skip(a + w.len())
}

/// A memory write of `d` at `a` followed by a read at `a` into a buffer as
/// long as `d`, both limited to the same window (`access_len` of the same
/// total memory), reads back the bytes written: the write stores the first
/// `n` bytes of `d`, the read copies the same `n` bytes into the buffer.
pub proof fn lemma_write_then_read_memory(
    mem: Seq<u8>,
    total: u32,
    a: u32,
    d: Seq<u8>,
    buf: Seq<u8>,
)
    requires
        d.len() <= usize::MAX,
        buf.len() == d.len(),
        a + window_len(total, a, d.len() as usize) <= mem.len(),
    ensures
        ({
            let n = window_len(total, a, d.len() as usize) as int;
            let written = store(mem, a as int, d.take(n));
            &&& n <= d.len()
            &&& written.len() == mem.len()
            &&& written.subrange(a as int, a + n) == d.take(n)
            &&& prefix_copy(buf, written.subrange(a as int, a + n)).take(n) == d.take(n)
        }),
{
    let l: usize = d.len() as usize;
    assert((l as u32) as usize <= l) by (bit_vector);
    let n = window_len(total, a, l) as int;
    let w = d.take(n);
    let written = store(mem, a as int, w);
    assert(prefix_copy(mem.subrange(a as int, a + n), w) =~= w);
    assert(written.subrange(a as int, a + n) =~= w);
    assert(prefix_copy(buf, w).take(n) =~= w);
}

} // verus!
