use dosdbg::stub::core_regs::{GdbCoreRegs, GdbFpuRegs, GdbSegmentRegs};
use dosdbg::stub::gdb::DosTarget;
use dosdbg::stub::{TargetRegisters, EFLAGS_TRAP};

fn gdb_regs() -> GdbCoreRegs {
    GdbCoreRegs {
        eax: 1,
        ecx: 2,
        edx: 3,
        ebx: 4,
        esp: 0x100,
        ebp: 6,
        esi: 7,
        edi: 8,
        eip: 9,
        eflags: 0x202,
        segments: GdbSegmentRegs { cs: 0x1_0010, ss: 0x20, ds: 0x30, es: 0x40, fs: 0x50, gs: 0xffff_0060 },
        st: [[0xaa; 10]; 8],
        fpu: GdbFpuRegs { fctrl: 1, fstat: 2, ftag: 3, fiseg: 4, fioff: 5, foseg: 6, fooff: 7, fop: 8 },
        xmm: [0x77; 8],
        mxcsr: 0x1f80,
    }
}

#[test]
fn default_registers_are_zero() {
    let r = TargetRegisters::default();
    assert_eq!(r.eax, 0);
    assert_eq!(r.eflags, 0);
    assert_eq!(r.gs, 0);
    let mut t = DosTarget::new();
    assert_eq!(*t.registers(), TargetRegisters::default());
}

#[test]
fn write_registers_keeps_low_segment_halves() {
    let mut t = DosTarget::new();
    t.write_registers(&gdb_regs());
    let r = *t.registers();
    assert_eq!(r.eax, 1);
    assert_eq!(r.esp, 0x100);
    assert_eq!(r.eflags, 0x202);
    assert_eq!(r.cs, 0x0010);
    assert_eq!(r.gs, 0x0060);
    assert_eq!(r.ss, 0x20);
}

#[test]
fn read_registers_reports_stack_above_frame() {
    let mut t = DosTarget::new();
    t.write_registers(&gdb_regs());
    let mut out = gdb_regs();
    out.eax = 0xdead;
    t.read_registers(&mut out);
    assert_eq!(out.eax, 1);
    assert_eq!(out.esp, 0x106);
    assert_eq!(out.segments.cs, 0x10);
    assert_eq!(out.segments.gs, 0x60);
    // FPU and SSE registers are left alone
    assert_eq!(out.st, [[0xaa; 10]; 8]);
    assert_eq!(out.xmm, [0x77; 8]);
    assert_eq!(out.mxcsr, 0x1f80);
    assert_eq!(out.fpu.fiseg, 4);
}

#[test]
fn read_then_write_moves_stack_pointer() {
    let mut t = DosTarget::new();
    t.registers().esp = 0x200;
    t.registers().ebx = 42;
    let mut out = gdb_regs();
    t.read_registers(&mut out);
    t.write_registers(&out);
    assert_eq!(t.registers().esp, 0x206);
    assert_eq!(t.registers().ebx, 42);
}

#[test]
fn step_sets_trap_flag_only() {
    let mut t = DosTarget::new();
    t.registers().eflags = 0x0002;
    t.step();
    assert_eq!(t.registers().eflags, 0x0102);
    assert_eq!(t.registers().eflags & EFLAGS_TRAP, EFLAGS_TRAP);
    t.step();
    assert_eq!(t.registers().eflags, 0x0102);
}
