//! The debugging target: its saved register file, the software-breakpoint
//! table, the serial connection and the x86 debug registers.
pub mod conn;
pub mod core_regs;
pub mod debug_regs;
pub mod gdb;

use vstd::prelude::*;

verus! {

/// The trap flag (TF, bit 8) of EFLAGS: when set, the CPU raises a debug
/// exception after the next instruction, which is how single-stepping works.
pub const EFLAGS_TRAP: u32 = 0x100;

/// The register file of the debugged program, as the interrupt handlers save
/// it (the comment on each field gives its byte offset in that save area).
#[derive(Debug, Clone, Copy, PartialEq, Eq, Structural)]
pub struct TargetRegisters {
    /// Accumulator
    pub eax: u32,  // 0
    /// Count register
    pub ecx: u32,  // 4
    /// Data register
    pub edx: u32,  // 8
    /// Base register
    pub ebx: u32,  // 12
    /// Stack pointer
    pub esp: u32,  // 16
    /// Base pointer
    pub ebp: u32,  // 20
    /// Source index
    pub esi: u32,  // 24
    /// Destination index
    pub edi: u32,  // 28
    /// Instruction pointer
    pub eip: u32,  // 32
    /// Status register
    pub eflags: u32,  // 36
    /// Code segment
    pub cs: u16,  // 40
    /// Stack segment
    pub ss: u16,  // 42
    /// Data segment
    pub ds: u16,  // 44
    /// Extra segment
    pub es: u16,  // 46
    /// General-purpose FS segment
    pub fs: u16,  // 48
    /// General-purpose GS segment
    pub gs: u16,  // 50
}

impl TargetRegisters {
    /// The register file with every register zero.
    pub open spec fn zeroed() -> TargetRegisters {
        TargetRegisters {
            eax: 0,
            ecx: 0,
            edx: 0,
            ebx: 0,
            esp: 0,
            ebp: 0,
            esi: 0,
            edi: 0,
            eip: 0,
            eflags: 0,
            cs: 0,
            ss: 0,
            ds: 0,
            es: 0,
            fs: 0,
            gs: 0,
        }
    }
}

impl Default for TargetRegisters {
    fn default() -> (r: TargetRegisters)
        ensures
            r == TargetRegisters::zeroed(),
    {
        TargetRegisters {
            eax: 0,
            ecx: 0,
            edx: 0,
            ebx: 0,
            esp: 0,
            ebp: 0,
            esi: 0,
            edi: 0,
            eip: 0,
            eflags: 0,
            cs: 0,
            ss: 0,
            ds: 0,
            es: 0,
            fs: 0,
            gs: 0,
        }
    }
}

} // verus!
