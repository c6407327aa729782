//! The register file in the layout that GDB's i386 target description uses
//! (32-bit core registers plus SSE), which is what the stub exchanges with
//! the debugger.
use vstd::prelude::*;

verus! {

/// Segment registers, each widened to 32 bits as GDB reports them.
#[derive(Debug, Clone, Copy, PartialEq, Eq, Structural)]
pub struct GdbSegmentRegs {
    /// Code Segment
    pub cs: u32,
    /// Stack Segment
    pub ss: u32,
    /// Data Segment
    pub ds: u32,
    /// Extra Segment
    pub es: u32,
    /// General Purpose Segment
    pub fs: u32,
    /// General Purpose Segment
    pub gs: u32,
}

/// x87 FPU internal registers.
#[derive(Debug, Clone, Copy, PartialEq, Eq, Structural)]
pub struct GdbFpuRegs {
    /// Floating-point control register
    pub fctrl: u32,
    /// Floating-point status register
    pub fstat: u32,
    /// Tag word
    pub ftag: u32,
    /// FPU instruction pointer segment
    pub fiseg: u32,
    /// FPU instruction pointer offset
    pub fioff: u32,
    /// FPU operand segment
    pub foseg: u32,
    /// FPU operand offset
    pub fooff: u32,
    /// Floating-point opcode
    pub fop: u32,
}

/// 32-bit x86 core registers with the SSE extension.
#[derive(Debug, Clone, Copy)]
pub struct GdbCoreRegs {
    /// Accumulator
    pub eax: u32,
    /// Count register
    pub ecx: u32,
    /// Data register
    pub edx: u32,
    /// Base register
    pub ebx: u32,
    /// Stack pointer
    pub esp: u32,
    /// Base pointer
    pub ebp: u32,
    /// Source index
    pub esi: u32,
    /// Destination index
    pub edi: u32,
    /// Instruction pointer
    pub eip: u32,
    /// Status register
    pub eflags: u32,
    /// Segment registers: CS, SS, DS, ES, FS, GS
    pub segments: GdbSegmentRegs,
    /// FPU registers ST0 through ST7, 80 bits each
    pub st: [[u8; 10]; 8],
    /// FPU internal registers
    pub fpu: GdbFpuRegs,
    /// SIMD registers XMM0 through XMM7
    pub xmm: [u128; 8],
    /// SSE status/control register
    pub mxcsr: u32,
}

} // verus!
