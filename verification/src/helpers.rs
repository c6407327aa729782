//! Register save areas laid out byte for byte as the interrupt handlers and
//! `FXSAVE` write them: a 576-byte general register area whose last 512 bytes
//! are the x87/SSE state. Multi-byte fields are little-endian, as on x86.
use vstd::prelude::*;

use crate::stub::core_regs::GdbCoreRegs;

verus! {

/// The little-endian value of a byte string.
pub open spec fn le_value(s: Seq<u8>) -> nat
    decreases s.len(),
{
    if s.len() == 0 {
        0
    } else {
        s[0] as nat + 256 * le_value(s.drop_first())
    }
}

/// The little-endian value of the `n` bytes of `v` at offset `off`.
pub open spec fn le_at(v: Seq<u8>, off: int, n: int) -> nat {
    le_value(v.subrange(off, off + n))
}

/// `256` to the power `n`.
pub open spec fn pow256(n: nat) -> nat
    decreases n,
{
    if n == 0 {
        1
    } else {
        256 * pow256((n - 1) as nat)
    }
}

proof fn lemma_pow256_mono(a: nat, b: nat)
    requires
        a <= b,
    ensures
        1 <= pow256(a) <= pow256(b),
    decreases b,
{
    if b > a {
        lemma_pow256_mono(a, (b - 1) as nat);
    } else if a > 0 {
        lemma_pow256_mono((a - 1) as nat, (a - 1) as nat);
    }
}

proof fn lemma_le_bound(s: Seq<u8>)
    ensures
        le_value(s) < pow256(s.len()),
    decreases s.len(),
{
    if s.len() > 0 {
        lemma_le_bound(s.drop_first());
        let r = le_value(s.drop_first());
        let p = pow256((s.len() - 1) as nat);
        assert(s[0] as nat + 256 * r < 256 * p) by (nonlinear_arith)
            requires
                s[0] < 256,
                r < p,
        ;
    }
}

/// The little-endian value of `bytes[off..off + n]`, for at most 16 bytes.
fn read_le(bytes: &[u8], off: usize, n: usize) -> (r: u128)
    requires
        n <= 16,
        off + n <= bytes.len(),
    ensures
        r == le_at(bytes@, off as int, n as int),
{
    let mut acc: u128 = 0;
    let mut k: usize = n;
    proof {
        reveal_with_fuel(pow256, 17);
        assert(pow256(16) == 0x1_0000_0000_0000_0000_0000_0000_0000_0000);
        assert(bytes@.subrange(off + n, off + n) =~= Seq::<u8>::empty());
    }
    while k > 0
        invariant
            n <= 16,
            off + n <= bytes.len(),
            k <= n,
            acc == le_at(bytes@, (off + k) as int, (n - k) as int),
            pow256(16) == 0x1_0000_0000_0000_0000_0000_0000_0000_0000,
        decreases k,
    {
        let ghost rest = bytes@.subrange((off + k) as int, (off + n) as int);
        proof {
            lemma_le_bound(rest);
            lemma_pow256_mono((n - k) as nat, 15);
            assert(acc * 256 + 255 < 0x1_0000_0000_0000_0000_0000_0000_0000_0000) by (nonlinear_arith)
                requires
                    acc < pow256((n - k) as nat),
                    pow256((n - k) as nat) <= pow256(15),
                    256 * pow256(15) == pow256(16),
                    pow256(16) == 0x1_0000_0000_0000_0000_0000_0000_0000_0000,
            ;
        }
        k = k - 1;
        let b = bytes[off + k];
        proof {
            let s = bytes@.subrange((off + k) as int, (off + n) as int);
            assert(s.drop_first() =~= rest);
        }
        acc = acc * 256 + b as u128;
    }
    acc
}

proof fn lemma_le_bound_at(v: Seq<u8>, off: int, n: int)
    requires
        0 <= off,
        0 <= n,
        off + n <= v.len(),
    ensures
        le_at(v, off, n) < pow256(n as nat),
{
    lemma_le_bound(v.subrange(off, off + n));
}

fn read_u32(bytes: &[u8], off: usize) -> (r: u32)
    requires
        off + 4 <= bytes@.len(),
    ensures
        r == le_at(bytes@, off as int, 4),
{
    proof {
        lemma_le_bound_at(bytes@, off as int, 4);
        reveal_with_fuel(pow256, 5);
    }
    read_le(bytes, off, 4) as u32
}

fn read_u16(bytes: &[u8], off: usize) -> (r: u16)
    requires
        off + 2 <= bytes@.len(),
    ensures
        r == le_at(bytes@, off as int, 2),
{
    proof {
        lemma_le_bound_at(bytes@, off as int, 2);
        reveal_with_fuel(pow256, 3);
    }
    read_le(bytes, off, 2) as u16
}

fn read_u8(bytes: &[u8], off: usize) -> (r: u8)
    requires
        off + 1 <= bytes@.len(),
    ensures
        r == le_at(bytes@, off as int, 1),
{
    proof {
        lemma_le_bound_at(bytes@, off as int, 1);
        reveal_with_fuel(pow256, 2);
    }
    read_le(bytes, off, 1) as u8
}

/// The `n` bytes of `v` at offset `off`, copied into an array.
fn bytes_at<const N: usize>(v: &[u8], off: usize) -> (r: [u8; N])
    requires
        off + N <= v.len(),
    ensures
        r@ == v@.subrange(off as int, off + N),
{
    let mut r: [u8; N] = [0u8; N];
    let mut k: usize = 0;
    while k < N
        invariant
            off + N <= v.len(),
            k <= N,
            forall|j: int| 0 <= j < k ==> #[trigger] r@[j] == v@[off + j],
        decreases N - k,
    {
        r[k] = v[off + k];
        k = k + 1;
    }
    assert(r@ =~= v@.subrange(off as int, off + N));
    r
}

/// The x87 FPU and SSE state as `FXSAVE` stores it: 512 bytes.
#[derive(Clone, Copy, Debug)]
pub struct X86FpuSseState {
    bytes: [u8; 512],
}

impl View for X86FpuSseState {
    type V = Seq<u8>;

    closed spec fn view(&self) -> Seq<u8> {
        self.bytes@
    }
}

/// Byte offset of ST(`i`) in the FPU/SSE state.
pub open spec fn st_offset(i: int) -> int {
    32 + 16 * i
}

/// Byte offset of XMM`i` in the FPU/SSE state.
pub open spec fn xmm_offset(i: int) -> int {
    160 + 16 * i
}

impl Default for X86FpuSseState {
    /// The all-zero state.
    fn default() -> (r: Self)
        ensures
            r@ == Seq::new(512, |i: int| 0u8),
    {
        let r = X86FpuSseState { bytes: [0u8; 512] };
        assert(r@ =~= Seq::new(512, |i: int| 0u8));
        r
    }
}

impl X86FpuSseState {
    /// The state is 512 bytes long.
    pub proof fn lemma_len(&self)
        ensures
            self@.len() == 512,
    {
    }

    /// FPU control word (low byte), at offset 0.
    pub fn fcw(&self) -> (r: u8)
        ensures
            r == le_at(self@, 0, 1),
    {
        read_u8(&self.bytes, 0)
    }

    /// FPU status word (low byte), at offset 1.
    pub fn fsw(&self) -> (r: u8)
        ensures
            r == le_at(self@, 1, 1),
    {
        read_u8(&self.bytes, 1)
    }

    /// FPU tag word (abridged), at offset 2.
    pub fn ftw(&self) -> (r: u8)
        ensures
            r == le_at(self@, 2, 1),
    {
        read_u8(&self.bytes, 2)
    }

    /// FPU opcode, at offset 4.
    pub fn fop(&self) -> (r: u32)
        ensures
            r == le_at(self@, 4, 4),
    {
        read_u32(&self.bytes, 4)
    }

    /// FPU instruction pointer offset, at offset 8.
    pub fn fip(&self) -> (r: u32)
        ensures
            r == le_at(self@, 8, 4),
    {
        read_u32(&self.bytes, 8)
    }

    /// FPU instruction pointer segment, at offset 12.
    pub fn fcs(&self) -> (r: u16)
        ensures
            r == le_at(self@, 12, 2),
    {
        read_u16(&self.bytes, 12)
    }

    /// FPU data pointer offset, at offset 16.
    pub fn fdp(&self) -> (r: u16)
        ensures
            r == le_at(self@, 16, 2),
    {
        read_u16(&self.bytes, 16)
    }

    /// FPU data pointer segment, at offset 18.
    pub fn fds(&self) -> (r: u16)
        ensures
            r == le_at(self@, 18, 2),
    {
        read_u16(&self.bytes, 18)
    }

    /// SSE control/status register, at offset 24.
    pub fn mxcsr(&self) -> (r: u32)
        ensures
            r == le_at(self@, 24, 4),
    {
        read_u32(&self.bytes, 24)
    }

    /// Mask of the SSE control/status bits the processor supports, at
    /// offset 28.
    pub fn mxcsr_mask(&self) -> (r: u32)
        ensures
            r == le_at(self@, 28, 4),
    {
        read_u32(&self.bytes, 28)
    }

    /// The 80-bit register ST(`i`), at offset `32 + 16 * i`.
    pub fn st(&self, i: usize) -> (r: [u8; 10])
        requires
            i < 8,
        ensures
            r@ == self@.subrange(st_offset(i as int), st_offset(i as int) + 10),
    {
        bytes_at(&self.bytes, 32 + 16 * i)
    }

    /// The SSE register XMM`i`, at offset `160 + 16 * i`.
    pub fn xmm(&self, i: usize) -> (r: u128)
        requires
            i < 8,
        ensures
            r == le_at(self@, xmm_offset(i as int), 16),
    {
        read_le(&self.bytes, 160 + 16 * i, 16)
    }
}

/// The general register save area: ten 32-bit registers, six segment
/// registers, and the FPU/SSE state at offset 64; 576 bytes in all.
#[derive(Clone, Copy, Debug)]
pub struct X86Registers {
    bytes: [u8; 576],
}

impl View for X86Registers {
    type V = Seq<u8>;

    closed spec fn view(&self) -> Seq<u8> {
        self.bytes@
    }
}

/// Byte offset of the FPU/SSE state in the general register area.
pub open spec fn float_base() -> int {
    64
}

/// The FPU/SSE part of a general register area.
pub open spec fn fpu_area(v: Seq<u8>) -> Seq<u8> {
    v.subrange(float_base(), 576)
}

impl Default for X86Registers {
    /// The all-zero register area.
    fn default() -> (r: Self)
        ensures
            r@ == Seq::new(576, |i: int| 0u8),
    {
        let r = X86Registers { bytes: [0u8; 576] };
        assert(r@ =~= Seq::new(576, |i: int| 0u8));
        r
    }
}

impl X86Registers {
    /// The area is 576 bytes long.
    pub proof fn lemma_len(&self)
        ensures
            self@.len() == 576,
    {
    }

    /// The raw bytes of the area, for the save and restore routines.
    pub fn as_slice_mut(&mut self) -> (r: &mut [u8; 576])
        ensures
            r@ == old(self)@,
            final(self)@ == final(r)@,
    {
        &mut self.bytes
    }

    pub fn eax(&self) -> (r: u32)
        ensures
            r == le_at(self@, 0, 4),
    {
        read_u32(&self.bytes, 0)
    }

    pub fn ecx(&self) -> (r: u32)
        ensures
            r == le_at(self@, 4, 4),
    {
        read_u32(&self.bytes, 4)
    }

    pub fn edx(&self) -> (r: u32)
        ensures
            r == le_at(self@, 8, 4),
    {
        read_u32(&self.bytes, 8)
    }

    pub fn ebx(&self) -> (r: u32)
        ensures
            r == le_at(self@, 12, 4),
    {
        read_u32(&self.bytes, 12)
    }

    pub fn esp(&self) -> (r: u32)
        ensures
            r == le_at(self@, 16, 4),
    {
        read_u32(&self.bytes, 16)
    }

    pub fn ebp(&self) -> (r: u32)
        ensures
            r == le_at(self@, 20, 4),
    {
        read_u32(&self.bytes, 20)
    }

    pub fn esi(&self) -> (r: u32)
        ensures
            r == le_at(self@, 24, 4),
    {
        read_u32(&self.bytes, 24)
    }

    pub fn edi(&self) -> (r: u32)
        ensures
            r == le_at(self@, 28, 4),
    {
        read_u32(&self.bytes, 28)
    }

    pub fn eip(&self) -> (r: u32)
        ensures
            r == le_at(self@, 32, 4),
    {
        read_u32(&self.bytes, 32)
    }

    /// EFLAGS, at offset 36.
    pub fn efalgs(&self) -> (r: u32)
        ensures
            r == le_at(self@, 36, 4),
    {
        read_u32(&self.bytes, 36)
    }

    pub fn cs(&self) -> (r: u16)
        ensures
            r == le_at(self@, 40, 2),
    {
        read_u16(&self.bytes, 40)
    }

    pub fn ss(&self) -> (r: u16)
        ensures
            r == le_at(self@, 42, 2),
    {
        read_u16(&self.bytes, 42)
    }

    pub fn ds(&self) -> (r: u16)
        ensures
            r == le_at(self@, 44, 2),
    {
        read_u16(&self.bytes, 44)
    }

    pub fn es(&self) -> (r: u16)
        ensures
            r == le_at(self@, 46, 2),
    {
        read_u16(&self.bytes, 46)
    }

    pub fn fs(&self) -> (r: u16)
        ensures
            r == le_at(self@, 48, 2),
    {
        read_u16(&self.bytes, 48)
    }

    pub fn gs(&self) -> (r: u16)
        ensures
            r == le_at(self@, 50, 2),
    {
        read_u16(&self.bytes, 50)
    }

    /// The FPU/SSE state: bytes 64 to 575.
    pub fn float_state(&self) -> (r: X86FpuSseState)
        ensures
            r@ == fpu_area(self@),
    {
        X86FpuSseState { bytes: bytes_at(&self.bytes, 64) }
    }

    /// Copies the saved registers into GDB's register file. The FPU tag word
    /// is reported as all ones (every register empty) and the FPU
    /// instruction-pointer segment is left as it was.
    pub fn write_gdb(&mut self, regs: &mut GdbCoreRegs)
        ensures
            final(self)@ == old(self)@,
            final(regs).eax == le_at(old(self)@, 0, 4),
            final(regs).ecx == le_at(old(self)@, 4, 4),
            final(regs).edx == le_at(old(self)@, 8, 4),
            final(regs).ebx == le_at(old(self)@, 12, 4),
            final(regs).esp == le_at(old(self)@, 16, 4),
            final(regs).ebp == le_at(old(self)@, 20, 4),
            final(regs).esi == le_at(old(self)@, 24, 4),
            final(regs).edi == le_at(old(self)@, 28, 4),
            final(regs).eip == le_at(old(self)@, 32, 4),
            final(regs).eflags == le_at(old(self)@, 36, 4),
            final(regs).segments.cs == le_at(old(self)@, 40, 2),
            final(regs).segments.ss == le_at(old(self)@, 42, 2),
            final(regs).segments.ds == le_at(old(self)@, 44, 2),
            final(regs).segments.es == le_at(old(self)@, 46, 2),
            final(regs).segments.fs == le_at(old(self)@, 48, 2),
            final(regs).segments.gs == le_at(old(self)@, 50, 2),
            forall|i: int|
                0 <= i < 8 ==> #[trigger] final(regs).st[i]@ == fpu_area(old(self)@).subrange(
                    st_offset(i),
                    st_offset(i) + 10,
                ),
            forall|i: int|
                0 <= i < 8 ==> #[trigger] final(regs).xmm[i] == le_at(
                    fpu_area(old(self)@),
                    xmm_offset(i),
                    16,
                ),
            final(regs).mxcsr == le_at(fpu_area(old(self)@), 24, 4),
            final(regs).fpu.fctrl == le_at(fpu_area(old(self)@), 0, 1),
            final(regs).fpu.fstat == le_at(fpu_area(old(self)@), 1, 1),
            final(regs).fpu.fop == le_at(fpu_area(old(self)@), 4, 4),
            final(regs).fpu.ftag == 0xffff_ffff,
            final(regs).fpu.fiseg == old(regs).fpu.fiseg,
            final(regs).fpu.foseg == le_at(fpu_area(old(self)@), 18, 2),
            final(regs).fpu.fioff == le_at(fpu_area(old(self)@), 8, 4),
            final(regs).fpu.fooff == le_at(fpu_area(old(self)@), 16, 2),
    {
        let fpu = self.float_state();
        let mut i: usize = 0;
        while i < 8
            invariant
                i <= 8,
                self@ == old(self)@,
                fpu@ == fpu_area(self@),
                regs.fpu.fiseg == old(regs).fpu.fiseg,
                forall|j: int|
                    0 <= j < i ==> #[trigger] regs.st[j]@ == fpu@.subrange(
                        st_offset(j),
                        st_offset(j) + 10,
                    ),
                forall|j: int| 0 <= j < i ==> #[trigger] regs.xmm[j] == le_at(fpu@, xmm_offset(j), 16),
            decreases 8 - i,
        {
            regs.st[i] = fpu.st(i);
            regs.xmm[i] = fpu.xmm(i);
            i = i + 1;
        }

        regs.eax = self.eax();
        regs.ebp = self.ebp();
        regs.ebx = self.ebx();
        regs.ecx = self.ecx();
        regs.edi = self.edi();
        regs.edx = self.edx();
        regs.eflags = self.efalgs();
        regs.eip = self.eip();
        regs.esi = self.esi();
        regs.esp = self.esp();


        regs.mxcsr = fpu.mxcsr();
        regs.segments.cs = self.cs() as u32;
        regs.segments.ds = self.ds() as u32;
        regs.segments.es = self.es() as u32;
        regs.segments.fs = self.fs() as u32;
        regs.segments.gs = self.gs() as u32;
        regs.segments.ss = self.ss() as u32;

        regs.fpu.fctrl = fpu.fcw() as u32;
        regs.fpu.fstat = fpu.fsw() as u32;
        regs.fpu.fop = fpu.fop();
        regs.fpu.ftag = 0xffffffff;
        regs.fpu.foseg = fpu.fds() as u32;
        regs.fpu.fioff = fpu.fip();
        regs.fpu.fooff = fpu.fdp() as u32;
    }
}

} // verus!
