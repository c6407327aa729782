use dosdbg::helpers::{X86FpuSseState, X86Registers};
use dosdbg::stub::core_regs::{GdbCoreRegs, GdbFpuRegs, GdbSegmentRegs};
use dosdbg::stub::gdb::{access_len, copy_prefix};

fn filled() -> X86Registers {
    let mut r = X86Registers::default();
    let b = r.as_slice_mut();
    for (i, x) in b.iter_mut().enumerate() {
        *x = i as u8;
    }
    r
}

fn blank_gdb() -> GdbCoreRegs {
    GdbCoreRegs {
        eax: 0,
        ecx: 0,
        edx: 0,
        ebx: 0,
        esp: 0,
        ebp: 0,
        esi: 0,
        edi: 0,
        eip: 0,
        eflags: 0,
        segments: GdbSegmentRegs { cs: 0, ss: 0, ds: 0, es: 0, fs: 0, gs: 0 },
        st: [[0; 10]; 8],
        fpu: GdbFpuRegs { fctrl: 0, fstat: 0, ftag: 0, fiseg: 9, fioff: 0, foseg: 0, fooff: 0, fop: 0 },
        xmm: [0; 8],
        mxcsr: 0,
    }
}

#[test]
fn default_area_is_zero() {
    let r = X86Registers::default();
    assert_eq!(r.eax(), 0);
    assert_eq!(r.gs(), 0);
    let f = X86FpuSseState::default();
    assert_eq!(f.xmm(7), 0);
    assert_eq!(f.st(0), [0; 10]);
}

#[test]
fn fields_are_little_endian() {
    let r = filled();
    assert_eq!(r.eax(), 0x0302_0100);
    assert_eq!(r.ecx(), 0x0706_0504);
    assert_eq!(r.efalgs(), 0x2726_2524);
    assert_eq!(r.cs(), 0x2928);
    assert_eq!(r.gs(), 0x3332);
    let f = r.float_state();
    assert_eq!(f.fcw(), 64);
    assert_eq!(f.fsw(), 65);
    assert_eq!(f.ftw(), 66);
    assert_eq!(f.fcs(), 0x4d4c);
    assert_eq!(f.mxcsr_mask(), 0x5f5e_5d5c);
    assert_eq!(f.fop(), 0x4746_4544);
    assert_eq!(f.fip(), 0x4b4a_4948);
    assert_eq!(f.fds(), 0x5352);
    assert_eq!(f.mxcsr(), 0x5b5a_5958);
    assert_eq!(f.fdp(), 0x5150);
    assert_eq!(f.st(0), [96, 97, 98, 99, 100, 101, 102, 103, 104, 105]);
    assert_eq!(f.xmm(0), u128::from_le_bytes([
        224, 225, 226, 227, 228, 229, 230, 231, 232, 233, 234, 235, 236, 237, 238, 239,
    ]));
}

#[test]
fn write_gdb_copies_every_field() {
    let mut r = filled();
    let mut g = blank_gdb();
    r.write_gdb(&mut g);
    assert_eq!(g.eax, 0x0302_0100);
    assert_eq!(g.esp, 0x1312_1110);
    assert_eq!(g.eflags, 0x2726_2524);
    assert_eq!(g.segments.ss, 0x2b2a);
    assert_eq!(g.st[1], [112, 113, 114, 115, 116, 117, 118, 119, 120, 121]);
    let mut x7 = [0u8; 16];
    for (k, b) in x7.iter_mut().enumerate() {
        *b = (64 + 160 + 112 + k) as u8;
    }
    assert_eq!(g.xmm[7], u128::from_le_bytes(x7));
    assert_eq!(g.mxcsr, 0x5b5a_5958);
    assert_eq!(g.fpu.fctrl, 64);
    assert_eq!(g.fpu.fstat, 65);
    assert_eq!(g.fpu.ftag, 0xffff_ffff);
    assert_eq!(g.fpu.fiseg, 9);
    assert_eq!(g.fpu.foseg, 0x5352);
    assert_eq!(g.fpu.fioff, 0x4b4a_4948);
    assert_eq!(g.fpu.fop, 0x4746_4544);
    assert_eq!(g.fpu.fooff, 0x5150);
}

#[test]
fn access_window() {
    assert_eq!(access_len(0x10_0000, 0x100, 16), 16);
    assert_eq!(access_len(0x10_0000, 0xfff8, 16), 8);
    assert_eq!(access_len(0x200, 0x1f0, 64), 16);
    assert_eq!(access_len(0x200, 0x300, 64), 0);
    assert_eq!(access_len(0x10_0000, 0x2_0000, 64), 0);
    assert_eq!(access_len(0, 0, 64), 0);
}

#[test]
fn write_then_read_memory() {
    let mut memory = [0u8; 0x40];
    let d = [1u8, 2, 3, 4, 5, 6];
    let n = access_len(0x24, 0x20, d.len());
    assert_eq!(n, 4);
    copy_prefix(&mut memory[0x20..0x20 + n], &d[..n]);
    let mut buf = [0xeeu8; 6];
    let m = access_len(0x24, 0x20, buf.len());
    copy_prefix(&mut buf, &memory[0x20..0x20 + m]);
    assert_eq!(&buf[..m], &d[..n]);
    assert_eq!(buf, [1, 2, 3, 4, 0xee, 0xee]);
}

#[test]
fn copy_over_prefix() {
    let mut data = [9u8; 6];
    copy_prefix(&mut data, &[1, 2, 3]);
    assert_eq!(data, [1, 2, 3, 9, 9, 9]);
    copy_prefix(&mut data, &[]);
    assert_eq!(data, [1, 2, 3, 9, 9, 9]);
}
