//! Verified core of a DOS-hosted GDB remote stub: register files, the
//! software-breakpoint table, debug-register (DR7) encoding, and the decoding
//! of BIOS service results.
pub mod bios;
pub mod helpers;
pub mod local_cell;
pub mod stub;
