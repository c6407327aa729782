use dosdbg::bios::com::{
    com_read_result, ComConfiguration, ComStatusFlags, ASCII8, BAUD9600, COM_OPTS, DATA_AVAILABLE,
    NO_PARITY, ONE_STOP_BIT, TIME_OUT_ERROR,
};
use dosdbg::bios::mem::{upper_memory_from_registers, MemorySizes};
use dosdbg::bios::sleep_registers;
use dosdbg::stub::conn::ComConnection;

#[test]
fn sleep_splits_into_words() {
    assert_eq!(sleep_registers(0x1234_5678), (0x1234, 0x5678));
    assert_eq!(sleep_registers(1_000_000), (0x000f, 0x4240));
    assert_eq!(sleep_registers(0), (0, 0));
}

#[test]
fn com_opts_is_9600_8n1() {
    let cfg = (BAUD9600 | NO_PARITY | ONE_STOP_BIT | ASCII8) as u16;
    assert_eq!(COM_OPTS, cfg);
    assert_eq!(ComConfiguration::from_bits_truncate(COM_OPTS as u8).bits(), 0xe3);
}

#[test]
fn status_keeps_every_bit() {
    let s = ComStatusFlags::from_bits_truncate(0xffff);
    assert_eq!(s.bits(), 0xffff);
    let s = ComStatusFlags::from_bits_truncate(TIME_OUT_ERROR | DATA_AVAILABLE);
    assert_eq!(s.bits(), 0x8100);
}

#[test]
fn read_result_reports_time_out() {
    assert_eq!(com_read_result(b'A', 0x80), Err(()));
    assert_eq!(com_read_result(b'A', 0xe0), Err(()));
    assert_eq!(com_read_result(b'A', 0x60), Ok(b'A'));
    assert_eq!(com_read_result(0, 0), Ok(0));
}

#[test]
fn connection_keeps_its_port() {
    assert_eq!(ComConnection::new(0).port(), 0);
    assert_eq!(ComConnection::new(3).port(), 3);
}

#[test]
fn e801_reply_decoding() {
    assert_eq!(upper_memory_from_registers(true, 0x3c00, 0x100, 0, 0), Err(()));
    assert_eq!(upper_memory_from_registers(false, 0x8600, 0, 0, 0), Err(()));
    assert_eq!(upper_memory_from_registers(false, 0x8612, 0, 0, 0), Err(()));
    assert_eq!(upper_memory_from_registers(false, 0x8000, 0, 0, 0), Err(()));
    assert_eq!(
        upper_memory_from_registers(false, 0x3c00, 0x100, 0, 0),
        Ok(MemorySizes { extended1: 0x3c00, extended2: 0x100 })
    );
    assert_eq!(
        upper_memory_from_registers(false, 0x1, 0x2, 0x3c00, 0x200),
        Ok(MemorySizes { extended1: 0x3c00, extended2: 0x200 })
    );
}

#[test]
fn total_memory_in_bytes() {
    let m = MemorySizes { extended1: 15 * 1024, extended2: 0 };
    assert_eq!(m.total_size(), 15 * 1024 * 1024);
    let m = MemorySizes { extended1: 15 * 1024, extended2: 0xff00 };
    assert_eq!(m.total_size(), 0xfff0_0000);
    let m = MemorySizes { extended1: 0, extended2: 1 };
    assert_eq!(m.total_size(), 0x1_0000);
}
