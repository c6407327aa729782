//! The serial connection the stub talks to GDB over.
use vstd::prelude::*;

verus! {

/// A connection over the serial port numbered `port` (0 for COM1). The port
/// is configured with `COM_OPTS` when the connection is opened.
pub struct ComConnection {
    port: u8,
}

impl ComConnection {
    pub closed spec fn spec_port(&self) -> u8 {
        self.port
    }

    /// The connection over `port`, once the port has been configured.
    pub fn new(port: u8) -> (c: Self)
        ensures
            c.spec_port() == port,
    {
        ComConnection { port }
    }

    /// The port number, as the serial service takes it in DX.
    pub fn port(&self) -> (p: u16)
        ensures
            p == self.spec_port(),
    {
        self.port as u16
    }
}

} // verus!
