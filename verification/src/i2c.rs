//! What the program does on the I2C bus, and what it reports of it.
use vstd::prelude::*;

verus! {

/// Fault of the bus.
#[derive(Clone, Copy, Debug, PartialEq, Eq, Structural)]
pub enum I2cError {
    Bus,
    Arbitration,
    Nack,
    Timeout,
    Crc,
    Overrun,
    ZeroLengthTransfer,
}

impl I2cError {
    /// How the log shows the error.
    pub open spec fn shown(self) -> Seq<char> {
        match self {
            I2cError::Bus => "Bus"@,
            I2cError::Arbitration => "Arbitration"@,
            I2cError::Nack => "Nack"@,
            I2cError::Timeout => "Timeout"@,
            I2cError::Crc => "Crc"@,
            I2cError::Overrun => "Overrun"@,
            I2cError::ZeroLengthTransfer => "ZeroLengthTransfer"@,
        }
    }

    /// How the log shows the error.
    pub fn name(&self) -> (r: &'static str)
        ensures
            r@ == self.shown(),
    {
        match self {
            I2cError::Bus => "Bus",
            I2cError::Arbitration => "Arbitration",
            I2cError::Nack => "Nack",
            I2cError::Timeout => "Timeout",
            I2cError::Crc => "Crc",
            I2cError::Overrun => "Overrun",
            I2cError::ZeroLengthTransfer => "ZeroLengthTransfer",
        }
    }
}

/// One thing to do for a device on the bus.
#[derive(Clone, Copy, Debug, PartialEq, Eq, Structural)]
pub enum I2cAction {
    /// Read `len` bytes from `register` on.
    Read { address: u8, register: u8, len: usize },
    /// Write `value` to `register`.
    Write { address: u8, register: u8, value: u8 },
    /// Sleep.
    Wait { ms: u64 },
}

/// What came of an action.
#[derive(Debug, PartialEq, Eq)]
pub enum I2cEvent {
    Read(Result<Vec<u8>, I2cError>),
    Written(Result<(), I2cError>),
    Waited,
}

/// How the log shows a fault of the bus tells which it is.
pub proof fn law_faults_of_the_bus_are_shown_by_name(fault: I2cError)
    ensures
        fault.shown() == "Bus"@ <==> fault is Bus,
        fault.shown() == "Arbitration"@ <==> fault is Arbitration,
        fault.shown() == "Nack"@ <==> fault is Nack,
        fault.shown() == "Timeout"@ <==> fault is Timeout,
        fault.shown() == "Crc"@ <==> fault is Crc,
        fault.shown() == "Overrun"@ <==> fault is Overrun,
        fault.shown() == "ZeroLengthTransfer"@ <==> fault is ZeroLengthTransfer,
{
    reveal_strlit("Bus");
    reveal_strlit("Arbitration");
    reveal_strlit("Nack");
    reveal_strlit("Timeout");
    reveal_strlit("Crc");
    reveal_strlit("Overrun");
    reveal_strlit("ZeroLengthTransfer");
    assert("Bus"@.len() == 3 && "Arbitration"@.len() == 11 && "Nack"@.len() == 4 && "Timeout"@.len() == 7 && "Crc"@.len() == 3 && "Overrun"@.len() == 7 && "ZeroLengthTransfer"@.len() == 18);
    assert("Bus"@[0] != "Crc"@[0]);
    assert("Timeout"@[0] != "Overrun"@[0]);
}

} // verus!
