//! What the program reports of a serial port.
use vstd::prelude::*;

verus! {

/// Fault of a serial port.
#[derive(Clone, Copy, Debug, PartialEq, Eq, Structural)]
pub enum UartError {
    Framing,
    Noise,
    Overrun,
    Parity,
    BufferTooLong,
}

impl UartError {
    /// How the log shows the error.
    pub open spec fn shown(self) -> Seq<char> {
        match self {
            UartError::Framing => "Framing"@,
            UartError::Noise => "Noise"@,
            UartError::Overrun => "Overrun"@,
            UartError::Parity => "Parity"@,
            UartError::BufferTooLong => "BufferTooLong"@,
        }
    }

    /// How the log shows the error.
    pub fn name(&self) -> (r: &'static str)
        ensures
            r@ == self.shown(),
    {
        match self {
            UartError::Framing => "Framing",
            UartError::Noise => "Noise",
            UartError::Overrun => "Overrun",
            UartError::Parity => "Parity",
            UartError::BufferTooLong => "BufferTooLong",
        }
    }
}

/// Outcome of waiting for a reply until the line is idle.
#[derive(Debug, PartialEq, Eq)]
pub enum UartRead {
    Received(Vec<u8>),
    Failed(UartError),
    TimedOut,
}

/// How the log shows a fault of the port tells which it is.
pub proof fn law_faults_of_the_port_are_shown_by_name(fault: UartError)
    ensures
        fault.shown() == "Framing"@ <==> fault is Framing,
        fault.shown() == "Noise"@ <==> fault is Noise,
        fault.shown() == "Overrun"@ <==> fault is Overrun,
        fault.shown() == "Parity"@ <==> fault is Parity,
        fault.shown() == "BufferTooLong"@ <==> fault is BufferTooLong,
{
    reveal_strlit("Framing");
    reveal_strlit("Noise");
    reveal_strlit("Overrun");
    reveal_strlit("Parity");
    reveal_strlit("BufferTooLong");
    assert("Framing"@.len() == 7 && "Noise"@.len() == 5 && "Overrun"@.len() == 7 && "Parity"@.len() == 6 && "BufferTooLong"@.len() == 13);
    assert("Framing"@[0] != "Overrun"@[0]);
}

} // verus!
