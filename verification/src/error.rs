//! The kinds of failure a session can meet, and what each one means for it.

use vstd::prelude::*;

verus! {

/// A failure of one step of a session.
#[derive(Clone, Copy, Debug, PartialEq, Eq, Structural)]
pub enum SessionError {
    /// The host's radio could not be brought up.
    AdapterUnavailable,
    /// The scan could not be started.
    ScanFailed,
    /// The scan ended and no advertisement carried the wanted name.
    NoMatchingDevice,
    /// The peripheral was found but the link could not be established.
    ConnectFailed,
    /// Service or characteristic discovery, or the subscription, failed.
    DiscoveryFailed,
    /// The peripheral lacks the UART service or one of its two characteristics.
    ProfileUnsupported,
    /// One uplink write was not accepted by the transport.
    WriteFailed,
    /// One inbound payload was not valid UTF-8.
    NotifyDecodeError,
    /// The closing disconnect call failed.
    DisconnectFailed,
}

/// What a session does when it meets an error.
#[derive(Clone, Copy, Debug, PartialEq, Eq, Structural)]
pub enum Handling {
    /// The session ends and the process reports a non-zero status.
    EndSession,
    /// The loop that met the error reports it and carries on.
    Recover,
    /// The error is reported; nothing else changes.
    LogOnly,
}

impl SessionError {
    /// How a session reacts to this error.
    pub open spec fn handling_of(self) -> Handling {
        match self {
            SessionError::WriteFailed | SessionError::NotifyDecodeError => Handling::Recover,
            SessionError::DisconnectFailed => Handling::LogOnly,
            _ => Handling::EndSession,
        }
    }

    /// The number that identifies this error as a process status.
    pub open spec fn code_of(self) -> int {
        match self {
            SessionError::NoMatchingDevice => -1,
            SessionError::AdapterUnavailable => 1,
            SessionError::ScanFailed => 2,
            SessionError::ConnectFailed => 3,
            SessionError::DiscoveryFailed => 4,
            SessionError::ProfileUnsupported => 5,
            SessionError::WriteFailed => 6,
            SessionError::NotifyDecodeError => 7,
            SessionError::DisconnectFailed => 8,
        }
    }

    /// True for the errors of the setup phase, which end the session.
    pub open spec fn is_setup_error(self) -> bool {
        self.handling_of() == Handling::EndSession && self != SessionError::NoMatchingDevice
    }

    /// How a session reacts to this error.
    pub fn handling(&self) -> (h: Handling)
        ensures
            h == self.handling_of(),
    {
        match self {
            SessionError::WriteFailed | SessionError::NotifyDecodeError => Handling::Recover,
            SessionError::DisconnectFailed => Handling::LogOnly,
            _ => Handling::EndSession,
        }
    }

    /// The number that identifies this error as a process status: never
    /// zero, and a different one for each error.
    pub fn code(&self) -> (c: i32)
        ensures
            c == self.code_of(),
    {
        match self {
            SessionError::NoMatchingDevice => -1,
            SessionError::AdapterUnavailable => 1,
            SessionError::ScanFailed => 2,
            SessionError::ConnectFailed => 3,
            SessionError::DiscoveryFailed => 4,
            SessionError::ProfileUnsupported => 5,
            SessionError::WriteFailed => 6,
            SessionError::NotifyDecodeError => 7,
            SessionError::DisconnectFailed => 8,
        }
    }

    /// A short description for a person reading the terminal.
    pub fn message(&self) -> (m: &'static str)
        ensures
            m@ == self.message_of(),
    {
        match self {
            SessionError::AdapterUnavailable => "Bluetooth adapter unavailable",
            SessionError::ScanFailed => "scan failed",
            SessionError::NoMatchingDevice => "No device found!",
            SessionError::ConnectFailed => "connection failed",
            SessionError::DiscoveryFailed => "discovery failed",
            SessionError::ProfileUnsupported => "profile not supported",
            SessionError::WriteFailed => "write failed",
            SessionError::NotifyDecodeError => "notification is not valid UTF-8",
            SessionError::DisconnectFailed => "disconnect failed",
        }
    }

    /// The text of `message`.
    pub open spec fn message_of(self) -> Seq<char> {
        match self {
            SessionError::AdapterUnavailable => "Bluetooth adapter unavailable"@,
            SessionError::ScanFailed => "scan failed"@,
            SessionError::NoMatchingDevice => "No device found!"@,
            SessionError::ConnectFailed => "connection failed"@,
            SessionError::DiscoveryFailed => "discovery failed"@,
            SessionError::ProfileUnsupported => "profile not supported"@,
            SessionError::WriteFailed => "write failed"@,
            SessionError::NotifyDecodeError => "notification is not valid UTF-8"@,
            SessionError::DisconnectFailed => "disconnect failed"@,
        }
    }
}

/// No error has status zero, and no two errors share a status.
pub proof fn lemma_codes_distinct(a: SessionError, b: SessionError)
    ensures
        a.code_of() != 0,
        i32::MIN <= a.code_of() <= i32::MAX,
        a.code_of() == b.code_of() ==> a == b,
{
}

} // verus!
