//! The causes of failure of each subsystem, as plain values, and how each is
//! rendered for an operator.

use vstd::prelude::*;
use crate::numtext::{decimal, push_decimal};

verus! {

/// The class of an I/O failure underneath a secure session.
#[derive(Clone, Copy, Debug, PartialEq, Eq, Structural)]
pub enum IoErrorKind {
    Other,
    NotFound,
    PermissionDenied,
    ConnectionRefused,
    ConnectionReset,
    ConnectionAborted,
    NotConnected,
    AddrInUse,
    AddrNotAvailable,
    BrokenPipe,
    AlreadyExists,
    InvalidInput,
    InvalidData,
    TimedOut,
    Interrupted,
    Unsupported,
    OutOfMemory,
    WriteZero,
}

impl IoErrorKind {
    /// The name under which this case is reported.
    pub open spec fn label(self) -> Seq<char> {
        match self {
            IoErrorKind::Other => "Other"@,
            IoErrorKind::NotFound => "NotFound"@,
            IoErrorKind::PermissionDenied => "PermissionDenied"@,
            IoErrorKind::ConnectionRefused => "ConnectionRefused"@,
            IoErrorKind::ConnectionReset => "ConnectionReset"@,
            IoErrorKind::ConnectionAborted => "ConnectionAborted"@,
            IoErrorKind::NotConnected => "NotConnected"@,
            IoErrorKind::AddrInUse => "AddrInUse"@,
            IoErrorKind::AddrNotAvailable => "AddrNotAvailable"@,
            IoErrorKind::BrokenPipe => "BrokenPipe"@,
            IoErrorKind::AlreadyExists => "AlreadyExists"@,
            IoErrorKind::InvalidInput => "InvalidInput"@,
            IoErrorKind::InvalidData => "InvalidData"@,
            IoErrorKind::TimedOut => "TimedOut"@,
            IoErrorKind::Interrupted => "Interrupted"@,
            IoErrorKind::Unsupported => "Unsupported"@,
            IoErrorKind::OutOfMemory => "OutOfMemory"@,
            IoErrorKind::WriteZero => "WriteZero"@,
        }
    }

    /// Returns the name of this class.
    pub fn name(&self) -> (t: &'static str)
        ensures
            t@ == self.label(),
    {
        match self {
            IoErrorKind::Other => "Other",
            IoErrorKind::NotFound => "NotFound",
            IoErrorKind::PermissionDenied => "PermissionDenied",
            IoErrorKind::ConnectionRefused => "ConnectionRefused",
            IoErrorKind::ConnectionReset => "ConnectionReset",
            IoErrorKind::ConnectionAborted => "ConnectionAborted",
            IoErrorKind::NotConnected => "NotConnected",
            IoErrorKind::AddrInUse => "AddrInUse",
            IoErrorKind::AddrNotAvailable => "AddrNotAvailable",
            IoErrorKind::BrokenPipe => "BrokenPipe",
            IoErrorKind::AlreadyExists => "AlreadyExists",
            IoErrorKind::InvalidInput => "InvalidInput",
            IoErrorKind::InvalidData => "InvalidData",
            IoErrorKind::TimedOut => "TimedOut",
            IoErrorKind::Interrupted => "Interrupted",
            IoErrorKind::Unsupported => "Unsupported",
            IoErrorKind::OutOfMemory => "OutOfMemory",
            IoErrorKind::WriteZero => "WriteZero",
        }
    }
}

/// No two classes of I/O failure share a name.
pub proof fn io_kind_names_distinct(a: IoErrorKind, b: IoErrorKind)
    requires
        a.label() == b.label(),
    ensures
        a == b,
{
    reveal_strlit("Other");
    reveal_strlit("NotFound");
    reveal_strlit("PermissionDenied");
    reveal_strlit("ConnectionRefused");
    reveal_strlit("ConnectionReset");
    reveal_strlit("ConnectionAborted");
    reveal_strlit("NotConnected");
    reveal_strlit("AddrInUse");
    reveal_strlit("AddrNotAvailable");
    reveal_strlit("BrokenPipe");
    reveal_strlit("AlreadyExists");
    reveal_strlit("InvalidInput");
    reveal_strlit("InvalidData");
    reveal_strlit("TimedOut");
    reveal_strlit("Interrupted");
    reveal_strlit("Unsupported");
    reveal_strlit("OutOfMemory");
    reveal_strlit("WriteZero");
    let s = a.label();
    let t = b.label();
    assert(s.len() == t.len());
    assert(s[0] == t[0]);
    assert(s[2] == t[2]);
    assert(s[10] == t[10]);
}

/// Why a name lookup failed.
#[derive(Clone, Copy, Debug, PartialEq, Eq, Structural)]
pub enum DnsFailure {
    InvalidName,
    NameTooLong,
    Failed,
}

impl DnsFailure {
    /// The name under which this case is reported.
    pub open spec fn label(self) -> Seq<char> {
        match self {
            DnsFailure::InvalidName => "InvalidName"@,
            DnsFailure::NameTooLong => "NameTooLong"@,
            DnsFailure::Failed => "Failed"@,
        }
    }

    /// Returns the name of this failure.
    pub fn name(&self) -> (t: &'static str)
        ensures
            t@ == self.label(),
    {
        match self {
            DnsFailure::InvalidName => "InvalidName",
            DnsFailure::NameTooLong => "NameTooLong",
            DnsFailure::Failed => "Failed",
        }
    }
}

/// Why an established stream failed.
#[derive(Clone, Copy, Debug, PartialEq, Eq, Structural)]
pub enum TcpFailure {
    ConnectionReset,
}

impl TcpFailure {
    /// The name under which this case is reported.
    pub open spec fn label(self) -> Seq<char> {
        match self {
            TcpFailure::ConnectionReset => "ConnectionReset"@,
        }
    }

    /// Returns the name of this failure.
    pub fn name(&self) -> (t: &'static str)
        ensures
            t@ == self.label(),
    {
        match self {
            TcpFailure::ConnectionReset => "ConnectionReset",
        }
    }
}

/// Why an outgoing connection was not established.
#[derive(Clone, Copy, Debug, PartialEq, Eq, Structural)]
pub enum ConnectFailure {
    InvalidState,
    ConnectionReset,
    TimedOut,
    NoRoute,
}

impl ConnectFailure {
    /// The name under which this case is reported.
    pub open spec fn label(self) -> Seq<char> {
        match self {
            ConnectFailure::InvalidState => "InvalidState"@,
            ConnectFailure::ConnectionReset => "ConnectionReset"@,
            ConnectFailure::TimedOut => "TimedOut"@,
            ConnectFailure::NoRoute => "NoRoute"@,
        }
    }

    /// Returns the name of this failure.
    pub fn name(&self) -> (t: &'static str)
        ensures
            t@ == self.label(),
    {
        match self {
            ConnectFailure::InvalidState => "InvalidState",
            ConnectFailure::ConnectionReset => "ConnectionReset",
            ConnectFailure::TimedOut => "TimedOut",
            ConnectFailure::NoRoute => "NoRoute",
        }
    }
}

/// Why an incoming connection was not accepted.
#[derive(Clone, Copy, Debug, PartialEq, Eq, Structural)]
pub enum AcceptFailure {
    InvalidState,
    InvalidPort,
    ConnectionReset,
}

impl AcceptFailure {
    /// The name under which this case is reported.
    pub open spec fn label(self) -> Seq<char> {
        match self {
            AcceptFailure::InvalidState => "InvalidState"@,
            AcceptFailure::InvalidPort => "InvalidPort"@,
            AcceptFailure::ConnectionReset => "ConnectionReset"@,
        }
    }

    /// Returns the name of this failure.
    pub fn name(&self) -> (t: &'static str)
        ensures
            t@ == self.label(),
    {
        match self {
            AcceptFailure::InvalidState => "InvalidState",
            AcceptFailure::InvalidPort => "InvalidPort",
            AcceptFailure::ConnectionReset => "ConnectionReset",
        }
    }
}

/// A failure code of the radio driver's internals.
#[derive(Clone, Copy, Debug, PartialEq, Eq, Structural)]
pub enum InternalWifiError {
    EspErrNoMem,
    EspErrInvalidArg,
    EspErrWifiNotInit,
    EspErrWifiNotStarted,
    EspErrWifiNotStopped,
    EspErrWifiIf,
    EspErrWifiMode,
    EspErrWifiState,
    EspErrWifiConn,
    EspErrWifiNvs,
    EspErrWifiMac,
    EspErrWifiSsid,
    EspErrWifiPassword,
    EspErrWifiTimeout,
    EspErrWifiWakeFail,
    EspErrWifiWouldBlock,
    EspErrWifiNotConnect,
    EspErrWifiPost,
    EspErrWifiInitState,
    EspErrWifiStopState,
    EspErrWifiNotAssoc,
    EspErrWifiTxDisallow,
}

impl InternalWifiError {
    /// The name under which this case is reported.
    pub open spec fn label(self) -> Seq<char> {
        match self {
            InternalWifiError::EspErrNoMem => "EspErrNoMem"@,
            InternalWifiError::EspErrInvalidArg => "EspErrInvalidArg"@,
            InternalWifiError::EspErrWifiNotInit => "EspErrWifiNotInit"@,
            InternalWifiError::EspErrWifiNotStarted => "EspErrWifiNotStarted"@,
            InternalWifiError::EspErrWifiNotStopped => "EspErrWifiNotStopped"@,
            InternalWifiError::EspErrWifiIf => "EspErrWifiIf"@,
            InternalWifiError::EspErrWifiMode => "EspErrWifiMode"@,
            InternalWifiError::EspErrWifiState => "EspErrWifiState"@,
            InternalWifiError::EspErrWifiConn => "EspErrWifiConn"@,
            InternalWifiError::EspErrWifiNvs => "EspErrWifiNvs"@,
            InternalWifiError::EspErrWifiMac => "EspErrWifiMac"@,
            InternalWifiError::EspErrWifiSsid => "EspErrWifiSsid"@,
            InternalWifiError::EspErrWifiPassword => "EspErrWifiPassword"@,
            InternalWifiError::EspErrWifiTimeout => "EspErrWifiTimeout"@,
            InternalWifiError::EspErrWifiWakeFail => "EspErrWifiWakeFail"@,
            InternalWifiError::EspErrWifiWouldBlock => "EspErrWifiWouldBlock"@,
            InternalWifiError::EspErrWifiNotConnect => "EspErrWifiNotConnect"@,
            InternalWifiError::EspErrWifiPost => "EspErrWifiPost"@,
            InternalWifiError::EspErrWifiInitState => "EspErrWifiInitState"@,
            InternalWifiError::EspErrWifiStopState => "EspErrWifiStopState"@,
            InternalWifiError::EspErrWifiNotAssoc => "EspErrWifiNotAssoc"@,
            InternalWifiError::EspErrWifiTxDisallow => "EspErrWifiTxDisallow"@,
        }
    }

    /// Returns the name of this code.
    pub fn name(&self) -> (t: &'static str)
        ensures
            t@ == self.label(),
    {
        match self {
            InternalWifiError::EspErrNoMem => "EspErrNoMem",
            InternalWifiError::EspErrInvalidArg => "EspErrInvalidArg",
            InternalWifiError::EspErrWifiNotInit => "EspErrWifiNotInit",
            InternalWifiError::EspErrWifiNotStarted => "EspErrWifiNotStarted",
            InternalWifiError::EspErrWifiNotStopped => "EspErrWifiNotStopped",
            InternalWifiError::EspErrWifiIf => "EspErrWifiIf",
            InternalWifiError::EspErrWifiMode => "EspErrWifiMode",
            InternalWifiError::EspErrWifiState => "EspErrWifiState",
            InternalWifiError::EspErrWifiConn => "EspErrWifiConn",
            InternalWifiError::EspErrWifiNvs => "EspErrWifiNvs",
            InternalWifiError::EspErrWifiMac => "EspErrWifiMac",
            InternalWifiError::EspErrWifiSsid => "EspErrWifiSsid",
            InternalWifiError::EspErrWifiPassword => "EspErrWifiPassword",
            InternalWifiError::EspErrWifiTimeout => "EspErrWifiTimeout",
            InternalWifiError::EspErrWifiWakeFail => "EspErrWifiWakeFail",
            InternalWifiError::EspErrWifiWouldBlock => "EspErrWifiWouldBlock",
            InternalWifiError::EspErrWifiNotConnect => "EspErrWifiNotConnect",
            InternalWifiError::EspErrWifiPost => "EspErrWifiPost",
            InternalWifiError::EspErrWifiInitState => "EspErrWifiInitState",
            InternalWifiError::EspErrWifiStopState => "EspErrWifiStopState",
            InternalWifiError::EspErrWifiNotAssoc => "EspErrWifiNotAssoc",
            InternalWifiError::EspErrWifiTxDisallow => "EspErrWifiTxDisallow",
        }
    }
}

/// A failed name resolution.
#[derive(Clone, Copy, Debug, PartialEq, Eq, Structural)]
pub struct DnsError(pub DnsFailure);

impl DnsError {
    /// How this failure reads in a diagnostic.
    pub open spec fn text(self) -> Seq<char> {
        "DnsError("@ + self.0.label() + ")"@
    }

    /// Appends the diagnostic text of this failure to `out`.
    pub fn render(&self, out: &mut String)
        ensures
            final(out)@ == old(out)@ + self.text(),
    {
        out.append("DnsError(");
        out.append(self.0.name());
        out.append(")");
        assert(final(out)@ =~= old(out)@ + self.text());
    }
}

/// A failure to launch a concurrent task.
#[derive(Clone, Copy, Debug, PartialEq, Eq, Structural)]
pub enum SpawnError {
    /// Every instance of the task is already running.
    Busy,
}

impl SpawnError {
    /// How this failure reads in a diagnostic.
    pub open spec fn text(self) -> Seq<char> {
        "Busy"@
    }

    /// Appends the diagnostic text of this failure to `out`.
    pub fn render(&self, out: &mut String)
        ensures
            final(out)@ == old(out)@ + self.text(),
    {
        out.append("Busy");
    }
}

/// A failure of the transport layer.
#[derive(Clone, Copy, Debug, PartialEq, Eq, Structural)]
pub enum TcpError {
    General(TcpFailure),
    Connect(ConnectFailure),
    Accept(AcceptFailure),
    /// No socket buffers were left.
    NoBuffers,
    /// The address asks for a protocol that is not supported.
    UnsupportedProto,
}

impl TcpError {
    /// How this failure reads in a diagnostic.
    pub open spec fn text(self) -> Seq<char> {
        match self {
            TcpError::General(e) => "General("@ + e.label() + ")"@,
            TcpError::Connect(e) => "Connect("@ + e.label() + ")"@,
            TcpError::Accept(e) => "Accept("@ + e.label() + ")"@,
            TcpError::NoBuffers => "NoBuffers"@,
            TcpError::UnsupportedProto => "UnsupportedProto"@,
        }
    }

    /// Appends the diagnostic text of this failure to `out`.
    pub fn render(&self, out: &mut String)
        ensures
            final(out)@ == old(out)@ + self.text(),
    {
        match self {
            TcpError::General(e) => {
                out.append("General(");
                out.append(e.name());
                out.append(")");
            },
            TcpError::Connect(e) => {
                out.append("Connect(");
                out.append(e.name());
                out.append(")");
            },
            TcpError::Accept(e) => {
                out.append("Accept(");
                out.append(e.name());
                out.append(")");
            },
            TcpError::NoBuffers => {
                out.append("NoBuffers");
            },
            TcpError::UnsupportedProto => {
                out.append("UnsupportedProto");
            },
        }
        assert(final(out)@ =~= old(out)@ + self.text());
    }
}

/// A failure of a radio operation.
#[derive(Clone, Copy, Debug, PartialEq, Eq, Structural)]
pub enum WifiError {
    NotInitialized,
    InternalError(InternalWifiError),
    Disconnected,
    UnknownWifiMode,
    Unsupported,
    InvalidArguments,
}

impl WifiError {
    /// How this failure reads in a diagnostic.
    pub open spec fn text(self) -> Seq<char> {
        match self {
            WifiError::NotInitialized => "NotInitialized"@,
            WifiError::InternalError(e) => "InternalError("@ + e.label() + ")"@,
            WifiError::Disconnected => "Disconnected"@,
            WifiError::UnknownWifiMode => "UnknownWifiMode"@,
            WifiError::Unsupported => "Unsupported"@,
            WifiError::InvalidArguments => "InvalidArguments"@,
        }
    }

    /// Appends the diagnostic text of this failure to `out`.
    pub fn render(&self, out: &mut String)
        ensures
            final(out)@ == old(out)@ + self.text(),
    {
        match self {
            WifiError::NotInitialized => {
                out.append("NotInitialized");
            },
            WifiError::InternalError(e) => {
                out.append("InternalError(");
                out.append(e.name());
                out.append(")");
            },
            WifiError::Disconnected => {
                out.append("Disconnected");
            },
            WifiError::UnknownWifiMode => {
                out.append("UnknownWifiMode");
            },
            WifiError::Unsupported => {
                out.append("Unsupported");
            },
            WifiError::InvalidArguments => {
                out.append("InvalidArguments");
            },
        }
        assert(final(out)@ =~= old(out)@ + self.text());
    }
}

/// A failure to bring the radio subsystem up.
#[derive(Clone, Copy, Debug, PartialEq, Eq, Structural)]
pub enum WifiInitError {
    /// A general failure, with the driver's code.
    General(i32),
    WifiError(WifiError),
    /// The processor's clock is too slow for the radio.
    WrongClockConfig,
    /// Interrupts were disabled at the time.
    InterruptsDisabled,
}

impl WifiInitError {
    /// How this failure reads in a diagnostic.
    pub open spec fn text(self) -> Seq<char> {
        match self {
            WifiInitError::General(code) => "General("@ + decimal(code as int) + ")"@,
            WifiInitError::WifiError(e) => "WifiError("@ + e.text() + ")"@,
            WifiInitError::WrongClockConfig => "WrongClockConfig"@,
            WifiInitError::InterruptsDisabled => "InterruptsDisabled"@,
        }
    }

    /// Appends the diagnostic text of this failure to `out`.
    pub fn render(&self, out: &mut String)
        ensures
            final(out)@ == old(out)@ + self.text(),
    {
        match self {
            WifiInitError::General(code) => {
                out.append("General(");
                push_decimal(out, *code);
                out.append(")");
            },
            WifiInitError::WifiError(e) => {
                out.append("WifiError(");
                e.render(out);
                out.append(")");
            },
            WifiInitError::WrongClockConfig => {
                out.append("WrongClockConfig");
            },
            WifiInitError::InterruptsDisabled => {
                out.append("InterruptsDisabled");
            },
        }
        assert(final(out)@ =~= old(out)@ + self.text());
    }
}

} // verus!
