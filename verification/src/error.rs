//! The one error type that every stage reports through, the conversion of
//! each subsystem's failure into it, and its rendering.

use vstd::prelude::*;
use vstd::std_specs::convert::{FromSpec, FromSpecImpl};
use crate::cause::{io_kind_names_distinct, DnsError, InternalWifiError, IoErrorKind, SpawnError, TcpError, WifiError, WifiInitError};
use crate::numtext::{hex_code, hex_code_injective, magnitude, push_hex_code, unsigned_magnitude};

verus! {

/// A failure of the secure session.
#[derive(Clone, Copy, Debug, PartialEq, Eq, Structural)]
pub enum TlsError {
    /// A session library instance exists already.
    AlreadyCreated,
    Unknown,
    OutOfMemory,
    /// A code of the underlying library, opaque to this crate.
    MbedTlsError(i32),
    /// The stream ended in the middle of a record.
    Eof,
    /// A certificate was handed over without its terminating zero byte.
    X509MissingNullTerminator,
    NoClientCertificate,
    /// The transport underneath failed.
    Io(IoErrorKind),
}

impl TlsError {
    /// The message of this failure: one fixed sentence per case, followed for
    /// a library code by its magnitude in hexadecimal and for an I/O failure
    /// by the name of its class.
    pub open spec fn text(self) -> Seq<char> {
        match self {
            TlsError::AlreadyCreated => "tls error: instance already created"@,
            TlsError::Unknown => "tls error: unknown error"@,
            TlsError::OutOfMemory => "tls error: out of memory"@,
            TlsError::MbedTlsError(code) => "tls error: mbedtls error "@ + hex_code(magnitude(code)),
            TlsError::Eof => "tls error: unexpected end of stream"@,
            TlsError::X509MissingNullTerminator => "tls error: x.509 certificate missing null terminator"@,
            TlsError::NoClientCertificate => "tls error: client didn't provide certificate"@,
            TlsError::Io(kind) => "tls error: io error: "@ + kind.label(),
        }
    }

    /// Whether two failures are told apart by their messages: they are, unless
    /// they are equal or are library codes of the same magnitude.
    pub open spec fn same_diagnosis(self, other: TlsError) -> bool {
        self == other || (self matches TlsError::MbedTlsError(a) && other matches TlsError::MbedTlsError(b)
            && magnitude(a) == magnitude(b))
    }
}

/// Appends the message of a secure-session failure to `out`.
pub fn format_tls_error(out: &mut String, err: &TlsError)
    ensures
        final(out)@ == old(out)@ + err.text(),
{
    match err {
        TlsError::AlreadyCreated => {
            out.append("tls error: instance already created");
        },
        TlsError::Unknown => {
            out.append("tls error: unknown error");
        },
        TlsError::OutOfMemory => {
            out.append("tls error: out of memory");
        },
        TlsError::MbedTlsError(code) => {
            out.append("tls error: mbedtls error ");
            push_hex_code(out, unsigned_magnitude(*code));
        },
        TlsError::Eof => {
            out.append("tls error: unexpected end of stream");
        },
        TlsError::X509MissingNullTerminator => {
            out.append("tls error: x.509 certificate missing null terminator");
        },
        TlsError::NoClientCertificate => {
            out.append("tls error: client didn't provide certificate");
        },
        TlsError::Io(kind) => {
            out.append("tls error: io error: ");
            out.append(kind.name());
        },
    }
    assert(final(out)@ =~= old(out)@ + err.text());
}

/// Any failure of any stage. Each value holds exactly one cause.
#[derive(Clone, Copy, Debug, PartialEq, Eq)]
pub enum Error {
    /// A named condition that no subsystem raised.
    AdHoc(&'static str),
    Dns(DnsError),
    Spawn(SpawnError),
    Tcp(TcpError),
    Tls(TlsError),
    Wifi(WifiError),
    WifiInit(WifiInitError),
    WifiInternal(InternalWifiError),
}

impl Error {
    /// The message of this failure: the domain's prefix, then the cause.
    pub open spec fn text(self) -> Seq<char> {
        match self {
            Error::AdHoc(msg) => "ad-hoc error: "@ + msg@,
            Error::Dns(e) => "dns error: "@ + e.text(),
            Error::Spawn(e) => "task spawn error: "@ + e.text(),
            Error::Tcp(e) => "tcp error: "@ + e.text(),
            Error::Tls(e) => e.text(),
            Error::Wifi(e) => "wi-fi error: "@ + e.text(),
            Error::WifiInit(e) => "wi-fi init error: "@ + e.text(),
            Error::WifiInternal(e) => "wi-fi internal error: "@ + e.label(),
        }
    }

    /// Renders this failure for an operator.
    pub fn describe(&self) -> (text: String)
        ensures
            text@ == self.text(),
    {
        let mut out = String::new();
        match self {
            Error::AdHoc(msg) => {
                out.append("ad-hoc error: ");
                out.append(msg);
            },
            Error::Dns(e) => {
                out.append("dns error: ");
                e.render(&mut out);
            },
            Error::Spawn(e) => {
                out.append("task spawn error: ");
                e.render(&mut out);
            },
            Error::Tcp(e) => {
                out.append("tcp error: ");
                e.render(&mut out);
            },
            Error::Tls(e) => {
                format_tls_error(&mut out, e);
            },
            Error::Wifi(e) => {
                out.append("wi-fi error: ");
                e.render(&mut out);
            },
            Error::WifiInit(e) => {
                out.append("wi-fi init error: ");
                e.render(&mut out);
            },
            Error::WifiInternal(e) => {
                out.append("wi-fi internal error: ");
                out.append(e.name());
            },
        }
        assert(out@ =~= self.text());
        out
    }
}

impl From<&'static str> for Error {
    /// Wraps a bare diagnostic message, unchanged.
    fn from(inner: &'static str) -> (e: Error) {
        Error::AdHoc(inner)
    }
}

impl FromSpecImpl<&'static str> for Error {
    open spec fn obeys_from_spec() -> bool {
        true
    }

    open spec fn from_spec(inner: &'static str) -> Error {
        Error::AdHoc(inner)
    }
}

impl From<DnsError> for Error {
    /// Wraps a failed name resolution, unchanged.
    fn from(inner: DnsError) -> (e: Error) {
        Error::Dns(inner)
    }
}

impl FromSpecImpl<DnsError> for Error {
    open spec fn obeys_from_spec() -> bool {
        true
    }

    open spec fn from_spec(inner: DnsError) -> Error {
        Error::Dns(inner)
    }
}

impl From<SpawnError> for Error {
    /// Wraps a failed task launch, unchanged.
    fn from(inner: SpawnError) -> (e: Error) {
        Error::Spawn(inner)
    }
}

impl FromSpecImpl<SpawnError> for Error {
    open spec fn obeys_from_spec() -> bool {
        true
    }

    open spec fn from_spec(inner: SpawnError) -> Error {
        Error::Spawn(inner)
    }
}

impl From<TcpError> for Error {
    /// Wraps a transport failure, unchanged.
    fn from(inner: TcpError) -> (e: Error) {
        Error::Tcp(inner)
    }
}

impl FromSpecImpl<TcpError> for Error {
    open spec fn obeys_from_spec() -> bool {
        true
    }

    open spec fn from_spec(inner: TcpError) -> Error {
        Error::Tcp(inner)
    }
}

impl From<TlsError> for Error {
    /// Wraps a secure-session failure, unchanged.
    fn from(inner: TlsError) -> (e: Error) {
        Error::Tls(inner)
    }
}

impl FromSpecImpl<TlsError> for Error {
    open spec fn obeys_from_spec() -> bool {
        true
    }

    open spec fn from_spec(inner: TlsError) -> Error {
        Error::Tls(inner)
    }
}

impl From<WifiError> for Error {
    /// Wraps a failed radio operation, unchanged.
    fn from(inner: WifiError) -> (e: Error) {
        Error::Wifi(inner)
    }
}

impl FromSpecImpl<WifiError> for Error {
    open spec fn obeys_from_spec() -> bool {
        true
    }

    open spec fn from_spec(inner: WifiError) -> Error {
        Error::Wifi(inner)
    }
}

impl From<WifiInitError> for Error {
    /// Wraps a failed radio bring-up, unchanged.
    fn from(inner: WifiInitError) -> (e: Error) {
        Error::WifiInit(inner)
    }
}

impl FromSpecImpl<WifiInitError> for Error {
    open spec fn obeys_from_spec() -> bool {
        true
    }

    open spec fn from_spec(inner: WifiInitError) -> Error {
        Error::WifiInit(inner)
    }
}

impl From<InternalWifiError> for Error {
    /// Wraps a failure inside the radio driver, unchanged.
    fn from(inner: InternalWifiError) -> (e: Error) {
        Error::WifiInternal(inner)
    }
}

impl FromSpecImpl<InternalWifiError> for Error {
    open spec fn obeys_from_spec() -> bool {
        true
    }

    open spec fn from_spec(inner: InternalWifiError) -> Error {
        Error::WifiInternal(inner)
    }
}

/// The first characters of a secure-session message after the common
/// prefix, which tell the cases apart.
proof fn tls_text_shape(e: TlsError)
    ensures
        e.text().len() >= 13,
        e.text()[11] == (match e {
            TlsError::AlreadyCreated => 'i',
            TlsError::Unknown => 'u',
            TlsError::OutOfMemory => 'o',
            TlsError::MbedTlsError(_) => 'm',
            TlsError::Eof => 'u',
            TlsError::X509MissingNullTerminator => 'x',
            TlsError::NoClientCertificate => 'c',
            TlsError::Io(_) => 'i',
        }),
        e is AlreadyCreated ==> e.text()[12] == 'n',
        e is Io ==> e.text()[12] == 'o',
        e is Unknown ==> e.text().len() == 24,
        e is Eof ==> e.text().len() == 35,
{
    reveal_strlit("tls error: instance already created");
    reveal_strlit("tls error: unknown error");
    reveal_strlit("tls error: out of memory");
    reveal_strlit("tls error: mbedtls error ");
    reveal_strlit("tls error: unexpected end of stream");
    reveal_strlit("tls error: x.509 certificate missing null terminator");
    reveal_strlit("tls error: client didn't provide certificate");
    reveal_strlit("tls error: io error: ");
    match e {
        TlsError::MbedTlsError(code) => {
            let p = "tls error: mbedtls error "@;
            assert((p + hex_code(magnitude(code)))[11] == p[11]);
            assert((p + hex_code(magnitude(code)))[12] == p[12]);
        },
        TlsError::Io(kind) => {
            let p = "tls error: io error: "@;
            assert((p + kind.label())[11] == p[11]);
            assert((p + kind.label())[12] == p[12]);
        },
        _ => {},
    }
}

/// Two sequences that are equal behind one prefix are equal.
proof fn same_rest(p: Seq<char>, x: Seq<char>, y: Seq<char>)
    requires
        p + x == p + y,
    ensures
        x == y,
{
    assert((p + x).subrange(p.len() as int, (p + x).len() as int) =~= x);
    assert((p + y).subrange(p.len() as int, (p + y).len() as int) =~= y);
}

/// Distinct secure-session failures render distinct messages: two failures
/// with one message are the same case with the same cause, a library code
/// being known by its magnitude.
pub proof fn tls_messages_distinct(a: TlsError, b: TlsError)
    requires
        a.text() == b.text(),
    ensures
        a.same_diagnosis(b),
{
    tls_text_shape(a);
    tls_text_shape(b);
    match (a, b) {
        (TlsError::MbedTlsError(x), TlsError::MbedTlsError(y)) => {
            same_rest("tls error: mbedtls error "@, hex_code(magnitude(x)), hex_code(magnitude(y)));
            hex_code_injective(magnitude(x), magnitude(y));
        },
        (TlsError::Io(x), TlsError::Io(y)) => {
            same_rest("tls error: io error: "@, x.label(), y.label());
            io_kind_names_distinct(x, y);
        },
        _ => {},
    }
}

/// A secure-session failure renders the same message wrapped or bare, so the
/// unified type keeps what tells two of them apart.
pub proof fn tls_diagnosis_survives_conversion(a: TlsError, b: TlsError)
    requires
        <Error as FromSpec<TlsError>>::from_spec(a).text() == <Error as FromSpec<TlsError>>::from_spec(b).text(),
    ensures
        a.same_diagnosis(b),
{
    tls_messages_distinct(a, b);
}

/// Conversion into the unified type is total and keeps the cause: a value of
/// each source lands in the variant of its own domain, and two values of one
/// source that convert to the same error are the same value.
pub proof fn conversion_keeps_cause(msg_a: &'static str, msg_b: &'static str, dns_a: DnsError, dns_b: DnsError, spawn_a: SpawnError, spawn_b: SpawnError, tcp_a: TcpError, tcp_b: TcpError, tls_a: TlsError, tls_b: TlsError, wifi_a: WifiError, wifi_b: WifiError, init_a: WifiInitError, init_b: WifiInitError, internal_a: InternalWifiError, internal_b: InternalWifiError)
    ensures
        <Error as FromSpec<&'static str>>::from_spec(msg_a) == Error::AdHoc(msg_a),
        <Error as FromSpec<&'static str>>::from_spec(msg_a) == <Error as FromSpec<&'static str>>::from_spec(msg_b) ==> msg_a == msg_b,
        <Error as FromSpec<DnsError>>::from_spec(dns_a) == Error::Dns(dns_a),
        <Error as FromSpec<DnsError>>::from_spec(dns_a) == <Error as FromSpec<DnsError>>::from_spec(dns_b) ==> dns_a == dns_b,
        <Error as FromSpec<SpawnError>>::from_spec(spawn_a) == Error::Spawn(spawn_a),
        <Error as FromSpec<SpawnError>>::from_spec(spawn_a) == <Error as FromSpec<SpawnError>>::from_spec(spawn_b) ==> spawn_a == spawn_b,
        <Error as FromSpec<TcpError>>::from_spec(tcp_a) == Error::Tcp(tcp_a),
        <Error as FromSpec<TcpError>>::from_spec(tcp_a) == <Error as FromSpec<TcpError>>::from_spec(tcp_b) ==> tcp_a == tcp_b,
        <Error as FromSpec<TlsError>>::from_spec(tls_a) == Error::Tls(tls_a),
        <Error as FromSpec<TlsError>>::from_spec(tls_a) == <Error as FromSpec<TlsError>>::from_spec(tls_b) ==> tls_a == tls_b,
        <Error as FromSpec<WifiError>>::from_spec(wifi_a) == Error::Wifi(wifi_a),
        <Error as FromSpec<WifiError>>::from_spec(wifi_a) == <Error as FromSpec<WifiError>>::from_spec(wifi_b) ==> wifi_a == wifi_b,
        <Error as FromSpec<WifiInitError>>::from_spec(init_a) == Error::WifiInit(init_a),
        <Error as FromSpec<WifiInitError>>::from_spec(init_a) == <Error as FromSpec<WifiInitError>>::from_spec(init_b) ==> init_a == init_b,
        <Error as FromSpec<InternalWifiError>>::from_spec(internal_a) == Error::WifiInternal(internal_a),
        <Error as FromSpec<InternalWifiError>>::from_spec(internal_a) == <Error as FromSpec<InternalWifiError>>::from_spec(internal_b) ==> internal_a == internal_b,
{
}

/// Turns the absence of a value into a named failure.
pub trait FallibleExt<T>: Sized {
    /// The value that is there, if any.
    spec fn present(self) -> Option<T>;

    /// Hands the value on, or fails with `msg` as an ad-hoc cause.
    fn or_adhoc(self, msg: &'static str) -> (r: Result<T, Error>)
        ensures
            r == (match self.present() {
                Some(v) => Ok::<T, Error>(v),
                None => Err::<T, Error>(Error::AdHoc(msg)),
            }),
    ;
}

impl<T> FallibleExt<T> for Option<T> {
    open spec fn present(self) -> Option<T> {
        self
    }

    fn or_adhoc(self, msg: &'static str) -> (r: Result<T, Error>) {
        match self {
            Some(v) => Ok(v),
            None => Err(Error::AdHoc(msg)),
        }
    }
}

impl<T, E> FallibleExt<T> for Result<T, E> {
    open spec fn present(self) -> Option<T> {
        match self {
            Ok(v) => Some(v),
            Err(_) => None,
        }
    }

    fn or_adhoc(self, msg: &'static str) -> (r: Result<T, Error>) {
        match self {
            Ok(v) => Ok(v),
            Err(_) => Err(Error::AdHoc(msg)),
        }
    }
}

} // verus!
