use netboot::cause::{
    AcceptFailure, ConnectFailure, DnsError, DnsFailure, InternalWifiError, IoErrorKind,
    SpawnError, TcpError, TcpFailure, WifiError, WifiInitError,
};
use netboot::error::{format_tls_error, Error, FallibleExt, TlsError};
use netboot::numtext::{push_decimal, push_hex_byte, push_hex_code, unsigned_magnitude};

fn tls(e: TlsError) -> String {
    Error::from(e).describe()
}

#[test]
fn tls_fixed_messages() {
    assert_eq!(tls(TlsError::AlreadyCreated), "tls error: instance already created");
    assert_eq!(tls(TlsError::Unknown), "tls error: unknown error");
    assert_eq!(tls(TlsError::OutOfMemory), "tls error: out of memory");
    assert_eq!(tls(TlsError::Eof), "tls error: unexpected end of stream");
    assert_eq!(
        tls(TlsError::X509MissingNullTerminator),
        "tls error: x.509 certificate missing null terminator"
    );
    assert_eq!(
        tls(TlsError::NoClientCertificate),
        "tls error: client didn't provide certificate"
    );
}

#[test]
fn tls_library_code_is_rendered_by_magnitude_in_hex() {
    assert_eq!(tls(TlsError::MbedTlsError(-0x7780)), "tls error: mbedtls error 0x7780");
    assert_eq!(tls(TlsError::MbedTlsError(0x7780)), "tls error: mbedtls error 0x7780");
    assert_eq!(tls(TlsError::MbedTlsError(5)), "tls error: mbedtls error 0x05");
    assert_eq!(tls(TlsError::MbedTlsError(0)), "tls error: mbedtls error 0x00");
    assert_eq!(tls(TlsError::MbedTlsError(-16)), "tls error: mbedtls error 0x10");
    assert_eq!(tls(TlsError::MbedTlsError(255)), "tls error: mbedtls error 0xff");
    assert_eq!(tls(TlsError::MbedTlsError(i32::MIN)), "tls error: mbedtls error 0x80000000");
    assert_eq!(tls(TlsError::MbedTlsError(i32::MAX)), "tls error: mbedtls error 0x7fffffff");
}

#[test]
fn tls_io_failure_names_its_class() {
    assert_eq!(tls(TlsError::Io(IoErrorKind::ConnectionReset)), "tls error: io error: ConnectionReset");
    assert_eq!(tls(TlsError::Io(IoErrorKind::Other)), "tls error: io error: Other");
    assert_eq!(tls(TlsError::Io(IoErrorKind::WriteZero)), "tls error: io error: WriteZero");
}

#[test]
fn tls_messages_are_pairwise_distinct() {
    let mut cases = vec![
        TlsError::AlreadyCreated,
        TlsError::Unknown,
        TlsError::OutOfMemory,
        TlsError::MbedTlsError(1),
        TlsError::MbedTlsError(16),
        TlsError::MbedTlsError(0x100),
        TlsError::Eof,
        TlsError::X509MissingNullTerminator,
        TlsError::NoClientCertificate,
    ];
    for kind in [
        IoErrorKind::Other,
        IoErrorKind::NotFound,
        IoErrorKind::PermissionDenied,
        IoErrorKind::ConnectionRefused,
        IoErrorKind::ConnectionReset,
        IoErrorKind::ConnectionAborted,
        IoErrorKind::NotConnected,
        IoErrorKind::AddrInUse,
        IoErrorKind::AddrNotAvailable,
        IoErrorKind::BrokenPipe,
        IoErrorKind::AlreadyExists,
        IoErrorKind::InvalidInput,
        IoErrorKind::InvalidData,
        IoErrorKind::TimedOut,
        IoErrorKind::Interrupted,
        IoErrorKind::Unsupported,
        IoErrorKind::OutOfMemory,
        IoErrorKind::WriteZero,
    ] {
        cases.push(TlsError::Io(kind));
    }
    for (i, a) in cases.iter().enumerate() {
        for (j, b) in cases.iter().enumerate() {
            if i != j {
                assert_ne!(tls(*a), tls(*b));
            }
        }
    }
}

#[test]
fn format_tls_error_appends() {
    let mut out = String::from("cause: ");
    format_tls_error(&mut out, &TlsError::Eof);
    assert_eq!(out, "cause: tls error: unexpected end of stream");
}

#[test]
fn each_domain_has_its_prefix() {
    assert_eq!(Error::AdHoc("response headers missing").describe(), "ad-hoc error: response headers missing");
    assert_eq!(Error::from(DnsError(DnsFailure::Failed)).describe(), "dns error: DnsError(Failed)");
    assert_eq!(
        Error::from(DnsError(DnsFailure::NameTooLong)).describe(),
        "dns error: DnsError(NameTooLong)"
    );
    assert_eq!(
        Error::from(SpawnError::Busy).describe(),
        "task spawn error: Busy"
    );
    assert_eq!(
        Error::from(TcpError::Connect(ConnectFailure::TimedOut)).describe(),
        "tcp error: Connect(TimedOut)"
    );
    assert_eq!(
        Error::from(TcpError::General(TcpFailure::ConnectionReset)).describe(),
        "tcp error: General(ConnectionReset)"
    );
    assert_eq!(
        Error::from(TcpError::Accept(AcceptFailure::InvalidPort)).describe(),
        "tcp error: Accept(InvalidPort)"
    );
    assert_eq!(Error::from(TcpError::NoBuffers).describe(), "tcp error: NoBuffers");
    assert_eq!(Error::from(TcpError::UnsupportedProto).describe(), "tcp error: UnsupportedProto");
    assert_eq!(Error::from(WifiError::Disconnected).describe(), "wi-fi error: Disconnected");
    assert_eq!(
        Error::from(WifiError::InternalError(InternalWifiError::EspErrWifiTimeout)).describe(),
        "wi-fi error: InternalError(EspErrWifiTimeout)"
    );
    assert_eq!(
        Error::from(WifiInitError::General(-12)).describe(),
        "wi-fi init error: General(-12)"
    );
    assert_eq!(
        Error::from(WifiInitError::General(i32::MIN)).describe(),
        "wi-fi init error: General(-2147483648)"
    );
    assert_eq!(
        Error::from(WifiInitError::WifiError(WifiError::NotInitialized)).describe(),
        "wi-fi init error: WifiError(NotInitialized)"
    );
    assert_eq!(
        Error::from(WifiInitError::WrongClockConfig).describe(),
        "wi-fi init error: WrongClockConfig"
    );
    assert_eq!(
        Error::from(InternalWifiError::EspErrNoMem).describe(),
        "wi-fi internal error: EspErrNoMem"
    );
}

#[test]
fn conversion_lands_in_the_domain_of_the_source() {
    assert_eq!(Error::from("note"), Error::AdHoc("note"));
    assert_eq!(Error::from(DnsError(DnsFailure::InvalidName)), Error::Dns(DnsError(DnsFailure::InvalidName)));
    assert_eq!(Error::from(SpawnError::Busy), Error::Spawn(SpawnError::Busy));
    assert_eq!(Error::from(TcpError::NoBuffers), Error::Tcp(TcpError::NoBuffers));
    assert_eq!(Error::from(TlsError::Eof), Error::Tls(TlsError::Eof));
    assert_eq!(Error::from(WifiError::Unsupported), Error::Wifi(WifiError::Unsupported));
    assert_eq!(
        Error::from(WifiInitError::InterruptsDisabled),
        Error::WifiInit(WifiInitError::InterruptsDisabled)
    );
    assert_eq!(
        Error::from(InternalWifiError::EspErrWifiSsid),
        Error::WifiInternal(InternalWifiError::EspErrWifiSsid)
    );
    assert_ne!(Error::from(TlsError::MbedTlsError(1)), Error::from(TlsError::MbedTlsError(-1)));
}

#[test]
fn or_adhoc_on_option() {
    assert_eq!(Some(7u8).or_adhoc("nothing there"), Ok(7u8));
    let none: Option<u8> = None;
    assert_eq!(none.or_adhoc("nothing there"), Err(Error::AdHoc("nothing there")));
}

#[test]
fn or_adhoc_on_result() {
    let ok: Result<u8, i64> = Ok(3);
    assert_eq!(ok.or_adhoc("went wrong"), Ok(3u8));
    let err: Result<u8, i64> = Err(-1);
    assert_eq!(err.or_adhoc("went wrong"), Err(Error::AdHoc("went wrong")));
}

#[test]
fn number_rendering() {
    let mut out = String::new();
    push_hex_code(&mut out, 0xdead_beef);
    assert_eq!(out, "0xdeadbeef");
    let mut out = String::new();
    push_hex_byte(&mut out, 0x0a);
    push_hex_byte(&mut out, 0xf0);
    assert_eq!(out, "0af0");
    let mut out = String::new();
    push_decimal(&mut out, 1203);
    push_decimal(&mut out, -7);
    push_decimal(&mut out, 0);
    assert_eq!(out, "1203-70");
    assert_eq!(unsigned_magnitude(i32::MIN), 2147483648u32);
    assert_eq!(unsigned_magnitude(-1), 1);
    assert_eq!(unsigned_magnitude(9), 9);
}
