//! Errors of the VPN core, grouped by subsystem.
//!
//! Messages carry short contextual reasons only; raw platform error text is
//! not passed through.

use vstd::prelude::*;
use crate::addr::IpAddress;

verus! {

/// Every error of the system, by functional domain.
#[derive(Debug, Clone, PartialEq, Eq)]
pub enum QuincyError {
    Auth(AuthError),
    Config(ConfigError),
    Network(NetworkError),
    Certificate(CertificateError),
    Quic(QuicError),
    Interface(InterfaceError),
    Dns(DnsError),
    Route(RouteError),
    Socket(SocketError),
    /// An I/O operation failed; the operation is named, the OS error is not.
    Io { message: String },
    /// An unrecoverable system condition.
    System { message: String },
}

/// Authentication and authorization errors.
#[derive(Debug, Clone, Copy, PartialEq, Eq, Structural)]
pub enum AuthError {
    InvalidCredentials,
    UserNotFound,
    Timeout,
    InvalidPayload,
    PermissionDenied,
    StoreUnavailable,
    PasswordHashingFailed,
    StreamError,
}

/// Configuration loading and validation errors.
#[derive(Debug, Clone, PartialEq, Eq)]
pub enum ConfigError {
    FileNotFound { path: String },
    FileNotReadable { path: String },
    InvalidSyntax { path: String },
    MissingField { field: String },
    InvalidValue { field: String, reason: String },
    Conflict { conflict: String },
    InvalidEnvironmentVariable { variable: String },
    ParseError { message: String },
}

/// Network communication and packet errors.
#[derive(Debug, Clone, PartialEq, Eq)]
pub enum NetworkError {
    ConnectionFailed { address: String },
    ConnectionClosed,
    Timeout,
    InvalidAddress { address: String },
    PacketError { reason: String },
    InterfaceUnavailable { interface: String },
    AddressResolution { hostname: String },
    PortBindFailed { port: u16 },
    NetworkUnreachable,
    MtuExceeded { size: usize, limit: u16 },
}

/// Certificate and TLS errors.
#[derive(Debug, Clone, PartialEq, Eq)]
pub enum CertificateError {
    LoadFailed { path: String },
    PrivateKeyLoadFailed { path: String },
    ValidationFailed,
    Expired,
    NotYetValid,
    HostnameMismatch,
    InvalidChain,
    UnsupportedFormat,
    UntrustedCa,
    Revoked,
}

/// QUIC transport errors.
#[derive(Debug, Clone, PartialEq, Eq)]
pub enum QuicError {
    ConnectionFailed { reason: String },
    StreamError { reason: String },
    ConfigError { reason: String },
    TransportError { error_code: u64 },
    ApplicationError { error_code: u64 },
    IdleTimeout,
    EndpointError,
    DatagramError { reason: String },
}

/// Virtual network interface errors.
#[derive(Debug, Clone, PartialEq, Eq)]
pub enum InterfaceError {
    CreationFailed,
    ConfigurationFailed { reason: String },
    NotAvailable { name: String },
    PermissionDenied,
    IoError { operation: String },
    MtuConfigFailed { requested: u16, supported: u16 },
    InvalidState { state: String },
    PlatformError { message: String },
}

/// DNS configuration errors.
#[derive(Debug, Clone, PartialEq, Eq)]
pub enum DnsError {
    ConfigurationFailed,
    ResolutionFailed { hostname: String },
    ServerUnreachable { server: IpAddress },
    QueryTimeout,
    InvalidConfiguration { reason: String },
    BackupFailed,
    RestoreFailed,
    PlatformError { message: String },
}

/// Routing table errors.
#[derive(Debug, Clone, PartialEq, Eq)]
pub enum RouteError {
    AddFailed { destination: String },
    RemoveFailed { destination: String },
    QueryFailed,
    InvalidRoute { route: String },
    AlreadyExists { destination: String },
    NotFound { destination: String },
    PermissionDenied,
    PlatformError { message: String },
}

/// Socket errors.
#[derive(Debug, Clone, PartialEq, Eq)]
pub enum SocketError {
    CreationFailed,
    BindFailed { address: String },
    ConfigFailed { option: String },
    BufferSizeFailed { requested: usize, actual: usize },
    InvalidState { state: String },
    NotSupported { operation: String },
    AddressInUse { address: String },
    AddressNotAvailable { address: String },
}

/// The result of a fallible operation of the core.
pub type Result<T> = core::result::Result<T, QuincyError>;

impl QuincyError {
    /// A system error with the given message.
    pub fn system(message: String) -> (r: QuincyError)
        ensures
            r matches QuincyError::System { message: m } && m@ == message@,
    {
        QuincyError::System { message }
    }

    /// The error for credentials that the other side rejected.
    pub fn invalid_credentials() -> (r: QuincyError)
        ensures
            r == QuincyError::Auth(AuthError::InvalidCredentials),
    {
        QuincyError::Auth(AuthError::InvalidCredentials)
    }

    /// The error for a failed connection to `address`.
    pub fn connection_failed(address: String) -> (r: QuincyError)
        ensures
            r matches QuincyError::Network(NetworkError::ConnectionFailed { address: a })
                && a@ == address@,
    {
        QuincyError::Network(NetworkError::ConnectionFailed { address })
    }

    /// The error for a configuration file that does not exist.
    pub fn config_file_not_found(path: String) -> (r: QuincyError)
        ensures
            r matches QuincyError::Config(ConfigError::FileNotFound { path: p }) && p@ == path@,
    {
        QuincyError::Config(ConfigError::FileNotFound { path })
    }
}

} // verus!
