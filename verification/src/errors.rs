//! Error classification for the connection subsystem.
//!
//! Every error produced by this subsystem is classifiable as either
//! retryable (transient: drives backoff and fallback to the next route) or
//! fatal (configuration, certificate or protocol error: surfaced immediately,
//! never retried). Classification is an intrinsic property of the error
//! value: the same value always classifies the same way.

use vstd::prelude::*;

verus! {

/// Whether an error should be retried (possibly on another route) or
/// surfaced immediately.
#[derive(Copy, Clone, Debug, PartialEq, Eq, Structural)]
pub enum ErrorClass {
    /// Transient failure: back off and possibly fall back to the next route.
    Retryable,
    /// Configuration, certificate or protocol failure: retrying cannot help.
    Fatal,
}

/// Capability implemented by every error type in this subsystem: it places
/// the error in exactly one class, as a property of the value alone.
pub trait ErrorClassifier {
    /// The class this error value belongs to.
    spec fn spec_classify(&self) -> ErrorClass;

    /// Classify the error; the result is determined by the value.
    fn classify(&self) -> (r: ErrorClass)
        ensures
            r == self.spec_classify(),
    ;
}

/// Failure to open a transport stream to one route.
#[derive(Copy, Clone, Debug, PartialEq, Eq, Structural)]
pub enum TransportConnectError {
    /// The route's configuration itself is malformed.
    InvalidConfiguration,
    /// Hostname resolution failed.
    DnsError,
    /// The TCP connection could not be established.
    TcpConnectionFailed,
    /// The TLS handshake failed for a reason other than certificate validation.
    TlsHandshakeFailed,
    /// Certificate validation failed during the TLS handshake.
    CertificateError,
}

impl ErrorClassifier for TransportConnectError {
    open spec fn spec_classify(&self) -> ErrorClass {
        match self {
            TransportConnectError::InvalidConfiguration => ErrorClass::Fatal,
            TransportConnectError::DnsError => ErrorClass::Retryable,
            TransportConnectError::TcpConnectionFailed => ErrorClass::Retryable,
            TransportConnectError::TlsHandshakeFailed => ErrorClass::Retryable,
            TransportConnectError::CertificateError => ErrorClass::Fatal,
        }
    }

    fn classify(&self) -> (r: ErrorClass) {
        match self {
            TransportConnectError::InvalidConfiguration => ErrorClass::Fatal,
            TransportConnectError::DnsError => ErrorClass::Retryable,
            TransportConnectError::TcpConnectionFailed => ErrorClass::Retryable,
            TransportConnectError::TlsHandshakeFailed => ErrorClass::Retryable,
            TransportConnectError::CertificateError => ErrorClass::Fatal,
        }
    }
}

} // verus!
