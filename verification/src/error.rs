//! The failures that the library reports, by kind.

use crate::impersonate::ProfileError;
use vstd::prelude::*;

verus! {

/// The kinds of failure that the library reports.
#[derive(Clone, Copy, Debug, PartialEq, Eq, Structural)]
pub enum ErrorKind {
    /// No profile: unknown build, or an override that cannot be used.
    Profile,
    /// The TLS context could not be built.
    TlsBuild,
    /// The TLS handle of a connection could not be prepared.
    TlsSetup,
    /// The plaintext stream could not be opened.
    Transport,
    /// The TLS handshake failed.
    Handshake,
    /// The URI cannot be connected to.
    Uri,
}

/// What is wrong with a URI.
#[derive(Clone, Copy, Debug, PartialEq, Eq, Structural)]
pub enum UriError {
    /// The URI names no host.
    MissingHost,
}

/// Why a connection attempt failed.
#[derive(Clone, Copy, Debug, PartialEq, Eq, Structural)]
pub enum ConnectError {
    Uri(UriError),
    Transport,
    TlsSetup,
    Handshake,
}

impl UriError {
    /// The error in words.
    pub open spec fn spec_message(self) -> Seq<char> {
        "URI missing host"@
    }

    /// The error in words.
    pub fn message(self) -> (r: &'static str)
        ensures
            r@ == self.spec_message(),
    {
        "URI missing host"
    }
}

impl ConnectError {
    /// The kind of the failure.
    pub open spec fn spec_kind(self) -> ErrorKind {
        match self {
            ConnectError::Uri(_) => ErrorKind::Uri,
            ConnectError::Transport => ErrorKind::Transport,
            ConnectError::TlsSetup => ErrorKind::TlsSetup,
            ConnectError::Handshake => ErrorKind::Handshake,
        }
    }

    /// The kind of the failure.
    pub fn kind(self) -> (r: ErrorKind)
        ensures
            r == self.spec_kind(),
    {
        match self {
            ConnectError::Uri(_) => ErrorKind::Uri,
            ConnectError::Transport => ErrorKind::Transport,
            ConnectError::TlsSetup => ErrorKind::TlsSetup,
            ConnectError::Handshake => ErrorKind::Handshake,
        }
    }
}

impl ProfileError {
    /// The kind of the failure.
    pub open spec fn spec_kind(self) -> ErrorKind {
        ErrorKind::Profile
    }

    /// The kind of the failure.
    pub fn kind(self) -> (r: ErrorKind)
        ensures
            r == self.spec_kind(),
    {
        ErrorKind::Profile
    }
}

} // verus!
