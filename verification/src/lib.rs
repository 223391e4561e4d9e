//! Browser impersonation at the TLS and HTTP/2 layers.
//!
//! A server can tell clients apart by the bytes of their TLS ClientHello and
//! of their HTTP/2 preface. This library holds what named browser builds
//! send there, and the decisions of a connector that attaches such a profile
//! to each connection:
//!
//! - [`impersonate`]: the registry, from a build to its profile;
//! - [`tls`]: the TLS parameters of a profile, and the forms in which a TLS
//!   engine takes them;
//! - [`http2`]: the HTTP/2 frame policy of a profile;
//! - [`headers`]: the default headers of a profile and the map that
//!   carries them;
//! - [`cache`]: the bounded per-host store of TLS sessions;
//! - [`connector`]: what a connector does next for a connection, and for
//!   the TLS handle of a connection;
//! - [`settings`]: the settings of the HTTPS layer;
//! - [`error`]: the failures, by kind.
//!
//! The library opens no socket and drives no handshake: its caller does,
//! and reports how it went.

pub mod cache;
pub mod connector;
pub mod error;
pub mod headers;
pub mod http2;
pub mod impersonate;
pub mod settings;
pub mod text;
pub mod tls;
