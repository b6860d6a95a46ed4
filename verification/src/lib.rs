//! Certificate-lifecycle engine for a self-hosted TLS-terminating server.
//!
//! The library covers the ACME (RFC 8555) protocol driver, the JOSE request
//! signing it depends on, the in-memory stores for account material and
//! certificates, the certificate resolver consulted on every TLS handshake,
//! and the connection dispatcher's routing decisions.  Network and file I/O
//! live outside the library and hand plain values in and out.

pub mod b64;
pub mod bytes;
pub mod certgen;
pub mod content;
pub mod crypto;
pub mod dispatch;
pub mod domains;
pub mod driver;
pub mod errors;
pub mod http;
pub mod jose;
pub mod log;
pub mod payloads;
pub mod pemfile;
pub mod resolver;
pub mod store;
pub mod strutil;
pub mod uri;
