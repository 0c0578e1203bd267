//! Time-based one-time passwords (RFC 6238) over HMAC-SHA1 one-time passwords (RFC 4226).
pub mod base32;
pub mod hotp;
pub mod totp;

pub use hotp::{derive_counter, encode_digest, hotp, EncodeError};
pub use totp::{OtpError, Totp, UnixTime};
