//! HOTP and TOTP one-time passwords: a keyed hash of a counter, cut down to a
//! short decimal code by dynamic truncation.
pub mod hotp;
pub mod totp;
