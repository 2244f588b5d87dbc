use vstd::prelude::*;

verus! {

/// Why an image could not be turned into a PNG payload.
#[derive(Debug, Clone, Copy, PartialEq, Eq, Structural)]
pub enum EncodeError {
    /// The pixel buffer is not 8-bit RGBA of the declared dimensions.
    Unsupported,
    /// The PNG encoder could not produce its output.
    Io,
}

} // verus!

verus! {

/// The service refused the credentials; holds its raw reply.
pub struct AuthError {
    pub response: String,
}

/// Why credentials could not be turned into an API handle.
#[derive(Debug, Clone, Copy, PartialEq, Eq, Structural)]
pub enum ConfigError {
    /// No credentials are stored yet.
    Missing,
    /// The stored credentials cannot be read.
    Unreadable,
    /// The account identifier does not make a valid endpoint URL.
    BadAccountId,
}

} // verus!
