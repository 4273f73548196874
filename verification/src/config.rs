use vstd::prelude::*;

verus! {

/// The manager's settings: where to listen, the access token, and the
/// certificate and key files for TLS.
pub struct AppConfig {
    pub listen: String,
    pub token: String,
    pub cert: String,
    pub key: String,
}

impl AppConfig {
    /// TLS is used only when both a certificate and a key are given.
    pub fn tls_enabled(&self) -> (b: bool)
        ensures
            b == (self.cert@.len() != 0 && self.key@.len() != 0),
    {
        !(self.cert.as_str().is_empty() || self.key.as_str().is_empty())
    }
}

} // verus!
