//! The probe target: the endpoint text shown in output lines and the host
//! the handshake addresses.

use vstd::prelude::*;

verus! {

/// A WebSocket endpoint, immutable once built: the full URL text as given on
/// the command line, and its host part where the URL carries one.
pub struct Target {
    pub url: String,
    pub host: Option<String>,
}

impl Target {
    /// The value of the handshake's Host field: the URL's host, or
    /// "localhost" where the URL carries none.
    pub fn host_header(&self) -> (h: &str)
        ensures
            match self.host {
                Some(hh) => h@ == hh@,
                None => h@ == "localhost"@,
            },
    {
        match &self.host {
            Some(h) => h.as_str(),
            None => "localhost",
        }
    }
}

} // verus!
