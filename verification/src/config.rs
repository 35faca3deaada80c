//! The network settings: where the saver listens for OSC.
use vstd::prelude::*;
use crate::text::join_text;

verus! {

/// The host and port that the OSC socket binds to.
pub struct OSCOptions {
    pub bind_host: String,
    pub bind_port: String,
}

impl Default for OSCOptions {
    /// Local host, port 9001 (VRChat sends OSC there).
    fn default() -> (r: Self)
        ensures
            r.bind_host@ == "127.0.0.1"@,
            r.bind_port@ == "9001"@,
    {
        OSCOptions { bind_host: "127.0.0.1".to_owned(), bind_port: "9001".to_owned() }
    }
}

impl OSCOptions {
    /// The settings that a settings file gives: those read from it, or the
    /// defaults where it could not be read or parsed.
    pub fn from_parsed(parsed: Option<OSCOptions>) -> (r: OSCOptions)
        ensures
            match parsed {
                Some(p) => r == p,
                None => r.bind_host@ == "127.0.0.1"@ && r.bind_port@ == "9001"@,
            },
    {
        match parsed {
            Some(p) => p,
            None => OSCOptions::default(),
        }
    }

    /// The socket address to bind: `host:port`.
    pub fn bind_address(&self) -> (r: String)
        ensures
            r@ == self.bind_host@ + ":"@ + self.bind_port@,
    {
        let mut r = join_text(self.bind_host.as_str(), ":");
        r.append(self.bind_port.as_str());
        r
    }
}

} // verus!
