//! The error taxonomy of the proxy core.

use vstd::prelude::*;
use vstd::string::*;

verus! {

/// A failure surfaced by the proxy: an I/O failure, a failure to bring the
/// service up, a failed backend connection, or a failure while relaying
/// bytes. Each variant carries the underlying message.
#[derive(Debug)]
pub enum ProxyError {
    Io(String),
    ServerInit(String),
    ConnectionFailed(String),
    DataTransfer(String),
}

impl ProxyError {
    /// The rendered message: a variant prefix, then the carried text.
    pub open spec fn spec_message(&self) -> Seq<char> {
        match self {
            ProxyError::Io(m) => "IO error: "@ + m@,
            ProxyError::ServerInit(m) => "Server initialization failed: "@ + m@,
            ProxyError::ConnectionFailed(m) => "Connection failed: "@ + m@,
            ProxyError::DataTransfer(m) => "Data transfer error: "@ + m@,
        }
    }

    pub fn message(&self) -> (r: String)
        ensures
            r@ == self.spec_message(),
    {
        match self {
            ProxyError::Io(m) => {
                let mut s = String::from_str("IO error: ");
                s.append(m.as_str());
                s
            },
            ProxyError::ServerInit(m) => {
                let mut s = String::from_str("Server initialization failed: ");
                s.append(m.as_str());
                s
            },
            ProxyError::ConnectionFailed(m) => {
                let mut s = String::from_str("Connection failed: ");
                s.append(m.as_str());
                s
            },
            ProxyError::DataTransfer(m) => {
                let mut s = String::from_str("Data transfer error: ");
                s.append(m.as_str());
                s
            },
        }
    }
}

} // verus!
