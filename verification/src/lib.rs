//! Core of a TCP reverse-proxy relay: the duplex copy state machine with
//! exactly-once teardown accounting, per-connection statistics and log-line
//! formatting, the connection-id allocator with its reset policies, and the
//! parsers for the configuration strings that drive them.
//!
//! The surrounding service (listener, backend dialer, async runtime, log sink)
//! is not part of this crate; it hands the core plain values and carries out
//! the actions the core decides on.

use vstd::prelude::*;
use vstd::string::*;

pub mod connection;
pub mod error;
pub mod id_manager;
pub mod relay;
pub mod text;

pub use error::ProxyError;
pub use relay::DuplexEvent;

use text::{spec_split_colon, split_colon};

verus! {

/// One listen-address/backend-address pair, parsed once at startup; one
/// relay service exists per mapping.
#[derive(Debug, Clone)]
pub struct ProxyMapping {
    pub listen_addr: String,
    pub proxy_addr: String,
}

/// Parse `host1:port1:host2:port2` into a mapping: the input must split on
/// `:` into exactly four parts, which are reassembled pairwise; any other
/// part count is a format error. No semantic validation of hosts or ports
/// happens here.
pub fn parse_proxy_mapping(s: &str) -> (r: Result<ProxyMapping, String>)
    ensures
        ({
            let parts = spec_split_colon(s@);
            if parts.len() == 4 {
                r matches Ok(m) && m.listen_addr@ == parts[0] + seq![':'] + parts[1]
                    && m.proxy_addr@ == parts[2] + seq![':'] + parts[3]
            } else {
                r matches Err(e) && e@
                    == "Invalid proxy mapping format. Expected format: listen_ip:listen_port:proxy_ip:proxy_port"@
            }
        }),
{
    let parts = split_colon(s);
    if parts.len() != 4 {
        return Err(
            String::from_str(
                "Invalid proxy mapping format. Expected format: listen_ip:listen_port:proxy_ip:proxy_port",
            ),
        );
    }
    proof {
        reveal_strlit(":");
        assert(":"@ =~= seq![':']);
    }
    let mut listen = parts[0].clone();
    listen.append(":");
    listen.append(parts[1].as_str());
    let mut proxy = parts[2].clone();
    proxy.append(":");
    proxy.append(parts[3].as_str());
    Ok(ProxyMapping { listen_addr: listen, proxy_addr: proxy })
}

} // verus!
