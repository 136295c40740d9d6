//! Per-connection metadata, byte accounting, and the start/end log lines.

use vstd::prelude::*;
use vstd::string::*;
use vstd::arithmetic::div_mod::lemma_fundamental_div_mod;
use vstd::arithmetic::mul::lemma_mul_inequality;
use crate::text::{digit_char, digit_str, spec_dec, spec_secs2, secs2_string, u64_to_string};

verus! {

/// `b` scaled by `unit` and rendered with one decimal place, rounded to the
/// nearest tenth with ties to the even neighbour.
pub open spec fn spec_scaled(b: nat, unit: nat) -> Seq<char>
    recommends
        unit >= 1024,
{
    let q = b / unit;
    let rm = b % unit;
    let t = (rm * 10) / unit;
    let rr = (rm * 10) % unit;
    let up = rr * 2 > unit || (rr * 2 == unit && t % 2 == 1);
    if up {
        if t == 9 {
            spec_dec(q + 1) + "."@ + seq![digit_char(0)]
        } else {
            spec_dec(q) + "."@ + seq![digit_char(t + 1)]
        }
    } else {
        spec_dec(q) + "."@ + seq![digit_char(t)]
    }
}

/// The human-readable rendering of a byte count: a plain count below 1024,
/// otherwise the count scaled to the largest unit that keeps the integer part
/// below 1024 (except for GB, which is unbounded), with one decimal place,
/// rounded to the nearest tenth with ties to the even neighbour.
pub open spec fn spec_format_bytes(b: nat) -> Seq<char> {
    if b < 1024 {
        spec_dec(b) + " B"@
    } else if b < 1048576 {
        spec_scaled(b, 1024) + " KB"@
    } else if b < 1073741824 {
        spec_scaled(b, 1048576) + " MB"@
    } else {
        spec_scaled(b, 1073741824) + " GB"@
    }
}

/// `b` scaled by `unit`, with one decimal place.
fn scaled_string(b: u64, unit: u64) -> (r: String)
    requires
        unit == 1024 || unit == 1048576 || unit == 1073741824,
    ensures
        r@ == spec_scaled(b as nat, unit as nat),
{
    let q: u64 = b / unit;
    let rm: u64 = b % unit;
    let t: u64 = (rm * 10) / unit;
    let rr: u64 = (rm * 10) % unit;
    proof {
        lemma_fundamental_div_mod((rm * 10) as int, unit as int);
        if t >= 10 {
            lemma_mul_inequality(10, t as int, unit as int);
            assert(false);
        }
        lemma_fundamental_div_mod(b as int, unit as int);
        if q == u64::MAX {
            lemma_mul_inequality(1024, unit as int, q as int);
            assert(false);
        }
    }
    let up: bool = rr * 2 > unit || (rr * 2 == unit && t % 2 == 1);
    if up {
        if t == 9 {
            let mut s = u64_to_string(q + 1);
            s.append(".");
            s.append(digit_str(0));
            s
        } else {
            let mut s = u64_to_string(q);
            s.append(".");
            s.append(digit_str(t + 1));
            s
        }
    } else {
        let mut s = u64_to_string(q);
        s.append(".");
        s.append(digit_str(t));
        s
    }
}

/// Render a byte count with the unit that fits it: B below 1024, then KB,
/// MB and GB at successive multiples of 1024.
pub fn format_bytes(bytes: u64) -> (r: String)
    ensures
        r@ == spec_format_bytes(bytes as nat),
{
    if bytes < 1024 {
        let mut s = u64_to_string(bytes);
        s.append(" B");
        s
    } else if bytes < 1048576 {
        let mut s = scaled_string(bytes, 1024);
        s.append(" KB");
        s
    } else if bytes < 1073741824 {
        let mut s = scaled_string(bytes, 1048576);
        s.append(" MB");
        s
    } else {
        let mut s = scaled_string(bytes, 1073741824);
        s.append(" GB");
        s
    }
}

/// Law: the byte formatter picks the unit of the tier the count falls in.
/// The rendered string ends in ` B` exactly when the count is below 1024,
/// in ` KB` exactly when it is at least 1024 and below 1024², in ` MB`
/// exactly between 1024² and 1024³, and in ` GB` exactly from 1024³ up.
pub proof fn lemma_format_bytes_tier(b: u64)
    ensures
        ({
            let f = spec_format_bytes(b as nat);
            &&& f.len() >= 2
            &&& ((b < 1024) <==> f.subrange(f.len() - 2, f.len() as int) == " B"@)
            &&& ((1024 <= b && b < 1048576) <==> (f.len() >= 3 && f.subrange(
                f.len() - 3,
                f.len() as int,
            ) == " KB"@))
            &&& ((1048576 <= b && b < 1073741824) <==> (f.len() >= 3 && f.subrange(
                f.len() - 3,
                f.len() as int,
            ) == " MB"@))
            &&& ((b >= 1073741824) <==> (f.len() >= 3 && f.subrange(f.len() - 3, f.len() as int)
                == " GB"@))
        }),
{
    reveal_strlit(" B");
    reveal_strlit(" KB");
    reveal_strlit(" MB");
    reveal_strlit(" GB");
    reveal_strlit(".");
    let f = spec_format_bytes(b as nat);
    if b < 1024 {
        crate::text::lemma_spec_dec_len(b as nat);
        assert(f.subrange(f.len() - 2, f.len() as int) =~= " B"@);
        assert(f[f.len() - 2] == ' ');
        assert(f[f.len() - 1] == 'B');
        if f.len() >= 3 && f.subrange(f.len() - 3, f.len() as int) == " KB"@ {
            assert(f[f.len() - 2] == " KB"@[1]);
            assert(false);
        }
        if f.len() >= 3 && f.subrange(f.len() - 3, f.len() as int) == " MB"@ {
            assert(f[f.len() - 2] == " MB"@[1]);
            assert(false);
        }
        if f.len() >= 3 && f.subrange(f.len() - 3, f.len() as int) == " GB"@ {
            assert(f[f.len() - 2] == " GB"@[1]);
            assert(false);
        }
    } else {
        let unit: nat = if b < 1048576 {
            1024nat
        } else if b < 1073741824 {
            1048576nat
        } else {
            1073741824nat
        };
        let q = (b as nat) / unit;
        crate::text::lemma_spec_dec_len(q);
        crate::text::lemma_spec_dec_len((q + 1) as nat);
        assert(spec_scaled(b as nat, unit).len() >= 3);
        if b < 1048576 {
            assert(f.subrange(f.len() - 3, f.len() as int) =~= " KB"@);
        } else if b < 1073741824 {
            assert(f.subrange(f.len() - 3, f.len() as int) =~= " MB"@);
        } else {
            assert(f.subrange(f.len() - 3, f.len() as int) =~= " GB"@);
        }
        assert(f[f.len() - 2] != ' ');
        if f.subrange(f.len() - 2, f.len() as int) == " B"@ {
            assert(f[f.len() - 2] == " B"@[0]);
            assert(false);
        }
    }
}

/// Identity and provenance of one relayed connection. All fields are set at
/// creation and never change: the id drawn from the id manager, the peer and
/// listen/backend addresses as plain strings, the monotonic creation time in
/// milliseconds, and a snapshot of the active-connection gauge at admission.
#[derive(Debug, Clone)]
pub struct ConnectionInfo {
    pub id: u64,
    pub client_addr: String,
    pub proxy_addr: String,
    pub backend_addr: String,
    pub start_millis: u64,
    pub active_connections: u64,
}

impl ConnectionInfo {
    pub fn new(
        id: u64,
        client_addr: &str,
        proxy_addr: &str,
        backend_addr: &str,
        active_connections: u64,
        start_millis: u64,
    ) -> (info: Self)
        ensures
            info.id == id,
            info.client_addr@ == client_addr@,
            info.proxy_addr@ == proxy_addr@,
            info.backend_addr@ == backend_addr@,
            info.start_millis == start_millis,
            info.active_connections == active_connections,
    {
        ConnectionInfo {
            id,
            client_addr: String::from_str(client_addr),
            proxy_addr: String::from_str(proxy_addr),
            backend_addr: String::from_str(backend_addr),
            start_millis,
            active_connections,
        }
    }

    /// The connection-establishment log line.
    pub open spec fn spec_log_start(&self) -> Seq<char> {
        "Conn #"@ + spec_dec(self.id as nat) + " estab ["@ + spec_dec(
            self.active_connections as nat,
        ) + "]: "@ + self.client_addr@ + " -> "@ + self.proxy_addr@ + " -> "@ + self.backend_addr@
    }

    /// Milliseconds elapsed from this connection's creation to `now_millis`,
    /// zero if the clock reads earlier than the creation time.
    pub open spec fn spec_elapsed(&self, now_millis: u64) -> nat {
        if now_millis >= self.start_millis {
            (now_millis - self.start_millis) as nat
        } else {
            0
        }
    }

    /// The connection-end log line: id, `close` or `fail` status, the gauge
    /// after this connection's removal, elapsed seconds with two decimals,
    /// both byte counters through the byte formatter, and the error message
    /// if there was one.
    pub open spec fn spec_log_end(
        &self,
        bytes_sent: u64,
        bytes_received: u64,
        error: Option<Seq<char>>,
        remaining: u64,
        now_millis: u64,
    ) -> Seq<char> {
        "Conn #"@ + spec_dec(self.id as nat) + " "@ + (if error is Some {
            "fail "@
        } else {
            "close"@
        }) + " ["@ + spec_dec(remaining as nat) + "]: Duration: "@ + spec_secs2(
            self.spec_elapsed(now_millis),
        ) + "s | Sent: "@ + spec_format_bytes(bytes_sent as nat) + " | Received: "@
            + spec_format_bytes(bytes_received as nat) + (match error {
            Some(e) => " | Error: "@ + e,
            None => Seq::<char>::empty(),
        })
    }

    /// Build the establishment line that the surrounding service logs before
    /// any bytes are relayed.
    pub fn log_start(&self) -> (line: String)
        ensures
            line@ == self.spec_log_start(),
    {
        let mut s = String::from_str("Conn #");
        s.append(u64_to_string(self.id).as_str());
        s.append(" estab [");
        s.append(u64_to_string(self.active_connections).as_str());
        s.append("]: ");
        s.append(self.client_addr.as_str());
        s.append(" -> ");
        s.append(self.proxy_addr.as_str());
        s.append(" -> ");
        s.append(self.backend_addr.as_str());
        s
    }

    /// Build the end-of-connection line that the surrounding service logs
    /// after removing the connection from the active gauge.
    pub fn log_end(
        &self,
        bytes_sent: u64,
        bytes_received: u64,
        error: Option<&str>,
        remaining: u64,
        now_millis: u64,
    ) -> (line: String)
        ensures
            line@ == self.spec_log_end(
                bytes_sent,
                bytes_received,
                match error {
                    Some(e) => Some(e@),
                    None => None,
                },
                remaining,
                now_millis,
            ),
    {
        let elapsed: u64 = if now_millis >= self.start_millis {
            now_millis - self.start_millis
        } else {
            0
        };
        let mut s = String::from_str("Conn #");
        s.append(u64_to_string(self.id).as_str());
        s.append(" ");
        match error {
            Some(_) => s.append("fail "),
            None => s.append("close"),
        }
        s.append(" [");
        s.append(u64_to_string(remaining).as_str());
        s.append("]: Duration: ");
        s.append(secs2_string(elapsed).as_str());
        s.append("s | Sent: ");
        s.append(format_bytes(bytes_sent).as_str());
        s.append(" | Received: ");
        s.append(format_bytes(bytes_received).as_str());
        match error {
            Some(e) => {
                s.append(" | Error: ");
                s.append(e);
            },
            None => {},
        }
        proof {
            assert(s@ =~= self.spec_log_end(
                bytes_sent,
                bytes_received,
                match error {
                    Some(e) => Some(e@),
                    None => None,
                },
                remaining,
                now_millis,
            ));
        }
        s
    }
}

/// Mutable byte counters owned by one relay instance for one connection's
/// lifetime. Both counters start at zero and never decrease; additions
/// saturate at `u64::MAX` instead of overflowing.
pub struct ConnectionStats {
    pub bytes_sent: u64,
    pub bytes_received: u64,
}

impl ConnectionStats {
    pub fn new() -> (s: Self)
        ensures
            s.bytes_sent == 0,
            s.bytes_received == 0,
    {
        ConnectionStats { bytes_sent: 0, bytes_received: 0 }
    }

    /// Account `bytes` forwarded in the backend-to-client direction.
    pub fn add_sent(&mut self, bytes: usize)
        ensures
            final(self).bytes_sent == old(self).bytes_sent.saturating_add(bytes as u64),
            final(self).bytes_received == old(self).bytes_received,
    {
        self.bytes_sent = self.bytes_sent.saturating_add(bytes as u64);
    }

    /// Account `bytes` forwarded in the client-to-backend direction.
    pub fn add_received(&mut self, bytes: usize)
        ensures
            final(self).bytes_received == old(self).bytes_received.saturating_add(bytes as u64),
            final(self).bytes_sent == old(self).bytes_sent,
    {
        self.bytes_received = self.bytes_received.saturating_add(bytes as u64);
    }
}

impl Default for ConnectionStats {
    fn default() -> (s: Self)
        ensures
            s.bytes_sent == 0,
            s.bytes_received == 0,
    {
        ConnectionStats::new()
    }
}

} // verus!
