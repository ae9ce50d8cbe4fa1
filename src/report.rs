//! The measurement record of one probe run.
use crate::elapsed::{max_nanos, Elapsed};
use vstd::prelude::*;

verus! {

/// The sum of the four stages that make up a run's total: the second lookup,
/// the connect, the handshake and the request.
pub open spec fn stage_sum(dns2: Elapsed, tcp: Elapsed, tls: Elapsed, get: Elapsed) -> int {
    dns2.as_nanos() + tcp.as_nanos() + tls.as_nanos() + get.as_nanos()
}

/// What one probe run measured, and where it ran and answered from.
pub struct Report {
    pub client_region: String,
    pub response_region: String,
    pub ip_address: String,
    pub dns_duration: Elapsed,
    pub dns_duration2: Elapsed,
    pub tcp_duration: Elapsed,
    pub tls_duration: Elapsed,
    pub get_duration: Elapsed,
    pub total_duration: Elapsed,
}

impl Report {
    /// Every span is well formed, and the total is exactly the sum of the
    /// second lookup, the connect, the handshake and the request (the first
    /// lookup only primes the resolver).
    pub open spec fn wf(&self) -> bool {
        &&& self.dns_duration.wf()
        &&& self.dns_duration2.wf()
        &&& self.tcp_duration.wf()
        &&& self.tls_duration.wf()
        &&& self.get_duration.wf()
        &&& self.total_duration.wf()
        &&& self.total_duration.as_nanos() == stage_sum(
            self.dns_duration2,
            self.tcp_duration,
            self.tls_duration,
            self.get_duration,
        )
    }

    /// The record of a run with these regions, address and stage spans, its
    /// total computed from them; `None` where that total exceeds the largest
    /// span.
    pub fn assemble(
        client_region: String,
        response_region: String,
        ip_address: String,
        dns: Elapsed,
        dns2: Elapsed,
        tcp: Elapsed,
        tls: Elapsed,
        get: Elapsed,
    ) -> (r: Option<Report>)
        requires
            dns.wf(),
            dns2.wf(),
            tcp.wf(),
            tls.wf(),
            get.wf(),
        ensures
            r is Some <==> stage_sum(dns2, tcp, tls, get) <= max_nanos(),
            r is Some ==> {
                let rep = r->0;
                &&& rep.wf()
                &&& rep.client_region == client_region
                &&& rep.response_region == response_region
                &&& rep.ip_address == ip_address
                &&& rep.dns_duration == dns
                &&& rep.dns_duration2 == dns2
                &&& rep.tcp_duration == tcp
                &&& rep.tls_duration == tls
                &&& rep.get_duration == get
            },
    {
        let total = match dns2.checked_add(tcp) {
            None => { return None; },
            Some(a) => match a.checked_add(tls) {
                None => { return None; },
                Some(b) => match b.checked_add(get) {
                    None => { return None; },
                    Some(c) => c,
                },
            },
        };
        Some(
            Report {
                client_region,
                response_region,
                ip_address,
                dns_duration: dns,
                dns_duration2: dns2,
                tcp_duration: tcp,
                tls_duration: tls,
                get_duration: get,
                total_duration: total,
            },
        )
    }
}

/// The client's region: the configured one, or `unknown`.
pub open spec fn configured_or_unknown(configured: Option<String>) -> Seq<char> {
    match configured {
        Some(s) => s@,
        None => crate::headers::unknown(),
    }
}

/// The configured region, or `unknown` where none is configured.
pub fn region_or_unknown(configured: Option<String>) -> (r: String)
    ensures
        r@ == configured_or_unknown(configured),
{
    match configured {
        Some(s) => s,
        None => crate::headers::unknown_text(),
    }
}

} // verus!
