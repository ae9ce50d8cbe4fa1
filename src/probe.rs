//! The order of a probe run's stages, when a run fails, and what it yields.
//!
//! A run times, in this order, two lookups of the host, a TCP connect, a TLS
//! handshake and one GET request. The caller performs each stage that
//! `next_stage` names and hands its outcome and span to `record`; the first
//! stage that fails ends the run with that stage's error.
use crate::elapsed::{max_nanos, Elapsed};
use crate::headers::{diagnostics, extract_diagnostics, or_unknown};
use crate::report::{configured_or_unknown, region_or_unknown, stage_sum, Report};
use vstd::prelude::*;

verus! {

/// The number of timed stages in a run.
pub const STAGE_COUNT: usize = 5;

/// One timed stage of a run.
#[derive(Clone, Copy, Debug, PartialEq, Eq, Structural)]
pub enum Stage {
    /// The first lookup, which only primes the resolver.
    FirstLookup,
    /// The second lookup, whose address is connected to.
    SecondLookup,
    Connect,
    Handshake,
    Request,
}

/// What a stage reported when it returned.
#[derive(Clone, Copy, Debug, PartialEq, Eq, Structural)]
pub enum StageOutcome {
    /// A lookup returned this many addresses.
    Resolved(usize),
    /// A connect, handshake or request completed.
    Completed,
    /// The stage returned an error.
    Failed,
}

/// Why a run, or the sending of its report, failed.
#[derive(Clone, Copy, Debug, PartialEq, Eq, Structural)]
pub enum ProbeError {
    /// A lookup failed or gave no address.
    ResolutionFailure,
    /// The TCP connect failed.
    ConnectionFailure,
    /// The TLS handshake, or the validation of the server's certificate, failed.
    HandshakeFailure,
    /// Writing the request or reading the response failed.
    TransferFailure,
    /// The collector could not be reached, or refused the report.
    SubmissionFailure,
    /// The stage spans add up to more than the largest span.
    DurationOverflow,
}

/// The stage that comes at position `i` of a run.
pub open spec fn stage_at(i: int) -> Stage {
    if i == 0 {
        Stage::FirstLookup
    } else if i == 1 {
        Stage::SecondLookup
    } else if i == 2 {
        Stage::Connect
    } else if i == 3 {
        Stage::Handshake
    } else {
        Stage::Request
    }
}

/// A stage succeeded: a lookup with at least one address, any other stage
/// with completion.
pub open spec fn succeeded(stage: Stage, outcome: StageOutcome) -> bool {
    match stage {
        Stage::FirstLookup | Stage::SecondLookup => match outcome {
            StageOutcome::Resolved(n) => n > 0,
            _ => false,
        },
        _ => outcome == StageOutcome::Completed,
    }
}

/// The error that a failure of `stage` ends a run with.
pub open spec fn failure_of(stage: Stage) -> ProbeError {
    match stage {
        Stage::FirstLookup | Stage::SecondLookup => ProbeError::ResolutionFailure,
        Stage::Connect => ProbeError::ConnectionFailure,
        Stage::Handshake => ProbeError::HandshakeFailure,
        Stage::Request => ProbeError::TransferFailure,
    }
}

/// The progress of one probe run: the spans of the stages that succeeded,
/// in order, and the error that ended it, if one did.
pub struct ProbeRun {
    timings: Vec<Elapsed>,
    error: Option<ProbeError>,
}

impl ProbeRun {
    /// The spans recorded so far, one per stage that succeeded.
    pub closed spec fn timings(&self) -> Seq<Elapsed> {
        self.timings@
    }

    /// The error that ended the run, if one did.
    pub closed spec fn error(&self) -> Option<ProbeError> {
        self.error
    }

    /// No more spans than stages, each well formed.
    pub open spec fn wf(&self) -> bool {
        &&& self.timings().len() <= 5
        &&& forall|i: int| 0 <= i < self.timings().len() ==> #[trigger] self.timings()[i].wf()
    }

    /// The stage to perform next, or `None` once the run has failed or
    /// every stage has succeeded.
    pub open spec fn pending(&self) -> Option<Stage> {
        if self.error() is Some || self.timings().len() >= 5 {
            None
        } else {
            Some(stage_at(self.timings().len() as int))
        }
    }

    /// A run that has performed no stage.
    pub fn new() -> (r: ProbeRun)
        ensures
            r.wf(),
            r.timings() == Seq::<Elapsed>::empty(),
            r.error() is None,
    {
        ProbeRun { timings: Vec::new(), error: None }
    }

    /// The stage to perform next, if any.
    pub fn next_stage(&self) -> (r: Option<Stage>)
        ensures
            r == self.pending(),
    {
        if self.error.is_some() || self.timings.len() >= STAGE_COUNT {
            return None;
        }
        let n = self.timings.len();
        let stage = if n == 0 {
            Stage::FirstLookup
        } else if n == 1 {
            Stage::SecondLookup
        } else if n == 2 {
            Stage::Connect
        } else if n == 3 {
            Stage::Handshake
        } else {
            Stage::Request
        };
        Some(stage)
    }

    /// Records how the pending stage returned and how long it took: its span
    /// where it succeeded, else the error that ends the run.
    pub fn record(&mut self, outcome: StageOutcome, elapsed: Elapsed)
        requires
            old(self).wf(),
            old(self).pending() is Some,
            elapsed.wf(),
        ensures
            final(self).wf(),
            ({
                let stage = old(self).pending()->0;
                if succeeded(stage, outcome) {
                    &&& final(self).timings() == old(self).timings().push(elapsed)
                    &&& final(self).error() is None
                } else {
                    &&& final(self).timings() == old(self).timings()
                    &&& final(self).error() == Some(failure_of(stage))
                }
            }),
    {
        let stage = match self.next_stage() {
            Some(s) => s,
            None => { return; },
        };
        let ok = match stage {
            Stage::FirstLookup | Stage::SecondLookup => match outcome {
                StageOutcome::Resolved(n) => n > 0,
                _ => false,
            },
            _ => match outcome {
                StageOutcome::Completed => true,
                _ => false,
            },
        };
        if ok {
            self.timings.push(elapsed);
        } else {
            let e = match stage {
                Stage::FirstLookup | Stage::SecondLookup => ProbeError::ResolutionFailure,
                Stage::Connect => ProbeError::ConnectionFailure,
                Stage::Handshake => ProbeError::HandshakeFailure,
                Stage::Request => ProbeError::TransferFailure,
            };
            self.error = Some(e);
        }
    }

    /// The run's report, from the configured client region and the raw bytes
    /// of the response: the error that ended the run where one did, else the
    /// record of its five spans with the region and address that the
    /// response's headers give (`unknown` where none does).
    pub fn finish(&self, client_region: Option<String>, response: &[u8]) -> (r: Result<
        Report,
        ProbeError,
    >)
        requires
            self.wf(),
            self.pending() is None,
        ensures
            self.error() is Some ==> r == Err::<Report, ProbeError>(self.error()->0),
            self.error() is None ==> {
                let t = self.timings();
                let found = diagnostics(response@);
                &&& r is Ok <==> stage_sum(t[1], t[2], t[3], t[4]) <= max_nanos()
                &&& r is Err ==> r == Err::<Report, ProbeError>(ProbeError::DurationOverflow)
                &&& r is Ok ==> {
                    let rep = r->Ok_0;
                    &&& rep.wf()
                    &&& rep.dns_duration == t[0]
                    &&& rep.dns_duration2 == t[1]
                    &&& rep.tcp_duration == t[2]
                    &&& rep.tls_duration == t[3]
                    &&& rep.get_duration == t[4]
                    &&& rep.client_region@ == configured_or_unknown(client_region)
                    &&& rep.response_region@ == or_unknown(found.0)
                    &&& rep.ip_address@ == or_unknown(found.1)
                }
            },
    {
        if let Some(e) = self.error {
            return Err(e);
        }
        let found = extract_diagnostics(response);
        let t = &self.timings;
        assert(t@.len() == 5);
        let rep = Report::assemble(
            region_or_unknown(client_region),
            found.response_region,
            found.ip_address,
            t[0],
            t[1],
            t[2],
            t[3],
            t[4],
        );
        match rep {
            Some(rep) => Ok(rep),
            None => Err(ProbeError::DurationOverflow),
        }
    }
}

/// The request that the last stage sends to `host`.
pub open spec fn request_text(host: Seq<char>) -> Seq<char> {
    "GET / HTTP/1.1\r\nHost: "@ + host + "\r\nConnection: close\r\n\r\n"@
}

/// A minimal HTTP/1.1 request for the root of `host` that asks the server
/// to close the connection after its response.
pub fn get_request(host: &str) -> (r: String)
    ensures
        r@ == request_text(host@),
{
    let mut r = String::from_str("GET / HTTP/1.1\r\nHost: ");
    r.append(host);
    r.append("\r\nConnection: close\r\n\r\n");
    r
}

/// A submission succeeded: the collector answered with a 2xx status.
pub open spec fn accepted(status: Option<u16>) -> bool {
    match status {
        Some(s) => 200 <= s <= 299,
        None => false,
    }
}

/// How the sending of a report ended, from the collector's status (`None`
/// where it could not be reached).
pub fn submission_outcome(status: Option<u16>) -> (r: Result<(), ProbeError>)
    ensures
        r is Ok <==> accepted(status),
        r is Err ==> r == Err::<(), ProbeError>(ProbeError::SubmissionFailure),
{
    match status {
        Some(s) => if 200 <= s && s <= 299 {
            Ok(())
        } else {
            Err(ProbeError::SubmissionFailure)
        },
        None => Err(ProbeError::SubmissionFailure),
    }
}

} // verus!
