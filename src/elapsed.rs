//! A non-negative span of time, held as whole seconds and a nanosecond part.
use vstd::prelude::*;

verus! {

/// Nanoseconds in one second.
pub const NANOS_PER_SEC: u32 = 1_000_000_000;

/// The largest number of nanoseconds that an `Elapsed` can hold.
pub open spec fn max_nanos() -> int {
    u64::MAX as int * 1_000_000_000 + 999_999_999
}

/// A span of elapsed time: `secs` seconds plus `nanos` nanoseconds.
#[derive(Clone, Copy, Debug, PartialEq, Eq, Structural)]
pub struct Elapsed {
    pub secs: u64,
    pub nanos: u32,
}

impl Elapsed {
    /// The nanosecond part is below one second.
    pub open spec fn wf(self) -> bool {
        self.nanos < 1_000_000_000
    }

    /// The span in nanoseconds.
    pub open spec fn as_nanos(self) -> int {
        self.secs as int * 1_000_000_000 + self.nanos as int
    }

    /// The span of `secs` seconds and `nanos` nanoseconds.
    pub fn from_parts(secs: u64, nanos: u32) -> (r: Elapsed)
        requires
            nanos < NANOS_PER_SEC,
        ensures
            r.wf(),
            r.secs == secs,
            r.nanos == nanos,
    {
        Elapsed { secs, nanos }
    }

    /// The empty span.
    pub fn zero() -> (r: Elapsed)
        ensures
            r.wf(),
            r.as_nanos() == 0,
    {
        Elapsed { secs: 0, nanos: 0 }
    }

    /// The sum of two spans, or `None` where it exceeds the largest span.
    pub fn checked_add(self, other: Elapsed) -> (r: Option<Elapsed>)
        requires
            self.wf(),
            other.wf(),
        ensures
            r is Some <==> self.as_nanos() + other.as_nanos() <= max_nanos(),
            r is Some ==> r->0.wf() && r->0.as_nanos() == self.as_nanos() + other.as_nanos(),
    {
        let nanos: u32 = self.nanos + other.nanos;
        let ghost total = self.as_nanos() + other.as_nanos();
        assert(total == (self.secs + other.secs) * 1_000_000_000 + nanos) by (nonlinear_arith)
            requires
                total == self.secs as int * 1_000_000_000 + self.nanos as int + other.secs as int
                    * 1_000_000_000 + other.nanos as int,
                nanos == self.nanos + other.nanos,
        ;
        match self.secs.checked_add(other.secs) {
            None => {
                assert(total > max_nanos()) by (nonlinear_arith)
                    requires
                        self.secs + other.secs > u64::MAX,
                        total == (self.secs + other.secs) * 1_000_000_000 + nanos,
                        nanos >= 0,
                ;
                None
            },
            Some(secs) => {
                if nanos >= NANOS_PER_SEC {
                    match secs.checked_add(1) {
                        None => {
                            assert(total > max_nanos()) by (nonlinear_arith)
                                requires
                                    secs == u64::MAX,
                                    total == secs * 1_000_000_000 + nanos,
                                    nanos >= 1_000_000_000,
                            ;
                            None
                        },
                        Some(s) => {
                            let r = Elapsed { secs: s, nanos: nanos - NANOS_PER_SEC };
                            assert(r.as_nanos() == total) by (nonlinear_arith)
                                requires
                                    s == secs + 1,
                                    r.as_nanos() == s * 1_000_000_000 + (nanos - 1_000_000_000),
                                    total == secs * 1_000_000_000 + nanos,
                            ;
                            assert(total <= max_nanos()) by (nonlinear_arith)
                                requires
                                    s <= u64::MAX,
                                    total == s * 1_000_000_000 + (nanos - 1_000_000_000),
                                    nanos - 1_000_000_000 < 1_000_000_000,
                            ;
                            Some(r)
                        },
                    }
                } else {
                    let r = Elapsed { secs, nanos };
                    assert(total <= max_nanos()) by (nonlinear_arith)
                        requires
                            secs <= u64::MAX,
                            total == secs * 1_000_000_000 + nanos,
                            nanos < 1_000_000_000,
                    ;
                    Some(r)
                }
            },
        }
    }
}

} // verus!
