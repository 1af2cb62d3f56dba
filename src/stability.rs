//! Decisions of the file-stability detector. The caller samples the file
//! (size and modification time), sleeps between samples and measures the
//! elapsed time; the tracker decides when the file counts as stable.

use vstd::prelude::*;
use crate::model::StabilityConfig;

verus! {

/// One reading of a file: its size and its modification time in nanoseconds.
#[derive(Clone, Copy, Debug, PartialEq, Eq, Structural)]
pub struct FileSample {
    pub size: u64,
    pub mtime_ns: i128,
}

pub struct StabilityTracker {
    pub last: FileSample,
    pub stable_count: u32,
    pub checks: u32,
    pub timeout_secs: u64,
}

/// Next state and verdict of one observation: `None` is a failed probe
/// (the file could not be opened, read or inspected).
pub open spec fn observe_step(t: StabilityTracker, probe: Option<FileSample>) -> (
    StabilityTracker,
    bool,
) {
    match probe {
        None => (StabilityTracker { stable_count: 0, ..t }, false),
        Some(s) => if s == t.last {
            let c = t.stable_count + 1;
            (StabilityTracker { stable_count: c as u32, ..t }, c >= t.checks)
        } else {
            (StabilityTracker { stable_count: 0, last: s, ..t }, false)
        },
    }
}

/// Whether a run of observations reports the file stable at some point.
pub open spec fn reports_stable(t: StabilityTracker, probes: Seq<Option<FileSample>>) -> bool
    decreases probes.len(),
{
    if probes.len() == 0 {
        false
    } else {
        let (next, stable) = observe_step(t, probes[0]);
        stable || reports_stable(next, probes.drop_first())
    }
}

impl StabilityTracker {
    pub open spec fn wf(&self) -> bool {
        self.stable_count < self.checks || self.stable_count == 0
    }

    /// A tracker whose baseline is the first reading of the file.
    pub fn new(initial: FileSample, cfg: &StabilityConfig) -> (r: StabilityTracker)
        ensures
            r.last == initial,
            r.stable_count == 0,
            r.checks == cfg.consecutive_checks,
            r.timeout_secs == cfg.timeout_secs,
            r.wf(),
    {
        StabilityTracker {
            last: initial,
            stable_count: 0,
            checks: cfg.consecutive_checks,
            timeout_secs: cfg.timeout_secs,
        }
    }

    /// Another sample may be taken after `elapsed_ms` milliseconds.
    pub fn within_timeout(&self, elapsed_ms: u64) -> (r: bool)
        ensures
            r == (elapsed_ms < self.timeout_secs * 1000),
    {
        (elapsed_ms as u128) < (self.timeout_secs as u128) * 1000
    }

    /// Takes one probe; `true` when the file has now been unchanged for
    /// `checks` probes in a row.
    pub fn observe(&mut self, probe: Option<FileSample>) -> (r: bool)
        requires
            old(self).wf(),
        ensures
            (*final(self), r) == observe_step(*old(self), probe),
            !r ==> final(self).wf(),
    {
        match probe {
            None => {
                self.stable_count = 0;
                false
            },
            Some(s) => {
                if s == self.last {
                    self.stable_count = self.stable_count + 1;
                    self.stable_count >= self.checks
                } else {
                    self.stable_count = 0;
                    self.last = s;
                    false
                }
            },
        }
    }
}

/// A file that keeps reading the same for `checks` probes (at least one)
/// after the count was last reset is reported stable.
pub proof fn lemma_unchanged_file_is_stable(
    t: StabilityTracker,
    probes: Seq<Option<FileSample>>,
)
    requires
        t.wf(),
        probes.len() >= t.checks - t.stable_count,
        probes.len() >= 1,
        forall|i: int| 0 <= i < probes.len() ==> probes[i] == Some(t.last),
    ensures
        reports_stable(t, probes),
    decreases probes.len(),
{
    let (next, stable) = observe_step(t, probes[0]);
    if !stable {
        let rest = probes.drop_first();
        assert forall|i: int| 0 <= i < rest.len() implies rest[i] == Some(next.last) by {
            assert(rest[i] == probes[i + 1]);
        }
        lemma_unchanged_file_is_stable(next, rest);
    }
}

/// A file that differs at every probe from the reading before is never
/// reported stable.
pub proof fn lemma_growing_file_is_unstable(
    t: StabilityTracker,
    probes: Seq<Option<FileSample>>,
)
    requires
        forall|i: int| 0 <= i < probes.len() ==> probes[i] is Some,
        probes.len() > 0 ==> probes[0] != Some(t.last),
        forall|i: int| 1 <= i < probes.len() ==> #[trigger] probes[i] != probes[i - 1],
    ensures
        !reports_stable(t, probes),
    decreases probes.len(),
{
    if probes.len() > 0 {
        let (next, stable) = observe_step(t, probes[0]);
        let rest = probes.drop_first();
        assert(next.last == probes[0]->0);
        assert forall|i: int| 1 <= i < rest.len() implies #[trigger] rest[i] != rest[i - 1] by {
            assert(rest[i] == probes[i + 1]);
        }
        if rest.len() > 0 {
            assert(rest[0] == probes[1]);
        }
        lemma_growing_file_is_unstable(next, rest);
    }
}

} // verus!
