//! Three-level limit checks shared by the sensor drivers.
use vstd::prelude::*;

verus! {

/// How far a value has gone past a set of limits.
#[derive(Debug, Clone, Copy, PartialEq, Eq, Structural)]
pub enum Breach {
    Warning,
    Alert,
    Critical,
}

/// Warning, alert and critical limits of one measured quantity.
#[derive(Debug, Clone, Copy, PartialEq, Eq, Structural)]
pub struct Thresholds {
    pub warning: i64,
    pub alert: i64,
    pub critical: i64,
}

impl Thresholds {
    /// The limits rise from warning to critical.
    pub open spec fn ascending(self) -> bool {
        self.warning <= self.alert && self.alert <= self.critical
    }

    /// The limits fall from warning to critical.
    pub open spec fn descending(self) -> bool {
        self.warning >= self.alert && self.alert >= self.critical
    }

    /// The limit that a breach of the given level passes.
    pub open spec fn limit(self, level: Breach) -> i64 {
        match level {
            Breach::Warning => self.warning,
            Breach::Alert => self.alert,
            Breach::Critical => self.critical,
        }
    }

    /// The most severe limit that `value` exceeds, if any.
    pub open spec fn breach_above(self, value: i64) -> Option<Breach> {
        if value > self.critical {
            Some(Breach::Critical)
        } else if value > self.alert {
            Some(Breach::Alert)
        } else if value > self.warning {
            Some(Breach::Warning)
        } else {
            None
        }
    }

    /// The most severe limit that `value` falls under, if any.
    pub open spec fn breach_below(self, value: i64) -> Option<Breach> {
        if value < self.critical {
            Some(Breach::Critical)
        } else if value < self.alert {
            Some(Breach::Alert)
        } else if value < self.warning {
            Some(Breach::Warning)
        } else {
            None
        }
    }

    /// Checks a value against limits that it must stay under.
    pub fn check_above(&self, value: i64) -> (r: Option<Breach>)
        ensures
            r == self.breach_above(value),
    {
        if value > self.critical {
            Some(Breach::Critical)
        } else if value > self.alert {
            Some(Breach::Alert)
        } else if value > self.warning {
            Some(Breach::Warning)
        } else {
            None
        }
    }

    /// Checks a value against limits that it must stay over.
    pub fn check_below(&self, value: i64) -> (r: Option<Breach>)
        ensures
            r == self.breach_below(value),
    {
        if value < self.critical {
            Some(Breach::Critical)
        } else if value < self.alert {
            Some(Breach::Alert)
        } else if value < self.warning {
            Some(Breach::Warning)
        } else {
            None
        }
    }
}

/// Rank of a breach level, the most severe highest.
pub open spec fn breach_rank(level: Breach) -> int {
    match level {
        Breach::Warning => 1,
        Breach::Alert => 2,
        Breach::Critical => 3,
    }
}

/// With ascending limits, the check reports the most severe limit that the
/// value exceeds, and nothing when the value does not exceed the warning limit.
pub proof fn lemma_highest_breach_above(t: Thresholds, value: i64)
    requires
        t.ascending(),
    ensures
        t.breach_above(value) is None <==> value <= t.warning,
        t.breach_above(value) matches Some(level) ==> {
            &&& value > t.limit(level)
            &&& forall|other: Breach|
                breach_rank(other) > breach_rank(level) ==> value <= #[trigger] t.limit(other)
        },
{
}

/// With descending limits, the check reports the most severe limit that the
/// value falls under, and nothing when the value is not under the warning limit.
pub proof fn lemma_highest_breach_below(t: Thresholds, value: i64)
    requires
        t.descending(),
    ensures
        t.breach_below(value) is None <==> value >= t.warning,
        t.breach_below(value) matches Some(level) ==> {
            &&& value < t.limit(level)
            &&& forall|other: Breach|
                breach_rank(other) > breach_rank(level) ==> value >= #[trigger] t.limit(other)
        },
{
}

} // verus!
