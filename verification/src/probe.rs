//! Cache probe and staleness policy.
//!
//! A cache entry is never stored as an object. It is read off the file at the
//! cache path each time: no file, a zero-length file (the marker a failed
//! remote lookup leaves behind) or a file with content.

use crate::protocol::FileStat;
use vstd::prelude::*;

verus! {

/// Seconds in an hour.
pub const HOUR_IN_SECS: u64 = 3600;

/// How long a negative-cache marker keeps an asset from being fetched again.
pub const RECHECK_PERIOD_SECS: u64 = 12 * HOUR_IN_SECS;

/// The state of a cache entry.
#[derive(Clone, Copy, Debug, PartialEq, Eq, Structural)]
pub enum Probe {
    /// No file at the cache path.
    Absent,
    /// The path could not be inspected. Nothing is known about the entry.
    Unreadable,
    /// A zero-length marker that was written `age_secs` seconds ago.
    NegativeCached { age_secs: u64 },
    /// A zero-length marker whose age cannot be determined.
    Undated,
    /// A cached icon.
    Present,
}

/// The state of the cache entry behind a file-system report. A file with
/// content is a cached icon; an empty one is a marker, whatever else is known
/// about it.
pub open spec fn classify(stat: FileStat) -> Probe {
    match stat {
        FileStat::Missing => Probe::Absent,
        FileStat::Unreadable => Probe::Unreadable,
        FileStat::Exists { len, age_secs } => if len > 0 {
            Probe::Present
        } else {
            match age_secs {
                Some(age) => Probe::NegativeCached { age_secs: age },
                None => Probe::Undated,
            }
        },
    }
}

/// Classifies what the file system reported about a cache path.
pub fn probe(stat: FileStat) -> (p: Probe)
    ensures
        p == classify(stat),
{
    match stat {
        FileStat::Missing => Probe::Absent,
        FileStat::Unreadable => Probe::Unreadable,
        FileStat::Exists { len, age_secs } => {
            if len > 0 {
                Probe::Present
            } else {
                match age_secs {
                    Some(age) => Probe::NegativeCached { age_secs: age },
                    None => Probe::Undated,
                }
            }
        },
    }
}

impl Probe {
    /// Whether the entry holds an icon that can be served.
    pub open spec fn spec_is_usable(self) -> bool {
        self is Present
    }

    /// Whether the entry holds an icon that can be served.
    #[verifier::when_used_as_spec(spec_is_usable)]
    pub fn is_usable(self) -> (r: bool)
        ensures
            r == self.spec_is_usable(),
    {
        match self {
            Probe::Present => true,
            _ => false,
        }
    }
}

/// Whether a marker of the given age is to be looked up again: always on a
/// forced refresh, otherwise once the recheck period has passed.
pub open spec fn retry_due(age_secs: u64, force_refresh: bool) -> bool {
    force_refresh || age_secs >= RECHECK_PERIOD_SECS
}

/// The staleness policy for a negative-cache marker.
pub fn should_retry(age_secs: u64, force_refresh: bool) -> (retry: bool)
    ensures
        retry == retry_due(age_secs, force_refresh),
{
    force_refresh || age_secs >= RECHECK_PERIOD_SECS
}

} // verus!
