use vstd::prelude::*;

use crate::error::SpeedError;

verus! {

/// Number of nanoseconds in one second.
pub const NANOS_PER_SEC: u32 = 1_000_000_000;

/// Age, in seconds, up to which a cached measurement is reused.
pub const STALE_AFTER_SECS: u64 = 86400;

/// A point in wall-clock time: whole seconds since the Unix epoch and the
/// nanoseconds past that second.
#[derive(Clone, Copy, Debug, PartialEq, Eq, Structural)]
pub struct Timestamp {
    pub secs: i64,
    pub nanos: u32,
}

impl Timestamp {
    pub open spec fn wf(&self) -> bool {
        self.nanos < NANOS_PER_SEC
    }

    /// The instant as a signed count of nanoseconds since the epoch.
    pub open spec fn total_nanos(&self) -> int {
        self.secs * (NANOS_PER_SEC as int) + self.nanos
    }
}

/// What inspecting the cache file's metadata found.
#[derive(Clone, Debug)]
pub enum FileProbe {
    /// The metadata could not be read (for instance, the file does not exist).
    Missing { detail: String },
    /// The path names something other than a regular file.
    NotAFile,
    /// The file exists but its modification time could not be read.
    NoModifiedTime { detail: String },
    /// A regular file, last modified at the given instant.
    File { modified: Timestamp },
}

/// Classification of a cached measurement by its age.
#[derive(Clone, Debug)]
pub enum Freshness {
    Fresh { elapsed: u64 },
    Stale { elapsed: u64 },
    Absent { error: SpeedError },
}

/// Whole seconds from `earlier` to `later`, when `later` is not before `earlier`.
pub open spec fn elapsed_spec(later: Timestamp, earlier: Timestamp) -> Option<int> {
    let d = later.total_nanos() - earlier.total_nanos();
    if d < 0 {
        None
    } else {
        Some(d / (NANOS_PER_SEC as int))
    }
}

/// Whole seconds elapsed between `modified` and `now`; fails with a clock
/// error when `modified` lies after `now`.
pub fn elapsed_seconds(now: Timestamp, modified: Timestamp) -> (r: Result<u64, SpeedError>)
    requires
        now.wf(),
        modified.wf(),
    ensures
        elapsed_spec(now, modified) is None <==> r is Err,
        r is Err ==> r->Err_0 is Clock,
        r is Ok ==> elapsed_spec(now, modified) == Some(r->Ok_0 as int),
{
    let billion: i128 = NANOS_PER_SEC as i128;
    let ds: i128 = now.secs as i128 - modified.secs as i128;
    let dn: i128 = now.nanos as i128 - modified.nanos as i128;
    assert(-0x1_0000_0000_0000_0000 < ds < 0x1_0000_0000_0000_0000);
    assert(ds * billion <= 0x1_0000_0000_0000_0000 * 1_000_000_000) by (nonlinear_arith)
        requires ds < 0x1_0000_0000_0000_0000, billion == 1_000_000_000;
    assert(ds * billion >= -0x1_0000_0000_0000_0000 * 1_000_000_000) by (nonlinear_arith)
        requires ds > -0x1_0000_0000_0000_0000, billion == 1_000_000_000;
    let d: i128 = ds * billion + dn;
    assert(d == now.total_nanos() - modified.total_nanos()) by (nonlinear_arith)
        requires
            d == ds * billion + dn,
            ds == now.secs - modified.secs,
            dn == now.nanos - modified.nanos,
            billion == 1_000_000_000,
    ;
    if d < 0 {
        Err(SpeedError::Clock)
    } else {
        let q: i128 = d / billion;
        assert(q < 0x1_0000_0000_0000_0000) by (nonlinear_arith)
            requires
                q == d / billion,
                0 <= d,
                d <= (0x1_0000_0000_0000_0000 - 1) * 1_000_000_000 + 999_999_999,
                billion == 1_000_000_000,
        ;
        Ok(q as u64)
    }
}

/// Age in whole seconds of the file described by `probe`, or why it has none.
pub open spec fn age_spec(probe: FileProbe, now: Timestamp) -> Option<int> {
    match probe {
        FileProbe::File { modified } => elapsed_spec(now, modified),
        _ => None,
    }
}

/// Seconds since the cache file was last modified.
pub fn get_seconds_since_file_modified(probe: &FileProbe, now: Timestamp) -> (r: Result<
    u64,
    SpeedError,
>)
    requires
        now.wf(),
        probe is File ==> probe->modified.wf(),
    ensures
        age_spec(*probe, now) is None <==> r is Err,
        r is Ok ==> age_spec(*probe, now) == Some(r->Ok_0 as int),
        probe matches FileProbe::Missing { detail } ==> r matches Err(
            SpeedError::CacheMetadata { detail: d },
        ) && d@ == detail@,
        probe is NotAFile ==> r matches Err(SpeedError::CacheMetadata { .. }),
        probe matches FileProbe::NoModifiedTime { detail } ==> r matches Err(
            SpeedError::CacheMetadata { detail: d },
        ) && d@ == detail@,
        probe is File ==> (r is Err ==> r->Err_0 is Clock),
{
    match probe {
        FileProbe::Missing { detail } => Err(SpeedError::CacheMetadata { detail: detail.clone() }),
        FileProbe::NotAFile => Err(
            SpeedError::CacheMetadata { detail: String::from_str("not a regular file") },
        ),
        FileProbe::NoModifiedTime { detail } => Err(
            SpeedError::CacheMetadata { detail: detail.clone() },
        ),
        FileProbe::File { modified } => elapsed_seconds(now, *modified),
    }
}

/// The classification that an age (or its absence) receives under `threshold`.
pub open spec fn freshness_spec(age: Option<int>, threshold: u64) -> FreshnessKind {
    match age {
        Some(a) => if a <= threshold {
            FreshnessKind::Fresh
        } else {
            FreshnessKind::Stale
        },
        None => FreshnessKind::Absent,
    }
}

/// The three outcomes of a freshness check, without their payloads.
#[derive(Clone, Copy, Debug, PartialEq, Eq, Structural)]
pub enum FreshnessKind {
    Fresh,
    Stale,
    Absent,
}

impl Freshness {
    pub open spec fn kind(&self) -> FreshnessKind {
        match self {
            Freshness::Fresh { .. } => FreshnessKind::Fresh,
            Freshness::Stale { .. } => FreshnessKind::Stale,
            Freshness::Absent { .. } => FreshnessKind::Absent,
        }
    }
}

/// Classifies an age in seconds: fresh up to and including `threshold`,
/// stale beyond it, absent when there is no age.
pub fn classify_age(age: Result<u64, SpeedError>, threshold: u64) -> (r: Freshness)
    ensures
        r.kind() == freshness_spec(
            match age {
                Ok(a) => Some(a as int),
                Err(_) => None,
            },
            threshold,
        ),
        age is Ok ==> (r is Fresh ==> r->Fresh_elapsed == age->Ok_0),
        age is Ok ==> (r is Stale ==> r->Stale_elapsed == age->Ok_0),
        age is Err ==> (r is Absent && r->error == age->Err_0),
{
    match age {
        Ok(elapsed) => if elapsed <= threshold {
            Freshness::Fresh { elapsed }
        } else {
            Freshness::Stale { elapsed }
        },
        Err(error) => Freshness::Absent { error },
    }
}

/// Decides whether the cached measurement described by `probe` is fresh,
/// stale, or absent at time `now`.
pub fn check_freshness(probe: &FileProbe, now: Timestamp, threshold: u64) -> (r: Freshness)
    requires
        now.wf(),
        probe is File ==> probe->modified.wf(),
    ensures
        r.kind() == freshness_spec(age_spec(*probe, now), threshold),
        r is Fresh ==> age_spec(*probe, now) == Some(r->Fresh_elapsed as int),
        r is Stale ==> age_spec(*probe, now) == Some(r->Stale_elapsed as int),
{
    classify_age(get_seconds_since_file_modified(probe, now), threshold)
}

/// A regular file whose age is within the threshold is fresh, one that is
/// strictly older is stale, and anything that is not a readable regular file
/// is absent.
pub proof fn lemma_freshness_by_age(probe: FileProbe, now: Timestamp, threshold: u64)
    ensures
        probe matches FileProbe::File { modified } ==> (elapsed_spec(now, modified) matches Some(
            a,
        ) ==> (a <= threshold ==> freshness_spec(age_spec(probe, now), threshold)
            == FreshnessKind::Fresh)),
        probe matches FileProbe::File { modified } ==> (elapsed_spec(now, modified) matches Some(
            a,
        ) ==> (a > threshold ==> freshness_spec(age_spec(probe, now), threshold)
            == FreshnessKind::Stale)),
        !(probe is File) ==> freshness_spec(age_spec(probe, now), threshold)
            == FreshnessKind::Absent,
{
}

/// An age of exactly the threshold is still fresh; one second more is stale.
pub proof fn lemma_freshness_boundary(threshold: u64)
    ensures
        freshness_spec(Some(threshold as int), threshold) == FreshnessKind::Fresh,
        freshness_spec(Some(threshold + 1), threshold) == FreshnessKind::Stale,
{
}

} // verus!
