use vstd::prelude::*;

use crate::cache::{decode_spec, encode_spec, get_buffered_filename, join_path, CACHE_FILE_NAME};
use crate::error::SpeedError;
use crate::freshness::{
    age_spec, check_freshness, freshness_spec, FileProbe, Freshness, FreshnessKind, Timestamp,
    NANOS_PER_SEC,
};
use crate::present::{render_status_line, status_line_spec};
use crate::source::{
    finish_new_internet_info, get_buffered_internet_info, get_new_internet_info, tool_error,
    tool_measurement, ToolRun,
};
use crate::Measurement;

verus! {

/// Where a run of the program stands.
#[derive(Debug)]
pub enum Phase {
    /// Nothing has happened yet.
    Start,
    /// Waiting for the cache file's metadata.
    Probing { path: String },
    /// Waiting for the cache file's contents.
    Loading,
    /// Waiting for the speed-test tool.
    Fetching { path: String },
    /// Waiting for the cache write of a fresh measurement.
    Storing { measurement: Measurement },
    /// The run is over.
    Done,
}

/// What the program reports back after carrying out an action.
#[derive(Debug)]
pub enum Event {
    /// The run begins; carries the cache directory base, if set.
    Started { cache_home: Option<String> },
    /// The cache file's metadata, and the current time.
    Probed { probe: FileProbe, now: Timestamp },
    /// The cache file's contents, or why they could not be read.
    CacheRead { contents: Result<String, String> },
    /// The speed-test tool has run.
    ToolRan { run: ToolRun },
    /// The cache write is done, or why it failed.
    CacheWritten { result: Result<(), String> },
}

/// What the program must do next.
#[derive(Debug)]
pub enum Action {
    ProbeCache { path: String },
    /// Read the cache file, which is fresh at `elapsed` seconds old.
    ReadCache { path: String, elapsed: u64 },
    /// Run the speed-test tool, because the cache is stale or absent as
    /// `freshness` says.
    RunTool { freshness: Freshness },
    WriteCache { path: String, contents: String },
    Emit { line: String },
    Fail { error: SpeedError },
}

/// Whether `event` is the one that `phase` waits for.
pub open spec fn event_fits(phase: Phase, event: Event) -> bool {
    match phase {
        Phase::Start => event is Started,
        Phase::Probing { .. } => event matches Event::Probed { probe, now } && now.wf() && (
        probe matches FileProbe::File { modified } ==> modified.wf()),
        Phase::Loading => event is CacheRead,
        Phase::Fetching { .. } => event is ToolRan,
        Phase::Storing { .. } => event is CacheWritten,
        Phase::Done => false,
    }
}

/// Tells whether `step` accepts `event` in `phase`.
pub fn event_fits_phase(phase: &Phase, event: &Event) -> (r: bool)
    ensures
        r == event_fits(*phase, *event),
{
    match phase {
        Phase::Start => matches!(event, Event::Started { .. }),
        Phase::Probing { .. } => match event {
            Event::Probed { probe, now } => now.nanos < NANOS_PER_SEC && match probe {
                FileProbe::File { modified } => modified.nanos < NANOS_PER_SEC,
                _ => true,
            },
            _ => false,
        },
        Phase::Loading => matches!(event, Event::CacheRead { .. }),
        Phase::Fetching { .. } => matches!(event, Event::ToolRan { .. }),
        Phase::Storing { .. } => matches!(event, Event::CacheWritten { .. }),
        Phase::Done => false,
    }
}

/// Advances a run by one event: the cache path comes first, then the
/// freshness check, then either the cached measurement or a fetch followed
/// by its cache write, and finally the status line. Any failure ends the run.
pub fn step(phase: Phase, event: Event, threshold: u64) -> (r: (Phase, Action))
    requires
        event_fits(phase, event),
    ensures
        r.1 is Fail ==> r.0 is Done,
        r.1 is RunTool ==> phase is Probing,
        r.0 is Probing ==> phase is Start && event->cache_home is Some,
        r.1 is Emit ==> r.0 is Done,
        phase is Start ==> match event->cache_home {
            None => r.1 matches Action::Fail { error } && error is Environment,
            Some(h) => r.0 matches Phase::Probing { path } && r.1 matches Action::ProbeCache {
                path: p,
            } && path@ == join_path(h@, CACHE_FILE_NAME@) && p@ == path@,
        },
        phase matches Phase::Probing { path } ==> if freshness_spec(
            age_spec(event->probe, event->now),
            threshold,
        ) == FreshnessKind::Fresh {
            &&& r.0 is Loading
            &&& r.1 matches Action::ReadCache { path: p, elapsed }
            &&& p@ == path@
            &&& age_spec(event->probe, event->now) == Some(elapsed as int)
        } else {
            &&& r.0 is Fetching
            &&& r.0->Fetching_path@ == path@
            &&& r.1 matches Action::RunTool { freshness }
            &&& freshness.kind() == freshness_spec(age_spec(event->probe, event->now), threshold)
            &&& freshness is Stale ==> age_spec(event->probe, event->now) == Some(
                freshness->Stale_elapsed as int,
            )
        },
        phase is Loading ==> match event->contents {
            Err(d) => r.1 matches Action::Fail { error } && error matches SpeedError::Read {
                detail,
            } && detail@ == d@,
            Ok(text) => match decode_spec(text@) {
                Some(m) => r.1 matches Action::Emit { line } && line@ == status_line_spec(m),
                None => r.1 matches Action::Fail { error } && error is Decode,
            },
        },
        phase matches Phase::Fetching { path } ==> match tool_measurement(event->run) {
            Some(m) => {
                &&& r.0 == (Phase::Storing { measurement: m })
                &&& r.1 matches Action::WriteCache { path: p, contents }
                &&& p@ == path@
                &&& contents@ == encode_spec(m)
            },
            None => r.1 matches Action::Fail { error } && tool_error(event->run, error),
        },
        phase matches Phase::Storing { measurement } ==> match event->result {
            Ok(_) => r.1 matches Action::Emit { line } && line@ == status_line_spec(measurement),
            Err(d) => r.1 matches Action::Fail { error } && error matches SpeedError::Write {
                detail,
            } && detail@ == d@,
        },
{
    match (phase, event) {
        (Phase::Start, Event::Started { cache_home }) => match get_buffered_filename(&cache_home) {
            Ok(path) => {
                let p = path.clone();
                (Phase::Probing { path }, Action::ProbeCache { path: p })
            },
            Err(error) => (Phase::Done, Action::Fail { error }),
        },
        (Phase::Probing { path }, Event::Probed { probe, now }) => {
            let freshness = check_freshness(&probe, now, threshold);
            match freshness {
                Freshness::Fresh { elapsed } => (Phase::Loading, Action::ReadCache { path, elapsed }),
                _ => (Phase::Fetching { path }, Action::RunTool { freshness }),
            }
        },
        (Phase::Loading, Event::CacheRead { contents }) => match get_buffered_internet_info(
            contents,
        ) {
            Ok(m) => (Phase::Done, Action::Emit { line: render_status_line(&m) }),
            Err(error) => (Phase::Done, Action::Fail { error }),
        },
        (Phase::Fetching { path }, Event::ToolRan { run }) => match get_new_internet_info(
            run,
            path.as_str(),
        ) {
            Ok(write) => (
                Phase::Storing { measurement: write.measurement },
                Action::WriteCache { path: write.path, contents: write.contents },
            ),
            Err(error) => (Phase::Done, Action::Fail { error }),
        },
        (Phase::Storing { measurement }, Event::CacheWritten { result }) => {
            match finish_new_internet_info(measurement, result) {
                Ok(m) => (Phase::Done, Action::Emit { line: render_status_line(&m) }),
                Err(error) => (Phase::Done, Action::Fail { error }),
            }
        },
        (_, _) => {
            proof {
                assert(false);
            }
            (Phase::Done, Action::Fail { error: SpeedError::Environment })
        },
    }
}

} // verus!
