use vstd::prelude::*;

use crate::cache::{decode_cache, decode_spec, encode_cache, encode_spec};
use crate::error::SpeedError;
use crate::Measurement;

verus! {

/// What running the speed-test tool produced.
#[derive(Debug)]
pub enum ToolRun {
    /// The tool could not be started.
    SpawnFailed { detail: String },
    /// The tool exited with a failure status; carries its error stream.
    Failed { stderr: String },
    /// The tool exited successfully. `decoded` is its standard output read
    /// as a measurement, or why that reading failed.
    Succeeded { decoded: Result<Measurement, String> },
}

/// A fresh measurement together with the cache write that must follow it.
#[derive(Clone, Debug)]
pub struct CacheWrite {
    pub path: String,
    pub contents: String,
    pub measurement: Measurement,
}

/// The measurement that `run` delivers: only a successful exit whose output
/// decoded delivers one.
pub open spec fn tool_measurement(run: ToolRun) -> Option<Measurement> {
    match run {
        ToolRun::Succeeded { decoded: Ok(m) } => Some(m),
        _ => None,
    }
}

/// Whether `e` is the error that reports why `run` delivered no measurement.
pub open spec fn tool_error(run: ToolRun, e: SpeedError) -> bool {
    match run {
        ToolRun::SpawnFailed { detail } => e matches SpeedError::ProcessInvocation { detail: x }
            && x@ == detail@,
        ToolRun::Failed { stderr } => e matches SpeedError::ProcessExecution { stderr: x } && x@
            == stderr@,
        ToolRun::Succeeded { decoded } => {
            &&& decoded is Err
            &&& e matches SpeedError::Decode { detail: x }
            &&& x@ == decoded->Err_0@
        },
    }
}

/// The measurement that a run of the tool yields, or why it yields none.
pub fn get_internet_info(run: ToolRun) -> (r: Result<Measurement, SpeedError>)
    ensures
        match tool_measurement(run) {
            Some(m) => r == Ok::<Measurement, SpeedError>(m),
            None => r is Err && tool_error(run, r->Err_0),
        },
{
    match run {
        ToolRun::SpawnFailed { detail } => Err(SpeedError::ProcessInvocation { detail }),
        ToolRun::Failed { stderr } => Err(SpeedError::ProcessExecution { stderr }),
        ToolRun::Succeeded { decoded } => match decoded {
            Ok(m) => Ok(m),
            Err(detail) => Err(SpeedError::Decode { detail }),
        },
    }
}

/// Turns a run of the tool into the cache write that stores its measurement
/// at `path`; a failed run yields no write.
pub fn get_new_internet_info(run: ToolRun, path: &str) -> (r: Result<CacheWrite, SpeedError>)
    ensures
        match tool_measurement(run) {
            Some(m) => r matches Ok(w) && w.measurement == m && w.path@ == path@ && w.contents@
                == encode_spec(m),
            None => r is Err && tool_error(run, r->Err_0),
        },
{
    match get_internet_info(run) {
        Ok(m) => {
            let contents = encode_cache(&m);
            Ok(CacheWrite { path: String::from_str(path), contents, measurement: m })
        },
        Err(e) => Err(e),
    }
}

/// The outcome of a fetch once its cache write has been attempted: the
/// fetched measurement if the write succeeded, a write error otherwise.
pub fn finish_new_internet_info(measurement: Measurement, written: Result<(), String>) -> (r: Result<
    Measurement,
    SpeedError,
>)
    ensures
        match written {
            Ok(_) => r == Ok::<Measurement, SpeedError>(measurement),
            Err(d) => r matches Err(SpeedError::Write { detail: x }) && x@ == d@,
        },
{
    match written {
        Ok(_) => Ok(measurement),
        Err(detail) => Err(SpeedError::Write { detail }),
    }
}

/// The cached measurement, from the cache file's contents or the reason
/// they could not be read.
pub fn get_buffered_internet_info(contents: Result<String, String>) -> (r: Result<
    Measurement,
    SpeedError,
>)
    ensures
        match contents {
            Err(d) => r matches Err(SpeedError::Read { detail: x }) && x@ == d@,
            Ok(text) => match decode_spec(text@) {
                Some(m) => r == Ok::<Measurement, SpeedError>(m),
                None => r matches Err(SpeedError::Decode { .. }),
            },
        },
{
    match contents {
        Err(detail) => Err(SpeedError::Read { detail }),
        Ok(text) => match decode_cache(text.as_str()) {
            Some(m) => Ok(m),
            None => Err(SpeedError::Decode { detail: String::from_str("cache file is not in the expected layout") }),
        },
    }
}

/// A tool that exits with failure yields a process-execution error carrying
/// its error stream, and no cache write.
pub proof fn lemma_failed_exit_writes_nothing(run: ToolRun, e: SpeedError)
    requires
        run is Failed,
        tool_error(run, e),
    ensures
        tool_measurement(run) is None,
        e matches SpeedError::ProcessExecution { stderr } && stderr@ == run->Failed_stderr@,
{
}

/// A tool that exits with success but whose output does not decode yields a
/// decode error, and no cache write.
pub proof fn lemma_undecodable_output_writes_nothing(run: ToolRun, e: SpeedError)
    requires
        run matches ToolRun::Succeeded { decoded } && decoded is Err,
        tool_error(run, e),
    ensures
        tool_measurement(run) is None,
        e is Decode,
{
}

} // verus!
