use vstd::prelude::*;

verus! {

/// Why a run could not produce a measurement.
#[derive(Clone, Debug)]
pub enum SpeedError {
    /// The cache file could not be inspected, or is not a regular file.
    CacheMetadata { detail: String },
    /// The file's modification time lies after the current time.
    Clock,
    /// The speed-test tool could not be started.
    ProcessInvocation { detail: String },
    /// The speed-test tool ran and reported failure; carries its error stream.
    ProcessExecution { stderr: String },
    /// Tool output or cache contents did not decode into a measurement.
    Decode { detail: String },
    /// The cache file could not be read.
    Read { detail: String },
    /// The cache file could not be written.
    Write { detail: String },
    /// The cache directory base is not set.
    Environment,
}

} // verus!
