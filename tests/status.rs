use netspeed_status::cache::{decode_cache, encode_cache, get_buffered_filename, u32_decimal};
use netspeed_status::driver::{event_fits_phase, step, Action, Event, Phase};
use netspeed_status::error::SpeedError;
use netspeed_status::freshness::{
    check_freshness, classify_age, elapsed_seconds, get_seconds_since_file_modified, FileProbe,
    Freshness, Timestamp, STALE_AFTER_SECS,
};
use netspeed_status::present::{band_glyph, latency_band, render_status_line, LatencyBand};
use netspeed_status::source::{
    finish_new_internet_info, get_buffered_internet_info, get_internet_info,
    get_new_internet_info, ToolRun,
};
use netspeed_status::Measurement;

const GOOD: &str = "%{F#3cb703}\u{f0ac}%{F-}";
const WARNING: &str = "%{F#f9dd04}\u{f0ac}%{F-}";
const BAD: &str = "%{F#d60606}\u{f0ac}%{F-}";

fn ts(secs: i64, nanos: u32) -> Timestamp {
    Timestamp { secs, nanos }
}

fn file_at(secs: i64) -> FileProbe {
    FileProbe::File { modified: ts(secs, 0) }
}

fn m(download_speed_mbps: u32, latency_ms: u32) -> Measurement {
    Measurement { download_speed_mbps, latency_ms }
}

fn exited_ok(meas: Measurement) -> ToolRun {
    ToolRun::Succeeded { decoded: Ok(meas) }
}

#[test]
fn elapsed_truncates_to_whole_seconds() {
    assert_eq!(elapsed_seconds(ts(100, 500), ts(40, 600)).ok(), Some(59));
    assert_eq!(elapsed_seconds(ts(100, 600), ts(40, 600)).ok(), Some(60));
    assert_eq!(elapsed_seconds(ts(5, 0), ts(5, 0)).ok(), Some(0));
}

#[test]
fn elapsed_in_the_future_is_a_clock_error() {
    assert!(matches!(elapsed_seconds(ts(100, 0), ts(100, 1)), Err(SpeedError::Clock)));
    assert!(matches!(elapsed_seconds(ts(0, 0), ts(1, 0)), Err(SpeedError::Clock)));
}

#[test]
fn elapsed_spans_the_whole_i64_range() {
    assert_eq!(elapsed_seconds(ts(i64::MAX, 0), ts(i64::MIN, 0)).ok(), Some(u64::MAX));
}

#[test]
fn fresh_within_threshold() {
    let now = ts(1_000_000, 0);
    let f = check_freshness(&file_at(1_000_000 - 3600), now, STALE_AFTER_SECS);
    assert!(matches!(f, Freshness::Fresh { elapsed: 3600 }));
}

#[test]
fn stale_beyond_threshold() {
    let now = ts(1_000_000, 0);
    let f = check_freshness(&file_at(1_000_000 - 100_000), now, STALE_AFTER_SECS);
    assert!(matches!(f, Freshness::Stale { elapsed: 100_000 }));
}

#[test]
fn threshold_boundary_is_inclusive() {
    let now = ts(1_000_000, 0);
    let at = check_freshness(&file_at(1_000_000 - 86400), now, STALE_AFTER_SECS);
    assert!(matches!(at, Freshness::Fresh { elapsed: 86400 }));
    let past = check_freshness(&file_at(1_000_000 - 86401), now, STALE_AFTER_SECS);
    assert!(matches!(past, Freshness::Stale { elapsed: 86401 }));
}

#[test]
fn missing_file_is_absent() {
    let probe = FileProbe::Missing { detail: "No such file or directory".to_string() };
    let f = check_freshness(&probe, ts(10, 0), STALE_AFTER_SECS);
    assert!(matches!(f, Freshness::Absent { error: SpeedError::CacheMetadata { .. } }));
}

#[test]
fn directory_is_absent() {
    let f = check_freshness(&FileProbe::NotAFile, ts(10, 0), STALE_AFTER_SECS);
    assert!(matches!(f, Freshness::Absent { error: SpeedError::CacheMetadata { .. } }));
    let probe = FileProbe::NoModifiedTime { detail: "unsupported".to_string() };
    assert!(matches!(
        get_seconds_since_file_modified(&probe, ts(10, 0)),
        Err(SpeedError::CacheMetadata { .. })
    ));
}

#[test]
fn future_modification_time_is_absent() {
    let f = check_freshness(&file_at(20), ts(10, 0), STALE_AFTER_SECS);
    assert!(matches!(f, Freshness::Absent { error: SpeedError::Clock }));
}

#[test]
fn classify_keeps_the_age() {
    assert!(matches!(classify_age(Ok(7), 7), Freshness::Fresh { elapsed: 7 }));
    assert!(matches!(classify_age(Ok(8), 7), Freshness::Stale { elapsed: 8 }));
    assert!(matches!(classify_age(Err(SpeedError::Clock), 7), Freshness::Absent { .. }));
}

#[test]
fn cache_path_joins_directory_and_name() {
    let p = get_buffered_filename(&Some("/home/u/.cache".to_string())).ok().unwrap();
    assert_eq!(p, "/home/u/.cache/.polybar-internet-speed.toml");
    let p = get_buffered_filename(&Some("/home/u/.cache/".to_string())).ok().unwrap();
    assert_eq!(p, "/home/u/.cache/.polybar-internet-speed.toml");
    let p = get_buffered_filename(&Some(String::new())).ok().unwrap();
    assert_eq!(p, ".polybar-internet-speed.toml");
}

#[test]
fn cache_path_needs_the_directory() {
    assert!(matches!(get_buffered_filename(&None), Err(SpeedError::Environment)));
}

#[test]
fn encode_writes_key_value_lines() {
    assert_eq!(encode_cache(&m(100, 120)), "downloadSpeed = 100\nlatency = 120\n");
    assert_eq!(encode_cache(&m(0, 7)), "downloadSpeed = 0\nlatency = 7\n");
}

#[test]
fn encode_then_decode_round_trips() {
    for meas in [m(0, 0), m(330, 17), m(100, 120), m(u32::MAX, u32::MAX), m(9, 10)] {
        assert_eq!(decode_cache(&encode_cache(&meas)), Some(meas));
    }
}

#[test]
fn encoded_cache_is_toml() {
    let text = encode_cache(&m(330, 17));
    let table: toml::Table = toml::from_str(&text).unwrap();
    assert_eq!(table.get("downloadSpeed").and_then(|v| v.as_integer()), Some(330));
    assert_eq!(table.get("latency").and_then(|v| v.as_integer()), Some(17));
    assert_eq!(table.len(), 2);
}

#[test]
fn decode_rejects_other_layouts() {
    assert_eq!(decode_cache(""), None);
    assert_eq!(decode_cache("downloadSpeed = 1\n"), None);
    assert_eq!(decode_cache("latency = 1\ndownloadSpeed = 2\n"), None);
    assert_eq!(decode_cache("downloadSpeed = \nlatency = 2\n"), None);
    assert_eq!(decode_cache("downloadSpeed = 1x\nlatency = 2\n"), None);
    assert_eq!(decode_cache("downloadSpeed = 1\nlatency = 2"), None);
    assert_eq!(decode_cache("downloadSpeed = 1\nlatency = 2\nmore"), None);
}

#[test]
fn decode_rejects_values_beyond_u32() {
    assert_eq!(decode_cache("downloadSpeed = 4294967296\nlatency = 2\n"), None);
    assert_eq!(
        decode_cache("downloadSpeed = 4294967295\nlatency = 2\n"),
        Some(m(u32::MAX, 2))
    );
    assert_eq!(decode_cache("downloadSpeed = 007\nlatency = 2\n"), None);
    assert_eq!(decode_cache("downloadSpeed = 00\nlatency = 0\n"), None);
    assert_eq!(decode_cache("downloadSpeed = 0\nlatency = 0\n"), Some(m(0, 0)));
    assert_eq!(decode_cache("downloadSpeed = 10\nlatency = 0\n"), Some(m(10, 0)));
}

#[test]
fn buffered_info_reports_read_and_decode_errors() {
    let ok = get_buffered_internet_info(Ok("downloadSpeed = 5\nlatency = 6\n".to_string()));
    assert_eq!(ok.ok(), Some(m(5, 6)));
    let read = get_buffered_internet_info(Err("permission denied".to_string()));
    assert!(matches!(read, Err(SpeedError::Read { detail }) if detail == "permission denied"));
    let bad = get_buffered_internet_info(Ok("garbage".to_string()));
    assert!(matches!(bad, Err(SpeedError::Decode { .. })));
}

#[test]
fn latency_bands() {
    assert_eq!(latency_band(0), LatencyBand::Good);
    assert_eq!(latency_band(50), LatencyBand::Good);
    assert_eq!(latency_band(51), LatencyBand::Warning);
    assert_eq!(latency_band(150), LatencyBand::Warning);
    assert_eq!(latency_band(151), LatencyBand::Bad);
    assert_eq!(band_glyph(LatencyBand::Good), GOOD);
}

#[test]
fn status_line_for_fresh_cache_is_good() {
    let line = render_status_line(&m(330, 17));
    assert_eq!(line, format!("{GOOD} 17 ms  330 Mbps"));
    assert!(line.contains("17 ms"));
    assert!(line.contains("330 Mbps"));
}

#[test]
fn status_line_latency_151_is_bad() {
    let line = render_status_line(&m(80, 151));
    assert!(line.starts_with(BAD));
    assert_eq!(line, format!("{BAD} 151 ms  80 Mbps"));
}

#[test]
fn tool_failure_is_execution_error() {
    let run = ToolRun::Failed { stderr: "network down".to_string() };
    let r = get_internet_info(run);
    assert!(matches!(r, Err(SpeedError::ProcessExecution { stderr }) if stderr == "network down"));
}

#[test]
fn tool_spawn_failure_is_invocation_error() {
    let run = ToolRun::SpawnFailed { detail: "not found".to_string() };
    let r = get_new_internet_info(run, "/c/f");
    assert!(matches!(r, Err(SpeedError::ProcessInvocation { detail }) if detail == "not found"));
}

#[test]
fn undecodable_tool_output_writes_nothing() {
    let run = ToolRun::Succeeded { decoded: Err("expected value at line 1 column 1".to_string()) };
    let r = get_new_internet_info(run, "/c/f");
    assert!(matches!(r, Err(SpeedError::Decode { .. })));
}

#[test]
fn fetched_measurement_is_written_to_the_cache_path() {
    let w = get_new_internet_info(exited_ok(m(100, 120)), "/c/f").ok().unwrap();
    assert_eq!(w.path, "/c/f");
    assert_eq!(w.measurement, m(100, 120));
    assert_eq!(decode_cache(&w.contents), Some(m(100, 120)));
}

#[test]
fn failed_cache_write_fails_the_fetch() {
    let r = finish_new_internet_info(m(1, 2), Err("read-only".to_string()));
    assert!(matches!(r, Err(SpeedError::Write { detail }) if detail == "read-only"));
    assert_eq!(finish_new_internet_info(m(1, 2), Ok(())).ok(), Some(m(1, 2)));
}

#[test]
fn run_without_cache_directory_fails_before_the_tool() {
    let ev = Event::Started { cache_home: None };
    assert!(event_fits_phase(&Phase::Start, &ev));
    let (phase, action) = step(Phase::Start, ev, STALE_AFTER_SECS);
    assert!(matches!(phase, Phase::Done));
    assert!(matches!(action, Action::Fail { error: SpeedError::Environment }));
}

#[test]
fn run_with_fresh_cache_emits_good_line() {
    let (phase, action) =
        step(Phase::Start, Event::Started { cache_home: Some("/c".to_string()) }, STALE_AFTER_SECS);
    match &action {
        Action::ProbeCache { path } => assert_eq!(path, "/c/.polybar-internet-speed.toml"),
        other => panic!("unexpected action {other:?}"),
    }
    let ev = Event::Probed { probe: file_at(1000), now: ts(1060, 0) };
    assert!(event_fits_phase(&phase, &ev));
    let (phase, action) = step(phase, ev, STALE_AFTER_SECS);
    assert!(matches!(phase, Phase::Loading));
    assert!(matches!(action, Action::ReadCache { elapsed: 60, .. }));
    let contents = Ok(encode_cache(&m(330, 17)));
    let (phase, action) = step(phase, Event::CacheRead { contents }, STALE_AFTER_SECS);
    assert!(matches!(phase, Phase::Done));
    match action {
        Action::Emit { line } => {
            assert!(line.starts_with(GOOD));
            assert!(line.contains("17 ms"));
            assert!(line.contains("330 Mbps"));
        }
        other => panic!("unexpected action {other:?}"),
    }
}

#[test]
fn run_with_stale_cache_fetches_writes_and_warns() {
    let phase = Phase::Probing { path: "/c/f".to_string() };
    let (phase, action) = step(
        phase,
        Event::Probed { probe: file_at(0), now: ts(86401, 0) },
        STALE_AFTER_SECS,
    );
    assert!(matches!(action, Action::RunTool { freshness: Freshness::Stale { elapsed: 86401 } }));
    let (phase, action) =
        step(phase, Event::ToolRan { run: exited_ok(m(100, 120)) }, STALE_AFTER_SECS);
    match &action {
        Action::WriteCache { path, contents } => {
            assert_eq!(path, "/c/f");
            assert_eq!(decode_cache(contents), Some(m(100, 120)));
        }
        other => panic!("unexpected action {other:?}"),
    }
    let (phase, action) = step(phase, Event::CacheWritten { result: Ok(()) }, STALE_AFTER_SECS);
    assert!(matches!(phase, Phase::Done));
    match action {
        Action::Emit { line } => assert_eq!(line, format!("{WARNING} 120 ms  100 Mbps")),
        other => panic!("unexpected action {other:?}"),
    }
}

#[test]
fn run_with_failing_tool_writes_nothing() {
    let phase = Phase::Fetching { path: "/c/f".to_string() };
    let run = ToolRun::Failed { stderr: "boom".to_string() };
    let (phase, action) = step(phase, Event::ToolRan { run }, STALE_AFTER_SECS);
    assert!(matches!(phase, Phase::Done));
    assert!(matches!(action, Action::Fail { error: SpeedError::ProcessExecution { .. } }));
}

#[test]
fn run_with_absent_cache_fetches() {
    let phase = Phase::Probing { path: "/c/f".to_string() };
    let probe = FileProbe::Missing { detail: "gone".to_string() };
    let (phase, action) = step(phase, Event::Probed { probe, now: ts(5, 0) }, STALE_AFTER_SECS);
    assert!(matches!(phase, Phase::Fetching { .. }));
    assert!(matches!(
        action,
        Action::RunTool {
            freshness: Freshness::Absent { error: SpeedError::CacheMetadata { .. } }
        }
    ));
}

#[test]
fn events_must_fit_the_phase() {
    assert!(!event_fits_phase(&Phase::Done, &Event::Started { cache_home: None }));
    assert!(!event_fits_phase(&Phase::Loading, &Event::Started { cache_home: None }));
    let bad_now = Event::Probed { probe: FileProbe::NotAFile, now: ts(1, 1_000_000_000) };
    assert!(!event_fits_phase(&Phase::Probing { path: String::new() }, &bad_now));
}

#[test]
fn decimal_spelling_matches_display() {
    for n in [0u32, 7, 9, 10, 99, 100, 120, 4096, 1_000_000, u32::MAX] {
        assert_eq!(u32_decimal(n), n.to_string());
    }
}
