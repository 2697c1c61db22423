use vstd::prelude::*;

use crate::cache::{decimal, u32_decimal};
use crate::Measurement;

verus! {

/// Severity of a latency reading.
#[derive(Clone, Copy, Debug, PartialEq, Eq, Structural)]
pub enum LatencyBand {
    Good,
    Warning,
    Bad,
}

pub open spec fn band_spec(latency_ms: u32) -> LatencyBand {
    if latency_ms <= 50 {
        LatencyBand::Good
    } else if latency_ms <= 150 {
        LatencyBand::Warning
    } else {
        LatencyBand::Bad
    }
}

/// Band of a latency: good up to 50 ms, warning up to 150 ms, bad beyond.
pub fn latency_band(latency_ms: u32) -> (r: LatencyBand)
    ensures
        r == band_spec(latency_ms),
{
    if latency_ms <= 50 {
        LatencyBand::Good
    } else if latency_ms <= 150 {
        LatencyBand::Warning
    } else {
        LatencyBand::Bad
    }
}

/// The colour-tagged icon shown for each band.
pub open spec fn glyph_spec(band: LatencyBand) -> Seq<char> {
    match band {
        LatencyBand::Good => "%{F#3cb703}\u{f0ac}%{F-}"@,
        LatencyBand::Warning => "%{F#f9dd04}\u{f0ac}%{F-}"@,
        LatencyBand::Bad => "%{F#d60606}\u{f0ac}%{F-}"@,
    }
}

/// The colour-tagged icon for `band`, in status-bar markup.
pub fn band_glyph(band: LatencyBand) -> (r: &'static str)
    ensures
        r@ == glyph_spec(band),
{
    match band {
        LatencyBand::Good => "%{F#3cb703}\u{f0ac}%{F-}",
        LatencyBand::Warning => "%{F#f9dd04}\u{f0ac}%{F-}",
        LatencyBand::Bad => "%{F#d60606}\u{f0ac}%{F-}",
    }
}

/// The status line for `m`: icon, latency, download speed.
pub open spec fn status_line_spec(m: Measurement) -> Seq<char> {
    glyph_spec(band_spec(m.latency_ms)) + " "@ + decimal(m.latency_ms as nat) + " ms  "@ + decimal(
        m.download_speed_mbps as nat,
    ) + " Mbps"@
}

/// Renders `m` as one status-bar line, for example `<icon> 17 ms  330 Mbps`.
pub fn render_status_line(m: &Measurement) -> (r: String)
    ensures
        r@ == status_line_spec(*m),
{
    let mut out = String::from_str(band_glyph(latency_band(m.latency_ms)));
    out.append(" ");
    let l = u32_decimal(m.latency_ms);
    out.append(l.as_str());
    out.append(" ms  ");
    let d = u32_decimal(m.download_speed_mbps);
    out.append(d.as_str());
    out.append(" Mbps");
    out
}

} // verus!
