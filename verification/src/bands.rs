//! Coarse frequency-band classification for the rendered report.
//!
//! Each boundary is exclusive on its upper side: a frequency equal to a
//! boundary belongs to the band above it.

use vstd::prelude::*;

verus! {

/// The five coarse bands of the report, in ascending frequency order.
#[derive(Clone, Copy, PartialEq, Eq, Structural, Debug)]
pub enum Band {
    Bass,
    LowMid,
    Mid,
    HighMid,
    Treble,
}

/// Band of a frequency in milli-hertz, with strict upper boundaries:
/// below 80 Hz is Bass, below 250 Hz Low Mid, below 2000 Hz Mid, below
/// 4000 Hz High Mid, and everything else Treble.
pub open spec fn band_of(frequency_millihz: int) -> Band {
    if frequency_millihz < 80_000 {
        Band::Bass
    } else if frequency_millihz < 250_000 {
        Band::LowMid
    } else if frequency_millihz < 2_000_000 {
        Band::Mid
    } else if frequency_millihz < 4_000_000 {
        Band::HighMid
    } else {
        Band::Treble
    }
}

/// Human-readable label of a band, as shown in the report.
pub open spec fn band_label_spec(b: Band) -> Seq<char> {
    match b {
        Band::Bass => "Bass"@,
        Band::LowMid => "Low Mid"@,
        Band::Mid => "Mid"@,
        Band::HighMid => "High Mid"@,
        Band::Treble => "Treble"@,
    }
}

/// Classifies a frequency into its coarse band.
pub fn classify_band(frequency_millihz: u64) -> (b: Band)
    ensures
        b == band_of(frequency_millihz as int),
{
    if frequency_millihz < 80_000 {
        Band::Bass
    } else if frequency_millihz < 250_000 {
        Band::LowMid
    } else if frequency_millihz < 2_000_000 {
        Band::Mid
    } else if frequency_millihz < 4_000_000 {
        Band::HighMid
    } else {
        Band::Treble
    }
}

impl Band {
    /// The label of this band.
    pub fn label(&self) -> (s: String)
        ensures
            s@ == band_label_spec(*self),
    {
        match self {
            Band::Bass => String::from_str("Bass"),
            Band::LowMid => String::from_str("Low Mid"),
            Band::Mid => String::from_str("Mid"),
            Band::HighMid => String::from_str("High Mid"),
            Band::Treble => String::from_str("Treble"),
        }
    }
}

} // verus!
