//! The snapshot of derived signal scalars, in fixed-point units.
//!
//! Values are held as integers so that every derivation is exact:
//! amplitude in millionths of the normalized sample unit, frequency in
//! milli-hertz, wavelength in millionths of a centimeter.

use vstd::prelude::*;

verus! {

/// Speed of sound (34300 cm/s) scaled to micro-centimeters per second
/// and then to milli-hertz: dividing it by a frequency in milli-hertz
/// yields a wavelength in micro-centimeters.
pub const WAVELENGTH_NUMERATOR: u64 = 34_300_000_000_000;

/// Largest frequency (milli-hertz) for which the integer wavelength
/// quotient is still positive, so that the silence sentinel stays
/// unambiguous. Every frequency the analyzer can produce is far below it.
pub const MAX_FREQUENCY_MILLIHZ: u64 = 34_300_000_000_000;

/// Wavelength in micro-centimeters derived from a frequency in
/// milli-hertz: the speed-of-sound quotient when the frequency is
/// positive, and the silence sentinel `0` otherwise.
pub open spec fn wavelength_of(frequency_millihz: u64) -> int {
    if frequency_millihz == 0 {
        0
    } else {
        WAVELENGTH_NUMERATOR as int / frequency_millihz as int
    }
}

/// One snapshot of the derived scalars. A plain copyable value: a new
/// one wholly replaces the previous one in the store on every analyzed
/// buffer.
#[derive(Clone, Copy, PartialEq, Eq, Structural, Debug)]
pub struct SignalMetrics {
    /// RMS energy of the analyzed buffer, in millionths of the
    /// normalized sample unit.
    pub amplitude: u64,
    /// Estimated dominant frequency in milli-hertz; `0` is the sentinel
    /// for silence or insufficient data, never a detected pitch.
    pub frequency: u64,
    /// Derived wavelength in micro-centimeters; `0` exactly when the
    /// frequency is the silence sentinel.
    pub wavelength: u64,
}

impl SignalMetrics {
    /// Well-formedness: the wavelength is exactly the one derived from
    /// the frequency, and the frequency is small enough that a positive
    /// frequency always yields a positive wavelength.
    pub open spec fn wf(self) -> bool {
        &&& self.frequency <= MAX_FREQUENCY_MILLIHZ
        &&& self.wavelength == wavelength_of(self.frequency)
    }

    /// The all-zero snapshot the store starts from.
    pub fn new() -> (m: Self)
        ensures
            m.wf(),
            m.amplitude == 0,
            m.frequency == 0,
            m.wavelength == 0,
    {
        SignalMetrics { amplitude: 0, frequency: 0, wavelength: 0 }
    }

    /// Builds a snapshot from an analyzed amplitude and frequency,
    /// deriving the wavelength.
    pub fn from_analysis(amplitude: u64, frequency: u64) -> (m: Self)
        requires
            frequency <= MAX_FREQUENCY_MILLIHZ,
        ensures
            m.wf(),
            m.amplitude == amplitude,
            m.frequency == frequency,
            m.wavelength == wavelength_of(frequency),
    {
        let wavelength: u64 = if frequency == 0 {
            0
        } else {
            WAVELENGTH_NUMERATOR / frequency
        };
        SignalMetrics { amplitude, frequency, wavelength }
    }
}

/// Law: in every well-formed snapshot the wavelength is zero exactly
/// when the frequency is zero, and a positive frequency carries exactly
/// the speed-of-sound quotient as its wavelength.
pub proof fn lemma_wavelength_invariant(m: SignalMetrics)
    requires
        m.wf(),
    ensures
        (m.frequency == 0) <==> (m.wavelength == 0),
        m.frequency > 0 ==> m.wavelength == WAVELENGTH_NUMERATOR as int / m.frequency as int,
{
    if m.frequency > 0 {
        vstd::arithmetic::div_mod::lemma_div_non_zero(
            WAVELENGTH_NUMERATOR as int,
            m.frequency as int,
        );
    }
}

} // verus!
