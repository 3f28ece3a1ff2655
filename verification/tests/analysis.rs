//! Tests of the analysis pipeline on synthetic buffers, driving the
//! verified core through the same windowed-transform front end the
//! application uses.

use audioscope::analyzer::analyze;
use audioscope::analyzer::calculate_rms;
use audioscope::analyzer::frequency_from_spectrum;
use audioscope::analyzer::isqrt_u64;
use audioscope::metrics::SignalMetrics;

use rustfft::num_complex::Complex;
use rustfft::FftPlanner;

/// Millionths of the normalized unit, the fixed-point sample scale.
const MICRO: f64 = 1_000_000.0;

/// Converts normalized float samples to the analyzer's fixed-point domain.
fn to_fixed(samples: &[f64]) -> Vec<i64> {
    samples.iter().map(|&x| (x * MICRO).round() as i64).collect()
}

/// The application's spectral front end: Hann window, forward
/// transform of the first 1024 samples, magnitudes quantized to
/// thousandths.
fn magnitude_spectrum(samples: &[f64]) -> Vec<u64> {
    let n: usize = 1024;
    assert!(samples.len() >= n);
    let mut buf: Vec<Complex<f32>> = samples[..n]
        .iter()
        .map(|&x| Complex::new(x as f32, 0.0))
        .collect();
    for (i, c) in buf.iter_mut().enumerate() {
        let w = 0.5 * (1.0 - (2.0 * std::f32::consts::PI * i as f32 / (n - 1) as f32).cos());
        c.re *= w;
    }
    let mut planner = FftPlanner::<f32>::new();
    let fft = planner.plan_fft_forward(n);
    fft.process(&mut buf);
    buf.iter().map(|c| (c.norm() as f64 * 1000.0).round() as u64).collect()
}

fn sine(len: usize, peak: f64, frequency_hz: f64, sample_rate_hz: f64) -> Vec<f64> {
    (0..len)
        .map(|i| peak * (2.0 * std::f64::consts::PI * frequency_hz * i as f64 / sample_rate_hz).sin())
        .collect()
}

#[test]
fn rms_of_sine_is_peak_over_sqrt2() {
    let rate = 44100.0;
    // An exact number of cycles over the buffer keeps the mean square clean.
    let freq = 10.0 * rate / 1024.0;
    let samples = to_fixed(&sine(1024, 0.5, freq, rate));
    let rms = calculate_rms(&samples) as f64;
    let expected = 0.5 / std::f64::consts::SQRT_2 * MICRO;
    assert!((rms - expected).abs() < expected * 0.01, "rms {} expected {}", rms, expected);
}

#[test]
fn rms_of_constant_buffer_is_exact() {
    let samples = vec![123_456_i64; 500];
    assert_eq!(calculate_rms(&samples), 123_456);
}

#[test]
fn rms_of_zeros_is_zero_for_any_length() {
    for len in [0usize, 1, 7, 1023, 1024, 5000] {
        let samples = vec![0_i64; len];
        assert_eq!(calculate_rms(&samples), 0);
    }
}

#[test]
fn rms_is_not_clamped_to_unit_range() {
    // Amplitude above the nominal unit range passes through unchanged.
    let samples = vec![2_000_000_i64; 1024];
    assert_eq!(calculate_rms(&samples), 2_000_000);
}

#[test]
fn isqrt_exact_values() {
    assert_eq!(isqrt_u64(0), 0);
    assert_eq!(isqrt_u64(1), 1);
    assert_eq!(isqrt_u64(15), 3);
    assert_eq!(isqrt_u64(16), 4);
    assert_eq!(isqrt_u64(u64::MAX), 4_294_967_295);
}

#[test]
fn peak_frequency_within_one_bin() {
    let rate = 44100u32;
    // Bin 10 center: 10 * 44100 / 1024 Hz.
    let freq_hz = 10.0 * rate as f64 / 1024.0;
    let samples = sine(1024, 0.5, freq_hz, rate as f64);
    let spectrum = magnitude_spectrum(&samples);
    let freq_millihz = frequency_from_spectrum(&spectrum, rate);
    let expected_millihz = freq_hz * 1000.0;
    let bin_width_millihz = rate as f64 / 1024.0 * 1000.0;
    assert!(
        (freq_millihz as f64 - expected_millihz).abs() <= bin_width_millihz,
        "frequency {} expected {}",
        freq_millihz,
        expected_millihz
    );
}

#[test]
fn all_zero_window_gives_silence_sentinel() {
    let rate = 44100u32;
    let samples = vec![0.0_f64; 1024];
    let spectrum = magnitude_spectrum(&samples);
    let metrics = analyze(&to_fixed(&samples), &spectrum, rate);
    assert_eq!(metrics.frequency, 0);
    assert_eq!(metrics.wavelength, 0);
    assert_eq!(metrics.amplitude, 0);
}

#[test]
fn undersized_buffer_gives_silence_regardless_of_content() {
    let rate = 48000u32;
    for len in [0usize, 1, 512, 1023] {
        let samples = to_fixed(&sine(len, 0.9, 440.0, rate as f64));
        let metrics = analyze(&samples, &Vec::new(), rate);
        assert_eq!(metrics.frequency, 0);
        assert_eq!(metrics.wavelength, 0);
    }
}

#[test]
fn analyze_full_pipeline_on_sine() {
    let rate = 44100u32;
    let freq_hz = 10.0 * rate as f64 / 1024.0;
    let float_samples = sine(2048, 0.5, freq_hz, rate as f64);
    let samples = to_fixed(&float_samples);
    let spectrum = magnitude_spectrum(&float_samples);
    let metrics = analyze(&samples, &spectrum, rate);
    assert!(metrics.frequency > 0);
    // Wavelength is exactly the speed-of-sound quotient of the frequency.
    assert_eq!(metrics.wavelength, 34_300_000_000_000 / metrics.frequency);
    let expected_millihz = freq_hz * 1000.0;
    let bin_width_millihz = rate as f64 / 1024.0 * 1000.0;
    assert!((metrics.frequency as f64 - expected_millihz).abs() <= bin_width_millihz);
}

#[test]
fn wavelength_of_a440_is_exact() {
    let metrics = SignalMetrics::from_analysis(0, 440_000);
    // 34_300_000_000_000 / 440_000, rounded down.
    assert_eq!(metrics.wavelength, 77_954_545);
    assert_eq!(metrics.frequency, 440_000);
}

#[test]
fn first_of_equal_peaks_wins() {
    // Two equal maxima: the scan keeps the lower-index bin.
    let mut spectrum = vec![0u64; 1024];
    spectrum[0] = 99_999; // DC is excluded from the scan
    spectrum[20] = 5_000;
    spectrum[40] = 5_000;
    let rate = 1024_000u32; // one bin = exactly 1_000_000 milli-hertz
    let freq = frequency_from_spectrum(&spectrum, rate);
    assert_eq!(freq, 20_000_000);
}
