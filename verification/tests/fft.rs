//! The spectrum stage's length law, checked against the real analyzer.

use oldplay::fft::Fft;
use spectrum_analyzer::scaling::scale_20_times_log10;
use spectrum_analyzer::windows::hann_window;
use spectrum_analyzer::{samples_fft_to_spectrum, FrequencyLimit};

/// The application's spectrum pipeline: fold groups of `divider` samples
/// into mono, pad to a power of two, window, transform, and scale.
fn run_pipeline(fft: &Fft, samples: &[f32], rate: u32) -> Vec<u8> {
    let mix: Vec<f32> = samples.chunks(fft.divider).map(|a| a.iter().sum()).collect();
    let fft_size = mix.len().next_power_of_two();
    let mut padded = mix;
    padded.resize(fft_size, 0.0);
    let window = hann_window(&padded);
    let spectrum = samples_fft_to_spectrum(
        &window,
        rate,
        FrequencyLimit::Range((fft.min_freq as f32).into(), (fft.max_freq as f32).into()),
        Some(&scale_20_times_log10),
    )
    .expect("spectrum failed");
    spectrum.data().iter().map(|(_, j)| (j.val() * 0.75) as u8).collect()
}

#[test]
fn bin_count_matches_analyzer() {
    let fft = Fft { divider: 8, min_freq: 15, max_freq: 4000 };
    let rate = 44100;
    let samples: Vec<f32> = (0..8192).map(|i| ((i % 64) as f32 / 64.0) - 0.5).collect();
    let data = run_pipeline(&fft, &samples, rate);
    assert_eq!(data.len(), fft.bin_count(samples.len(), rate));
}

#[test]
fn bin_count_depends_on_padded_size_only() {
    let fft = Fft { divider: 8, min_freq: 15, max_freq: 4000 };
    let rate = 44100;
    // Two input lengths that pad to the same transform size give the same
    // number of bins.
    let a: Vec<f32> = (0..4104).map(|i| (i as f32).sin()).collect();
    let b: Vec<f32> = (0..8192).map(|i| (i as f32 * 0.37).cos()).collect();
    let da = run_pipeline(&fft, &a, rate);
    let db = run_pipeline(&fft, &b, rate);
    assert_eq!(da.len(), db.len());
    assert_eq!(da.len(), fft.bin_count(a.len(), rate));
    assert_eq!(db.len(), fft.bin_count(b.len(), rate));
}

#[test]
fn bin_count_narrow_window() {
    let fft = Fft { divider: 4, min_freq: 100, max_freq: 200 };
    let rate = 8000;
    let samples: Vec<f32> = (0..1024).map(|i| ((i % 17) as f32) / 17.0).collect();
    let data = run_pipeline(&fft, &samples, rate);
    assert_eq!(data.len(), fft.bin_count(samples.len(), rate));
}
