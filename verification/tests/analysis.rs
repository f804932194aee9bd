use easyfft::prelude::DynRealFft;
use web_audio_api::analysis::{generate_blackman, Analyser, TimeAnalyser, MAX_QUANTA, MAX_SAMPLES};
use web_audio_api::RENDER_QUANTUM_SIZE;

fn block(value: f32) -> [u32; 128] {
    [value.to_bits(); 128]
}

fn floats(bits: &[u32]) -> Vec<f32> {
    bits.iter().map(|b| f32::from_bits(*b)).collect()
}

fn filled(value: f32, len: usize) -> Vec<u32> {
    vec![value.to_bits(); len]
}

fn blackman_coefficient(i: usize, size: usize) -> u32 {
    let alpha: f32 = 0.16;
    let a0 = (1. - alpha) / 2.;
    let a1 = 1. / 2.;
    let a2 = alpha / 2.;
    let pi = std::f32::consts::PI;
    let value = a0 - a1 * (2. * pi * i as f32 / size as f32).cos()
        + a2 * (4. * pi * i as f32 / size as f32).cos();
    value.to_bits()
}

fn multiply(sample: u32, weight: u32) -> u32 {
    (f32::from_bits(sample) * f32::from_bits(weight)).to_bits()
}

fn magnitudes(input: &Vec<u32>) -> Vec<u32> {
    let samples = floats(input);
    let dft = samples.real_fft();
    dft.iter().map(|c| c.norm().to_bits()).collect()
}

fn smooth(previous: u32, magnitude: u32) -> u32 {
    let s: f32 = 0.8;
    (s * f32::from_bits(previous) + (1. - s) * f32::from_bits(magnitude)).to_bits()
}

fn decibels(magnitude: u32, fft_size: usize) -> u32 {
    let norm = 20. * (fft_size as f32).sqrt().log10();
    (20. * f32::from_bits(magnitude).log10() - norm).to_bits()
}

fn numbered_block(base: u32) -> [u32; 128] {
    let mut data = [0u32; 128];
    for (i, slot) in data.iter_mut().enumerate() {
        *slot = base + i as u32;
    }
    data
}

#[test]
fn assert_index_size() {
    // MAX_QUANTA should wrap around a u8, otherwise the ring buffer index breaks
    assert_eq!(u8::MAX as usize + 1, MAX_QUANTA);
    assert_eq!(MAX_SAMPLES / RENDER_QUANTUM_SIZE, MAX_QUANTA);
}

#[test]
fn test_time_domain() {
    let mut analyser = TimeAnalyser::new();
    let mut buffer = filled(-1., RENDER_QUANTUM_SIZE * 5);

    // feed single data buffer
    analyser.add_data(block(0.));

    // get data, should be padded with zeroes
    analyser.get_float_time(&mut buffer, RENDER_QUANTUM_SIZE * 5);
    assert_eq!(floats(&buffer), vec![0.; 5 * RENDER_QUANTUM_SIZE]);

    // feed data for more than 256 times (the ring buffer size)
    for i in 0..258 {
        analyser.add_data(block(i as f32));
    }

    // this should return non-zero data now
    analyser.get_float_time(&mut buffer, RENDER_QUANTUM_SIZE * 4);

    // taken from the end of the ring buffer
    assert_eq!(
        floats(&buffer[0..RENDER_QUANTUM_SIZE]),
        vec![254.; RENDER_QUANTUM_SIZE]
    );
    assert_eq!(
        floats(&buffer[RENDER_QUANTUM_SIZE..2 * RENDER_QUANTUM_SIZE]),
        vec![255.; RENDER_QUANTUM_SIZE]
    );
    // taken from the start of the ring buffer
    assert_eq!(
        floats(&buffer[2 * RENDER_QUANTUM_SIZE..3 * RENDER_QUANTUM_SIZE]),
        vec![256.; RENDER_QUANTUM_SIZE]
    );
    assert_eq!(
        floats(&buffer[3 * RENDER_QUANTUM_SIZE..4 * RENDER_QUANTUM_SIZE]),
        vec![257.; RENDER_QUANTUM_SIZE]
    );
    // excess capacity should be left unaltered
    assert_eq!(
        floats(&buffer[4 * RENDER_QUANTUM_SIZE..5 * RENDER_QUANTUM_SIZE]),
        vec![0.; RENDER_QUANTUM_SIZE]
    );

    // check for small fft_size
    buffer.resize(32, 0.0f32.to_bits());
    analyser.get_float_time(&mut buffer, RENDER_QUANTUM_SIZE);
    assert_eq!(floats(&buffer), vec![257.; 32]);
}

#[test]
fn test_complete_cycle() {
    let mut analyser = TimeAnalyser::new();

    // check values smaller than RENDER_QUANTUM_SIZE
    analyser.add_data(block(0.));
    assert!(analyser.check_complete_cycle(32));

    // check RENDER_QUANTUM_SIZE
    analyser.add_data(block(0.));
    assert!(analyser.check_complete_cycle(RENDER_QUANTUM_SIZE));

    // check multiple of RENDER_QUANTUM_SIZE
    analyser.add_data(block(0.));
    assert!(!analyser.check_complete_cycle(RENDER_QUANTUM_SIZE * 2));
    analyser.add_data(block(0.));
    assert!(analyser.check_complete_cycle(RENDER_QUANTUM_SIZE * 2));
    analyser.add_data(block(0.));
    assert!(!analyser.check_complete_cycle(RENDER_QUANTUM_SIZE * 2));
}

#[test]
fn test_freq_domain() {
    let fft_size: usize = RENDER_QUANTUM_SIZE * 4;
    let mut analyser = Analyser::new(fft_size, blackman_coefficient);
    let mut buffer = filled(-1., fft_size);

    // feed single data buffer
    analyser.add_data(block(0.));

    // get data, should be zero (negative infinity decibel)
    analyser.calculate_float_frequency(fft_size, blackman_coefficient, multiply, magnitudes, smooth);
    analyser.get_float_frequency(&mut buffer, decibels);

    // only N / 2 + 1 values should contain frequency data, rest is unaltered
    assert!(
        floats(&buffer[0..RENDER_QUANTUM_SIZE * 2 + 1])
            == vec![f32::NEG_INFINITY; RENDER_QUANTUM_SIZE * 2 + 1]
    );
    assert_eq!(
        floats(&buffer[2 * RENDER_QUANTUM_SIZE + 1..]),
        vec![-1.; 2 * RENDER_QUANTUM_SIZE - 1]
    );

    // feed data for more than 256 times (the ring buffer size)
    for i in 0..258 {
        analyser.add_data(block(i as f32));
    }

    // this should return other data now
    analyser.calculate_float_frequency(fft_size, blackman_coefficient, multiply, magnitudes, smooth);
    analyser.get_float_frequency(&mut buffer, decibels);
    assert!(
        floats(&buffer[0..RENDER_QUANTUM_SIZE * 2 + 1])
            != vec![f32::NEG_INFINITY; RENDER_QUANTUM_SIZE * 2 + 1]
    );
}

#[test]
fn test_blackman() {
    let values: Vec<f32> = floats(&generate_blackman(2048, blackman_coefficient));

    let min = values
        .iter()
        .fold(1000., |min, &val| if val < min { val } else { min });
    let max = values
        .iter()
        .fold(0., |max, &val| if val > max { val } else { max });
    assert!(min < 0.01 && min > 0.);
    assert!(max > 0.99 && max <= 1.);

    let min_pos = values.iter().position(|&v| v == min).unwrap();
    let max_pos = values.iter().position(|&v| v == max).unwrap();
    assert_eq!(min_pos, 0);
    assert_eq!(max_pos, 1024);
}

#[test]
fn window_table_holds_one_coefficient_per_slot() {
    let table = generate_blackman(5, |i, size| (10 * size + i) as u32);
    assert_eq!(table, vec![50, 51, 52, 53, 54]);
    assert_eq!(generate_blackman(0, |i, size| (10 * size + i) as u32), Vec::<u32>::new());
}

#[test]
fn empty_ring_reads_as_silence() {
    let analyser = TimeAnalyser::new();
    let mut buffer = vec![7u32; 300];
    analyser.get_float_time(&mut buffer, 256);
    assert_eq!(&buffer[..256], &[0u32; 256][..]);
    assert_eq!(&buffer[256..], &[7u32; 44][..]);
}

#[test]
fn partial_readout_takes_the_most_recent_samples() {
    let mut analyser = TimeAnalyser::new();
    analyser.add_data(numbered_block(1000));
    analyser.add_data(numbered_block(2000));
    analyser.add_data(numbered_block(3000));
    let mut buffer = vec![9u32; 210];
    analyser.get_float_time(&mut buffer, 200);
    // the last 72 samples of the second newest block, then the newest in full
    for j in 0..72 {
        assert_eq!(buffer[j], 2056 + j as u32);
    }
    for j in 72..200 {
        assert_eq!(buffer[j], 3000 + (j as u32 - 72));
    }
    assert_eq!(&buffer[200..], &[9u32; 10][..]);
}

#[test]
fn single_sample_readout_is_the_newest_sample() {
    let mut analyser = TimeAnalyser::new();
    analyser.add_data(numbered_block(1000));
    let mut buffer = vec![9u32; 1];
    analyser.get_float_time(&mut buffer, 1);
    assert_eq!(buffer, vec![1127]);

    let mut buffer = vec![9u32; 3];
    analyser.get_float_time(&mut buffer, 32);
    assert_eq!(buffer, vec![1125, 1126, 1127]);
}

#[test]
fn short_history_is_padded_in_front() {
    let mut analyser = TimeAnalyser::new();
    analyser.add_data(numbered_block(1000));
    let mut buffer = vec![9u32; 200];
    analyser.get_float_time(&mut buffer, 200);
    assert_eq!(&buffer[..72], &[0u32; 72][..]);
    for j in 72..200 {
        assert_eq!(buffer[j], 1000 + (j as u32 - 72));
    }
}

#[test]
fn readout_is_limited_by_the_buffer() {
    let mut analyser = TimeAnalyser::new();
    analyser.add_data(numbered_block(1000));
    analyser.add_data(numbered_block(2000));
    let mut buffer = vec![9u32; 130];
    analyser.get_float_time(&mut buffer, 512);
    // the last 130 samples: two of the older block, then the newer in full
    assert_eq!(buffer[0], 1126);
    assert_eq!(buffer[1], 1127);
    for j in 2..130 {
        assert_eq!(buffer[j], 2000 + (j as u32 - 2));
    }
}

#[test]
fn ring_keeps_the_last_256_blocks() {
    let mut analyser = TimeAnalyser::new();
    for i in 0..300u32 {
        analyser.add_data([i; 128]);
    }
    let mut buffer = vec![9u32; 257 * 128];
    analyser.get_float_time(&mut buffer, 257 * 128);
    // the oldest slot has run out of history and is silence
    assert_eq!(&buffer[..128], &[0u32; 128][..]);
    for c in 1..257usize {
        assert_eq!(buffer[c * 128], 43 + c as u32);
        assert_eq!(buffer[c * 128 + 127], 43 + c as u32);
    }
}

#[test]
fn ring_index_wraps_after_256_blocks() {
    let mut analyser = TimeAnalyser::new();
    analyser.add_data(block(0.));
    assert!(analyser.check_complete_cycle(RENDER_QUANTUM_SIZE));
    for _ in 0..255 {
        analyser.add_data(block(0.));
    }
    // 255 blocks are pending: not a multiple of two blocks
    assert!(!analyser.check_complete_cycle(2 * RENDER_QUANTUM_SIZE));
    analyser.add_data(block(0.));
    // the index is back where it was: nothing counts as pending
    assert!(analyser.check_complete_cycle(7 * RENDER_QUANTUM_SIZE));
}

#[test]
fn cycle_of_three_blocks_completes_on_the_third() {
    let mut analyser = TimeAnalyser::new();
    analyser.add_data(block(0.));
    assert!(!analyser.check_complete_cycle(3 * RENDER_QUANTUM_SIZE));
    analyser.add_data(block(0.));
    assert!(!analyser.check_complete_cycle(3 * RENDER_QUANTUM_SIZE));
    analyser.add_data(block(0.));
    assert!(analyser.check_complete_cycle(3 * RENDER_QUANTUM_SIZE));
    // nothing pending: complete again
    assert!(analyser.check_complete_cycle(3 * RENDER_QUANTUM_SIZE));
}

#[test]
fn analyser_reports_its_transform_size() {
    let mut analyser = Analyser::new(256, |_, _| 1);
    assert_eq!(analyser.current_fft_size(), 256);
    analyser.add_data([3; 128]);
    analyser.calculate_float_frequency(128, |_, _| 1, |s, w| s * w, |v| v.clone(), |p, c| p + c);
    assert_eq!(analyser.current_fft_size(), 128);
}

#[test]
fn frequency_pass_windows_transforms_and_smooths() {
    let mut analyser = Analyser::new(4, |i, _| i as u32 + 1);
    let mut data = [0u32; 128];
    data[124] = 10;
    data[125] = 20;
    data[126] = 30;
    data[127] = 40;
    analyser.add_data(data);

    // the four time samples are the last of the newest block; windowed they
    // are 10, 40, 90, 160; the transform keeps the first three; smoothing adds
    let weight = |i: usize, _: usize| i as u32 + 1;
    let times = |s: u32, w: u32| s * w;
    let front = |v: &Vec<u32>| v[..3].to_vec();
    let sum = |p: u32, c: u32| p + c;
    analyser.calculate_float_frequency(4, weight, times, front, sum);

    let mut buffer = vec![7u32; 5];
    analyser.get_float_frequency(&mut buffer, |m, n| m + n as u32);
    assert_eq!(buffer, vec![14, 44, 94, 7, 7]);

    // the same size again: the smoothed magnitudes carry over
    analyser.calculate_float_frequency(4, weight, times, front, sum);
    let mut buffer = vec![7u32; 2];
    analyser.get_float_frequency(&mut buffer, |m, n| m + n as u32);
    assert_eq!(buffer, vec![24, 84]);

    // another size: the smoothed magnitudes start from zero, the window is
    // made anew, and the two latest samples (30 and 40) are read
    let flat = |_: usize, size: usize| size as u32;
    analyser.calculate_float_frequency(2, flat, times, |v: &Vec<u32>| v.clone(), sum);
    let mut buffer = vec![7u32; 4];
    analyser.get_float_frequency(&mut buffer, |m, _| m);
    assert_eq!(buffer, vec![60, 80, 7, 7]);
}

#[test]
fn short_transform_output_leaves_the_other_magnitudes() {
    let mut analyser = Analyser::new(8, |_, _| 1);
    analyser.add_data([5; 128]);
    analyser.calculate_float_frequency(8, |_, _| 1, |s, w| s * w, |_| vec![100], |p, c| p + c);
    let mut buffer = vec![7u32; 8];
    analyser.get_float_frequency(&mut buffer, |m, _| m);
    assert_eq!(buffer, vec![100, 0, 0, 0, 0, 7, 7, 7]);
}

#[test]
fn constant_block_puts_energy_in_bin_zero() {
    let fft_size: usize = RENDER_QUANTUM_SIZE;
    let mut low = Analyser::new(fft_size, blackman_coefficient);
    let mut high = Analyser::new(fft_size, blackman_coefficient);
    low.add_data(block(1.));
    high.add_data(block(2.));
    low.calculate_float_frequency(fft_size, blackman_coefficient, multiply, magnitudes, smooth);
    high.calculate_float_frequency(fft_size, blackman_coefficient, multiply, magnitudes, smooth);
    let mut low_bins = filled(0., 1);
    let mut high_bins = filled(0., 1);
    low.get_float_frequency(&mut low_bins, |m, _| m);
    high.get_float_frequency(&mut high_bins, |m, _| m);
    let low_energy = f32::from_bits(low_bins[0]);
    let high_energy = f32::from_bits(high_bins[0]);
    assert!(low_energy > 0.);
    assert!((high_energy / low_energy - 2.).abs() < 1e-4);
}
