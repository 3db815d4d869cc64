use vvvf_sound::audio::AudioError;
use vvvf_sound::audio::AudioMixer;
use vvvf_sound::audio::AudioSource;
use vvvf_sound::audio::ResampledLoopAudio;
use vvvf_sound::audio::VOLUME_UNIT;

fn stereo_source() -> AudioSource {
    // Two channels, four frames, interleaved.
    let data = vec![1, 10, 2, 20, 3, 30, 4, 40];
    AudioSource::from_interleaved(&data, 2, 2, 44100).unwrap()
}

#[test]
fn channels_kept_when_equal() {
    let src = stereo_source();
    assert_eq!(src.channels, 2);
    assert_eq!(src.len, 4);
    assert_eq!(src.samples[0], vec![1, 2, 3, 4]);
    assert_eq!(src.samples[1], vec![10, 20, 30, 40]);
}

#[test]
fn mono_replicated_to_every_channel() {
    let data = vec![5, 6, 7];
    let src = AudioSource::from_interleaved(&data, 1, 2, 22050).unwrap();
    assert_eq!(src.samples[0], vec![5, 6, 7]);
    assert_eq!(src.samples[1], vec![5, 6, 7]);
}

#[test]
fn many_channels_fold_to_mono_by_mean() {
    let data = vec![2, 4, 3, 5, -3, -5];
    let src = AudioSource::from_interleaved(&data, 2, 1, 8000).unwrap();
    // The truncated per-frame mean: (2+4)/2, (3+5)/2, (-3-5)/2.
    assert_eq!(src.samples[0], vec![3, 4, -4]);
}

#[test]
fn unsupported_channel_conversion_is_refused() {
    let data = vec![0, 0, 0, 0, 0, 0];
    let r = AudioSource::from_interleaved(&data, 3, 2, 8000);
    match r {
        Err(e) => assert_eq!(e, AudioError::UnsupportedChannels { from: 3, to: 2 }),
        Ok(_) => panic!("conversion from 3 to 2 channels must be refused"),
    }
}

#[test]
fn input_chunks_wrap_around_the_loop() {
    let src = stereo_source();
    let mut loop_audio = ResampledLoopAudio::new(src, 48000, 3);
    let c1 = loop_audio.next_input_chunk();
    assert_eq!(c1[0], vec![1, 2, 3]);
    assert_eq!(c1[1], vec![10, 20, 30]);
    let c2 = loop_audio.next_input_chunk();
    // The cursor wraps at the loop end: frames 3, 0, 1.
    assert_eq!(c2[0], vec![4, 1, 2]);
    assert_eq!(c2[1], vec![40, 10, 20]);
}

#[test]
fn pushed_chunks_are_volume_scaled_and_interleaved() {
    let src = stereo_source();
    let mut loop_audio = ResampledLoopAudio::new(src, 48000, 2);
    loop_audio.set_volume_pitch(VOLUME_UNIT / 2, VOLUME_UNIT);
    let chunk = vec![vec![100, 200], vec![1000, 2000]];
    loop_audio.push_resampled_chunk(&chunk, 2);
    let mut out = vec![0i64; 4];
    loop_audio.write_data_additive(&mut out);
    assert_eq!(out, vec![50, 500, 100, 1000]);
}

#[test]
fn additive_write_adds_and_pads_with_silence() {
    let src = stereo_source();
    let mut loop_audio = ResampledLoopAudio::new(src, 48000, 2);
    loop_audio.set_volume_pitch(VOLUME_UNIT, VOLUME_UNIT);
    let chunk = vec![vec![7], vec![9]];
    loop_audio.push_resampled_chunk(&chunk, 1);
    let mut out = vec![100i64; 4];
    loop_audio.write_data_additive(&mut out);
    // Two buffered samples are added; the rest of the slice is unchanged.
    assert_eq!(out, vec![107, 109, 100, 100]);
}

fn loaded_source(samples: &[i64], volume: i64) -> ResampledLoopAudio {
    let src = AudioSource::from_interleaved(&samples.to_vec(), 1, 1, 44100).unwrap();
    let mut loop_audio = ResampledLoopAudio::new(src, 48000, 2);
    loop_audio.set_volume_pitch(volume, VOLUME_UNIT);
    let chunk = vec![samples.to_vec()];
    loop_audio.push_resampled_chunk(&chunk, samples.len());
    loop_audio
}

#[test]
fn mixing_sums_each_sources_output() {
    // Each source alone into a zeroed buffer:
    let mut alone1 = vec![0i64; 3];
    loaded_source(&[10, 20, 30], VOLUME_UNIT).write_data_additive(&mut alone1);
    let mut alone2 = vec![0i64; 3];
    loaded_source(&[5, -5, 1], 2 * VOLUME_UNIT).write_data_additive(&mut alone2);

    // Both through the mixer into one zeroed buffer:
    let mut mixer = AudioMixer::new();
    mixer.add_source(loaded_source(&[10, 20, 30], VOLUME_UNIT));
    mixer.add_source(loaded_source(&[5, -5, 1], 2 * VOLUME_UNIT));
    let mut mixed = vec![0i64; 3];
    mixer.write_data(&mut mixed);

    let sums: Vec<i64> = alone1.iter().zip(alone2.iter()).map(|(a, b)| a + b).collect();
    assert_eq!(mixed, sums);
    assert_eq!(mixed, vec![20, 10, 32]);
}

#[test]
fn needs_refill_tracks_buffer_level() {
    let src = stereo_source();
    let mut loop_audio = ResampledLoopAudio::new(src, 48000, 2);
    assert!(loop_audio.needs_refill(1));
    let chunk = vec![vec![1, 1], vec![1, 1]];
    loop_audio.push_resampled_chunk(&chunk, 2);
    assert!(!loop_audio.needs_refill(4));
    assert!(loop_audio.needs_refill(5));
}
