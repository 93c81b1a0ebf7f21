use whis_core::chunker::{ChunkerConfig, ProgressiveChunker};
use whis_core::devices::{clean_device_name, is_virtual_device, list_audio_devices, RawInputDevice};
use whis_core::encoder::{create_encoder, encode_chunk, AudioChunk};
use whis_core::errors::AudioError;
use whis_core::mp3::decode_mp3_to_samples;
use whis_core::resample::resample_to_16k;
use whis_core::vad::{VadConfig, VadProcessor, VadState};

#[test]
fn test_resample_errors() {
    assert_eq!(resample_to_16k(&vec![], 16000, 1), Err(AudioError::EmptyInput));
    assert_eq!(resample_to_16k(&vec![1i16], 0, 1), Err(AudioError::ZeroRate));
    assert_eq!(resample_to_16k(&vec![1i16], 16000, 0), Err(AudioError::ZeroChannels));
}

#[test]
fn test_resample_identity_at_target_rate() {
    let samples: Vec<i16> = vec![5, -7, 123, -32768, 32767];
    let out = resample_to_16k(&samples, 16000, 1).unwrap();
    assert_eq!(out, samples);
}

#[test]
fn test_resample_averages_channels() {
    // One stereo frame: channels averaged (floor of the shifted mean).
    let out = resample_to_16k(&vec![100, 200], 16000, 2).unwrap();
    assert_eq!(out, vec![150]);

    let out = resample_to_16k(&vec![-100, -200], 16000, 2).unwrap();
    assert_eq!(out, vec![-150]);

    // Floor rounding: (1 + 2) / 2 = 1.
    let out = resample_to_16k(&vec![1, 2], 16000, 2).unwrap();
    assert_eq!(out, vec![1]);
}

#[test]
fn test_resample_output_length_scales() {
    // 32 kHz mono halves; 8 kHz mono doubles.
    let samples: Vec<i16> = (0..3200).map(|i| (i % 100) as i16).collect();
    let out = resample_to_16k(&samples, 32000, 1).unwrap();
    assert_eq!(out.len(), 1600);

    let out = resample_to_16k(&samples, 8000, 1).unwrap();
    assert_eq!(out.len(), 6400);

    // Every output sample is the input frame at i * rate / 16000.
    let out = resample_to_16k(&vec![10, 20, 30, 40], 32000, 1).unwrap();
    assert_eq!(out, vec![10, 30]);
}

#[test]
fn test_vad_disabled_is_passthrough() {
    let mut vad = VadProcessor::new(VadConfig::default());
    assert_eq!(vad.process_frame(0), VadState::Speech);
    assert_eq!(vad.process_frame(1000), VadState::Speech);
    assert_eq!(vad.process_frame(0), VadState::Speech);
}

#[test]
fn test_vad_requires_activation_run() {
    let config = VadConfig { enabled: true, threshold_permille: 500, activation_frames: 3 };
    let mut vad = VadProcessor::new(config);
    // Two loud frames are a short burst: still silence.
    assert_eq!(vad.process_frame(800), VadState::Silence);
    assert_eq!(vad.process_frame(800), VadState::Silence);
    // The third consecutive loud frame enters speech.
    assert_eq!(vad.process_frame(800), VadState::Speech);
    // Loud frames keep it there; one quiet frame returns to silence.
    assert_eq!(vad.process_frame(900), VadState::Speech);
    assert_eq!(vad.process_frame(100), VadState::Silence);
    // The run starts over after silence.
    assert_eq!(vad.process_frame(800), VadState::Silence);
}

#[test]
fn test_vad_threshold_is_strict() {
    let config = VadConfig { enabled: true, threshold_permille: 500, activation_frames: 1 };
    let mut vad = VadProcessor::new(config);
    // Exactly at the threshold does not count as loud.
    assert_eq!(vad.process_frame(500), VadState::Silence);
    assert_eq!(vad.process_frame(501), VadState::Speech);
}

#[test]
fn test_chunker_emits_ceil_of_duration() {
    // 20 samples per chunk, 10 of overlap.
    let config = ChunkerConfig { sample_rate: 10, chunk_duration_secs: 2, overlap_secs: 1 };
    let mut chunker = ProgressiveChunker::new(config);
    let stream: Vec<i16> = (0..50).map(|i| i as i16).collect();
    let mut chunks = chunker.push_samples(&stream);
    let last = chunker.flush();
    assert_eq!(chunks.len(), 2);
    chunks.extend(last);
    // ceil(50 / 20) = 3 chunks in all.
    assert_eq!(chunks.len(), 3);

    assert_eq!(chunks[0].index, 0);
    assert!(!chunks[0].has_leading_overlap);
    assert_eq!(chunks[0].samples, (0..20).map(|i| i as i16).collect::<Vec<i16>>());

    assert_eq!(chunks[1].index, 1);
    assert!(chunks[1].has_leading_overlap);
    // Chunk 1 reaches 10 samples back into chunk 0's region.
    assert_eq!(chunks[1].samples, (10..40).map(|i| i as i16).collect::<Vec<i16>>());

    assert_eq!(chunks[2].index, 2);
    assert!(chunks[2].has_leading_overlap);
    // The flushed remainder: overlap plus the 10 pending samples.
    assert_eq!(chunks[2].samples, (30..50).map(|i| i as i16).collect::<Vec<i16>>());
}

#[test]
fn test_chunker_180s_recording_gives_two_chunks() {
    // A 180-second recording at 16 kHz with 90-second chunks.
    let config = ChunkerConfig::default();
    let mut chunker = ProgressiveChunker::new(config);
    let half: Vec<i16> = vec![7; 90 * 16000];
    let mut total = 0;
    total += chunker.push_samples(&half).len();
    total += chunker.push_samples(&half).len();
    if chunker.flush().is_some() {
        total += 1;
    }
    assert_eq!(total, 2);
}

#[test]
fn test_chunker_flush_empty_stream() {
    let mut chunker = ProgressiveChunker::new(ChunkerConfig::default());
    assert!(chunker.flush().is_none());
}

#[test]
fn test_encoder_roundtrips_through_decoder() {
    // One second of a 160 Hz square wave at 16 kHz.
    let samples: Vec<i16> = (0..16000)
        .map(|i| if (i / 50) % 2 == 0 { 8000 } else { -8000 })
        .collect();
    let encoder = create_encoder();
    let bytes = encoder.encode(&samples).unwrap();
    assert!(!bytes.is_empty());
    // A compressed second of audio is far smaller than its 32000 raw bytes.
    assert!(bytes.len() < 16000);
    // The stream decodes back to mono 16 kHz audio.
    let (decoded, sample_rate, channels) = decode_mp3_to_samples(&bytes).unwrap();
    assert!(!decoded.is_empty());
    assert_eq!(sample_rate, 16000);
    assert_eq!(channels, 1);
}

#[test]
fn test_encoder_rejects_empty() {
    let encoder = create_encoder();
    assert_eq!(encoder.encode(&vec![]), Err(AudioError::EmptyInput));
}

#[test]
fn test_encode_chunk_keeps_index_and_flag() {
    let encoder = create_encoder();
    let mut chunker = ProgressiveChunker::new(ChunkerConfig {
        sample_rate: 10,
        chunk_duration_secs: 1,
        overlap_secs: 0,
    });
    let chunks = chunker.push_samples(&(0..20).map(|i| i as i16).collect::<Vec<i16>>());
    assert_eq!(chunks.len(), 2);
    let encoded: AudioChunk = encode_chunk(&encoder, &chunks[1]).unwrap();
    assert_eq!(encoded.index, 1);
    assert!(encoded.has_leading_overlap);
    assert!(!encoded.data.is_empty());
}

#[test]
fn test_mp3_garbage_is_decode_error() {
    let garbage: Vec<u8> = vec![0, 1, 2, 3, 4, 5, 6, 7];
    assert!(matches!(
        decode_mp3_to_samples(&garbage),
        Err(AudioError::DecodeFailed)
    ));
}

#[test]
fn test_virtual_device_filter() {
    assert!(is_virtual_device("Discard all samples (playback) Null Output"));
    assert!(is_virtual_device("Monitor of Built-in Audio Output"));
    assert!(is_virtual_device("PipeWire Sound Server"));
    assert!(!is_virtual_device("Blue Yeti Microphone"));
}

#[test]
fn test_clean_device_name_strips_suffixes() {
    assert_eq!(
        clean_device_name("Built-in Audio Analog Stereo"),
        "Built-in Audio"
    );
    assert_eq!(
        clean_device_name("Webcam C920 (currently PulseAudio)"),
        "Webcam C920"
    );
    assert_eq!(clean_device_name("Mic, "), "Mic");
    // A name that strips to nothing falls back to the original.
    assert_eq!(clean_device_name(" Stereo"), " Stereo");
}

#[test]
fn test_list_audio_devices_filters_and_cleans() {
    let raw = vec![
        RawInputDevice { name: "Null Output".to_string(), is_default: false },
        RawInputDevice { name: "USB Mic Analog Stereo".to_string(), is_default: true },
    ];
    let devices = list_audio_devices(&raw).unwrap();
    assert_eq!(devices.len(), 1);
    assert_eq!(devices[0].name, "USB Mic Analog Stereo");
    assert_eq!(devices[0].display_name.as_deref(), Some("USB Mic"));
    assert!(devices[0].is_default);
    assert!(!devices[0].is_monitor);
}

#[test]
fn test_list_audio_devices_empty_is_error() {
    let raw = vec![RawInputDevice { name: "Null Output".to_string(), is_default: false }];
    assert_eq!(list_audio_devices(&raw), Err(AudioError::NoDevices));
}
