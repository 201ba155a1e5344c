//! Decoded sample windows: asking, keeping and forgetting.

use std::sync::Arc;

use audio_tools::samples::{
    decode_count, forget_asset, get_window, needs_reopen, note_needed, settle_request, window_of,
    DecodedFrame, Registry, SampleWindow, WindowKey, MAX_RESIDENT,
};

fn window(start_frame: u64, len: usize) -> SampleWindow<f32> {
    let values: Vec<f32> = (0..len).map(|i| i as f32 * 0.5).collect();
    SampleWindow {
        start_frame,
        mono: Arc::new(values.clone()),
        left: Arc::new(values.clone()),
        right: Arc::new(values),
    }
}

fn key(cache_key: &str, start_frame: u64, frame_count: u32) -> WindowKey {
    WindowKey { cache_key: cache_key.to_string(), start_frame, frame_count }
}

#[test]
fn requests_start_aligned_and_stay_bounded() {
    let mut registry: Registry<f32> = Registry::new();
    let request = note_needed(&mut registry, "kick", "/kick.wav", 300, 1_000, 48_000).unwrap();
    assert_eq!(request.path, "/kick.wav");
    assert_eq!(request.key.cache_key, "kick");
    assert_eq!(request.key.start_frame, 256);
    assert_eq!(request.key.frame_count, 744);
    let request = note_needed(&mut registry, "kick", "/kick.wav", 0, 40_000, 48_000).unwrap();
    assert_eq!((request.key.start_frame, request.key.frame_count), (0, 8_192));
    let request = note_needed(&mut registry, "kick", "/kick.wav", 47_999, 60_000, 48_000).unwrap();
    assert_eq!((request.key.start_frame, request.key.frame_count), (47_872, 128));
    let request = note_needed(&mut registry, "kick", "/kick.wav", 50_000, 60_000, 48_000).unwrap();
    assert_eq!((request.key.start_frame, request.key.frame_count), (49_920, 1));
}

#[test]
fn nothing_is_asked_for_without_a_source() {
    let mut registry: Registry<f32> = Registry::new();
    assert!(note_needed(&mut registry, "kick", "", 0, 10, 100).is_none());
    assert!(note_needed(&mut registry, "kick", " \t\u{a0}\u{2003}\n", 0, 10, 100).is_none());
    assert!(note_needed(&mut registry, "kick", "/kick.wav", 0, 10, 0).is_none());
    assert!(note_needed(&mut registry, "kick", "/kick.wav", 10, 10, 100).is_none());
    assert!(note_needed(&mut registry, "kick", " k ", 0, 10, 100).is_some());
}

#[test]
fn a_path_of_white_space_names_no_source() {
    for ch in '\0'..='\u{3100}' {
        let white = matches!(
            ch,
            '\u{9}'..='\u{d}'
                | ' '
                | '\u{85}'
                | '\u{a0}'
                | '\u{1680}'
                | '\u{2000}'..='\u{200a}'
                | '\u{2028}'
                | '\u{2029}'
                | '\u{202f}'
                | '\u{205f}'
                | '\u{3000}'
        );
        let mut registry: Registry<f32> = Registry::new();
        let request = note_needed(&mut registry, "kick", &ch.to_string(), 0, 10, 100);
        assert_eq!(request.is_none(), white);
    }
}

#[test]
fn a_window_is_asked_for_once_until_it_is_forgotten() {
    let mut registry: Registry<f32> = Registry::new();
    let request = note_needed(&mut registry, "kick", "/kick.wav", 0, 100, 1_000).unwrap();
    assert!(note_needed(&mut registry, "kick", "/kick.wav", 0, 100, 1_000).is_none());
    registry.forget(&request.key);
    assert!(note_needed(&mut registry, "kick", "/kick.wav", 0, 100, 1_000).is_some());
    assert!(note_needed(&mut registry, "snare", "/kick.wav", 0, 100, 1_000).is_some());
}

#[test]
fn a_decoded_window_answers_its_look_up() {
    let mut registry: Registry<f32> = Registry::new();
    assert!(get_window(&registry, "kick", 300, 400).is_none());
    let request = note_needed(&mut registry, "kick", "/kick.wav", 300, 400, 1_000).unwrap();
    assert!(get_window(&registry, "kick", 300, 400).is_none());
    settle_request(&mut registry, request.key, Some(window(256, 144)));
    let found = get_window(&registry, "kick", 300, 400).unwrap();
    assert_eq!(found.start_frame, 256);
    assert_eq!(found.mono.len(), 144);
    assert_eq!(found.left[3], 1.5);
    assert!(get_window(&registry, "snare", 300, 400).is_none());
    assert!(get_window(&registry, "kick", 0, 10).is_none());
}

#[test]
fn a_failed_request_is_taken_back() {
    let mut registry: Registry<f32> = Registry::new();
    let request = note_needed(&mut registry, "kick", "/kick.wav", 0, 100, 1_000).unwrap();
    settle_request(&mut registry, request.key, None);
    assert!(note_needed(&mut registry, "kick", "/kick.wav", 0, 100, 1_000).is_some());
}

#[test]
fn the_oldest_window_leaves_when_there_are_too_many() {
    let mut registry: Registry<f32> = Registry::new();
    for i in 0..MAX_RESIDENT as u64 {
        registry.install(key("kick", i * 256, 256), window(i * 256, 1));
    }
    assert!(get_window(&registry, "kick", 0, 1).is_some());
    registry.install(key("snare", 0, 256), window(0, 1));
    assert!(get_window(&registry, "kick", 0, 1).is_none());
    assert!(get_window(&registry, "kick", 256, 257).is_some());
    assert!(get_window(&registry, "snare", 0, 1).is_some());
}

#[test]
fn a_window_queued_again_at_the_front_of_a_full_queue_leaves() {
    let mut registry: Registry<f32> = Registry::new();
    for i in 0..MAX_RESIDENT as u64 {
        registry.install(key("kick", i * 256, 256), window(i * 256, 1));
    }
    registry.install(key("kick", 0, 256), window(0, 1));
    assert!(get_window(&registry, "kick", 0, 1).is_none());
}

#[test]
fn forgetting_an_asset_spares_the_others() {
    let mut registry: Registry<f32> = Registry::new();
    registry.install(key("kick", 0, 256), window(0, 256));
    registry.install(key("kick", 256, 256), window(256, 256));
    registry.install(key("snare", 0, 256), window(0, 256));
    forget_asset(&mut registry, "kick");
    assert!(get_window(&registry, "kick", 0, 1).is_none());
    assert!(get_window(&registry, "kick", 256, 257).is_none());
    assert!(get_window(&registry, "snare", 0, 1).is_some());
}

#[test]
fn decoding_stays_inside_the_source() {
    assert_eq!(decode_count(1_000, 0, 256), Some(256));
    assert_eq!(decode_count(1_000, 900, 256), Some(100));
    assert_eq!(decode_count(1_000, 1_000, 256), None);
    assert_eq!(decode_count(1_000, 0, 0), None);
    assert_eq!(decode_count(100_000, 0, 100_000), Some(8_192));
}

#[test]
fn decoded_frames_become_a_window() {
    let frames = vec![
        DecodedFrame { left: 1.0_f32, right: 0.0, mono: 0.5 },
        DecodedFrame { left: -1.0, right: 1.0, mono: 0.0 },
    ];
    let window = window_of(512, &frames);
    assert_eq!(window.start_frame, 512);
    assert_eq!(*window.left, vec![1.0, -1.0]);
    assert_eq!(*window.right, vec![0.0, 1.0]);
    assert_eq!(*window.mono, vec![0.5, 0.0]);
}

#[test]
fn the_worker_reopens_only_for_another_file() {
    assert!(needs_reopen(&None, "/a.wav"));
    assert!(!needs_reopen(&Some("/a.wav".to_string()), "/a.wav"));
    assert!(needs_reopen(&Some("/a.wav".to_string()), "/b.wav"));
}
