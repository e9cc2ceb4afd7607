use voicelink::audio::encode::{
    channel_layout, frame_ready, voice_payload, ChannelLayout, FRAME_SIZE, SAMPLE_RATE,
};
use voicelink::audio::microphone::{extract_channels, reverse_extract_channels_2, take_block};
use voicelink::connect::test_auth_packet;
use voicelink::record;
use voicelink::util::random_string;

#[test]
fn constants() {
    assert_eq!(SAMPLE_RATE, 48000);
    assert_eq!(FRAME_SIZE, 960);
}

#[test]
fn layouts() {
    assert_eq!(channel_layout(1), Some(ChannelLayout::Mono));
    assert_eq!(channel_layout(2), Some(ChannelLayout::Stereo));
    assert_eq!(channel_layout(0), None);
    assert_eq!(channel_layout(3), None);
}

#[test]
fn frames() {
    assert!(!frame_ready(959, 1));
    assert!(frame_ready(960, 1));
    assert!(!frame_ready(1919, 2));
    assert!(frame_ready(1920, 2));
    assert!(frame_ready(0, 0));
}

#[test]
fn voice_payload_tag() {
    assert_eq!(voice_payload(vec![1, 2]), vec![b'v', b':', 1, 2]);
}

#[test]
fn extract_stereo() {
    let data = [1.0f32, 2.0, 3.0, 4.0, 5.0, 6.0];
    let out = extract_channels(&data, 2);
    assert_eq!(out, vec![vec![1.0, 3.0, 5.0], vec![2.0, 4.0, 6.0]]);
}

#[test]
fn extract_mono() {
    let out = extract_channels(&[1u8, 2, 3], 1);
    assert_eq!(out, vec![vec![1, 2, 3]]);
}

#[test]
fn extract_three_channels_fills_first_only() {
    let out = extract_channels(&[1u8, 2, 3, 4, 5, 6, 7], 3);
    assert_eq!(out, vec![vec![1, 4, 7], vec![], vec![]]);
}

#[test]
fn extract_empty() {
    let out: Vec<Vec<u8>> = extract_channels(&[], 2);
    assert_eq!(out, vec![Vec::<u8>::new(), Vec::new()]);
}

#[test]
fn record_extract_fills_two() {
    let out = record::extract_channels(&[1u8, 2, 3, 4, 5, 6, 7, 8], 4);
    assert_eq!(out, vec![vec![1, 5], vec![2, 6], vec![], vec![]]);
    let out = record::extract_channels(&[1u8, 2, 3, 4, 5], 3);
    assert_eq!(out, vec![vec![1, 4], vec![2, 5], vec![]]);
    let out: Vec<Vec<u8>> = record::extract_channels(&[], 1);
    assert_eq!(out, vec![Vec::<u8>::new()]);
}

#[test]
fn interleave() {
    let out = reverse_extract_channels_2(&[vec![1u8, 3, 5], vec![2, 4, 6]]);
    assert_eq!(out, vec![1, 2, 3, 4, 5, 6]);
    // Longer channels are cut to the length of channel 0.
    let out = reverse_extract_channels_2(&[vec![1u8], vec![2, 9]]);
    assert_eq!(out, vec![1, 2]);
    let out = reverse_extract_channels_2(&[Vec::<u8>::new()]);
    assert!(out.is_empty());
}

#[test]
fn interleave_undoes_extract() {
    let data: Vec<f32> = (0..20).map(|i| i as f32 * 0.5).collect();
    for channels in [1usize, 2] {
        let split = extract_channels(&data, channels);
        assert_eq!(reverse_extract_channels_2(&split), data);
    }
}

#[test]
fn blocks() {
    let mut buffer = vec![1, 2, 3, 4, 5];
    assert_eq!(take_block(&mut buffer, 2), Some(vec![1, 2]));
    assert_eq!(buffer, vec![3, 4, 5]);
    assert_eq!(take_block(&mut buffer, 3), None);
    assert_eq!(buffer, vec![3, 4, 5]);
    assert_eq!(take_block(&mut buffer, 0), Some(vec![]));
    assert_eq!(buffer, vec![3, 4, 5]);
}

#[test]
fn random_strings() {
    let s = random_string(16);
    assert_eq!(s.chars().count(), 16);
    assert!(s.chars().all(|c| c.is_ascii_alphanumeric()));
    assert_eq!(random_string(0), "");
}

#[test]
fn test_auth_packet_json() {
    let packet = test_auth_packet("7".to_string());
    assert_eq!(
        String::from_utf8(packet).unwrap(),
        "c:{\"id\":\"7\",\"session\":\"7\",\"tag\":\"test\",\"username\":\"tester 7\"}:"
    );
    let packet = test_auth_packet("a\"b".to_string());
    assert_eq!(
        String::from_utf8(packet).unwrap(),
        "c:{\"id\":\"a\\\"b\",\"session\":\"a\\\"b\",\"tag\":\"test\",\"username\":\"tester a\\\"b\"}:"
    );
}

#[test]
fn extract_undoes_interleave() {
    let stereo = vec![vec![1.5f32, 2.5, 3.5], vec![-1.0, -2.0, -3.0]];
    let data = reverse_extract_channels_2(&stereo);
    assert_eq!(extract_channels(&data, 2), stereo);
    let mono = vec![vec![7u8, 8, 9]];
    assert_eq!(extract_channels(&reverse_extract_channels_2(&mono), 1), mono);
}

#[test]
fn repeated_blocks_are_consecutive() {
    let original: Vec<u32> = (0..10).collect();
    let mut buffer = original.clone();
    let lengths = [3usize, 2, 4, 3];
    let mut blocks = Vec::new();
    let mut taken = 0;
    for &m in &lengths {
        match take_block(&mut buffer, m) {
            Some(b) => {
                assert_eq!(b.len(), m);
                blocks.push(b);
                taken += 1;
            }
            None => break,
        }
    }
    // Blocks of 3, 2 and 4 leave one sample, no more than the next length.
    assert_eq!(taken, 3);
    assert!(buffer.len() <= lengths[taken]);
    let mut joined: Vec<u32> = blocks.concat();
    joined.extend_from_slice(&buffer);
    assert_eq!(joined, original);
    assert_eq!(blocks, vec![vec![0, 1, 2], vec![3, 4], vec![5, 6, 7, 8]]);
}
