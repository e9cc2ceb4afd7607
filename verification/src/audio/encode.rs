//! Constants and decisions of the encoding thread.

use vstd::prelude::*;

use crate::connection::auth::{tag_body, tagged};

verus! {

/// The sample rate of encoded audio, in Hz.
pub const SAMPLE_RATE: u32 = 48000;

/// The samples per channel in one encoded frame (20 ms at 48 kHz).
pub const FRAME_SIZE: usize = 960;

/// The channel layouts the encoder supports.
#[derive(Debug, Clone, Copy, PartialEq, Eq, Structural)]
pub enum ChannelLayout {
    Mono,
    Stereo,
}

/// The layout for a channel count: one channel is mono, two are stereo, and
/// no other count is supported.
pub fn channel_layout(channels: usize) -> (layout: Option<ChannelLayout>)
    ensures
        channels == 1 ==> layout == Some(ChannelLayout::Mono),
        channels == 2 ==> layout == Some(ChannelLayout::Stereo),
        channels != 1 && channels != 2 ==> layout is None,
{
    if channels == 1 {
        Some(ChannelLayout::Mono)
    } else if channels == 2 {
        Some(ChannelLayout::Stereo)
    } else {
        None
    }
}

/// Whether a buffer of `samples_len` interleaved samples holds a whole frame
/// for `channels` channels; shorter buffers are skipped.
pub fn frame_ready(samples_len: usize, channels: usize) -> (ready: bool)
    requires
        FRAME_SIZE * channels <= usize::MAX,
    ensures
        ready == (samples_len >= FRAME_SIZE * channels),
{
    samples_len >= FRAME_SIZE * channels
}

/// The tag of voice packets, `v`.
pub open spec fn voice_tag() -> u8 {
    118u8
}

/// The plaintext of a voice packet: `v:` followed by the encoded frame.
pub fn voice_payload(encoded: Vec<u8>) -> (payload: Vec<u8>)
    ensures
        payload@ == tagged(voice_tag(), encoded@),
        payload@ == seq![118u8, 58u8] + encoded@,
{
    tag_body(118u8, encoded)
}

} // verus!
