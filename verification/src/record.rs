//! The stereo capture path: splitting interleaved stereo frames.

use vstd::prelude::*;

use crate::audio::microphone::{extracted, frames_hold, split_channels};

verus! {

/// Splits interleaved samples of at least two channels into one buffer per
/// channel, of which channels 0 and 1 are filled. Unless there are no
/// samples, there must be two channels or more and every frame must hold at
/// least two samples.
pub fn extract_channels<T: Copy>(data: &[T], channels: usize) -> (out: Vec<Vec<T>>)
    requires
        channels >= 1,
        data@.len() > 0 ==> channels >= 2 && frames_hold(data@.len() as int, channels as int, 2),
    ensures
        out@.len() == channels,
        forall|c: int|
            0 <= c < channels ==> (#[trigger] out@[c])@ == extracted(data@, channels as int, 2)[c],
{
    if channels >= 2 {
        split_channels(data, channels, 2)
    } else {
        let out = split_channels(data, channels, 1);
        assert(extracted(data@, 1, 1)[0] == extracted(data@, 1, 2)[0]);
        out
    }
}

} // verus!
