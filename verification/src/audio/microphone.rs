//! Buffer handling of the microphone path: cutting the captured samples into
//! blocks for the resampler, splitting interleaved frames into channels, and
//! interleaving the resampled channels again.
//!
//! The functions are generic over the sample type; the audio path uses them
//! with floating-point samples.

use vstd::prelude::*;

verus! {

/// The number of frames (chunks of `channels` samples, the last one possibly
/// shorter) in `len` interleaved samples.
pub open spec fn frame_count(len: int, channels: int) -> int {
    (len + channels - 1) / channels
}

/// Channel `c` of interleaved samples: sample `c` of every frame.
pub open spec fn channel_of<T>(data: Seq<T>, channels: int, c: int) -> Seq<T> {
    Seq::new(frame_count(data.len() as int, channels) as nat, |k: int| data[k * channels + c])
}

/// `channels` channel buffers of which the first `filled` hold their channel
/// of `data` and the others stay empty.
pub open spec fn extracted<T>(data: Seq<T>, channels: int, filled: int) -> Seq<Seq<T>> {
    Seq::new(
        channels as nat,
        |c: int|
            if c < filled {
                channel_of(data, channels, c)
            } else {
                Seq::<T>::empty()
            },
    )
}

/// Every frame of `len` interleaved samples holds at least `filled` samples.
pub open spec fn frames_hold(len: int, channels: int, filled: int) -> bool {
    len % channels == 0 || len % channels >= filled
}

/// Frame `i` of interleaved output, for `channels` channels, holds sample `i`
/// of every channel: position `p` holds sample `p / channels` of channel
/// `p % channels`.
pub open spec fn interleaved<T>(channels_data: Seq<Seq<T>>, frames: int) -> Seq<T> {
    let channels = channels_data.len() as int;
    Seq::new(
        (frames * channels) as nat,
        |p: int| channels_data[p % channels][p / channels],
    )
}

proof fn lemma_frame_count(len: int, channels: int, n: int)
    by (nonlinear_arith)
    requires
        channels > 0,
        n >= 0,
        n * channels - channels < len <= n * channels,
    ensures
        frame_count(len, channels) == n,
{
}

proof fn lemma_frame_room(len: int, channels: int, n: int, q: int, r: int, filled: int)
    by (nonlinear_arith)
    requires
        channels >= filled >= 1,
        n >= 0,
        q >= 0,
        len == q * channels + r,
        0 <= r < channels,
        n * channels < len,
        r == 0 || r >= filled,
    ensures
        n * channels + filled <= len,
{
}

proof fn lemma_frame_count_bounds(len: int, channels: int)
    requires
        channels > 0,
        len >= 0,
    ensures
        frame_count(len, channels) >= 0,
        frame_count(len, channels) * channels >= len,
        frame_count(len, channels) == 0 || (frame_count(len, channels) - 1) * channels < len,
{
    let n = frame_count(len, channels);
    vstd::arithmetic::div_mod::lemma_fundamental_div_mod(len + channels - 1, channels);
    let r = (len + channels - 1) % channels;
    assert(n >= 0 && n * channels >= len && (n == 0 || (n - 1) * channels < len)) by (nonlinear_arith)
        requires
            len + channels - 1 == channels * n + r,
            0 <= r < channels,
            len >= 0,
            channels > 0,
    ;
}

/// What splitting gives, element by element: `channels` buffers; each filled
/// one holds as many samples as there are frames (the fewest frames of
/// `channels` samples that cover the data), sample `k` of channel `c` being
/// `data[k * channels + c]`; the others are empty.
pub proof fn lemma_extracted_layout<T>(data: Seq<T>, channels: int, filled: int)
    requires
        channels > 0,
        0 <= filled <= channels,
    ensures
        extracted(data, channels, filled).len() == channels,
        forall|c: int|
            0 <= c < filled ==> {
                let ch = #[trigger] extracted(data, channels, filled)[c];
                &&& ch.len() * channels >= data.len()
                &&& (ch.len() == 0 || (ch.len() - 1) * channels < data.len())
                &&& forall|k: int| 0 <= k < ch.len() ==> #[trigger] ch[k] == data[k * channels + c]
            },
        forall|c: int|
            filled <= c < channels ==> (#[trigger] extracted(data, channels, filled)[c]).len() == 0,
{
    lemma_frame_count_bounds(data.len() as int, channels);
}

/// What interleaving gives, element by element: `frames` frames of one
/// sample per channel, position `i * channels + j` holding sample `i` of
/// channel `j`.
pub proof fn lemma_interleaved_layout<T>(channels_data: Seq<Seq<T>>, frames: int)
    requires
        channels_data.len() > 0,
        frames >= 0,
    ensures
        interleaved(channels_data, frames).len() == frames * channels_data.len(),
        forall|i: int, j: int|
            0 <= i < frames && 0 <= j < channels_data.len() ==> #[trigger] interleaved(
                channels_data,
                frames,
            )[i * channels_data.len() + j] == channels_data[j][i],
{
    let m = channels_data.len() as int;
    assert(frames * m >= 0) by (nonlinear_arith)
        requires
            frames >= 0,
            m > 0,
    ;
    assert forall|i: int, j: int| 0 <= i < frames && 0 <= j < m implies #[trigger] interleaved(
        channels_data,
        frames,
    )[i * m + j] == channels_data[j][i] by {
        assert(0 <= i * m + j < frames * m) by (nonlinear_arith)
            requires
                0 <= i < frames,
                0 <= j < m,
        ;
        vstd::arithmetic::div_mod::lemma_fundamental_div_mod_converse(i * m + j, m, i, j);
    }
}

/// Splits interleaved samples into `channels` channel buffers, filling the
/// first `filled` (one or two) and leaving the rest empty.
pub(crate) fn split_channels<T: Copy>(data: &[T], channels: usize, filled: usize) -> (out: Vec<Vec<T>>)
    requires
        1 <= filled <= 2,
        filled <= channels,
        frames_hold(data@.len() as int, channels as int, filled as int),
    ensures
        out@.len() == channels,
        forall|c: int|
            0 <= c < channels ==> (#[trigger] out@[c])@ == extracted(
                data@,
                channels as int,
                filled as int,
            )[c],
{
    let len = data.len();
    let ghost c = channels as int;
    let mut first: Vec<T> = Vec::new();
    let mut second: Vec<T> = Vec::new();
    let mut i: usize = 0;
    let mut done = len == 0;
    proof {
        if done {
            lemma_frame_count(0, c, 0);
        }
        vstd::arithmetic::div_mod::lemma_fundamental_div_mod(len as int, c);
        assert(0 * c == 0);
    }
    while !done
        invariant
            len == data@.len(),
            1 <= filled <= 2,
            filled <= channels,
            frames_hold(len as int, c, filled as int),
            c == channels,
            len == c * (len as int / c) + (len as int % c),
            0 <= len as int % c < c,
            !done ==> i < len && i == first@.len() * c,
            done ==> first@.len() == frame_count(len as int, c),
            forall|k: int| 0 <= k < first@.len() ==> #[trigger] first@[k] == data@[k * c],
            filled == 2 ==> second@.len() == first@.len(),
            filled == 2 ==> forall|k: int|
                0 <= k < second@.len() ==> #[trigger] second@[k] == data@[k * c + 1],
            filled == 1 ==> second@.len() == 0,
        decreases len - i + (if done { 0int } else { 1int }),
    {
        let ghost n = first@.len() as int;
        let ghost old_first = first@;
        proof {
            lemma_frame_room(len as int, c, n, len as int / c, len as int % c, filled as int);
        }
        first.push(data[i]);
        assert forall|k: int| 0 <= k < first@.len() implies #[trigger] first@[k] == data@[k * c] by {
            if k < n {
                assert(first@[k] == old_first[k]);
            }
        }
        if filled == 2 {
            second.push(data[i + 1]);
            assert(second@[n] == data@[n * c + 1]);
        }
        assert((n + 1) * c == n * c + c) by (nonlinear_arith);
        if len - i <= channels {
            done = true;
            proof {
                lemma_frame_count(len as int, c, n + 1);
            }
        } else {
            i = i + channels;
            assert(i == (n + 1) * c) by (nonlinear_arith)
                requires
                    i == n * c + c,
            ;
        }
    }
    let ghost first_view = first@;
    let ghost second_view = second@;
    let mut out: Vec<Vec<T>> = Vec::new();
    out.push(first);
    if filled == 2 {
        out.push(second);
    }
    while out.len() < channels
        invariant
            1 <= filled <= out@.len() <= channels,
            c == channels,
            out@[0]@ == first_view,
            filled == 2 ==> out@[1]@ == second_view,
            forall|j: int| filled <= j < out@.len() ==> (#[trigger] out@[j])@ == Seq::<T>::empty(),
        decreases channels - out.len(),
    {
        let ghost before = out@;
        out.push(Vec::new());
        assert(out@[0] == before[0]);
        assert(filled == 2 ==> out@[1] == before[1]);
    }
    proof {
        let ghost ex = extracted(data@, c, filled as int);
        assert forall|j: int| 0 <= j < channels implies (#[trigger] out@[j])@ == ex[j] by {
            if j == 0 {
                assert(out@[0]@ =~= channel_of(data@, c, 0));
            } else if j == 1 && filled == 2 {
                assert(out@[1]@ =~= channel_of(data@, c, 1));
            }
        }
    }
    out
}

/// Splits interleaved mono or stereo samples into channel buffers: one buffer
/// per channel, of which channel 0 and, for stereo, channel 1 are filled.
pub fn extract_channels<T: Copy>(data: &[T], channels: usize) -> (out: Vec<Vec<T>>)
    requires
        channels >= 1,
        channels == 2 ==> data@.len() % 2 == 0,
    ensures
        out@.len() == channels,
        forall|c: int|
            0 <= c < channels ==> (#[trigger] out@[c])@ == extracted(
                data@,
                channels as int,
                if channels == 2 {
                    2int
                } else {
                    1int
                },
            )[c],
{
    let filled: usize = if channels == 2 {
        2
    } else {
        1
    };
    split_channels(data, channels, filled)
}

/// Interleaves channel buffers: for every sample index of channel 0, one
/// sample of every channel in turn.
pub fn reverse_extract_channels_2<T: Copy>(channels_data: &[Vec<T>]) -> (out: Vec<T>)
    requires
        channels_data@.len() >= 1,
        forall|j: int|
            0 <= j < channels_data@.len() ==> (#[trigger] channels_data@[j])@.len()
                >= channels_data@[0]@.len(),
        channels_data@[0]@.len() * channels_data@.len() <= usize::MAX,
    ensures
        out@ == interleaved(
            channels_data@.map_values(|v: Vec<T>| v@),
            channels_data@[0]@.len() as int,
        ),
{
    let channel_size = channels_data.len();
    let num_samples = channels_data[0].len();
    let ghost m = channel_size as int;
    let ghost views = channels_data@.map_values(|v: Vec<T>| v@);
    let mut out: Vec<T> = Vec::new();
    let mut i: usize = 0;
    while i < num_samples
        invariant
            channel_size == channels_data@.len(),
            m == channel_size,
            m >= 1,
            num_samples == channels_data@[0]@.len(),
            views == channels_data@.map_values(|v: Vec<T>| v@),
            forall|j: int|
                0 <= j < channels_data@.len() ==> (#[trigger] channels_data@[j])@.len()
                    >= num_samples,
            i <= num_samples,
            out@.len() == i * m,
            forall|p: int| 0 <= p < out@.len() ==> #[trigger] out@[p] == views[p % m][p / m],
        decreases num_samples - i,
    {
        let mut j: usize = 0;
        while j < channel_size
            invariant
                channel_size == channels_data@.len(),
                m == channel_size,
                m >= 1,
                num_samples == channels_data@[0]@.len(),
                views == channels_data@.map_values(|v: Vec<T>| v@),
                forall|j2: int|
                    0 <= j2 < channels_data@.len() ==> (#[trigger] channels_data@[j2])@.len()
                        >= num_samples,
                i < num_samples,
                j <= channel_size,
                out@.len() == i * m + j,
                forall|p: int| 0 <= p < out@.len() ==> #[trigger] out@[p] == views[p % m][p / m],
            decreases channel_size - j,
        {
            let ghost p = out@.len() as int;
            proof {
                vstd::arithmetic::div_mod::lemma_fundamental_div_mod_converse(
                    p,
                    m,
                    i as int,
                    j as int,
                );
            }
            let sample = channels_data[j][i];
            out.push(sample);
            j = j + 1;
        }
        assert(out@.len() == (i + 1) * m) by (nonlinear_arith)
            requires
                out@.len() == i * m + m,
        ;
        i = i + 1;
    }
    assert(out@ =~= interleaved(views, num_samples as int));
    out
}

/// Interleaving the channels of mono or stereo samples gives the samples back.
pub proof fn lemma_interleave_undoes_extract<T>(data: Seq<T>, channels: int)
    requires
        channels == 1 || channels == 2,
        data.len() as int % channels == 0,
    ensures
        interleaved(extracted(data, channels, channels), frame_count(data.len() as int, channels))
            == data,
{
    let ex = extracted(data, channels, channels);
    let n = frame_count(data.len() as int, channels);
    vstd::arithmetic::div_mod::lemma_fundamental_div_mod(data.len() as int, channels);
    lemma_frame_count(data.len() as int, channels, data.len() as int / channels);
    assert(n * channels == data.len()) by (nonlinear_arith)
        requires
            n == data.len() as int / channels,
            data.len() == channels * (data.len() as int / channels),
    ;
    let il = interleaved(ex, n);
    assert forall|p: int| 0 <= p < data.len() implies #[trigger] il[p] == data[p] by {
        vstd::arithmetic::div_mod::lemma_fundamental_div_mod(p, channels);
        let k = p / channels;
        let c = p % channels;
        assert(0 <= k < n) by (nonlinear_arith)
            requires
                p == channels * k + c,
                0 <= c < channels,
                0 <= p < n * channels,
                channels > 0,
        ;
        assert(k * channels + c == p) by (nonlinear_arith)
            requires
                p == channels * k + c,
        ;
    }
    assert(il =~= data);
}

/// Splitting interleaved mono or stereo samples gives the channels back, when
/// the channels have one length.
pub proof fn lemma_extract_undoes_interleave<T>(channels_data: Seq<Seq<T>>, frames: int)
    requires
        channels_data.len() == 1 || channels_data.len() == 2,
        frames >= 0,
        forall|j: int| 0 <= j < channels_data.len() ==> (#[trigger] channels_data[j]).len() == frames,
    ensures
        extracted(
            interleaved(channels_data, frames),
            channels_data.len() as int,
            channels_data.len() as int,
        ) == channels_data,
{
    let m = channels_data.len() as int;
    let data = interleaved(channels_data, frames);
    assert(data.len() == frames * m);
    lemma_frame_count(frames * m, m, frames);
    let ex = extracted(data, m, m);
    assert forall|c: int| 0 <= c < m implies #[trigger] ex[c] == channels_data[c] by {
        let ch = channel_of(data, m, c);
        assert forall|k: int| 0 <= k < frames implies #[trigger] ch[k] == channels_data[c][k] by {
            assert(0 <= k * m + c < frames * m) by (nonlinear_arith)
                requires
                    0 <= k < frames,
                    0 <= c < m,
            ;
            vstd::arithmetic::div_mod::lemma_fundamental_div_mod_converse(k * m + c, m, k, c);
        }
        assert(ch =~= channels_data[c]);
    }
    assert(ex =~= channels_data);
}

/// Takes the first `max_length` samples out of `buffer` when it holds more
/// than that; otherwise leaves it as it is.
pub fn take_block<T>(buffer: &mut Vec<T>, max_length: usize) -> (block: Option<Vec<T>>)
    ensures
        old(buffer)@.len() > max_length ==> (block matches Some(b) && b@ == old(buffer)@.take(
            max_length as int,
        ) && final(buffer)@ == old(buffer)@.skip(max_length as int)),
        old(buffer)@.len() <= max_length ==> block is None && final(buffer)@ == old(buffer)@,
        drain_blocks(old(buffer)@, seq![max_length as int]).1 == final(buffer)@,
        block is None ==> drain_blocks(old(buffer)@, seq![max_length as int]).0.len() == 0,
        block matches Some(b) ==> drain_blocks(old(buffer)@, seq![max_length as int]).0 == seq![
            b@,
        ],
{
    proof {
        reveal_with_fuel(drain_blocks, 2);
        assert(seq![max_length as int].drop_first() =~= Seq::<int>::empty());
    }
    if buffer.len() > max_length {
        let mut rest = buffer.split_off(max_length);
        std::mem::swap(buffer, &mut rest);
        proof {
            assert(drain_blocks(old(buffer)@, seq![max_length as int]).0 =~= seq![rest@]);
        }
        Some(rest)
    } else {
        None
    }
}

/// Taking blocks of the given lengths, one after the other, for as long as
/// the buffer is longer than the next length: the blocks taken, and what is
/// left. Each step is one `take_block`.
pub open spec fn drain_blocks<T>(buffer: Seq<T>, lengths: Seq<int>) -> (Seq<Seq<T>>, Seq<T>)
    decreases lengths.len(),
{
    if lengths.len() == 0 || buffer.len() <= lengths[0] || lengths[0] < 0 {
        (Seq::empty(), buffer)
    } else {
        let rest = drain_blocks(buffer.skip(lengths[0]), lengths.drop_first());
        (seq![buffer.take(lengths[0])] + rest.0, rest.1)
    }
}

/// Taking blocks in a loop: the blocks are consecutive pieces of the buffer,
/// front to back, each of the length asked for at its turn; the blocks
/// followed by what is left are the buffer as it was; and when the loop
/// stops before the lengths run out, what is left is no longer than the
/// next length.
pub proof fn lemma_drain_blocks<T>(buffer: Seq<T>, lengths: Seq<int>)
    requires
        forall|i: int| 0 <= i < lengths.len() ==> #[trigger] lengths[i] >= 0,
    ensures
        drain_blocks(buffer, lengths).0.len() <= lengths.len(),
        forall|i: int|
            0 <= i < drain_blocks(buffer, lengths).0.len() ==> (#[trigger] drain_blocks(
                buffer,
                lengths,
            ).0[i]).len() == lengths[i],
        drain_blocks(buffer, lengths).0.flatten() + drain_blocks(buffer, lengths).1 == buffer,
        drain_blocks(buffer, lengths).0.len() < lengths.len() ==> drain_blocks(
            buffer,
            lengths,
        ).1.len() <= lengths[drain_blocks(buffer, lengths).0.len() as int],
    decreases lengths.len(),
{
    let r = drain_blocks(buffer, lengths);
    if lengths.len() == 0 || buffer.len() <= lengths[0] {
        assert(r.0 =~= Seq::<Seq<T>>::empty());
        assert(r.0.flatten() =~= Seq::<T>::empty());
        assert(r.0.flatten() + r.1 =~= buffer);
    } else {
        let m = lengths[0];
        let tail = lengths.drop_first();
        assert forall|i: int| 0 <= i < tail.len() implies #[trigger] tail[i] >= 0 by {
            assert(tail[i] == lengths[i + 1]);
        }
        lemma_drain_blocks(buffer.skip(m), tail);
        let rest = drain_blocks(buffer.skip(m), tail);
        assert(r.0 == seq![buffer.take(m)] + rest.0);
        assert(r.0.drop_first() =~= rest.0);
        vstd::seq_lib::lemma_flatten_concat(seq![buffer.take(m)], rest.0);
        assert(seq![buffer.take(m)].flatten() =~= buffer.take(m)) by {
            assert(seq![buffer.take(m)].drop_first() =~= Seq::<Seq<T>>::empty());
        }
        assert(r.0.flatten() + r.1 =~= buffer.take(m) + (rest.0.flatten() + rest.1));
        assert(buffer.take(m) + buffer.skip(m) =~= buffer);
        assert forall|i: int| 0 <= i < r.0.len() implies (#[trigger] r.0[i]).len() == lengths[i] by {
            if i > 0 {
                assert(r.0[i] == rest.0[i - 1]);
                assert(lengths[i] == tail[i - 1]);
            }
        }
        if r.0.len() < lengths.len() {
            assert(lengths[r.0.len() as int] == tail[rest.0.len() as int]);
        }
    }
}

/// Taking a block loses and reorders nothing: the block followed by what is
/// left is the buffer as it was.
pub proof fn lemma_take_block_keeps_samples<T>(before: Seq<T>, block: Seq<T>, after: Seq<T>, max_length: int)
    requires
        0 <= max_length < before.len(),
        block == before.take(max_length),
        after == before.skip(max_length),
    ensures
        block + after == before,
        block.len() == max_length,
{
    assert(block + after =~= before);
}

} // verus!
