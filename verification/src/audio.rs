//! The loop-mixing engine over integer samples: a decoded source with
//! verified channel conversion, a per-source loop cursor with a circular
//! output buffer and fixed-point volume scaling, and an additive mixer.
//! The sample-rate conversion between taking a chunk and pushing it back
//! is done by the callers (it is floating-point work); everything around
//! it is specified here exactly.

use crate::curve::div_trunc;
use std::collections::VecDeque;
use vstd::prelude::*;

verus! {

/// Bound on the magnitude of a source sample.
pub const SAMPLE_LIMIT: i64 = 4294967296;

/// Fixed-point scale of the volume: `VOLUME_UNIT` stands for gain 1.
pub const VOLUME_UNIT: i64 = 1024;

/// Largest volume setting.
pub const VOLUME_LIMIT: i64 = 1048576;

/// Bound on a volume-scaled sample: `SAMPLE_LIMIT * VOLUME_LIMIT / VOLUME_UNIT`.
pub const OUT_SAMPLE_LIMIT: i64 = 4398046511104;

/// Accumulation budget of a mix buffer handed to one source.
pub const MIX_LIMIT: i64 = 4611686018427387904;

/// Accumulation budget of a mix buffer handed to the mixer.
pub const MIX_INPUT_LIMIT: i64 = 2305843009213693952;

/// Largest number of sources one mixer call accepts.
pub const MIX_SOURCE_LIMIT: usize = 524288;

/// Largest number of input channels a decoded stream may have.
pub const CHANNEL_LIMIT: usize = 255;

#[derive(Debug, Clone, Copy, PartialEq, Eq, Structural)]
pub enum AudioError {
    UnsupportedChannels { from: usize, to: usize },
}

/// A decoded audio loop: one sample vector per output channel, all of the
/// same length, at the stream's native sample rate.
pub struct AudioSource {
    pub samples: Vec<Vec<i64>>,
    pub sample_rate: u32,
    pub channels: usize,
    pub len: usize,
}

impl AudioSource {
    pub open spec fn wf(&self) -> bool {
        &&& self.channels == self.samples@.len()
        &&& self.channels >= 1
        &&& self.len >= 1
        &&& forall|ch: int|
            0 <= ch < self.samples@.len() ==> (#[trigger] self.samples@[ch])@.len() == self.len
        &&& forall|ch: int, i: int|
            0 <= ch < self.samples@.len() && 0 <= i < self.len ==> -SAMPLE_LIMIT
                <= (#[trigger] self.samples@[ch]@[i]) <= SAMPLE_LIMIT
    }
}


/// Sum of one interleaved frame across the input channels.
pub open spec fn frame_sum(data: Seq<i64>, frame: int, channels: int, upto: int) -> int
    decreases upto,
{
    if upto <= 0 {
        0
    } else {
        frame_sum(data, frame, channels, upto - 1) + data[frame * channels + (upto - 1)]
    }
}

proof fn lemma_frame_sum_bound(data: Seq<i64>, frame: int, channels: int, upto: int)
    requires
        0 <= upto <= channels,
        0 <= frame,
        (frame + 1) * channels <= data.len(),
        forall|i: int| 0 <= i < data.len() ==> -SAMPLE_LIMIT <= #[trigger] data[i] <= SAMPLE_LIMIT,
    ensures
        -(upto * SAMPLE_LIMIT) <= frame_sum(data, frame, channels, upto) <= upto * SAMPLE_LIMIT,
    decreases upto,
{
    if upto > 0 {
        lemma_frame_sum_bound(data, frame, channels, upto - 1);
        assert(0 <= frame * channels + (upto - 1) < data.len()) by (nonlinear_arith)
            requires
                0 <= frame,
                0 < upto <= channels,
                (frame + 1) * channels <= data.len(),
        ;
        assert((upto - 1) * SAMPLE_LIMIT + SAMPLE_LIMIT == upto * SAMPLE_LIMIT) by (nonlinear_arith);
    }
}

/// The magnitude of a truncating quotient is bounded by any bound on the
/// exact quotient.
proof fn lemma_div_trunc_bound(a: int, b: int, m: int)
    by (nonlinear_arith)
    requires
        1 <= b,
        0 <= m,
        -(b * m) <= a <= b * m,
    ensures
        -m <= div_trunc(a, b) <= m,
{
}

impl AudioSource {
    /// Builds a source from interleaved decoded frames, converting the
    /// channel count: kept as is when equal, a mono stream is copied to
    /// every output channel, many channels fold to mono by the truncated
    /// per-frame mean; any other conversion is refused.
    pub fn from_interleaved(
        data: &Vec<i64>,
        in_channels: usize,
        out_channels: usize,
        sample_rate: u32,
    ) -> (r: Result<AudioSource, AudioError>)
        requires
            1 <= in_channels <= CHANNEL_LIMIT,
            1 <= out_channels,
            data@.len() == data@.len() as int / in_channels as int * in_channels as int,
            data@.len() as int / in_channels as int >= 1,
            forall|i: int|
                0 <= i < data@.len() ==> -SAMPLE_LIMIT <= #[trigger] data@[i] <= SAMPLE_LIMIT,
        ensures
            r is Ok <==> (in_channels == out_channels || in_channels == 1 || out_channels == 1),
            r matches Ok(src) ==> {
                let frames = data@.len() as int / in_channels as int;
                &&& src.wf()
                &&& src.channels == out_channels
                &&& src.sample_rate == sample_rate
                &&& src.len == frames
                &&& (in_channels == out_channels ==> forall|ch: int, i: int|
                    0 <= ch < out_channels && 0 <= i < frames ==> (#[trigger] src.samples@[ch]@[i])
                        == data@[i * in_channels as int + ch])
                &&& (in_channels == 1 && out_channels != 1 ==> forall|ch: int, i: int|
                    0 <= ch < out_channels && 0 <= i < frames ==> (#[trigger] src.samples@[ch]@[i])
                        == data@[i])
                &&& (out_channels == 1 && in_channels != 1 ==> forall|i: int|
                    0 <= i < frames ==> (#[trigger] src.samples@[0]@[i]) == div_trunc(
                        frame_sum(data@, i, in_channels as int, in_channels as int),
                        in_channels as int,
                    ))
            },
            r matches Err(e) ==> e == (AudioError::UnsupportedChannels {
                from: in_channels,
                to: out_channels,
            }),
    {
        let frames = data.len() / in_channels;
        proof {
            assert(frames * in_channels == data@.len()) by (nonlinear_arith)
                requires
                    frames == data@.len() as int / in_channels as int,
                    data@.len() == data@.len() as int / in_channels as int * in_channels as int,
            ;
        }
        if in_channels == out_channels {
            let mut samples: Vec<Vec<i64>> = Vec::new();
            for ch in 0..out_channels
                invariant
                    samples@.len() == ch,
                    frames == data@.len() as int / in_channels as int,
                    frames * in_channels == data@.len(),
                    in_channels == out_channels,
                    1 <= in_channels,
                    forall|c: int|
                        0 <= c < ch ==> (#[trigger] samples@[c])@.len() == frames,
                    forall|c: int, i: int|
                        0 <= c < ch && 0 <= i < frames ==> (#[trigger] samples@[c]@[i])
                            == data@[i * in_channels as int + c],
                    data@.len() <= usize::MAX as int,
                    forall|j: int|
                        0 <= j < data@.len() ==> -SAMPLE_LIMIT <= #[trigger] data@[j]
                            <= SAMPLE_LIMIT,
                    forall|c: int, i: int|
                        0 <= c < ch && 0 <= i < frames ==> -SAMPLE_LIMIT
                            <= (#[trigger] samples@[c]@[i]) <= SAMPLE_LIMIT,
            {
                let mut v: Vec<i64> = Vec::new();
                for i in 0..frames
                    invariant
                        v@.len() == i,
                        frames * in_channels == data@.len(),
                        ch < in_channels,
                        1 <= in_channels,
                        forall|q: int|
                            0 <= q < i ==> (#[trigger] v@[q]) == data@[q * in_channels as int
                                + ch as int],
                        data@.len() <= usize::MAX as int,
                        forall|j: int|
                            0 <= j < data@.len() ==> -SAMPLE_LIMIT <= #[trigger] data@[j]
                                <= SAMPLE_LIMIT,
                        forall|q: int|
                            0 <= q < i ==> -SAMPLE_LIMIT <= (#[trigger] v@[q]) <= SAMPLE_LIMIT,
                {
                    proof {
                        assert(0 <= i * in_channels + ch < data@.len()) by (nonlinear_arith)
                            requires
                                0 <= i < frames,
                                0 <= ch < in_channels,
                                frames * in_channels == data@.len(),
                        ;
                    }
                    v.push(data[i * in_channels + ch]);
                }
                samples.push(v);
            }
            Ok(AudioSource { samples, sample_rate, channels: out_channels, len: frames })
        } else if in_channels == 1 {
            let mut samples: Vec<Vec<i64>> = Vec::new();
            for ch in 0..out_channels
                invariant
                    samples@.len() == ch,
                    frames == data@.len(),
                    forall|c: int|
                        0 <= c < ch ==> (#[trigger] samples@[c])@.len() == frames,
                    forall|c: int, i: int|
                        0 <= c < ch && 0 <= i < frames ==> (#[trigger] samples@[c]@[i])
                            == data@[i],
                    forall|j: int|
                        0 <= j < data@.len() ==> -SAMPLE_LIMIT <= #[trigger] data@[j]
                            <= SAMPLE_LIMIT,
                    forall|c: int, i: int|
                        0 <= c < ch && 0 <= i < frames ==> -SAMPLE_LIMIT
                            <= (#[trigger] samples@[c]@[i]) <= SAMPLE_LIMIT,
            {
                let mut v: Vec<i64> = Vec::new();
                for i in 0..frames
                    invariant
                        v@.len() == i,
                        frames == data@.len(),
                        forall|q: int| 0 <= q < i ==> (#[trigger] v@[q]) == data@[q],
                        forall|j: int|
                            0 <= j < data@.len() ==> -SAMPLE_LIMIT <= #[trigger] data@[j]
                                <= SAMPLE_LIMIT,
                        forall|q: int|
                            0 <= q < i ==> -SAMPLE_LIMIT <= (#[trigger] v@[q]) <= SAMPLE_LIMIT,
                {
                    v.push(data[i]);
                }
                samples.push(v);
            }
            Ok(AudioSource { samples, sample_rate, channels: out_channels, len: frames })
        } else if out_channels == 1 {
            let mut v: Vec<i64> = Vec::new();
            for i in 0..frames
                invariant
                    v@.len() == i,
                    frames * in_channels == data@.len(),
                    1 <= in_channels <= CHANNEL_LIMIT,
                    data@.len() <= usize::MAX as int,
                    forall|j: int|
                        0 <= j < data@.len() ==> -SAMPLE_LIMIT <= #[trigger] data@[j]
                            <= SAMPLE_LIMIT,
                    forall|q: int|
                        0 <= q < i ==> (#[trigger] v@[q]) == div_trunc(
                            frame_sum(data@, q, in_channels as int, in_channels as int),
                            in_channels as int,
                        ) && -SAMPLE_LIMIT <= v@[q] <= SAMPLE_LIMIT,
            {
                let mut sum: i64 = 0;
                for ch in 0..in_channels
                    invariant
                        frames * in_channels == data@.len(),
                        0 <= i < frames,
                        1 <= in_channels <= CHANNEL_LIMIT,
                        data@.len() <= usize::MAX as int,
                        forall|j: int|
                            0 <= j < data@.len() ==> -SAMPLE_LIMIT <= #[trigger] data@[j]
                                <= SAMPLE_LIMIT,
                        sum == frame_sum(data@, i as int, in_channels as int, ch as int),
                        -(ch as int * SAMPLE_LIMIT) <= sum <= ch as int * SAMPLE_LIMIT,
                {
                    proof {
                        assert(0 <= i * in_channels + ch < data@.len()) by (nonlinear_arith)
                            requires
                                0 <= i < frames,
                                0 <= ch < in_channels,
                                frames * in_channels == data@.len(),
                        ;
                        assert((ch as int) * SAMPLE_LIMIT + SAMPLE_LIMIT == (ch as int + 1)
                            * SAMPLE_LIMIT) by (nonlinear_arith);
                    }
                    sum = sum + data[i * in_channels + ch];
                }
                let avg = div_i64(sum, in_channels as i64);
                proof {
                    lemma_div_trunc_bound(sum as int, in_channels as int, SAMPLE_LIMIT as int);
                }
                v.push(avg);
            }
            let mut samples: Vec<Vec<i64>> = Vec::new();
            samples.push(v);
            Ok(AudioSource { samples, sample_rate, channels: 1, len: frames })
        } else {
            Err(AudioError::UnsupportedChannels { from: in_channels, to: out_channels })
        }
    }
}

/// One source in the mixer: a decoded loop, the read cursor into it, and
/// a circular buffer of volume-scaled samples ready to be mixed out.  The
/// caller's resampler stands between `next_input_chunk` and
/// `push_resampled_chunk`.
pub struct ResampledLoopAudio {
    source: AudioSource,
    source_cursor: usize,
    chunk_size: usize,
    output_sample_rate: u32,
    volume: i64,
    pitch: i64,
    output_buffer: VecDeque<i64>,
}

/// Every buffered sample is within the scaled-sample bound.
pub open spec fn buf_bounded(b: Seq<i64>) -> bool {
    forall|i: int| 0 <= i < b.len() ==> -OUT_SAMPLE_LIMIT <= (#[trigger] b[i]) <= OUT_SAMPLE_LIMIT
}

/// What one call pops for position `i` of the output: the buffered sample
/// there, or silence once the buffer is exhausted.
pub open spec fn drained_at(b: Seq<i64>, i: int) -> int {
    if 0 <= i < b.len() {
        b[i] as int
    } else {
        0
    }
}

/// A sample scaled by a fixed-point volume, truncated toward zero.
pub open spec fn scaled(s: int, v: int) -> int {
    div_trunc(s * v, VOLUME_UNIT as int)
}

impl ResampledLoopAudio {
    pub closed spec fn source_spec(&self) -> AudioSource {
        self.source
    }

    pub closed spec fn cursor_spec(&self) -> int {
        self.source_cursor as int
    }

    pub closed spec fn chunk_spec(&self) -> int {
        self.chunk_size as int
    }

    pub closed spec fn volume_spec(&self) -> int {
        self.volume as int
    }

    pub closed spec fn pitch_spec(&self) -> int {
        self.pitch as int
    }

    pub closed spec fn rate_spec(&self) -> int {
        self.output_sample_rate as int
    }

    pub closed spec fn buffer_spec(&self) -> Seq<i64> {
        self.output_buffer@
    }

    pub open spec fn wf(&self) -> bool {
        &&& self.source_spec().wf()
        &&& 0 <= self.cursor_spec() < self.source_spec().len
        &&& 1 <= self.chunk_spec()
        &&& self.chunk_spec() + self.source_spec().len <= usize::MAX as int
        &&& 0 <= self.volume_spec() <= VOLUME_LIMIT as int
        &&& 0 <= self.pitch_spec()
        &&& buf_bounded(self.buffer_spec())
    }

    pub fn new(source: AudioSource, output_sample_rate: u32, chunk_size: usize) -> (r: Self)
        requires
            source.wf(),
            1 <= chunk_size,
            chunk_size + source.len <= usize::MAX as int,
        ensures
            r.wf(),
            r.source_spec() == source,
            r.cursor_spec() == 0,
            r.chunk_spec() == chunk_size as int,
            r.rate_spec() == output_sample_rate as int,
            r.volume_spec() == 0,
            r.pitch_spec() == 0,
            r.buffer_spec().len() == 0,
    {
        ResampledLoopAudio {
            source,
            source_cursor: 0,
            chunk_size,
            output_sample_rate,
            volume: 0,
            pitch: 0,
            output_buffer: VecDeque::new(),
        }
    }

    /// Live parameters for the next refills: a fixed-point volume and the
    /// pitch the caller's resampler ratio is derived from.
    pub fn set_volume_pitch(&mut self, volume: i64, pitch: i64)
        requires
            old(self).wf(),
            0 <= volume <= VOLUME_LIMIT,
            0 <= pitch,
        ensures
            final(self).wf(),
            final(self).volume_spec() == volume as int,
            final(self).pitch_spec() == pitch as int,
            final(self).source_spec() == old(self).source_spec(),
            final(self).cursor_spec() == old(self).cursor_spec(),
            final(self).chunk_spec() == old(self).chunk_spec(),
            final(self).rate_spec() == old(self).rate_spec(),
            final(self).buffer_spec() == old(self).buffer_spec(),
    {
        self.volume = volume;
        self.pitch = pitch;
    }

    pub fn volume(&self) -> (r: i64)
        ensures
            r as int == self.volume_spec(),
    {
        self.volume
    }

    pub fn pitch(&self) -> (r: i64)
        ensures
            r as int == self.pitch_spec(),
    {
        self.pitch
    }

    /// The refill loop runs while fewer samples are buffered than one
    /// output slice needs.
    pub fn needs_refill(&self, out_len: usize) -> (r: bool)
        ensures
            r == (self.buffer_spec().len() < out_len),
    {
        self.output_buffer.len() < out_len
    }

    /// Takes the next per-channel chunk of source samples at the cursor,
    /// wrapping around the end of the loop, and advances the cursor
    /// modulo the loop length.
    pub fn next_input_chunk(&mut self) -> (chunk: Vec<Vec<i64>>)
        requires
            old(self).wf(),
        ensures
            final(self).wf(),
            chunk@.len() == old(self).source_spec().channels,
            forall|ch: int|
                0 <= ch < chunk@.len() ==> (#[trigger] chunk@[ch])@.len() == old(
                    self,
                ).chunk_spec(),
            forall|ch: int, i: int|
                0 <= ch < chunk@.len() && 0 <= i < old(self).chunk_spec() ==> (
                #[trigger] chunk@[ch]@[i]) == old(self).source_spec().samples@[ch]@[(old(
                    self,
                ).cursor_spec() + i) % (old(self).source_spec().len as int)],
            final(self).cursor_spec() == (old(self).cursor_spec() + old(self).chunk_spec()) % (
            old(self).source_spec().len as int),
            final(self).source_spec() == old(self).source_spec(),
            final(self).chunk_spec() == old(self).chunk_spec(),
            final(self).rate_spec() == old(self).rate_spec(),
            final(self).volume_spec() == old(self).volume_spec(),
            final(self).pitch_spec() == old(self).pitch_spec(),
            final(self).buffer_spec() == old(self).buffer_spec(),
    {
        let c = self.source_cursor;
        let l = self.source.len;
        let channels = self.source.channels;
        let mut chunk: Vec<Vec<i64>> = Vec::new();
        for ch in 0..channels
            invariant
                chunk@.len() == ch,
                channels == self.source.channels,
                self.source.wf(),
                c < l,
                l == self.source.len,
                self.chunk_size + l <= usize::MAX as int,
                forall|cc: int|
                    0 <= cc < ch ==> (#[trigger] chunk@[cc])@.len() == self.chunk_size,
                forall|cc: int, i: int|
                    0 <= cc < ch && 0 <= i < self.chunk_size ==> (#[trigger] chunk@[cc]@[i])
                        == self.source.samples@[cc]@[(c + i) % (l as int)],
        {
            let mut v: Vec<i64> = Vec::new();
            let n = self.chunk_size;
            for i in 0..n
                invariant
                    v@.len() == i,
                    n == self.chunk_size,
                    channels == self.source.channels,
                    ch < channels,
                    self.source.wf(),
                    c < l,
                    l == self.source.len,
                    n + l <= usize::MAX as int,
                    forall|q: int|
                        0 <= q < i ==> (#[trigger] v@[q]) == self.source.samples@[ch as int]@[(c
                            + q) % (l as int)],
            {
                v.push(self.source.samples[ch][(c + i) % l]);
            }
            chunk.push(v);
        }
        self.source_cursor = (c + self.chunk_size) % l;
        chunk
    }

    /// Scales a resampled chunk by the current volume and appends it,
    /// interleaved frame by frame, to the output buffer.
    pub fn push_resampled_chunk(&mut self, chunk: &Vec<Vec<i64>>, frames: usize)
        requires
            old(self).wf(),
            chunk@.len() == old(self).source_spec().channels,
            forall|ch: int| 0 <= ch < chunk@.len() ==> frames <= (#[trigger] chunk@[ch])@.len(),
            forall|ch: int, i: int|
                0 <= ch < chunk@.len() && 0 <= i < (#[trigger] chunk@[ch])@.len() ==> -SAMPLE_LIMIT
                    <= (#[trigger] chunk@[ch]@[i]) <= SAMPLE_LIMIT,
            frames * chunk@.len() + old(self).buffer_spec().len() <= usize::MAX as int,
        ensures
            final(self).wf(),
            final(self).buffer_spec() == old(self).buffer_spec() + Seq::new(
                (frames * old(self).source_spec().channels) as nat,
                |k: int|
                    scaled(
                        chunk@[k % (old(self).source_spec().channels as int)]@[k / (old(
                            self,
                        ).source_spec().channels as int)] as int,
                        old(self).volume_spec(),
                    ) as i64,
            ),
            final(self).source_spec() == old(self).source_spec(),
            final(self).cursor_spec() == old(self).cursor_spec(),
            final(self).chunk_spec() == old(self).chunk_spec(),
            final(self).rate_spec() == old(self).rate_spec(),
            final(self).volume_spec() == old(self).volume_spec(),
            final(self).pitch_spec() == old(self).pitch_spec(),
    {
        let channels = self.source.channels;
        let total = frames * channels;
        let ghost target = Seq::new(
            (frames * old(self).source_spec().channels) as nat,
            |k: int|
                scaled(
                    chunk@[k % (old(self).source_spec().channels as int)]@[k / (old(
                        self,
                    ).source_spec().channels as int)] as int,
                    old(self).volume_spec(),
                ) as i64,
        );
        for k in 0..total
            invariant
                target == Seq::new(
                    (frames * old(self).source_spec().channels) as nat,
                    |q: int|
                        scaled(
                            chunk@[q % (old(self).source_spec().channels as int)]@[q / (old(
                                self,
                            ).source_spec().channels as int)] as int,
                            old(self).volume_spec(),
                        ) as i64,
                ),
                total == frames * channels,
                channels == self.source.channels,
                channels >= 1,
                chunk@.len() == channels,
                *self == (ResampledLoopAudio { output_buffer: self.output_buffer, ..*old(self) }),
                self.output_buffer@.len() == old(self).buffer_spec().len() + k,
                self.output_buffer@ == old(self).buffer_spec() + target.subrange(0, k as int),
                0 <= self.volume <= VOLUME_LIMIT,
                forall|ch: int| 0 <= ch < chunk@.len() ==> frames <= (#[trigger] chunk@[ch])@.len(),
                forall|ch: int, i: int|
                    0 <= ch < chunk@.len() && 0 <= i < (#[trigger] chunk@[ch])@.len()
                        ==> -SAMPLE_LIMIT <= (#[trigger] chunk@[ch]@[i]) <= SAMPLE_LIMIT,
                forall|i: int|
                    0 <= i < self.output_buffer@.len() ==> -OUT_SAMPLE_LIMIT
                        <= (#[trigger] self.output_buffer@[i]) <= OUT_SAMPLE_LIMIT,
        {
            let ch = k % channels;
            let fr = k / channels;
            proof {
                assert(0 <= (k as int) / (channels as int) < frames) by (nonlinear_arith)
                    requires
                        0 <= k < total,
                        total == frames * channels,
                        channels >= 1,
                ;
            }
            let s = chunk[ch][fr];
            proof {
                assert(-SAMPLE_LIMIT <= chunk@[ch as int]@[fr as int] <= SAMPLE_LIMIT);
                crate::curve::lemma_mul_abs_bound(
                    s as int,
                    self.volume as int,
                    SAMPLE_LIMIT as int,
                    VOLUME_LIMIT as int,
                );
            }
            let x = s * self.volume;
            let v = div_i64(x, VOLUME_UNIT);
            proof {
                lemma_div_trunc_bound(x as int, VOLUME_UNIT as int, OUT_SAMPLE_LIMIT as int);
                assert(target.subrange(0, k as int).push(v) =~= target.subrange(0, k + 1));
            }
            self.output_buffer.push_back(v);
        }
        proof {
            assert(self.output_buffer@ == old(self).buffer_spec() + target.subrange(
                0,
                target.len() as int,
            ));
            assert(target.subrange(0, target.len() as int) =~= target);
        }
    }

    /// Pops one buffered sample per output position and adds it to the
    /// caller's slice; positions past the buffered count are left as they
    /// are.  Because the contribution is added, sequential calls of
    /// several sources into one slice mix them.
    pub fn write_data_additive(&mut self, output: &mut Vec<i64>)
        requires
            old(self).wf(),
            forall|i: int|
                0 <= i < old(output)@.len() ==> -MIX_LIMIT <= (#[trigger] old(output)@[i])
                    <= MIX_LIMIT,
        ensures
            final(self).wf(),
            final(output)@.len() == old(output)@.len(),
            forall|i: int|
                0 <= i < old(output)@.len() ==> (#[trigger] final(output)@[i]) == old(output)@[i]
                    + drained_at(old(self).buffer_spec(), i),
            forall|i: int|
                0 <= i < old(output)@.len() ==> -(MIX_LIMIT + OUT_SAMPLE_LIMIT)
                    <= (#[trigger] final(output)@[i]) <= MIX_LIMIT + OUT_SAMPLE_LIMIT,
            final(self).buffer_spec() == if old(self).buffer_spec().len() <= old(output)@.len() {
                Seq::<i64>::empty()
            } else {
                old(self).buffer_spec().skip(old(output)@.len() as int)
            },
            final(self).source_spec() == old(self).source_spec(),
            final(self).cursor_spec() == old(self).cursor_spec(),
            final(self).chunk_spec() == old(self).chunk_spec(),
            final(self).rate_spec() == old(self).rate_spec(),
            final(self).volume_spec() == old(self).volume_spec(),
            final(self).pitch_spec() == old(self).pitch_spec(),
    {
        let n = output.len();
        let ghost b = old(self).buffer_spec();
        for i in 0..n
            invariant
                n == output@.len(),
                *self == (ResampledLoopAudio { output_buffer: self.output_buffer, ..*old(self) }),
                self.output_buffer@ == if b.len() <= i {
                    Seq::<i64>::empty()
                } else {
                    b.skip(i as int)
                },
                forall|j: int|
                    0 <= j < b.len() ==> -OUT_SAMPLE_LIMIT <= (#[trigger] b[j])
                        <= OUT_SAMPLE_LIMIT,
                forall|j: int|
                    i <= j < n ==> (#[trigger] output@[j]) == old(output)@[j] && -MIX_LIMIT
                        <= output@[j] <= MIX_LIMIT,
                forall|j: int|
                    0 <= j < i ==> (#[trigger] output@[j]) == old(output)@[j] + drained_at(b, j),
                forall|j: int|
                    0 <= j < i ==> -(MIX_LIMIT + OUT_SAMPLE_LIMIT) <= (#[trigger] output@[j])
                        <= MIX_LIMIT + OUT_SAMPLE_LIMIT,
        {
            match self.output_buffer.pop_front() {
                Some(v) => {
                    proof {
                        assert(b.skip(i as int)[0] == b[i as int]);
                        assert(b.skip(i as int).subrange(1, b.skip(i as int).len() as int) =~= (
                        if b.len() <= i + 1 {
                            Seq::<i64>::empty()
                        } else {
                            b.skip(i + 1)
                        }));
                    }
                    output[i] = output[i] + v;
                },
                None => {
                    proof {
                        assert(drained_at(b, i as int) == 0);
                    }
                    output[i] = output[i] + 0;
                },
            }
        }
    }
}

/// The additive mixer: each call folds every source's buffered samples
/// into the caller's slice by summation, so the slice ends up holding its
/// old contents plus the sum of all the sources' contributions.
pub struct AudioMixer {
    sources: Vec<ResampledLoopAudio>,
}

/// Sum of the first `upto` sources' contributions at position `i`.
pub open spec fn mix_sum(ss: Seq<ResampledLoopAudio>, i: int, upto: int) -> int
    decreases upto,
{
    if upto <= 0 {
        0
    } else {
        mix_sum(ss, i, upto - 1) + drained_at(ss[upto - 1].buffer_spec(), i)
    }
}

proof fn lemma_mix_sum_bound(ss: Seq<ResampledLoopAudio>, i: int, upto: int)
    requires
        0 <= upto <= ss.len(),
        forall|j: int| 0 <= j < ss.len() ==> (#[trigger] ss[j]).wf(),
    ensures
        -(upto * OUT_SAMPLE_LIMIT) <= mix_sum(ss, i, upto) <= upto * OUT_SAMPLE_LIMIT,
    decreases upto,
{
    if upto > 0 {
        lemma_mix_sum_bound(ss, i, upto - 1);
        assert((upto - 1) * OUT_SAMPLE_LIMIT + OUT_SAMPLE_LIMIT == upto * OUT_SAMPLE_LIMIT)
            by (nonlinear_arith);
    }
}

impl AudioMixer {
    pub closed spec fn sources_spec(&self) -> Seq<ResampledLoopAudio> {
        self.sources@
    }

    pub open spec fn wf(&self) -> bool {
        forall|j: int| 0 <= j < self.sources_spec().len() ==> (#[trigger] self.sources_spec()[j]).wf()
    }

    pub fn new() -> (r: Self)
        ensures
            r.wf(),
            r.sources_spec().len() == 0,
    {
        AudioMixer { sources: Vec::new() }
    }

    pub fn add_source(&mut self, source: ResampledLoopAudio)
        requires
            old(self).wf(),
            source.wf(),
        ensures
            final(self).wf(),
            final(self).sources_spec() == old(self).sources_spec().push(source),
    {
        self.sources.push(source);
    }

    pub fn len(&self) -> (r: usize)
        ensures
            r == self.sources_spec().len(),
    {
        self.sources.len()
    }

    /// Adds every source's contribution into `output` in sequence: the
    /// result is the old contents plus the arithmetic sum of what each
    /// source alone would have added.
    pub fn write_data(&mut self, output: &mut Vec<i64>)
        requires
            old(self).wf(),
            old(self).sources_spec().len() <= MIX_SOURCE_LIMIT,
            forall|i: int|
                0 <= i < old(output)@.len() ==> -MIX_INPUT_LIMIT <= (#[trigger] old(output)@[i])
                    <= MIX_INPUT_LIMIT,
        ensures
            final(self).wf(),
            final(output)@.len() == old(output)@.len(),
            final(self).sources_spec().len() == old(self).sources_spec().len(),
            forall|i: int|
                0 <= i < old(output)@.len() ==> (#[trigger] final(output)@[i]) == old(output)@[i]
                    + mix_sum(old(self).sources_spec(), i, old(self).sources_spec().len() as int),
    {
        let ghost ss = old(self).sources_spec();
        let n = self.sources.len();
        let mut done: Vec<ResampledLoopAudio> = Vec::new();
        for j in 0..n
            invariant
                n == ss.len(),
                n <= MIX_SOURCE_LIMIT,
                done@.len() == j,
                self.sources@.len() == n - j,
                forall|q: int| 0 <= q < n - j ==> (#[trigger] self.sources@[q]) == ss[q + j],
                forall|q: int| 0 <= q < n ==> (#[trigger] ss[q]).wf(),
                forall|q: int| 0 <= q < j ==> (#[trigger] done@[q]).wf(),
                forall|q: int| 0 <= q < n - j ==> (#[trigger] self.sources@[q]).wf(),
                output@.len() == old(output)@.len(),
                forall|i: int|
                    0 <= i < output@.len() ==> (#[trigger] output@[i]) == old(output)@[i]
                        + mix_sum(ss, i, j as int),
                forall|i: int|
                    0 <= i < old(output)@.len() ==> -MIX_INPUT_LIMIT <= (#[trigger] old(
                        output,
                    )@[i]) <= MIX_INPUT_LIMIT,
        {
            let mut src = self.sources.remove(0);
            proof {
                assert forall|i: int| 0 <= i < output@.len() implies -MIX_LIMIT
                    <= (#[trigger] output@[i]) <= MIX_LIMIT by {
                    lemma_mix_sum_bound(ss, i, j as int);
                    assert((j as int) * OUT_SAMPLE_LIMIT <= (MIX_SOURCE_LIMIT as int)
                        * OUT_SAMPLE_LIMIT) by (nonlinear_arith)
                        requires
                            0 <= j as int <= MIX_SOURCE_LIMIT as int,
                    ;
                }
            }
            src.write_data_additive(output);
            proof {
                assert forall|i: int| 0 <= i < output@.len() implies (#[trigger] output@[i]) == old(
                    output,
                )@[i] + mix_sum(ss, i, j + 1) by {
                    assert(drained_at(ss[j as int].buffer_spec(), i) == mix_sum(ss, i, j + 1)
                        - mix_sum(ss, i, j as int));
                }
            }
            done.push(src);
        }
        self.sources = done;
    }
}

impl Default for AudioMixer {
    fn default() -> (r: Self)
        ensures
            r.wf(),
            r.sources_spec().len() == 0,
    {
        AudioMixer { sources: Vec::new() }
    }
}

/// Truncating signed division by a positive divisor.
fn div_i64(a: i64, b: i64) -> (r: i64)
    requires
        1 <= b,
        a > i64::MIN,
    ensures
        r == div_trunc(a as int, b as int),
{
    proof {
        crate::curve::lemma_div_le(
            if a >= 0 {
                a as int
            } else {
                -a as int
            },
            b as int,
        );
    }
    if a >= 0 {
        (((a as u64) / (b as u64)) as i64)
    } else {
        -((((-a) as u64) / (b as u64)) as i64)
    }
}

} // verus!
