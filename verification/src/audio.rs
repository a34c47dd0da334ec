//! The audio-capture worker: its command protocol and the buffer arithmetic
//! it performs on every drained chunk — channel downmix to mono by arithmetic
//! mean, and decimation to the target sample rate by an integer stride.
//!
//! Samples are 16-bit signed PCM values. The device callback and the control
//! loop around this worker live outside the crate and hand it plain chunks
//! and commands.

use vstd::prelude::*;
use vstd::arithmetic::div_mod::{
    lemma_basic_div, lemma_div_by_self, lemma_div_is_ordered, lemma_div_plus_one,
    lemma_div_pos_is_pos,
};
use crate::textops::push_all;

verus! {

/// The rate, in samples per second, at which captured audio is handed to the
/// transcription providers.
pub const TARGET_SAMPLE_RATE: u32 = 16000;

/// A control message for the capture worker. A Stop is answered with the
/// accumulated buffer, over a one-shot reply channel owned by the caller in
/// the embedding application.
#[derive(Debug, Clone, Copy, PartialEq, Eq, Structural)]
pub enum AudioCommand {
    /// Clear the buffer and begin recording.
    Start,
    /// End recording and hand the accumulated buffer back.
    Stop,
    /// Terminate the worker's control loop.
    Shutdown,
}

/// Truncating integer division (rounds toward zero), the rounding the
/// worker's sample arithmetic uses; `b` must be positive.
pub open spec fn div_trunc(a: int, b: int) -> int {
    if a >= 0 {
        a / b
    } else {
        -((-a) / b)
    }
}

/// The sum of the `count` samples of `chunk` starting at index `start`.
pub open spec fn group_sum(chunk: Seq<i16>, start: int, count: int) -> int
    decreases count,
{
    if count <= 0 {
        0
    } else {
        chunk[start] + group_sum(chunk, start + 1, count - 1)
    }
}

/// An interleaved chunk downmixed to mono: one sample per frame of `ch`
/// channel samples, each the arithmetic mean of its frame, dividing by the
/// full channel count even for a trailing partial frame.
pub open spec fn downmix(chunk: Seq<i16>, ch: int) -> Seq<i16>
    decreases chunk.len(),
{
    if ch < 1 || chunk.len() == 0 {
        chunk
    } else {
        let take = if chunk.len() < ch {
            chunk.len() as int
        } else {
            ch
        };
        seq![div_trunc(group_sum(chunk, 0, take), ch) as i16] + downmix(
            chunk.subrange(take, chunk.len() as int),
            ch,
        )
    }
}

/// `s` decimated by stride `k`: the first sample of every group of `k`.
pub open spec fn decimate(s: Seq<i16>, k: int) -> Seq<i16>
    decreases s.len(),
{
    if k < 1 || s.len() == 0 {
        s
    } else {
        let step = if s.len() < k {
            s.len() as int
        } else {
            k
        };
        seq![s[0]] + decimate(s.subrange(step, s.len() as int), k)
    }
}

/// The stride by which native-rate samples are decimated to the target rate:
/// the quotient when the native rate is an exact higher multiple of the
/// target, otherwise 1 (the chunk is kept as it is).
pub open spec fn decimation_stride(native_rate: u32, target_rate: u32) -> int {
    if target_rate > 0 && native_rate > target_rate && native_rate as int % target_rate as int
        == 0 {
        native_rate as int / target_rate as int
    } else {
        1
    }
}

/// What one drained chunk contributes to the buffer while recording: the
/// chunk downmixed to mono, then decimated.
pub open spec fn process_chunk(chunk: Seq<i16>, ch: int, k: int) -> Seq<i16> {
    decimate(downmix(chunk, ch), k)
}

proof fn lemma_group_sum_extend(chunk: Seq<i16>, start: int, count: int)
    requires
        count >= 0,
    ensures
        group_sum(chunk, start, count + 1) == group_sum(chunk, start, count) + chunk[start
            + count],
    decreases count,
{
    if count == 0 {
        assert(group_sum(chunk, start, 1) == chunk[start] + group_sum(chunk, start + 1, 0));
        assert(group_sum(chunk, start + 1, 0) == 0);
    } else {
        lemma_group_sum_extend(chunk, start + 1, count - 1);
        assert(group_sum(chunk, start, count + 1) == chunk[start] + group_sum(
            chunk,
            start + 1,
            count,
        ));
        assert(group_sum(chunk, start, count) == chunk[start] + group_sum(
            chunk,
            start + 1,
            count - 1,
        ));
    }
}

proof fn lemma_group_sum_sub(chunk: Seq<i16>, start: int, off: int, count: int)
    requires
        0 <= start <= chunk.len(),
        0 <= off,
        count >= 0,
        off + count <= chunk.len() - start,
    ensures
        group_sum(chunk.subrange(start, chunk.len() as int), off, count) == group_sum(
            chunk,
            start + off,
            count,
        ),
    decreases count,
{
    if count > 0 {
        lemma_group_sum_sub(chunk, start, off + 1, count - 1);
    }
}

/// Downmixing never lengthens a chunk.
proof fn lemma_downmix_len(chunk: Seq<i16>, ch: int)
    requires
        ch >= 1,
    ensures
        downmix(chunk, ch).len() <= chunk.len(),
    decreases chunk.len(),
{
    if chunk.len() > 0 {
        let take = if chunk.len() < ch {
            chunk.len() as int
        } else {
            ch
        };
        lemma_downmix_len(chunk.subrange(take, chunk.len() as int), ch);
    }
}

/// Decimation never lengthens a buffer.
proof fn lemma_decimate_len(s: Seq<i16>, k: int)
    requires
        k >= 1,
    ensures
        decimate(s, k).len() <= s.len(),
    decreases s.len(),
{
    if s.len() > 0 {
        let step = if s.len() < k {
            s.len() as int
        } else {
            k
        };
        lemma_decimate_len(s.subrange(step, s.len() as int), k);
    }
}

proof fn lemma_decimate_len_exact(s: Seq<i16>, k: int)
    requires
        k >= 1,
    ensures
        decimate(s, k).len() == (s.len() + k - 1) / k,
    decreases s.len(),
{
    if s.len() == 0 {
        lemma_basic_div(k - 1, k);
    } else if s.len() <= k {
        let rest = s.subrange(s.len() as int, s.len() as int);
        assert(rest =~= Seq::<i16>::empty());
        lemma_div_plus_one(s.len() - 1, k);
        lemma_basic_div(s.len() - 1, k);
        assert(decimate(s, k) == seq![s[0]] + decimate(rest, k));
        assert(decimate(rest, k) =~= Seq::<i16>::empty());
    } else {
        let rest = s.subrange(k, s.len() as int);
        lemma_decimate_len_exact(rest, k);
        lemma_div_plus_one(s.len() - 1, k);
        assert(decimate(s, k) == seq![s[0]] + decimate(rest, k));
    }
}

proof fn lemma_decimate_index(s: Seq<i16>, k: int, i: int)
    requires
        k >= 1,
        0 <= i,
        i * k < s.len(),
    ensures
        i < decimate(s, k).len(),
        decimate(s, k)[i] == s[i * k],
    decreases i,
{
    assert(0 * k == 0);
    if i == 0 {
        assert(decimate(s, k)[0] == s[0]);
    } else {
        assert(i * k >= k) by (nonlinear_arith)
            requires
                i >= 1,
                k >= 1,
        ;
        let rest = s.subrange(k, s.len() as int);
        assert((i - 1) * k == i * k - k) by (nonlinear_arith);
        lemma_decimate_index(rest, k, i - 1);
        assert(decimate(s, k) == seq![s[0]] + decimate(rest, k));
        assert(decimate(s, k)[i] == decimate(rest, k)[i - 1]);
        assert(rest[(i - 1) * k] == s[k + (i - 1) * k]);
    }
}

/// Decimation by a stride `k` keeps exactly every `k`-th sample: the output
/// holds one sample per started group of `k` — ceiling(len/k) in all — and
/// its `i`-th sample is the input's sample at index `i * k`.
pub proof fn lemma_decimate_stride(s: Seq<i16>, k: int)
    requires
        k >= 1,
    ensures
        decimate(s, k).len() == (s.len() + k - 1) / k,
        forall|i: int|
            0 <= i && #[trigger] (i * k) < s.len() ==> i < decimate(s, k).len() && decimate(s, k)[i]
                == s[i * k],
{
    lemma_decimate_len_exact(s, k);
    assert forall|i: int| 0 <= i && #[trigger] (i * k) < s.len() implies i < decimate(s, k).len()
        && decimate(s, k)[i] == s[i * k] by {
        lemma_decimate_index(s, k, i);
    }
}

/// The decimation stride, computed in executable code.
pub fn stride_for(native_rate: u32, target_rate: u32) -> (k: usize)
    ensures
        k as int == decimation_stride(native_rate, target_rate),
        k >= 1,
{
    if target_rate > 0 && native_rate > target_rate && native_rate % target_rate == 0 {
        proof {
            lemma_div_is_ordered(target_rate as int, native_rate as int, target_rate as int);
            lemma_div_by_self(target_rate as int);
        }
        (native_rate / target_rate) as usize
    } else {
        1
    }
}

/// `s` decimated by stride `k`, in executable code.
pub fn decimate_samples(s: &Vec<i16>, k: usize) -> (r: Vec<i16>)
    requires
        k >= 1,
    ensures
        r@ == decimate(s@, k as int),
{
    let n = s.len();
    let mut out: Vec<i16> = Vec::new();
    let mut start: usize = 0;
    proof {
        assert(s@.subrange(0, n as int) =~= s@);
        assert(Seq::<i16>::empty() + decimate(s@, k as int) =~= decimate(s@, k as int));
    }
    while start < n
        invariant
            k >= 1,
            start <= n,
            n == s@.len(),
            decimate(s@, k as int) == out@ + decimate(s@.subrange(start as int, n as int), k as int),
        decreases n - start,
    {
        let step = if n - start < k {
            n - start
        } else {
            k
        };
        proof {
            let tail = s@.subrange(start as int, n as int);
            assert(tail[0] == s@[start as int]);
            assert(tail.subrange(step as int, tail.len() as int) =~= s@.subrange(
                start + step,
                n as int,
            ));
            assert(out@ + (seq![s@[start as int]] + decimate(
                s@.subrange(start + step, n as int),
                k as int,
            )) =~= out@.push(s@[start as int]) + decimate(
                s@.subrange(start + step, n as int),
                k as int,
            ));
        }
        out.push(s[start]);
        start = start + step;
    }
    proof {
        assert(s@.subrange(start as int, n as int) =~= Seq::<i16>::empty());
        assert(out@ + Seq::<i16>::empty() =~= out@);
    }
    out
}

/// `chunk` downmixed to mono by arithmetic mean over `channels`-sample
/// frames, in executable code.
pub fn downmix_chunk(chunk: &Vec<i16>, channels: u16) -> (r: Vec<i16>)
    requires
        channels >= 1,
    ensures
        r@ == downmix(chunk@, channels as int),
{
    let ch: usize = channels as usize;
    let n = chunk.len();
    let mut out: Vec<i16> = Vec::new();
    let mut start: usize = 0;
    proof {
        assert(chunk@.subrange(0, n as int) =~= chunk@);
        assert(Seq::<i16>::empty() + downmix(chunk@, ch as int) =~= downmix(chunk@, ch as int));
    }
    while start < n
        invariant
            1 <= ch <= 65535,
            ch == channels as int,
            start <= n,
            n == chunk@.len(),
            downmix(chunk@, ch as int) == out@ + downmix(
                chunk@.subrange(start as int, n as int),
                ch as int,
            ),
        decreases n - start,
    {
        let count = if n - start < ch {
            n - start
        } else {
            ch
        };
        let mut sum: i32 = 0;
        let mut j: usize = 0;
        while j < count
            invariant
                j <= count,
                count <= ch <= 65535,
                start + count <= n,
                n == chunk@.len(),
                sum == group_sum(chunk@, start as int, j as int),
                -32768 * j <= sum <= 32767 * j,
            decreases count - j,
        {
            proof {
                lemma_group_sum_extend(chunk@, start as int, j as int);
            }
            sum = sum + (chunk[start + j] as i32);
            j = j + 1;
        }
        let mean32: i32 = if sum >= 0 {
            proof {
                lemma_div_pos_is_pos(sum as int, ch as int);
                lemma_div_is_ordered(sum as int, 32767 * ch as int, ch as int);
                assert((32767 * ch as int) / ch as int == 32767) by (nonlinear_arith)
                    requires
                        1 <= ch <= 65535,
                ;
            }
            ((sum as u32) / (channels as u32)) as i32
        } else {
            let neg: i32 = 0 - sum;
            proof {
                lemma_div_pos_is_pos(neg as int, ch as int);
                lemma_div_is_ordered(neg as int, 32768 * ch as int, ch as int);
                assert((32768 * ch as int) / ch as int == 32768) by (nonlinear_arith)
                    requires
                        1 <= ch <= 65535,
                ;
            }
            0 - (((neg as u32) / (channels as u32)) as i32)
        };
        proof {
            assert(mean32 == div_trunc(group_sum(chunk@, start as int, count as int), ch as int));
            assert(-32768 <= mean32 <= 32767);
            let tail = chunk@.subrange(start as int, n as int);
            let take = if tail.len() < ch {
                tail.len() as int
            } else {
                ch as int
            };
            assert(take == count as int);
            lemma_group_sum_sub(chunk@, start as int, 0, count as int);
            assert(tail.subrange(count as int, tail.len() as int) =~= chunk@.subrange(
                start + count,
                n as int,
            ));
            assert(downmix(tail, ch as int) == seq![mean32 as i16] + downmix(
                chunk@.subrange(start + count, n as int),
                ch as int,
            ));
            assert(out@ + (seq![mean32 as i16] + downmix(
                chunk@.subrange(start + count, n as int),
                ch as int,
            )) =~= out@.push(mean32 as i16) + downmix(
                chunk@.subrange(start + count, n as int),
                ch as int,
            ));
        }
        out.push(mean32 as i16);
        start = start + count;
    }
    proof {
        assert(chunk@.subrange(start as int, n as int) =~= Seq::<i16>::empty());
        assert(out@ + Seq::<i16>::empty() =~= out@);
    }
    out
}

/// The capture worker's state: the accumulating buffer, whether a session is
/// recording, and the device format it was opened with.
pub struct CaptureWorker {
    buffer: Vec<i16>,
    recording: bool,
    native_rate: u32,
    channels: u16,
}

impl CaptureWorker {
    /// The device format is usable: at least one channel.
    pub closed spec fn well_formed(&self) -> bool {
        self.channels >= 1
    }

    /// The samples accumulated so far.
    pub closed spec fn buffer_view(&self) -> Seq<i16> {
        self.buffer@
    }

    /// Whether a recording session is active.
    pub closed spec fn is_recording(&self) -> bool {
        self.recording
    }

    /// The channel count of the device format.
    pub closed spec fn spec_channels(&self) -> int {
        self.channels as int
    }

    /// The native sample rate of the device format.
    pub closed spec fn spec_native_rate(&self) -> u32 {
        self.native_rate
    }

    /// The stride by which this worker decimates drained chunks.
    pub closed spec fn spec_stride(&self) -> int {
        decimation_stride(self.native_rate, TARGET_SAMPLE_RATE)
    }

    /// The device format is unchanged by an operation.
    pub open spec fn same_format(&self, other: &Self) -> bool {
        self.spec_channels() == other.spec_channels() && self.spec_native_rate()
            == other.spec_native_rate()
    }

    /// A fresh worker for a device with the given native format: empty
    /// buffer, not recording.
    pub fn new(native_rate: u32, channels: u16) -> (r: Self)
        requires
            channels >= 1,
        ensures
            r.well_formed(),
            r.buffer_view() == Seq::<i16>::empty(),
            !r.is_recording(),
            r.spec_channels() == channels as int,
            r.spec_native_rate() == native_rate,
    {
        CaptureWorker { buffer: Vec::new(), recording: false, native_rate, channels }
    }

    /// A Start command: the buffer is cleared — a Start received while
    /// already recording truncates the current buffer and begins a fresh
    /// session — and recording turns on.
    pub fn on_start(&mut self)
        requires
            old(self).well_formed(),
        ensures
            final(self).well_formed(),
            final(self).same_format(old(self)),
            final(self).buffer_view() == Seq::<i16>::empty(),
            final(self).is_recording(),
    {
        self.buffer = Vec::new();
        self.recording = true;
    }

    /// A Stop command: recording turns off and the accumulated buffer is
    /// handed back, leaving an empty buffer behind.
    pub fn on_stop(&mut self) -> (r: Vec<i16>)
        requires
            old(self).well_formed(),
        ensures
            final(self).well_formed(),
            final(self).same_format(old(self)),
            r@ == old(self).buffer_view(),
            final(self).buffer_view() == Seq::<i16>::empty(),
            !final(self).is_recording(),
    {
        self.recording = false;
        let mut taken: Vec<i16> = Vec::new();
        core::mem::swap(&mut taken, &mut self.buffer);
        taken
    }

    /// One drained sample chunk: while recording, the chunk is downmixed,
    /// decimated, and appended to the buffer; otherwise it is discarded.
    pub fn on_chunk(&mut self, chunk: &Vec<i16>)
        requires
            old(self).well_formed(),
            old(self).buffer_view().len() + chunk@.len() <= usize::MAX,
        ensures
            final(self).well_formed(),
            final(self).same_format(old(self)),
            final(self).is_recording() == old(self).is_recording(),
            final(self).buffer_view() == old(self).buffer_view() + (if old(self).is_recording() {
                process_chunk(chunk@, old(self).spec_channels(), old(self).spec_stride())
            } else {
                Seq::<i16>::empty()
            }),
    {
        if self.recording {
            let mono = downmix_chunk(chunk, self.channels);
            let k = stride_for(self.native_rate, TARGET_SAMPLE_RATE);
            proof {
                lemma_downmix_len(chunk@, self.channels as int);
            }
            let dec = decimate_samples(&mono, k);
            proof {
                lemma_decimate_len(mono@, k as int);
            }
            push_all(&mut self.buffer, &dec);
        } else {
            proof {
                assert(old(self).buffer_view() + Seq::<i16>::empty() =~= old(self).buffer_view());
            }
        }
    }

    /// Drains one control command: Start clears the buffer and begins
    /// recording; Stop ends recording and hands the accumulated buffer back
    /// as the reply; Shutdown changes nothing here (the control loop around
    /// the worker terminates).
    pub fn apply_command(&mut self, cmd: AudioCommand) -> (reply: Option<Vec<i16>>)
        requires
            old(self).well_formed(),
        ensures
            final(self).well_formed(),
            final(self).same_format(old(self)),
            match cmd {
                AudioCommand::Start => final(self).buffer_view() == Seq::<i16>::empty()
                    && final(self).is_recording() && reply is None,
                AudioCommand::Stop => !final(self).is_recording() && final(self).buffer_view()
                    == Seq::<i16>::empty() && (reply matches Some(b)
                    && b@ == old(self).buffer_view()),
                AudioCommand::Shutdown => *final(self) == *old(self) && reply is None,
            },
    {
        match cmd {
            AudioCommand::Start => {
                self.on_start();
                None
            },
            AudioCommand::Stop => {
                let b = self.on_stop();
                Some(b)
            },
            AudioCommand::Shutdown => None,
        }
    }
}

/// The buffer after a worker in state (`buf`, `recording`) drains the chunks
/// of `chunks` in order, with channel count `ch` and stride `k`.
pub open spec fn buffer_after_chunks(
    buf: Seq<i16>,
    recording: bool,
    chunks: Seq<Seq<i16>>,
    ch: int,
    k: int,
) -> Seq<i16>
    decreases chunks.len(),
{
    if chunks.len() == 0 || !recording {
        buf
    } else {
        buffer_after_chunks(
            buf + process_chunk(chunks[0], ch, k),
            true,
            chunks.subrange(1, chunks.len() as int),
            ch,
            k,
        )
    }
}

/// The concatenation of the processed chunks, in order.
pub open spec fn concat_processed(chunks: Seq<Seq<i16>>, ch: int, k: int) -> Seq<i16>
    decreases chunks.len(),
{
    if chunks.len() == 0 {
        Seq::empty()
    } else {
        process_chunk(chunks[0], ch, k) + concat_processed(
            chunks.subrange(1, chunks.len() as int),
            ch,
            k,
        )
    }
}

proof fn lemma_buffer_after_chunks_general(buf: Seq<i16>, chunks: Seq<Seq<i16>>, ch: int, k: int)
    ensures
        buffer_after_chunks(buf, true, chunks, ch, k) == buf + concat_processed(chunks, ch, k),
    decreases chunks.len(),
{
    if chunks.len() == 0 {
        assert(buf + Seq::<i16>::empty() =~= buf);
    } else {
        let rest = chunks.subrange(1, chunks.len() as int);
        lemma_buffer_after_chunks_general(buf + process_chunk(chunks[0], ch, k), rest, ch, k);
        assert((buf + process_chunk(chunks[0], ch, k)) + concat_processed(rest, ch, k) =~= buf + (
        process_chunk(chunks[0], ch, k) + concat_processed(rest, ch, k)));
    }
}

/// A session that begins with Start (empty buffer, recording on) and drains
/// any chunks in order stops with exactly the concatenation of the processed
/// chunks; a worker that was never started keeps nothing.
pub proof fn lemma_capture_session(chunks: Seq<Seq<i16>>, ch: int, k: int)
    ensures
        buffer_after_chunks(Seq::empty(), true, chunks, ch, k) == concat_processed(chunks, ch, k),
        buffer_after_chunks(Seq::empty(), false, chunks, ch, k) == Seq::<i16>::empty(),
{
    lemma_buffer_after_chunks_general(Seq::empty(), chunks, ch, k);
    assert(Seq::<i16>::empty() + concat_processed(chunks, ch, k) =~= concat_processed(
        chunks,
        ch,
        k,
    ));
}

/// The caller-side resolution of a Stop reply: a reply that did not arrive —
/// the bounded wait timed out or the channel closed — counts as an empty
/// recording, so the caller never blocks past the wait.
pub fn resolve_stop_reply(reply: Option<Vec<i16>>) -> (r: Vec<i16>)
    ensures
        match reply {
            Some(b) => r@ == b@,
            None => r@ == Seq::<i16>::empty(),
        },
{
    match reply {
        Some(b) => b,
        None => Vec::new(),
    }
}

} // verus!

