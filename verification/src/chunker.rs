//! Progressive chunker: turns a growing sample stream into duration-bounded,
//! overlapping, indexed chunks.
//!
//! Samples are pushed by a single producer.  Whenever the accumulated,
//! not-yet-consumed samples reach the configured chunk size, a chunk is
//! emitted; when the stream ends, [`ProgressiveChunker::flush`] emits the
//! remainder as a final, possibly shorter chunk.  Indices increase from 0 per
//! session.  Every chunk after the first begins with a fixed-duration overlap
//! copied from the tail of the region covered by the previous chunk, so words
//! cut at a boundary appear whole in the next chunk.  Over the whole stream
//! the chunker emits exactly `ceil(stream_len / chunk_samples)` chunks, and
//! only chunk 0 lacks the leading overlap.

use vstd::prelude::*;

verus! {

/// Default chunk duration, in seconds.
pub const DEFAULT_CHUNK_DURATION_SECS: u64 = 90;

/// Geometry of the chunking: all durations are converted to sample counts at
/// the configured rate.
#[derive(Debug, Clone, Copy, PartialEq, Eq, Structural)]
pub struct ChunkerConfig {
    /// Sample rate of the incoming stream, in hertz.
    pub sample_rate: u32,
    /// Duration of one full chunk, in seconds.
    pub chunk_duration_secs: u32,
    /// Duration of the leading overlap, in seconds.
    pub overlap_secs: u32,
}

impl ChunkerConfig {
    /// Number of samples in one full chunk.
    pub open spec fn spec_chunk_samples(self) -> int {
        self.sample_rate * self.chunk_duration_secs
    }

    /// Number of samples of leading overlap.
    pub open spec fn spec_overlap_samples(self) -> int {
        self.sample_rate * self.overlap_secs
    }

    /// A usable geometry: a positive chunk size that fits in memory, and an
    /// overlap no longer than a chunk.
    pub open spec fn wf(self) -> bool {
        &&& 0 < self.sample_rate
        &&& 0 < self.chunk_duration_secs
        &&& self.spec_overlap_samples() <= self.spec_chunk_samples()
        &&& self.spec_chunk_samples() <= usize::MAX
    }

    /// Number of samples in one full chunk.
    pub fn chunk_samples(&self) -> (n: usize)
        requires
            self.wf(),
        ensures
            n == self.spec_chunk_samples(),
            0 < n,
    {
        proof {
            assert(1 * 1 <= self.sample_rate * self.chunk_duration_secs) by (nonlinear_arith)
                requires
                    1 <= self.sample_rate,
                    1 <= self.chunk_duration_secs,
            ;
        }
        (self.sample_rate as usize) * (self.chunk_duration_secs as usize)
    }

    /// Number of samples of leading overlap.
    pub fn overlap_samples(&self) -> (n: usize)
        requires
            self.wf(),
        ensures
            n == self.spec_overlap_samples(),
    {
        proof {
            assert(self.sample_rate * self.overlap_secs >= 0) by (nonlinear_arith);
        }
        (self.sample_rate as usize) * (self.overlap_secs as usize)
    }
}

impl Default for ChunkerConfig {
    /// 90-second chunks of 16 kHz audio with a 2-second overlap.
    fn default() -> (c: Self)
        ensures
            c == (ChunkerConfig { sample_rate: 16000, chunk_duration_secs: 90, overlap_secs: 2 }),
            c.wf(),
    {
        proof {
            assert(16000 * 2 <= 16000 * 90 && 16000 * 90 <= usize::MAX) by (nonlinear_arith);
        }
        ChunkerConfig { sample_rate: 16000, chunk_duration_secs: 90, overlap_secs: 2 }
    }
}

/// One emitted chunk: its samples, its session-scoped index, and whether its
/// head duplicates the tail of the previous chunk.
#[derive(Debug, Clone, PartialEq, Eq)]
pub struct ProgressiveChunk {
    /// The chunk's samples, overlap included.
    pub samples: Vec<i16>,
    /// 0-based emission index.
    pub index: usize,
    /// True on every chunk except the first.
    pub has_leading_overlap: bool,
}

/// The samples of chunk `i` of a stream: chunk 0 is the first
/// `chunk_samples` of the stream; chunk `i > 0` additionally reaches
/// `overlap_samples` back into the region of chunk `i - 1`.
pub open spec fn chunk_window(stream: Seq<i16>, config: ChunkerConfig, i: int) -> Seq<i16> {
    let c = config.spec_chunk_samples();
    let ov = config.spec_overlap_samples();
    if i == 0 {
        stream.subrange(0, c)
    } else {
        stream.subrange(i * c - ov, (i + 1) * c)
    }
}

/// The samples of a final, possibly short chunk emitted at flush time, after
/// `emitted` full chunks.
pub open spec fn final_window(stream: Seq<i16>, config: ChunkerConfig, emitted: int) -> Seq<
    i16,
> {
    let c = config.spec_chunk_samples();
    let ov = config.spec_overlap_samples();
    if emitted == 0 {
        stream
    } else {
        stream.subrange(emitted * c - ov, stream.len() as int)
    }
}

/// Accumulates pushed samples and emits indexed, overlapping chunks.
pub struct ProgressiveChunker {
    /// The chunk geometry, fixed per session.
    pub config: ChunkerConfig,
    /// Samples pushed but not yet covered by an emitted chunk.
    pub buffer: Vec<i16>,
    /// The last `overlap_samples` of the region covered so far (empty before
    /// the first emission).
    pub tail: Vec<i16>,
    /// How many chunks have been emitted.
    pub emitted: usize,
    /// Whether the stream has ended and the remainder was flushed.
    pub closed: bool,
    /// All samples ever pushed, in order.
    pub stream: Ghost<Seq<i16>>,
}

impl ProgressiveChunker {
    /// Internal decomposition: the stream splits into the consumed region
    /// (`emitted` full chunks) and the buffer, and the tail mirrors the end
    /// of the consumed region.
    pub open spec fn inv(self) -> bool {
        let c = self.config.spec_chunk_samples();
        let ov = self.config.spec_overlap_samples();
        &&& self.config.wf()
        &&& self.stream@.len() == self.emitted * c + self.buffer@.len()
        &&& self.buffer@ == self.stream@.subrange(self.emitted * c, self.stream@.len() as int)
        &&& self.emitted > 0 ==> self.tail@ == self.stream@.subrange(
            self.emitted * c - ov,
            self.emitted * c,
        )
        &&& self.emitted == 0 ==> self.tail@.len() == 0
        &&& self.stream@.len() <= usize::MAX
    }

    /// Well-formed between calls: while open, fewer than a full chunk of
    /// samples is pending; once closed, nothing is.
    pub open spec fn wf(self) -> bool {
        &&& !self.closed ==> self.inv() && self.buffer@.len() < self.config.spec_chunk_samples()
        &&& self.closed ==> self.config.wf()
    }

    /// A fresh chunker for one session.
    pub fn new(config: ChunkerConfig) -> (ch: Self)
        requires
            config.wf(),
        ensures
            ch.wf(),
            ch.config == config,
            ch.emitted == 0,
            !ch.closed,
            ch.stream@ == Seq::<i16>::empty(),
            ch.buffer_len() == 0,
    {
        let ch = ProgressiveChunker {
            config,
            buffer: Vec::new(),
            tail: Vec::new(),
            emitted: 0,
            closed: false,
            stream: Ghost(Seq::empty()),
        };
        proof {
            assert(0 < config.spec_chunk_samples()) by (nonlinear_arith)
                requires
                    0 < config.sample_rate,
                    0 < config.chunk_duration_secs,
            ;
            assert(ch.emitted * ch.config.spec_chunk_samples() == 0) by (nonlinear_arith)
                requires
                    ch.emitted == 0,
            ;
            assert(ch.buffer@ =~= ch.stream@.subrange(0, 0));
            assert(ch.inv());
            assert(ch.wf());
        }
        ch
    }

    /// Feed more captured samples and collect every full chunk that becomes
    /// due.  Chunk `k` of the result continues the session's numbering, its
    /// samples are exactly the corresponding window of the whole stream, and
    /// only the session's chunk 0 lacks the leading overlap.  After the call
    /// the chunker has emitted exactly `stream_len / chunk_samples` chunks.
    #[verifier::loop_isolation(false)]
    pub fn push_samples(&mut self, samples: &Vec<i16>) -> (out: Vec<ProgressiveChunk>)
        requires
            old(self).wf(),
            !old(self).closed,
            old(self).stream@.len() + samples@.len() <= usize::MAX,
        ensures
            final(self).wf(),
            !final(self).closed,
            final(self).config == old(self).config,
            final(self).stream@ == old(self).stream@ + samples@,
            final(self).emitted == final(self).stream@.len() as int
                / final(self).config.spec_chunk_samples(),
            final(self).buffer_len() == final(self).stream@.len() - final(self).emitted
                * final(self).config.spec_chunk_samples(),
            out@.len() == final(self).emitted - old(self).emitted,
            forall|k: int|
                0 <= k < out@.len() ==> {
                    &&& (#[trigger] out@[k]).index == old(self).emitted + k
                    &&& out@[k].has_leading_overlap == (out@[k].index != 0)
                    &&& out@[k].samples@ == chunk_window(
                        final(self).stream@,
                        final(self).config,
                        out@[k].index as int,
                    )
                },
    {
        let ghost stream1: Seq<i16> = self.stream@ + samples@;
        let ghost e0: int = self.emitted as int;
        let c = self.config.chunk_samples();
        let ov = self.config.overlap_samples();
        proof {
            assert(self.emitted * self.config.spec_chunk_samples() >= 0) by (nonlinear_arith)
                requires
                    self.emitted >= 0,
                    self.config.spec_chunk_samples() >= 0,
            ;
        }

        // Append the new samples to the pending buffer.
        let mut k: usize = 0;
        while k < samples.len()
            invariant
                k <= samples@.len(),
                self.buffer@ == old(self).buffer@ + samples@.subrange(0, k as int),
                self.config == old(self).config,
                self.emitted == old(self).emitted,
                self.closed == old(self).closed,
                self.tail@ == old(self).tail@,
                self.stream@ == old(self).stream@,
            decreases samples@.len() - k,
        {
            self.buffer.push(samples[k]);
            k = k + 1;
            proof {
                assert(self.buffer@ =~= old(self).buffer@ + samples@.subrange(0, k as int));
            }
        }
        proof {
            self.stream@ = stream1;
            assert(samples@.subrange(0, samples@.len() as int) =~= samples@);
            assert(self.buffer@ =~= stream1.subrange(
                self.emitted * self.config.spec_chunk_samples(),
                stream1.len() as int,
            ));
            if self.emitted > 0 {
                let e = self.emitted as int;
                let cs = self.config.spec_chunk_samples();
                let ovs = self.config.spec_overlap_samples();
                assert(cs <= e * cs) by (nonlinear_arith)
                    requires
                        e >= 1,
                        cs >= 0,
                ;
                assert(self.tail@ =~= stream1.subrange(e * cs - ovs, e * cs));
            }
            assert(self.inv());
        }

        // Emit every full chunk now pending.
        let mut out: Vec<ProgressiveChunk> = Vec::new();
        while self.buffer.len() >= c
            invariant
                self.inv(),
                !self.closed,
                self.config == old(self).config,
                c == self.config.spec_chunk_samples(),
                ov == self.config.spec_overlap_samples(),
                self.stream@ == stream1,
                e0 <= self.emitted,
                out@.len() == self.emitted - e0,
                forall|k: int|
                    0 <= k < out@.len() ==> {
                        &&& (#[trigger] out@[k]).index == e0 + k
                        &&& out@[k].has_leading_overlap == (out@[k].index != 0)
                        &&& out@[k].samples@ == chunk_window(stream1, self.config, out@[k].index as int)
                    },
            decreases self.buffer@.len(),
        {
            let ghost e: int = self.emitted as int;
            let ghost buffer0: Seq<i16> = self.buffer@;
            proof {
                assert(e * c + c == (e + 1) * c) by (nonlinear_arith);
                assert(e >= 1 ==> c <= e * c) by (nonlinear_arith)
                    requires
                        c >= 0,
                ;
                assert(c <= (e + 1) * c) by (nonlinear_arith)
                    requires
                        e >= 0,
                        c >= 0,
                ;
                assert((e + 1) * c <= stream1.len());
                assert(e + 1 <= (e + 1) * c) by (nonlinear_arith)
                    requires
                        e >= 0,
                        c >= 1,
                ;
            }
            // Take the first `c` pending samples.
            let mut consumed = self.buffer.split_off(0);
            let rest = consumed.split_off(c);
            self.buffer = rest;

            // The data of this chunk: previous tail, then the fresh samples.
            let mut data = self.tail.split_off(0);
            let ghost tail0 = data@;
            // The next tail: the last `ov` samples of the consumed region.
            let mut new_tail: Vec<i16> = Vec::new();
            let mut t: usize = c - ov;
            while t < c
                invariant
                    c - ov <= t <= c,
                    consumed@.len() == c,
                    new_tail@ == consumed@.subrange(c - ov, t as int),
                decreases c - t,
            {
                new_tail.push(consumed[t]);
                t = t + 1;
                proof {
                    assert(new_tail@ =~= consumed@.subrange(c - ov, t as int));
                }
            }
            self.tail = new_tail;
            data.append(&mut consumed);

            let idx = self.emitted;
            self.emitted = self.emitted + 1;
            proof {
                assert(data@ =~= chunk_window(stream1, self.config, e)) by {
                    if e == 0 {
                        assert(tail0.len() == 0);
                        assert(data@ =~= stream1.subrange(0, c as int));
                    } else {
                        assert(data@ =~= stream1.subrange(e * c - ov, (e + 1) * c));
                    }
                };
                assert(self.tail@ =~= stream1.subrange((e + 1) * c - ov, (e + 1) * c));
                assert(self.buffer@ =~= stream1.subrange((e + 1) * c, stream1.len() as int));
            }
            let chunk = ProgressiveChunk { samples: data, index: idx, has_leading_overlap: idx != 0 };
            out.push(chunk);
        }
        proof {
            // `emitted` is exactly the floor division of the stream length.
            let cs = self.config.spec_chunk_samples();
            assert(self.emitted == stream1.len() as int / cs) by (nonlinear_arith)
                requires
                    0 < cs,
                    self.emitted * cs <= stream1.len(),
                    stream1.len() < self.emitted * cs + cs,
            ;
        }
        out
    }

    /// Signal end of stream: emit any pending remainder as a final short
    /// chunk.  Afterwards the chunker is closed and has emitted exactly
    /// `ceil(stream_len / chunk_samples)` chunks in total.
    pub fn flush(&mut self) -> (r: Option<ProgressiveChunk>)
        requires
            old(self).wf(),
            !old(self).closed,
        ensures
            final(self).closed,
            final(self).config == old(self).config,
            final(self).stream@ == old(self).stream@,
            old(self).buffer_len() == 0 ==> r is None && final(self).emitted == old(self).emitted,
            old(self).buffer_len() > 0 ==> {
                &&& r matches Option::Some(ch)
                &&& ch.index == old(self).emitted
                &&& ch.has_leading_overlap == (ch.index != 0)
                &&& ch.samples@ == final_window(
                    old(self).stream@,
                    old(self).config,
                    old(self).emitted as int,
                )
                &&& final(self).emitted == old(self).emitted + 1
            },
            final(self).emitted == (final(self).stream@.len() as int
                + final(self).config.spec_chunk_samples() - 1)
                / final(self).config.spec_chunk_samples(),
    {
        proof {
            let cs = self.config.spec_chunk_samples();
            let e = self.emitted as int;
            let len = self.stream@.len() as int;
            let b = self.buffer@.len() as int;
            if b == 0 {
                assert(e == (len + cs - 1) / cs) by (nonlinear_arith)
                    requires
                        0 < cs,
                        len == e * cs,
                ;
            } else {
                assert(e + 1 == (len + cs - 1) / cs) by (nonlinear_arith)
                    requires
                        0 < cs,
                        len == e * cs + b,
                        0 < b < cs,
                ;
            }
        }
        self.closed = true;
        if self.buffer.len() == 0 {
            return Option::None;
        }
        proof {
            let cs = self.config.spec_chunk_samples();
            let e = self.emitted as int;
            assert(e + 1 <= usize::MAX) by (nonlinear_arith)
                requires
                    e >= 0,
                    cs >= 1,
                    e * cs + 1 <= usize::MAX,
            ;
        }
        let mut data = self.tail.split_off(0);
        let ghost tail0 = data@;
        let mut pending = self.buffer.split_off(0);
        data.append(&mut pending);
        let idx = self.emitted;
        self.emitted = self.emitted + 1;
        proof {
            let c = self.config.spec_chunk_samples();
            let ov = self.config.spec_overlap_samples();
            let e = idx as int;
            if e >= 1 {
                assert(c <= e * c) by (nonlinear_arith)
                    requires
                        e >= 1,
                        c >= 0,
                ;
            }
            assert(data@ =~= final_window(self.stream@, self.config, e)) by {
                if e == 0 {
                    assert(tail0.len() == 0);
                } else {
                }
            };
        }
        Option::Some(ProgressiveChunk { samples: data, index: idx, has_leading_overlap: idx != 0 })
    }

    /// How many samples are pending, not yet covered by an emitted chunk.
    pub open spec fn buffer_len(self) -> int {
        self.buffer@.len() as int
    }

    /// How many chunks the session has emitted so far.
    pub fn emitted_count(&self) -> (n: usize)
        ensures
            n == self.emitted,
    {
        self.emitted
    }
}

} // verus!
