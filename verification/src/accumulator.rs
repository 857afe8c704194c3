//! The window accumulator: buffers incoming variable-length sample
//! chunks and emits fixed-size analysis windows.
//!
//! Windowing is non-overlapping: the hop size equals the window size,
//! so no sample is shared between two windows. Samples are carried as
//! opaque `u32` keys; the accumulator never reads their values.

use vstd::prelude::*;
use vstd::seq_lib::lemma_flatten_concat;

verus! {

/// The complete windows contained in a pending sample stream `s`, in
/// arrival order, each exactly `fft` samples long.
pub open spec fn windows_of(s: Seq<u32>, fft: nat) -> Seq<Seq<u32>>
    decreases s.len(),
    when fft >= 1
{
    if s.len() < fft {
        Seq::empty()
    } else {
        seq![s.take(fft as int)] + windows_of(s.skip(fft as int), fft)
    }
}

/// The samples of a pending stream `s` left over after every complete
/// window of length `fft` has been extracted.
pub open spec fn residue_of(s: Seq<u32>, fft: nat) -> Seq<u32>
    decreases s.len(),
    when fft >= 1
{
    if s.len() < fft {
        s
    } else {
        residue_of(s.skip(fft as int), fft)
    }
}

/// The views of a sequence of emitted window vectors.
pub open spec fn seq_views(ws: Seq<Vec<u32>>) -> Seq<Seq<u32>> {
    ws.map_values(|w: Vec<u32>| w@)
}

/// Buffers incoming sample chunks and drains them as fixed-size
/// windows, keeping fewer than one window of residual samples between
/// calls.
pub struct WindowAccumulator {
    fft_size: usize,
    buffer: Vec<u32>,
}

impl WindowAccumulator {
    /// The samples currently buffered, oldest first.
    pub closed spec fn pending(self) -> Seq<u32> {
        self.buffer@
    }

    /// The fixed length of every emitted window.
    pub closed spec fn window_size(self) -> nat {
        self.fft_size as nat
    }

    /// The accumulator's invariant: the window size is positive and
    /// the residual buffer always holds less than one full window.
    pub open spec fn well_formed(self) -> bool {
        &&& self.window_size() >= 1
        &&& self.pending().len() < self.window_size()
    }

    /// Creates an empty accumulator that emits windows of exactly
    /// `fft_size` samples.
    pub fn new(fft_size: usize) -> (r: Self)
        requires
            fft_size >= 1,
        ensures
            r.well_formed(),
            r.window_size() == fft_size,
            r.pending() == Seq::<u32>::empty(),
    {
        let r = WindowAccumulator { fft_size, buffer: Vec::new() };
        proof {
            assert(r.pending() =~= Seq::<u32>::empty());
        }
        r
    }

    /// Returns how many samples are buffered but not yet part of a
    /// complete window.
    pub fn pending_len(&self) -> (r: usize)
        ensures
            r == self.pending().len(),
    {
        self.buffer.len()
    }

    /// Returns the fixed length of every emitted window.
    pub fn window_len(&self) -> (r: usize)
        ensures
            r == self.window_size(),
    {
        self.fft_size
    }

    /// Appends `chunk` to the pending samples, then extracts and
    /// returns every complete window, oldest first. Leftover samples
    /// stay buffered for the next call.
    pub fn push(&mut self, chunk: &Vec<u32>) -> (r: Vec<Vec<u32>>)
        requires
            old(self).well_formed(),
        ensures
            final(self).well_formed(),
            final(self).window_size() == old(self).window_size(),
            seq_views(r@) == windows_of(old(self).pending() + chunk@, old(self).window_size()),
            final(self).pending() == residue_of(old(self).pending() + chunk@, old(self).window_size()),
            forall|i: int| 0 <= i < r@.len() ==> (#[trigger] r@[i])@.len() == old(self).window_size(),
    {
        let fft = self.fft_size;
        let ghost all = old(self).pending() + chunk@;

        let mut i: usize = 0;
        while i < chunk.len()
            invariant
                i <= chunk.len(),
                self.fft_size == old(self).fft_size,
                fft == self.fft_size,
                self.buffer@ == old(self).buffer@ + chunk@.take(i as int),
            decreases chunk.len() - i,
        {
            self.buffer.push(chunk[i]);
            i = i + 1;
        }
        proof {
            assert(self.buffer@ =~= all);
        }

        let mut result: Vec<Vec<u32>> = Vec::new();
        let mut pos: usize = 0;
        proof {
            assert(all.skip(0) =~= all);
            assert(seq_views(result@) + windows_of(all, fft as nat) =~= windows_of(all, fft as nat));
        }
        while self.buffer.len() - pos >= fft
            invariant
                self.fft_size == old(self).fft_size,
                fft == self.fft_size,
                fft >= 1,
                self.buffer@ == all,
                pos <= self.buffer.len(),
                seq_views(result@) + windows_of(all.skip(pos as int), fft as nat) == windows_of(
                    all,
                    fft as nat,
                ),
                residue_of(all.skip(pos as int), fft as nat) == residue_of(all, fft as nat),
                forall|k: int| 0 <= k < result@.len() ==> (#[trigger] result@[k])@.len() == fft,
            decreases self.buffer.len() - pos,
        {
            let ghost tail = all.skip(pos as int);
            let mut w: Vec<u32> = Vec::new();
            let mut k: usize = 0;
            while k < fft
                invariant
                    k <= fft,
                    fft == self.fft_size,
                    self.buffer@ == all,
                    pos + fft <= self.buffer.len(),
                    w@ == all.subrange(pos as int, pos as int + k as int),
                decreases fft - k,
            {
                w.push(self.buffer[pos + k]);
                k = k + 1;
            }
            proof {
                assert(w@ =~= tail.take(fft as int));
                assert(tail.skip(fft as int) =~= all.skip(pos as int + fft as int));
                assert(seq_views(result@.push(w)) =~= seq_views(result@).push(w@));
                assert(seq_views(result@).push(w@) + windows_of(
                    all.skip(pos as int + fft as int),
                    fft as nat,
                ) =~= seq_views(result@) + (seq![tail.take(fft as int)] + windows_of(
                    tail.skip(fft as int),
                    fft as nat,
                )));
            }
            result.push(w);
            pos = pos + fft;
        }
        proof {
            assert(windows_of(all.skip(pos as int), fft as nat) =~= Seq::<Seq<u32>>::empty());
            assert(seq_views(result@) + Seq::<Seq<u32>>::empty() =~= seq_views(result@));
        }

        let mut rest: Vec<u32> = Vec::new();
        let mut k: usize = 0;
        let total = self.buffer.len();
        while k < total - pos
            invariant
                pos <= total,
                total == self.buffer.len(),
                k <= total - pos,
                self.buffer@ == all,
                rest@ == all.subrange(pos as int, pos as int + k as int),
            decreases total - pos - k,
        {
            rest.push(self.buffer[pos + k]);
            k = k + 1;
        }
        self.buffer = rest;
        proof {
            assert(self.buffer@ =~= all.skip(pos as int));
        }
        result
    }
}

/// Windowing is complete and order-preserving: the emitted windows,
/// concatenated in order, followed by the residue, reconstruct the
/// whole sample stream; every window is exactly `fft` samples long;
/// and the total emitted sample count plus the residue length equals
/// the stream length.
pub proof fn lemma_windowing_complete(s: Seq<u32>, fft: nat)
    requires
        fft >= 1,
    ensures
        windows_of(s, fft).flatten() + residue_of(s, fft) == s,
        windows_of(s, fft).len() * fft + residue_of(s, fft).len() == s.len(),
        residue_of(s, fft).len() < fft,
        forall|i: int|
            0 <= i < windows_of(s, fft).len() ==> (#[trigger] windows_of(s, fft)[i]).len() == fft,
    decreases s.len(),
{
    if s.len() < fft {
        assert(windows_of(s, fft).flatten() + s =~= s);
    } else {
        let head = seq![s.take(fft as int)];
        let rest = windows_of(s.skip(fft as int), fft);
        lemma_windowing_complete(s.skip(fft as int), fft);
        lemma_flatten_concat(head, rest);
        head.lemma_flatten_one_element();
        assert(head.flatten() == s.take(fft as int));
        assert(rest.flatten() + residue_of(s.skip(fft as int), fft) == s.skip(fft as int));
        assert(windows_of(s, fft).flatten() == s.take(fft as int) + rest.flatten());
        assert(windows_of(s, fft).flatten() + residue_of(s, fft) =~= s.take(fft as int) + s.skip(
            fft as int,
        ));
        assert(s.take(fft as int) + s.skip(fft as int) =~= s);
        let n = rest.len();
        assert((n + 1) * fft == n * fft + fft) by (nonlinear_arith);
        assert(windows_of(s, fft).len() == n + 1);
    }
}

/// Splitting the stream does not change the windows: pushing `a` and
/// then `b` (the second push starting from the residue of the first)
/// emits exactly the windows of the concatenated stream `a + b`, and
/// leaves exactly its residue.
pub proof fn lemma_windowing_split(a: Seq<u32>, b: Seq<u32>, fft: nat)
    requires
        fft >= 1,
    ensures
        windows_of(a + b, fft) == windows_of(a, fft) + windows_of(residue_of(a, fft) + b, fft),
        residue_of(a + b, fft) == residue_of(residue_of(a, fft) + b, fft),
    decreases a.len(),
{
    if a.len() < fft {
        assert(residue_of(a, fft) + b =~= a + b);
        assert(windows_of(a, fft) + windows_of(a + b, fft) =~= windows_of(a + b, fft));
    } else {
        assert((a + b).len() >= fft);
        assert((a + b).take(fft as int) =~= a.take(fft as int));
        assert((a + b).skip(fft as int) =~= a.skip(fft as int) + b);
        lemma_windowing_split(a.skip(fft as int), b, fft);
        assert(windows_of(a + b, fft) =~= windows_of(a, fft) + windows_of(
            residue_of(a, fft) + b,
            fft,
        ));
    }
}

/// The pending samples left after feeding a whole sequence of chunks,
/// in order, into an empty accumulator.
pub open spec fn pending_after(chunks: Seq<Seq<u32>>, fft: nat) -> Seq<u32>
    decreases chunks.len(),
{
    if chunks.len() == 0 {
        Seq::empty()
    } else {
        residue_of(pending_after(chunks.drop_last(), fft) + chunks.last(), fft)
    }
}

/// All windows emitted, in order, while feeding a whole sequence of
/// chunks into an empty accumulator.
pub open spec fn emitted_windows(chunks: Seq<Seq<u32>>, fft: nat) -> Seq<Seq<u32>>
    decreases chunks.len(),
{
    if chunks.len() == 0 {
        Seq::empty()
    } else {
        emitted_windows(chunks.drop_last(), fft) + windows_of(
            pending_after(chunks.drop_last(), fft) + chunks.last(),
            fft,
        )
    }
}

/// Windowing is deterministic in the stream alone: however the sample
/// stream is split into chunks, feeding the chunks in order yields the
/// windows and residue of the concatenated stream.
pub proof fn lemma_windowing_deterministic(chunks: Seq<Seq<u32>>, fft: nat)
    requires
        fft >= 1,
    ensures
        emitted_windows(chunks, fft) == windows_of(chunks.flatten(), fft),
        pending_after(chunks, fft) == residue_of(chunks.flatten(), fft),
    decreases chunks.len(),
{
    if chunks.len() == 0 {
        assert(windows_of(chunks.flatten(), fft) =~= Seq::<Seq<u32>>::empty());
        assert(residue_of(chunks.flatten(), fft) =~= Seq::<u32>::empty());
    } else {
        let init = chunks.drop_last();
        let last = chunks.last();
        lemma_windowing_deterministic(init, fft);
        lemma_windowing_split(init.flatten(), last, fft);
        assert(chunks =~= init + seq![last]);
        lemma_flatten_concat(init, seq![last]);
        seq![last].lemma_flatten_one_element();
        assert(seq![last].flatten() == last);
        assert(chunks.flatten() =~= init.flatten() + last);
        assert(emitted_windows(chunks, fft) =~= windows_of(chunks.flatten(), fft));
    }
}

} // verus!
