//! The frame codec: deinterleaves a flat sample buffer into fixed-arity
//! multi-channel frames and interleaves frames back. Pure and stateless.
//!
//! An interleaved buffer holds the samples of consecutive frames
//! channel-by-channel (e.g. `L,R,L,R,...` for two channels). Decoding groups
//! each run of `channel_count` consecutive samples into one frame,
//! preserving arrival order.

use vstd::prelude::*;

verus! {

use crate::event::CaptureError;

/// One instant in time across all channels: exactly one sample per channel,
/// in channel order. The arity of every frame of a stream equals the
/// stream's negotiated channel count.
#[derive(Debug)]
pub struct Frame {
    pub samples: Vec<i32>,
}

impl View for Frame {
    type V = Seq<i32>;

    open spec fn view(&self) -> Seq<i32> {
        self.samples@
    }
}

/// The frames obtained by grouping `raw` into consecutive runs of `c`
/// samples, in arrival order. Meaningful when `c > 0` and `c` divides
/// `raw.len()` exactly; any trailing run shorter than `c` is not a frame
/// and does not appear.
pub open spec fn frame_seq(raw: Seq<i32>, c: nat) -> Seq<Seq<i32>>
    decreases raw.len(),
{
    if c == 0 || raw.len() < c {
        Seq::empty()
    } else {
        seq![raw.take(c as int)] + frame_seq(raw.skip(c as int), c)
    }
}

/// A buffer whose length is a positive multiple of `c` is at least `c` long,
/// and dropping one run of `c` leaves a multiple of `c`.
proof fn lemma_mod_step(len: int, c: int)
    requires
        c > 0,
        len > 0,
        len % c == 0,
    ensures
        len >= c,
        (len - c) % c == 0,
{
    assert(len >= c) by (nonlinear_arith)
        requires c > 0, len > 0, len % c == 0,
    ;
    assert((len - c) % c == 0) by (nonlinear_arith)
        requires c > 0, len >= c, len % c == 0,
    ;
}

/// Decoding a whole buffer never produces a partial frame: every frame has
/// exactly `c` samples, and the frames jointly account for every sample.
pub proof fn lemma_no_partial_frames(raw: Seq<i32>, c: nat)
    requires
        c > 0,
        raw.len() % c == 0,
    ensures
        (c as int) * frame_seq(raw, c).len() == raw.len(),
        forall|k: int|
            0 <= k < frame_seq(raw, c).len() ==> (#[trigger] frame_seq(raw, c)[k]).len() == c,
    decreases raw.len(),
{
    if raw.len() == 0 {
        assert((c as int) * 0 == 0) by (nonlinear_arith);
    } else {
        lemma_mod_step(raw.len() as int, c as int);
        let rest = raw.skip(c as int);
        lemma_no_partial_frames(rest, c);
        let n = frame_seq(rest, c).len();
        assert((c as int) * (n + 1) == (c as int) * n + c) by (nonlinear_arith);
        assert(frame_seq(raw, c).len() == n + 1);
        assert(forall|k: int|
            0 <= k < frame_seq(raw, c).len() ==> (#[trigger] frame_seq(raw, c)[k]).len() == c)
        by {
            assert(forall|k: int|
                1 <= k < frame_seq(raw, c).len() ==> frame_seq(raw, c)[k]
                    == #[trigger] frame_seq(rest, c)[k - 1]);
        }
    }
}

/// Round trip: interleaving the frames decoded from a whole buffer back
/// together reproduces that buffer exactly.
pub proof fn lemma_decode_encode_round_trip(raw: Seq<i32>, c: nat)
    requires
        c > 0,
        raw.len() % c == 0,
    ensures
        frame_seq(raw, c).flatten() == raw,
    decreases raw.len(),
{
    if raw.len() == 0 {
        assert(frame_seq(raw, c).flatten() =~= raw);
    } else {
        lemma_mod_step(raw.len() as int, c as int);
        let head = raw.take(c as int);
        let rest = raw.skip(c as int);
        lemma_decode_encode_round_trip(rest, c);
        let fs = frame_seq(raw, c);
        assert(fs.drop_first() =~= frame_seq(rest, c));
        assert(fs.flatten() == head + frame_seq(rest, c).flatten());
        assert(head + rest =~= raw);
    }
}

/// Grouping extends one chunk at a time: appending one whole run of `c`
/// samples to a whole buffer appends exactly one frame.
proof fn lemma_frame_seq_snoc(raw: Seq<i32>, chunk: Seq<i32>, c: nat)
    requires
        c > 0,
        raw.len() % c == 0,
        chunk.len() == c,
    ensures
        frame_seq(raw + chunk, c) == frame_seq(raw, c).push(chunk),
    decreases raw.len(),
{
    if raw.len() == 0 {
        assert(raw + chunk =~= chunk);
        assert(chunk.take(c as int) =~= chunk);
        assert(chunk.skip(c as int) =~= Seq::<i32>::empty());
        assert(frame_seq(chunk.skip(c as int), c) =~= Seq::<Seq<i32>>::empty());
        assert(frame_seq(chunk, c) == seq![chunk.take(c as int)] + frame_seq(
            chunk.skip(c as int),
            c,
        ));
        assert(frame_seq(chunk, c) =~= seq![chunk]);
        assert(frame_seq(raw, c) =~= Seq::<Seq<i32>>::empty());
        assert(frame_seq(raw, c).push(chunk) =~= seq![chunk]);
    } else {
        lemma_mod_step(raw.len() as int, c as int);
        let rest = raw.skip(c as int);
        lemma_frame_seq_snoc(rest, chunk, c);
        assert((raw + chunk).take(c as int) =~= raw.take(c as int));
        assert((raw + chunk).skip(c as int) =~= rest + chunk);
        assert(frame_seq(raw + chunk, c) == seq![raw.take(c as int)] + frame_seq(rest + chunk, c));
        assert(seq![raw.take(c as int)] + frame_seq(rest, c).push(chunk) =~= (seq![raw.take(
            c as int,
        )] + frame_seq(rest, c)).push(chunk));
    }
}

/// Deinterleave a raw buffer into whole frames of `channel_count` samples
/// each, preserving arrival order.
///
/// A zero channel count is rejected as `UnsupportedFormat`. A buffer whose
/// length is not a multiple of `channel_count` breaks the subsystem's
/// delivery invariant and is rejected as `StreamFault` before any decoding
/// is attempted; no partial frame is ever produced.
pub fn decode(raw: &Vec<i32>, channel_count: usize) -> (r: Result<Vec<Frame>, CaptureError>)
    ensures
        r is Ok <==> (channel_count > 0 && raw@.len() % (channel_count as nat) == 0),
        r matches Ok(frames) ==> frames@.map_values(|f: Frame| f@) == frame_seq(
            raw@,
            channel_count as nat,
        ),
        r matches Ok(frames) ==> (channel_count as int) * frames@.len() == raw@.len() && forall|
            k: int,
        | 0 <= k < frames@.len() ==> (#[trigger] frames@[k])@.len() == channel_count,
        channel_count == 0 ==> r == Result::<Vec<Frame>, CaptureError>::Err(
            CaptureError::UnsupportedFormat,
        ),
        channel_count > 0 && raw@.len() % (channel_count as nat) != 0 ==> r == Result::<
            Vec<Frame>,
            CaptureError,
        >::Err(CaptureError::StreamFault),
{
    if channel_count == 0 {
        return Err(CaptureError::UnsupportedFormat);
    }
    if raw.len() % channel_count != 0 {
        return Err(CaptureError::StreamFault);
    }
    let mut frames: Vec<Frame> = Vec::new();
    let mut i: usize = 0;
    while i < raw.len()
        invariant
            0 < channel_count,
            (raw@.len() as int) % (channel_count as int) == 0,
            i <= raw@.len(),
            raw@.len() <= usize::MAX,
            (i as int) % (channel_count as int) == 0,
            frames@.map_values(|f: Frame| f@) == frame_seq(raw@.take(i as int), channel_count as nat),
        decreases raw@.len() - i,
    {
        proof {
            let c = channel_count as int;
            vstd::arithmetic::div_mod::lemma_small_mod(0, channel_count as nat);
            vstd::arithmetic::div_mod::lemma_sub_mod_noop(raw@.len() as int, i as int, c);
            assert((raw@.len() - i) % c == 0);
            lemma_mod_step(raw@.len() - i, c);
        }
        let mut samples: Vec<i32> = Vec::new();
        let mut j: usize = 0;
        while j < channel_count
            invariant
                j <= channel_count,
                i + channel_count <= raw@.len(),
                raw@.len() <= usize::MAX,
                samples@ == raw@.subrange(i as int, i + j),
            decreases channel_count - j,
        {
            samples.push(raw[i + j]);
            assert(samples@ =~= raw@.subrange(i as int, i + j + 1));
            j = j + 1;
        }
        let ghost old_frames = frames@;
        frames.push(Frame { samples });
        proof {
            let chunk = raw@.subrange(i as int, i + channel_count);
            lemma_frame_seq_snoc(raw@.take(i as int), chunk, channel_count as nat);
            assert(raw@.take(i as int) + chunk =~= raw@.take(i + channel_count));
            assert(frames@.map_values(|f: Frame| f@) =~= old_frames.map_values(|f: Frame| f@).push(
                chunk,
            ));
            vstd::arithmetic::div_mod::lemma_mod_self_0(channel_count as int);
            vstd::arithmetic::div_mod::lemma_small_mod(0, channel_count as nat);
            vstd::arithmetic::div_mod::lemma_add_mod_noop(
                i as int,
                channel_count as int,
                channel_count as int,
            );
            assert((i + channel_count) % (channel_count as int) == 0);
        }
        i = i + channel_count;
    }
    proof {
        assert(raw@.take(i as int) =~= raw@);
        lemma_no_partial_frames(raw@, channel_count as nat);
        assert(forall|k: int| 0 <= k < frames@.len() ==> (#[trigger] frames@[k])@ == frame_seq(
            raw@,
            channel_count as nat,
        )[k]);
    }
    Ok(frames)
}

/// Interleave frames back into one flat buffer, in order: the samples of the
/// first frame, then of the second, and so on.
pub fn encode(frames: &Vec<Frame>) -> (r: Vec<i32>)
    ensures
        r@ == frames@.map_values(|f: Frame| f@).flatten(),
{
    let mut out: Vec<i32> = Vec::new();
    let mut i: usize = 0;
    while i < frames.len()
        invariant
            i <= frames@.len(),
            out@ == frames@.take(i as int).map_values(|f: Frame| f@).flatten(),
        decreases frames@.len() - i,
    {
        let ghost prefix = frames@.take(i as int).map_values(|f: Frame| f@);
        let frame = &frames[i];
        let mut j: usize = 0;
        while j < frame.samples.len()
            invariant
                j <= frame@.len(),
                frame == &frames[i as int],
                i < frames@.len(),
                prefix == frames@.take(i as int).map_values(|f: Frame| f@),
                out@ == prefix.flatten() + frame@.take(j as int),
            decreases frame@.len() - j,
        {
            out.push(frame.samples[j]);
            assert(frame@.take(j + 1) =~= frame@.take(j as int).push(frame@[j as int]));
            j = j + 1;
        }
        proof {
            assert(frame@.take(frame@.len() as int) =~= frame@);
            prefix.lemma_flatten_push(frame@);
            assert(frames@.take(i + 1).map_values(|f: Frame| f@) =~= prefix.push(frame@));
            assert(out@ =~= frames@.take(i + 1).map_values(|f: Frame| f@).flatten());
        }
        i = i + 1;
    }
    proof {
        assert(frames@.take(frames@.len() as int) =~= frames@);
    }
    out
}

} // verus!
