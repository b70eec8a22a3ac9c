use vstd::prelude::*;
use crate::retime::frames_view;

verus! {

pub const SAMPLE_MIN: i64 = -32768;
pub const SAMPLE_MAX: i64 = 32767;

/// Hard clip to the range of a signed 16-bit sample.
pub open spec fn clip(x: int) -> int {
    if x > SAMPLE_MAX { SAMPLE_MAX as int } else if x < SAMPLE_MIN { SAMPLE_MIN as int } else { x }
}

/// `s * volume / 1000`, rounded toward zero.
pub open spec fn scaled(s: int, volume_milli: nat) -> int {
    if s >= 0 {
        (s * volume_milli) / 1000
    } else {
        -(((-s) * volume_milli) / 1000)
    }
}

/// One sample after the gain stage.
pub open spec fn gain_sample(s: i16, volume_milli: nat) -> int {
    clip(scaled(s as int, volume_milli))
}

/// A frame after the gain stage, sample by sample.
pub open spec fn gained(frame: Seq<i16>, volume_milli: nat) -> Seq<i16> {
    Seq::new(frame.len(), |i: int| gain_sample(frame[i], volume_milli) as i16)
}

/// Scales one sample by `volume_milli` thousandths and clips the result.
pub fn gain_one(s: i16, volume_milli: u64) -> (r: i16)
    ensures
        r as int == gain_sample(s, volume_milli as nat),
{
    let mag: u128 = if s >= 0 { s as u128 } else { (0i32 - s as i32) as u128 };
    assert(mag <= 32768);
    proof {
        assert(mag * (volume_milli as u128) <= 32768 * 0xffff_ffff_ffff_ffffu128) by (nonlinear_arith)
            requires mag <= 32768;
    }
    let q: u128 = mag * (volume_milli as u128) / 1000;
    if s >= 0 {
        if q > 32767 { 32767 } else { q as i16 }
    } else {
        if q > 32768 { -32768 } else { (0i32 - q as i32) as i16 }
    }
}

/// Scales every sample of a frame, keeping its order and length.
pub fn apply_gain(frame: &Vec<i16>, volume_milli: u64) -> (r: Vec<i16>)
    ensures
        r@ == gained(frame@, volume_milli as nat),
{
    let mut out: Vec<i16> = Vec::with_capacity(frame.len());
    let mut i: usize = 0;
    while i < frame.len()
        invariant
            i <= frame.len(),
            out@ == gained(frame@, volume_milli as nat).take(i as int),
        decreases frame.len() - i,
    {
        let g = gain_one(frame[i], volume_milli);
        out.push(g);
        i += 1;
        assert(out@ =~= gained(frame@, volume_milli as nat).take(i as int));
    }
    assert(out@ =~= gained(frame@, volume_milli as nat));
    out
}

/// Every frame of a chunk after the gain stage.
pub open spec fn gained_chunk(chunk: Seq<Seq<i16>>, volume_milli: nat) -> Seq<Seq<i16>> {
    Seq::new(chunk.len(), |i: int| gained(chunk[i], volume_milli))
}

/// Applies the gain stage to each frame of a chunk, in order.
pub fn apply_gain_chunk(chunk: &Vec<Vec<i16>>, volume_milli: u64) -> (r: Vec<Vec<i16>>)
    ensures
        frames_view(r@) == gained_chunk(frames_view(chunk@), volume_milli as nat),
{
    let ghost want = gained_chunk(frames_view(chunk@), volume_milli as nat);
    let mut out: Vec<Vec<i16>> = Vec::with_capacity(chunk.len());
    let mut i: usize = 0;
    while i < chunk.len()
        invariant
            i <= chunk.len(),
            want == gained_chunk(frames_view(chunk@), volume_milli as nat),
            frames_view(out@) == want.take(i as int),
        decreases chunk.len() - i,
    {
        let g = apply_gain(&chunk[i], volume_milli);
        let ghost prev = out@;
        out.push(g);
        i += 1;
        proof {
            assert(frames_view(out@) =~= frames_view(prev).push(g@));
            assert(frames_view(out@) =~= want.take(i as int));
        }
    }
    assert(frames_view(out@) =~= want);
    out
}

/// A gained sample always lies in the 16-bit range, and a volume of zero
/// gives silence.
pub proof fn lemma_gain_in_range(s: i16, volume_milli: nat)
    ensures
        SAMPLE_MIN <= gain_sample(s, volume_milli) <= SAMPLE_MAX,
        volume_milli == 0 ==> gain_sample(s, volume_milli) == 0,
        volume_milli == 1000 ==> gain_sample(s, volume_milli) == s as int,
{
    if volume_milli == 0 {
        assert((s as int) * 0 == 0) by (nonlinear_arith);
        assert((-(s as int)) * 0 == 0) by (nonlinear_arith);
    }
    if volume_milli == 1000 {
        assert(((s as int) * 1000) / 1000 == s as int) by (nonlinear_arith);
        assert(((-(s as int)) * 1000) / 1000 == -(s as int)) by (nonlinear_arith);
    }
}

} // verus!
