use vstd::prelude::*;
use vstd::arithmetic::div_mod::lemma_fundamental_div_mod_converse;
use crate::error::EngineError;
use crate::retime::frames_view;
use crate::session::frames_fit;

verus! {

broadcast use Seq::lemma_flatten_push;

/// Lays frames out one after another, channel by channel.
pub fn interleave(frames: &Vec<Vec<i16>>) -> (r: Vec<i16>)
    ensures
        r@ == frames_view(frames@).flatten(),
{
    let mut out: Vec<i16> = Vec::new();
    let mut i: usize = 0;
    while i < frames.len()
        invariant
            i <= frames.len(),
            out@ == frames_view(frames@).take(i as int).flatten(),
        decreases frames.len() - i,
    {
        let f = &frames[i];
        let ghost base = out@;
        let mut j: usize = 0;
        while j < f.len()
            invariant
                j <= f.len(),
                out@ == base + f@.take(j as int),
            decreases f.len() - j,
        {
            out.push(f[j]);
            j += 1;
            assert(out@ =~= base + f@.take(j as int));
        }
        proof {
            assert(f@.take(f@.len() as int) =~= f@);
            assert(frames_view(frames@).take(i + 1) =~= frames_view(frames@).take(i as int).push(f@));
        }
        i += 1;
    }
    assert(frames_view(frames@).take(frames@.len() as int) =~= frames_view(frames@));
    out
}

/// Groups interleaved samples into frames of `channels` samples each. No
/// channels at all is `UnsupportedFormat`; samples that leave a partial
/// frame at the end are `CorruptStream`.
pub fn deinterleave(samples: &Vec<i16>, channels: usize) -> (r: Result<Vec<Vec<i16>>, EngineError>)
    ensures
        channels == 0 ==> r == Err::<Vec<Vec<i16>>, EngineError>(EngineError::UnsupportedFormat),
        channels > 0 && (samples@.len() as int) % (channels as int) != 0
            ==> r == Err::<Vec<Vec<i16>>, EngineError>(EngineError::CorruptStream),
        channels > 0 && (samples@.len() as int) % (channels as int) == 0 ==> r.is_ok()
            && frames_view(r.unwrap()@).flatten() == samples@
            && frames_fit(frames_view(r.unwrap()@), channels as nat),
{
    if channels == 0 {
        return Err(EngineError::UnsupportedFormat);
    }
    let n = samples.len();
    let mut out: Vec<Vec<i16>> = Vec::new();
    let mut pos: usize = 0;
    let ghost mut k: int = 0;
    while pos < n
        invariant
            n == samples@.len(),
            channels > 0,
            pos <= n,
            k >= 0,
            pos == k * channels,
            frames_view(out@).flatten() == samples@.take(pos as int),
            frames_fit(frames_view(out@), channels as nat),
        decreases n - pos,
    {
        if n - pos < channels {
            proof {
                lemma_fundamental_div_mod_converse(n as int, channels as int, k, (n - pos) as int);
            }
            return Err(EngineError::CorruptStream);
        }
        let mut f: Vec<i16> = Vec::with_capacity(channels);
        let mut c: usize = 0;
        while c < channels
            invariant
                pos + channels <= n,
                n == samples@.len(),
                c <= channels,
                f@ == samples@.subrange(pos as int, pos + c),
            decreases channels - c,
        {
            f.push(samples[pos + c]);
            c += 1;
            assert(f@ =~= samples@.subrange(pos as int, pos + c));
        }
        let ghost prev = frames_view(out@);
        out.push(f);
        proof {
            assert(frames_view(out@) =~= prev.push(f@));
            assert(samples@.take(pos + channels) =~= samples@.take(pos as int) + f@);
            assert((k + 1) * channels == k * channels + channels) by (nonlinear_arith);
            k = k + 1;
        }
        pos = pos + channels;
    }
    proof {
        lemma_fundamental_div_mod_converse(n as int, channels as int, k, 0);
        assert(samples@.take(n as int) =~= samples@);
    }
    Ok(out)
}

} // verus!
