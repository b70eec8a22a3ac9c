use vstd::prelude::*;

verus! {

/// How many frames `n` input frames become at `speed_milli` thousandths:
/// `n / speed`, rounded down.
pub open spec fn retimed_len(n: nat, speed_milli: nat) -> nat
    recommends
        speed_milli > 0,
{
    (n * 1000) / speed_milli
}

/// The input frame that output frame `j` repeats (nearest earlier neighbour).
pub open spec fn source_index(j: nat, speed_milli: nat) -> nat {
    (j * speed_milli) / 1000
}

/// The frames that the speed transformer makes of `frames`.
pub open spec fn retimed<T>(frames: Seq<T>, speed_milli: nat) -> Seq<T>
    recommends
        speed_milli > 0,
{
    Seq::new(
        retimed_len(frames.len(), speed_milli),
        |j: int| frames[source_index(j as nat, speed_milli) as int],
    )
}

pub proof fn lemma_source_in_bounds(n: nat, speed_milli: nat, j: nat)
    requires
        speed_milli > 0,
        j < retimed_len(n, speed_milli),
    ensures
        source_index(j, speed_milli) < n,
        j * speed_milli < n * 1000,
{
    let m = retimed_len(n, speed_milli);
    assert(m * speed_milli <= n * 1000) by (nonlinear_arith)
        requires m == (n * 1000) / speed_milli, speed_milli > 0;
    assert(j * speed_milli < n * 1000) by (nonlinear_arith)
        requires j < m, m * speed_milli <= n * 1000, speed_milli > 0;
    assert((j * speed_milli) / 1000 < n) by (nonlinear_arith)
        requires j * speed_milli < n * 1000;
}

/// Copies a frame sample by sample.
pub fn copy_frame(frame: &Vec<i16>) -> (r: Vec<i16>)
    ensures
        r@ == frame@,
{
    let mut out: Vec<i16> = Vec::with_capacity(frame.len());
    let mut i: usize = 0;
    while i < frame.len()
        invariant
            i <= frame.len(),
            out@ == frame@.take(i as int),
        decreases frame.len() - i,
    {
        out.push(frame[i]);
        i += 1;
        assert(out@ =~= frame@.take(i as int));
    }
    assert(out@ =~= frame@);
    out
}

/// The views of a sequence of frames.
pub open spec fn frames_view(frames: Seq<Vec<i16>>) -> Seq<Seq<i16>> {
    frames.map_values(|f: Vec<i16>| f@)
}

/// Resamples `frames` along the time axis by nearest neighbour so that
/// `speed_milli` thousandths of an input frame pass per output frame.
pub fn retime(frames: &Vec<Vec<i16>>, speed_milli: u64) -> (r: Vec<Vec<i16>>)
    requires
        speed_milli > 0,
    ensures
        frames_view(r@) == retimed(frames_view(frames@), speed_milli as nat),
{
    let n: u128 = frames.len() as u128;
    let len: u128 = n * 1000 / (speed_milli as u128);
    let ghost want = retimed(frames_view(frames@), speed_milli as nat);
    proof {
        assert(len <= n * 1000) by (nonlinear_arith)
            requires len == (n * 1000) / (speed_milli as int), speed_milli > 0;
    }
    let mut out: Vec<Vec<i16>> = Vec::new();
    let mut j: u128 = 0;
    while j < len
        invariant
            len == retimed_len(frames.len() as nat, speed_milli as nat),
            len <= (frames.len() as u128) * 1000,
            speed_milli > 0,
            j <= len,
            want == retimed(frames_view(frames@), speed_milli as nat),
            frames_view(out@) == want.take(j as int),
        decreases len - j,
    {
        proof {
            lemma_source_in_bounds(frames.len() as nat, speed_milli as nat, j as nat);
        }
        let k: u128 = j * (speed_milli as u128) / 1000;
        let f = copy_frame(&frames[k as usize]);
        proof {
            assert(frames_view(frames@)[k as int] == frames@[k as int]@);
            assert(want[j as int] == f@);
        }
        let ghost prev = out@;
        out.push(f);
        proof {
            assert(out@ == prev.push(f));
            assert(frames_view(out@) =~= frames_view(prev).push(f@));
        }
        j += 1;
        assert(frames_view(out@) =~= want.take(j as int));
    }
    assert(frames_view(out@) =~= want);
    out
}

/// Retiming keeps the length within one output frame of `n / speed`, and
/// unit speed is the identity.
pub proof fn lemma_retime_length<T>(frames: Seq<T>, speed_milli: nat)
    requires
        speed_milli > 0,
    ensures
        retimed(frames, speed_milli).len() * speed_milli <= frames.len() * 1000,
        frames.len() * 1000 < (retimed(frames, speed_milli).len() + 1) * speed_milli,
        speed_milli == 1000 ==> retimed(frames, speed_milli) == frames,
{
    let n = frames.len();
    let m = retimed_len(n, speed_milli);
    assert(m * speed_milli <= n * 1000 && n * 1000 < (m + 1) * speed_milli) by (nonlinear_arith)
        requires m == (n * 1000) / speed_milli, speed_milli > 0;
    if speed_milli == 1000 {
        assert(m == n) by (nonlinear_arith) requires m == (n * 1000) / 1000;
        assert forall|j: int| 0 <= j < n implies #[trigger] source_index(j as nat, 1000) == j by {
            assert((j * 1000) / 1000 == j) by (nonlinear_arith) requires j >= 0;
        }
        assert(retimed(frames, speed_milli) =~= frames);
    }
}

} // verus!
