//! Deterministic I2C clock selection: the highest candidate frequency that
//! lies within the fixed floor-to-ceiling band.

use vstd::prelude::*;

verus! {

/// Lowest bus frequency the board accepts, in kilohertz.
pub const FREQ_FLOOR_KHZ: u32 = 100;

/// Highest bus frequency the board accepts, in kilohertz.
pub const FREQ_CEIL_KHZ: u32 = 400;

/// A frequency lies in the accepted band.
pub open spec fn in_band(f: u32) -> bool {
    FREQ_FLOOR_KHZ <= f && f <= FREQ_CEIL_KHZ
}

/// Some candidate lies in the accepted band.
pub open spec fn some_candidate_in_band(candidates: Seq<u32>) -> bool {
    exists|i: int| 0 <= i < candidates.len() && in_band(candidates[i])
}

/// `f` is the greatest in-band member of `candidates`.
pub open spec fn is_highest_in_band(candidates: Seq<u32>, f: u32) -> bool {
    &&& candidates.contains(f)
    &&& in_band(f)
    &&& forall|i: int| 0 <= i < candidates.len() && in_band(candidates[i]) ==> candidates[i] <= f
}

/// Picks the highest candidate within the band, or `None` when no candidate
/// lies in it.
pub fn highest_freq_in_band(candidates: &Vec<u32>) -> (r: Option<u32>)
    ensures
        r is Some <==> some_candidate_in_band(candidates@),
        r is Some ==> is_highest_in_band(candidates@, r->Some_0),
{
    let mut best: Option<u32> = None;
    let mut i: usize = 0;
    while i < candidates.len()
        invariant
            0 <= i <= candidates.len(),
            best is Some <==> some_candidate_in_band(candidates@.take(i as int)),
            best is Some ==> is_highest_in_band(candidates@.take(i as int), best->Some_0),
        decreases candidates.len() - i,
    {
        let f = candidates[i];
        if FREQ_FLOOR_KHZ <= f && f <= FREQ_CEIL_KHZ {
            match best {
                None => { best = Some(f); }
                Some(b) => {
                    if f > b {
                        best = Some(f);
                    }
                }
            }
        }
        proof {
            let taken = candidates@.take(i + 1);
            assert(taken.drop_last() =~= candidates@.take(i as int));
            assert(taken.last() == candidates@[i as int]);
            if best is Some {
                let b = best->Some_0;
                if candidates@.take(i as int).contains(b) {
                    let wit = choose|k: int|
                        0 <= k < i && candidates@.take(i as int)[k] == b;
                    assert(taken[wit] == b);
                } else {
                    assert(taken[i as int] == b);
                }
            }
        }
        i = i + 1;
    }
    proof {
        assert(candidates@.take(candidates@.len() as int) =~= candidates@);
    }
    best
}

} // verus!
