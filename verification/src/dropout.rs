use vstd::prelude::*;
use rand::Rng;

verus! {

/// One Bernoulli draw with success probability `num / den`.
///
/// Relies on rand's `Rng::gen_ratio`, called on the generator that
/// `rand::thread_rng` hands out.  Nothing can be promised of a random
/// outcome beyond the two degenerate ratios, which rand documents: a ratio
/// of zero never succeeds and a ratio of one always does.  `gen_ratio`
/// panics when the denominator is zero or smaller than the numerator, so
/// those ratios are excluded.
#[verifier::external_body]
fn bernoulli(num: u32, den: u32) -> (r: bool)
    requires
        1 <= den,
        num <= den,
    ensures
        num == 0 ==> !r,
        num == den ==> r,
{
    rand::thread_rng().gen_ratio(num, den)
}

/// A fresh dropout mask for `n` output units.
///
/// Each unit is dropped (`false`) independently with probability
/// `num / den`, the configured dropout rate, and kept (`true`) otherwise.
/// The draws are random, so only the length and the two degenerate rates
/// are promised: a rate of zero keeps every unit, a rate of one drops
/// every unit.
pub fn dropout_mask(n: usize, num: u32, den: u32) -> (r: Vec<bool>)
    requires
        1 <= den,
        num <= den,
    ensures
        r@.len() == n,
        num == 0 ==> forall|i: int| 0 <= i < n ==> r@[i],
        num == den ==> forall|i: int| 0 <= i < n ==> !r@[i],
{
    let mut r: Vec<bool> = Vec::new();
    let mut i: usize = 0;
    while i < n
        invariant
            1 <= den,
            num <= den,
            i <= n,
            r@.len() == i,
            num == 0 ==> forall|j: int| 0 <= j < i ==> r@[j],
            num == den ==> forall|j: int| 0 <= j < i ==> !r@[j],
        decreases n - i,
    {
        let dropped = bernoulli(num, den);
        r.push(!dropped);
        i = i + 1;
    }
    r
}

} // verus!
