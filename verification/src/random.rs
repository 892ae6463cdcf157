//! Random test data for the date-slider application: a sorted run of
//! random timestamps between two dates, the two dates included.

use vstd::prelude::*;

verus! {

/// Entries never decrease left to right.
pub open spec fn sorted(s: Seq<i64>) -> bool {
    forall|i: int, j: int| 0 <= i < j < s.len() ==> s[i] <= s[j]
}

/// Relies on rand's `Rng::gen_range` on the thread-local generator: the
/// draw lies in the half-open range it is given, whatever the generator's
/// state; the empty range, on which the call panics, is ruled out.
#[verifier::external_body]
fn gen_range_ts(lo: i64, hi: i64) -> (r: i64)
    requires
        lo < hi,
    ensures
        lo <= r < hi,
{
    rand::Rng::gen_range(&mut rand::thread_rng(), lo..hi)
}

/// Sorts the values ascending; the result holds exactly the entries of
/// the input.
pub fn sort_values(v: &Vec<i64>) -> (r: Vec<i64>)
    ensures
        sorted(r@),
        r@.to_multiset() == v@.to_multiset(),
        r@.len() == v@.len(),
{
    broadcast use vstd::seq_lib::group_to_multiset_ensures;
    broadcast use vstd::seq_lib::to_multiset_insert;

    let mut out: Vec<i64> = Vec::new();
    let mut i: usize = 0;
    while i < v.len()
        invariant
            0 <= i <= v@.len(),
            out@.len() == i,
            sorted(out@),
            out@.to_multiset() == v@.take(i as int).to_multiset(),
        decreases v@.len() - i,
    {
        let x = v[i];
        let mut k: usize = 0;
        while k < out.len() && out[k] <= x
            invariant
                0 <= k <= out@.len(),
                forall|j: int| 0 <= j < k ==> out@[j] <= x,
            decreases out@.len() - k,
        {
            k = k + 1;
        }
        let ghost entry = out@;
        out.insert(k, x);
        proof {
            entry.insert_ensures(k as int, x);
            assert forall|a: int, b: int| 0 <= a < b < out@.len() implies out@[a] <= out@[b] by {
                if b < k {
                    assert(out@[a] == entry[a] && out@[b] == entry[b]);
                } else if a < k && b == k {
                    assert(out@[a] == entry[a] && out@[b] == x);
                } else if a < k {
                    assert(out@[a] == entry[a] && out@[b] == entry[b - 1]);
                    assert(entry[a] <= x);
                    if k < entry.len() {
                        assert(x < entry[k as int]);
                        assert(entry[k as int] <= entry[b - 1]);
                    }
                } else if a == k {
                    assert(out@[a] == x && out@[b] == entry[b - 1]);
                    assert(x < entry[k as int]);
                    assert(entry[k as int] <= entry[b - 1]);
                } else {
                    assert(out@[a] == entry[a - 1] && out@[b] == entry[b - 1]);
                }
            }
            vstd::seq_lib::to_multiset_insert(entry, k as int, x);
            assert(v@.take(i + 1) =~= v@.take(i as int).push(x));
            assert(out@.to_multiset() == entry.to_multiset().insert(x));
            vstd::seq_lib::to_multiset_build(v@.take(i as int), x);
            assert(v@.take(i as int).push(x).to_multiset() == v@.take(
                i as int,
            ).to_multiset().insert(x));
            assert(out@.to_multiset() == v@.take(i + 1).to_multiset());
        }
        i = i + 1;
    }
    proof {
        assert(v@.take(v@.len() as int) =~= v@);
    }
    out
}

/// Draws `num` timestamps between the two dates: `num - 2` uniform draws
/// from the span, plus the two bounds themselves, sorted ascending.
/// Every entry lies between the bounds, and both bounds are present.
pub fn gen_random_dates(min: i64, max: i64, num: usize) -> (r: Vec<i64>)
    requires
        min < max,
        num >= 2,
    ensures
        r@.len() == num,
        sorted(r@),
        forall|i: int| 0 <= i < r@.len() ==> min <= #[trigger] r@[i] <= max,
        r@.to_multiset().contains(min),
        r@.to_multiset().contains(max),
{
    broadcast use vstd::seq_lib::group_to_multiset_ensures;

    let mut drawn: Vec<i64> = Vec::new();
    let mut i: usize = 0;
    while i < num - 2
        invariant
            min < max,
            num >= 2,
            0 <= i <= num - 2,
            drawn@.len() == i,
            forall|j: int| 0 <= j < i ==> min <= #[trigger] drawn@[j] < max,
        decreases num - 2 - i,
    {
        let t = gen_range_ts(min, max);
        drawn.push(t);
        i = i + 1;
    }
    drawn.push(min);
    drawn.push(max);
    let r = sort_values(&drawn);
    proof {
        assert(drawn@.to_multiset().contains(min)) by {
            assert(drawn@[drawn@.len() - 2] == min);
            assert(drawn@.contains(min));
        }
        assert(drawn@.to_multiset().contains(max)) by {
            assert(drawn@[drawn@.len() - 1] == max);
            assert(drawn@.contains(max));
        }
        assert forall|i2: int| 0 <= i2 < r@.len() implies min <= #[trigger] r@[i2] <= max by {
            assert(r@.contains(r@[i2]));
            assert(r@.to_multiset().contains(r@[i2]));
            assert(drawn@.to_multiset().contains(r@[i2]));
            assert(drawn@.contains(r@[i2]));
            let w = choose|w: int| 0 <= w < drawn@.len() && drawn@[w] == r@[i2];
            assert(min <= drawn@[w] <= max);
        }
    }
    r
}

}
