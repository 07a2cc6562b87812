//! Fitting a name into a limited width: the name itself where it fits, else
//! the longest prefix of it followed by `...` that fits.
use vstd::prelude::*;
use vstd::string::{StrSliceExecFns, StringExecFns};

verus! {

/// The marker appended to a shortened name.
pub open spec fn ellipsis() -> Seq<char> {
    seq!['.', '.', '.']
}

/// The first `k` characters of `name` followed by the marker.
pub open spec fn candidate(name: Seq<char>, k: int) -> Seq<char> {
    name.take(k) + ellipsis()
}

/// The width test `fits` was seen to answer `answer` for the text `text`.
pub open spec fn answered<F: Fn(&str) -> bool>(fits: F, text: Seq<char>, answer: bool) -> bool {
    exists|s: &str| s@ == text && #[trigger] fits.ensures((s,), answer)
}

/// `name@.take(k)` followed by the marker, as a string.
fn make_candidate(name: &str, k: usize) -> (r: String)
    requires
        k <= name@.len(),
    ensures
        r@ == candidate(name@, k as int),
{
    let prefix = String::from_str(name.substring_char(0, k));
    proof {
        reveal_strlit("...");
    }
    prefix.concat("...")
}

/// Asks `fits` about `text`, recording the answer.
fn ask<F: Fn(&str) -> bool>(fits: &F, text: &String) -> (b: bool)
    requires
        forall|s: &str| #[trigger] fits.requires((s,)),
    ensures
        answered(*fits, text@, b),
{
    let s = text.as_str();
    let b = fits(s);
    assert(fits.ensures((s,), b));
    b
}

/// Shortens `name` until the width test `fits` accepts it.
///
/// An empty name, or one that fits, is returned as it is. Otherwise the
/// candidates are the first `k` characters followed by `...`; where even
/// the one-character candidate does not fit the result is empty, else a
/// binary search over `k` returns a candidate that fits whose successor
/// does not (for a test that is monotone in `k`, the longest that fits).
pub fn find_name_candidate<F: Fn(&str) -> bool>(name: &str, fits: &F) -> (r: String)
    requires
        forall|s: &str| #[trigger] fits.requires((s,)),
    ensures
        name@.len() == 0 ==> r@ == name@,
        name@.len() > 0 ==> {
            ||| (r@ == name@ && answered(*fits, name@, true))
            ||| (r@.len() == 0 && answered(*fits, name@, false) && answered(
                *fits,
                candidate(name@, 1),
                false,
            ))
            ||| (answered(*fits, name@, false) && exists|k: int|
                1 <= k <= name@.len() && r@ == candidate(name@, k) && answered(
                    *fits,
                    candidate(name@, k),
                    true,
                ) && (k == name@.len() || answered(*fits, candidate(name@, k + 1), false)))
        },
{
    let n = name.unicode_len();
    if n == 0 {
        return String::from_str(name);
    }
    let whole = String::from_str(name);
    if ask(fits, &whole) {
        return whole;
    }
    // The shortest candidate: one character and the marker.
    let min_candidate = make_candidate(name, 1);
    if !ask(fits, &min_candidate) {
        return String::new();
    }
    let mut found: usize = 0;
    let mut high: usize = n;
    let mut best = String::new();
    while found < high
        invariant
            n == name@.len(),
            forall|s: &str| #[trigger] fits.requires((s,)),
            found <= high <= n,
            answered(*fits, name@, false),
            found == 0 ==> best@.len() == 0,
            found > 0 ==> best@ == candidate(name@, found as int) && answered(
                *fits,
                candidate(name@, found as int),
                true,
            ),
            high == n || answered(*fits, candidate(name@, high + 1), false),
        decreases high - found,
    {
        let mid = found + 1 + (high - found - 1) / 2;
        let c = make_candidate(name, mid);
        if ask(fits, &c) {
            best = c;
            found = mid;
        } else {
            high = mid - 1;
        }
    }
    best
}

} // verus!
