//! The browser locator: a fixed, ordered candidate list and the
//! first-available choice over it.

use vstd::prelude::*;

verus! {

/// The candidate browser names, in probe order: "chrome" is preferred over
/// the generic chromium variants.
pub open spec fn candidates() -> Seq<Seq<char>> {
    seq![
        "chrome"@,
        "chromium"@,
        "google-chrome"@,
        "google-chrome-stable"@,
        "chromium-browser"@,
    ]
}

/// The candidate names as strings, in probe order.
pub fn candidate_names() -> (names: Vec<String>)
    ensures
        names@.map_values(|s: String| s@) == candidates(),
{
    let mut names: Vec<String> = Vec::new();
    names.push(String::from_str("chrome"));
    names.push(String::from_str("chromium"));
    names.push(String::from_str("google-chrome"));
    names.push(String::from_str("google-chrome-stable"));
    names.push(String::from_str("chromium-browser"));
    proof {
        assert(names@.map_values(|s: String| s@) =~= candidates());
    }
    names
}

/// The index of the first `true` in `avail`, if any: the locator's choice
/// over the probes' answers.
pub open spec fn first_hit(avail: Seq<bool>) -> Option<int>
    decreases avail.len(),
{
    if avail.len() == 0 {
        None
    } else if avail[0] {
        Some(0int)
    } else {
        match first_hit(avail.drop_first()) {
            Some(i) => Some(i + 1),
            None => None,
        }
    }
}

/// The locator's choice is the first available candidate: a hit at `i` means
/// the probe at `i` succeeded and every earlier one failed, and no hit means
/// every probe failed.
pub proof fn lemma_first_hit_is_first(avail: Seq<bool>)
    ensures
        match first_hit(avail) {
            Some(i) => 0 <= i < avail.len() && avail[i] && (forall|j: int|
                0 <= j < i ==> !avail[j]),
            None => forall|j: int| 0 <= j < avail.len() ==> !avail[j],
        },
    decreases avail.len(),
{
    if avail.len() == 0 {
    } else if avail[0] {
    } else {
        let tail = avail.drop_first();
        lemma_first_hit_is_first(tail);
        match first_hit(tail) {
            Some(i) => {
                assert(avail[i + 1] == tail[i]);
                assert forall|j: int| 0 <= j < i + 1 implies !avail[j] by {
                    if j > 0 {
                        assert(avail[j] == tail[j - 1]);
                    }
                }
            },
            None => {
                assert forall|j: int| 0 <= j < avail.len() implies !avail[j] by {
                    if j > 0 {
                        assert(avail[j] == tail[j - 1]);
                    }
                }
            },
        }
    }
}

/// A hit at `i` is forced whenever the probe at `i` succeeded and every
/// earlier one failed.
pub proof fn lemma_first_hit_at(avail: Seq<bool>, i: int)
    requires
        0 <= i < avail.len(),
        avail[i],
        forall|j: int| 0 <= j < i ==> !avail[j],
    ensures
        first_hit(avail) == Some(i),
    decreases avail.len(),
{
    if avail[0] {
        assert(i == 0);
    } else {
        lemma_first_hit_at(avail.drop_first(), i - 1);
    }
}

/// No hit is forced whenever every probe failed.
pub proof fn lemma_first_hit_none(avail: Seq<bool>)
    requires
        forall|j: int| 0 <= j < avail.len() ==> !avail[j],
    ensures
        first_hit(avail) is None,
    decreases avail.len(),
{
    if avail.len() > 0 {
        lemma_first_hit_none(avail.drop_first());
    }
}

/// Walks the candidates in probe order and returns the first whose probe
/// succeeded, or `None` when every probe failed.  `avail[i]` answers whether
/// an executable named `candidates()[i]` resolves on the search path.
pub fn locate(avail: &Vec<bool>) -> (r: Option<String>)
    requires
        avail@.len() == candidates().len(),
    ensures
        match r {
            Some(name) => first_hit(avail@) matches Some(i) && name@ == candidates()[i],
            None => first_hit(avail@) is None,
        },
{
    let names = candidate_names();
    let mut i: usize = 0;
    while i < avail.len()
        invariant
            avail@.len() == candidates().len(),
            names@.map_values(|s: String| s@) == candidates(),
            i <= avail@.len(),
            forall|j: int| 0 <= j < i ==> !avail@[j],
        decreases avail@.len() - i,
    {
        if avail[i] {
            proof {
                lemma_first_hit_at(avail@, i as int);
            }
            return Some(names[i].clone());
        }
        i += 1;
    }
    proof {
        lemma_first_hit_none(avail@);
    }
    None
}

} // verus!
