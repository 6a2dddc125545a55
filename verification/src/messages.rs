//! The program's fixed output lines: progress on standard output,
//! diagnostics for the error stream.

use vstd::prelude::*;

verus! {

/// The names joined with ", ": everything but the last name, then a comma
/// and the last.
pub open spec fn joined(names: Seq<Seq<char>>) -> Seq<char>
    decreases names.len(),
{
    if names.len() == 0 {
        Seq::empty()
    } else if names.len() == 1 {
        names[0]
    } else {
        joined(names.drop_last()) + ", "@ + names.last()
    }
}

/// Joins the names with ", ", as the no-browser diagnostic lists the
/// candidates.
pub fn join_names(names: &Vec<String>) -> (r: String)
    ensures
        r@ == joined(names@.map_values(|s: String| s@)),
{
    let ghost mapped = names@.map_values(|s: String| s@);
    let mut r = String::new();
    let mut i: usize = 0;
    while i < names.len()
        invariant
            mapped == names@.map_values(|s: String| s@),
            i <= names@.len(),
            r@ == joined(mapped.take(i as int)),
        decreases names@.len() - i,
    {
        if i > 0 {
            r.append(", ");
        }
        r.append(names[i].as_str());
        proof {
            assert(mapped.take(i + 1).drop_last() =~= mapped.take(i as int));
            assert(mapped.take(i + 1).last() == mapped[i as int]);
            if i == 0 {
                assert(r@ =~= joined(mapped.take(i + 1)));
            }
        }
        i += 1;
    }
    proof {
        assert(mapped.take(names@.len() as int) =~= mapped);
    }
    r
}

/// The progress line printed before the archiver runs.
pub fn capturing_message(url: &str) -> (r: String)
    ensures
        r@ == "Capturing "@ + url@,
{
    let mut r = String::from_str("Capturing ");
    r.append(url);
    r
}

/// The confirmation printed when the archiver succeeded.
pub fn done_message() -> (r: String)
    ensures
        r@ == "Done"@,
{
    String::from_str("Done")
}

/// The diagnostic naming every candidate that was tried, printed when no
/// browser was found.
pub fn no_browser_message(names: &Vec<String>) -> (r: String)
    ensures
        r@ == "No browser found. Tried: "@ + joined(names@.map_values(|s: String| s@)),
{
    let mut r = String::from_str("No browser found. Tried: ");
    let list = join_names(names);
    r.append(list.as_str());
    r
}

/// The hint printed under the no-browser diagnostic.
pub fn no_browser_hint() -> (r: String)
    ensures
        r@ == "Specify one with --browser"@,
{
    String::from_str("Specify one with --browser")
}

} // verus!
