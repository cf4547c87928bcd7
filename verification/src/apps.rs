//! Normalizing the host's list of running applications.
//!
//! The host enumerates the processes on the machine and hands over the
//! full image path of each one, in whatever case the platform reports.
//! The dock compares these against its shortcut paths, so they are
//! folded to lower case and de-duplicated here; the case folding itself
//! is an outside call behind a trusted wrapper.

use vstd::prelude::*;

verus! {

/// The lower-case folding of a character sequence, as the standard
/// library computes it. The folding is a function of the characters
/// alone; its exact table is not modeled.
pub uninterp spec fn lower_of(s: Seq<char>) -> Seq<char>;

/// Relies on str::to_lowercase: the result depends on the characters
/// alone, and an empty string stays empty.
#[verifier::external_body]
fn lowercase(s: &str) -> (r: String)
    ensures
        r@ == lower_of(s@),
        s@.len() == 0 ==> r@.len() == 0,
{
    s.to_lowercase()
}

/// Whether some string in `items` reads `s`.
pub open spec fn spec_has_string(items: Seq<String>, s: Seq<char>) -> bool {
    exists|j: int| 0 <= j < items.len() && #[trigger] items[j]@ == s
}

/// Whether `s` is the lower-case folding of one of `paths`.
pub open spec fn spec_is_folding_of(s: Seq<char>, paths: Seq<String>) -> bool {
    exists|i: int| 0 <= i < paths.len() && s == #[trigger] lower_of(paths[i]@)
}

/// Fold every reported path to lower case and drop duplicates: the result
/// holds exactly the distinct foldings of the input paths, each once.
pub fn normalize_running_paths(paths: &Vec<String>) -> (r: Vec<String>)
    ensures
        // Nothing twice.
        forall|j1: int, j2: int| 0 <= j1 < j2 < r@.len() ==> r@[j1]@ != r@[j2]@,
        // Everything in the result is the folding of some input path.
        forall|j: int| 0 <= j < r@.len() ==> #[trigger] spec_is_folding_of(r@[j]@, paths@),
        // Every input path's folding is in the result.
        forall|i: int| 0 <= i < paths@.len()
            ==> spec_has_string(r@, #[trigger] lower_of(paths@[i]@)),
{
    let mut out: Vec<String> = Vec::new();
    let n = paths.len();
    for k in 0..n
        invariant
            n == paths@.len(),
            forall|j1: int, j2: int| 0 <= j1 < j2 < out@.len() ==> out@[j1]@ != out@[j2]@,
            forall|j: int| 0 <= j < out@.len() ==> #[trigger] spec_is_folding_of(out@[j]@, paths@),
            forall|i: int| 0 <= i < k
                ==> spec_has_string(out@, #[trigger] lower_of(paths@[i]@)),
    {
        let low = lowercase(paths[k].as_str());
        let m = out.len();
        let mut found = false;
        for j in 0..m
            invariant
                n == paths@.len(),
                k < n,
                m == out@.len(),
                low@ == lower_of(paths@[k as int]@),
                found <==> exists|j0: int| 0 <= j0 < j && #[trigger] out@[j0]@ == low@,
        {
            if out[j].eq(&low) {
                found = true;
            }
        }
        if !found {
            let ghost out_before = out@;
            out.push(low);
            proof {
                assert(out@[out_before.len() as int]@ == lower_of(paths@[k as int]@));
                assert forall|j: int| 0 <= j < out@.len()
                    implies #[trigger] spec_is_folding_of(out@[j]@, paths@) by {
                    if j < out_before.len() {
                        assert(out@[j] == out_before[j]);
                        assert(spec_is_folding_of(out_before[j]@, paths@));
                    } else {
                        assert(out@[j]@ == lower_of(paths@[k as int]@));
                    }
                }
                assert forall|i: int| 0 <= i < k + 1
                    implies spec_has_string(out@, #[trigger] lower_of(paths@[i]@)) by {
                    if i < k {
                        let j0 = choose|j0: int|
                            0 <= j0 < out_before.len() && #[trigger] out_before[j0]@
                                == lower_of(paths@[i]@);
                        assert(out@[j0]@ == lower_of(paths@[i]@));
                    }
                }
            }
        } else {
            proof {
                assert(spec_has_string(out@, lower_of(paths@[k as int]@)));
            }
        }
    }
    out
}

} // verus!
