//! Secret-word selection: filter the blank lines out of a word list, pick a
//! random remaining line, and normalise it by trimming and lowercasing.

use vstd::prelude::*;

use crate::chars::lower_of;
use crate::chars::lowercase_chars;
use crate::chars::trim_chars;
use crate::chars::trim_view;

verus! {

/// Relies on `rand::random_range`: a uniformly distributed index below `n`.
/// The call panics on an empty range, which the precondition rules out.
#[verifier::external_body]
fn random_index(n: usize) -> (r: usize)
    requires
        n > 0,
    ensures
        r < n,
{
    rand::random_range(0..n)
}

/// Whether a line has at least one non-whitespace character.
pub open spec fn non_blank(line: Seq<char>) -> bool {
    trim_view(line).len() > 0
}

/// Pick the secret word from a word list: a random non-blank line, trimmed
/// and lowercased. Returns `None` exactly when every line is blank, the word
/// list's fatal data error.
pub fn pick_secret_word(lines: &Vec<Vec<char>>) -> (r: Option<Vec<char>>)
    ensures
        r is None <==> (forall|i: int| 0 <= i < lines@.len() ==> !non_blank(#[trigger] lines@[i]@)),
        r matches Some(w) ==> w@.len() > 0 && (exists|i: int|
            0 <= i < lines@.len() && non_blank(#[trigger] lines@[i]@) && w@ == lower_of(
                trim_view(lines@[i]@),
            )),
{
    let mut candidates: Vec<Vec<char>> = Vec::new();
    let ghost mut srcs: Seq<int> = Seq::empty();
    let mut i: usize = 0;
    while i < lines.len()
        invariant
            0 <= i <= lines@.len(),
            srcs.len() == candidates@.len(),
            forall|k: int|
                0 <= k < srcs.len() ==> 0 <= #[trigger] srcs[k] < i && non_blank(
                    lines@[srcs[k]]@,
                ) && candidates@[k]@ == trim_view(lines@[srcs[k]]@),
            candidates@.len() == 0 ==> (forall|j: int|
                0 <= j < i ==> !non_blank(#[trigger] lines@[j]@)),
        decreases lines@.len() - i,
    {
        let t = trim_chars(&lines[i]);
        if t.len() > 0 {
            candidates.push(t);
            proof {
                srcs = srcs.push(i as int);
            }
        }
        i += 1;
    }
    if candidates.len() == 0 {
        return None;
    }
    let idx = random_index(candidates.len());
    let w = lowercase_chars(&candidates[idx]);
    proof {
        let j0 = srcs[idx as int];
        assert(non_blank(lines@[j0]@) && w@ == lower_of(trim_view(lines@[j0]@)));
    }
    Some(w)
}

} // verus!
