//! Small operations on text that the checks share.

use vstd::prelude::*;

verus! {

/// `s` is one of the entries of `list`.
pub open spec fn listed(list: Seq<&str>, s: Seq<char>) -> bool {
    exists|i: int| 0 <= i < list.len() && (#[trigger] list[i])@ == s
}

/// The views of a sequence of strings.
pub open spec fn texts(v: Seq<String>) -> Seq<Seq<char>> {
    v.map_values(|s: String| s@)
}

/// `s` between the given opening text and a closing double quote.
pub open spec fn quoted(opening: Seq<char>, s: Seq<char>) -> Seq<char> {
    opening + s + "\""@
}

/// Whether two texts are equal, character by character.
pub fn same_text(a: &str, b: &str) -> (r: bool)
    ensures
        r == (a@ == b@),
{
    let n = a.unicode_len();
    if n != b.unicode_len() {
        return false;
    }
    let mut i: usize = 0;
    while i < n
        invariant
            n == a@.len(),
            n == b@.len(),
            i <= n,
            forall|j: int| 0 <= j < i ==> a@[j] == b@[j],
        decreases n - i,
    {
        if a.get_char(i) != b.get_char(i) {
            return false;
        }
        i = i + 1;
    }
    assert(a@ =~= b@);
    true
}

/// Whether `s` is one of the entries of `list`.
pub fn is_listed(s: &str, list: &[&str]) -> (r: bool)
    ensures
        r == listed(list@, s@),
{
    let mut i: usize = 0;
    while i < list.len()
        invariant
            i <= list@.len(),
            forall|j: int| 0 <= j < i ==> (#[trigger] list@[j])@ != s@,
        decreases list@.len() - i,
    {
        if same_text(list[i], s) {
            return true;
        }
        i = i + 1;
    }
    false
}

/// `s` between `opening` and a closing double quote.
pub fn quote(opening: &str, s: &str) -> (r: String)
    ensures
        r@ == quoted(opening@, s@),
{
    let mut out = String::from_str(opening);
    out.append(s);
    out.append("\"");
    out
}

} // verus!
