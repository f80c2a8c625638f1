//! Character-level helpers: string equality and newline joining.

use vstd::prelude::*;

verus! {

/// Exact equality of two string slices, character for character.
pub fn str_eq(a: &str, b: &str) -> (r: bool)
    ensures
        r == (a@ == b@),
{
    let alen = a.unicode_len();
    let blen = b.unicode_len();
    if alen != blen {
        return false;
    }
    let mut i: usize = 0;
    while i < alen
        invariant
            alen == a@.len(),
            blen == b@.len(),
            alen == blen,
            i <= alen,
            forall|j: int| 0 <= j < i ==> a@[j] == b@[j],
        decreases alen - i,
    {
        if a.get_char(i) != b.get_char(i) {
            return false;
        }
        i += 1;
    }
    proof {
        assert(a@ =~= b@);
    }
    true
}

/// The keys of a listing, joined by a newline between neighbours.
pub open spec fn join_lines_spec(ks: Seq<Seq<char>>) -> Seq<char>
    decreases ks.len(),
{
    if ks.len() == 0 {
        Seq::empty()
    } else if ks.len() == 1 {
        ks[0]
    } else {
        join_lines_spec(ks.drop_last()) + "\n"@ + ks.last()
    }
}

/// Joins the strings of `keys` with a newline between neighbours.
pub fn join_lines(keys: &Vec<String>) -> (s: String)
    ensures
        s@ == join_lines_spec(keys.deep_view()),
{
    let mut s = String::new();
    let mut i: usize = 0;
    while i < keys.len()
        invariant
            i <= keys.len(),
            keys.deep_view().len() == keys.len(),
            s@ == join_lines_spec(keys.deep_view().take(i as int)),
        decreases keys.len() - i,
    {
        proof {
            let ks = keys.deep_view();
            assert(ks.take(i + 1).drop_last() =~= ks.take(i as int));
            assert(ks.take(i + 1).last() == ks[i as int]);
        }
        if i > 0 {
            s.append("\n");
        }
        s.append(keys[i].as_str());
        i += 1;
    }
    proof {
        assert(keys.deep_view().take(keys.len() as int) =~= keys.deep_view());
    }
    s
}

} // verus!
