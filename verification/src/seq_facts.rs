//! Small facts about duplicate-free sequences and the sets they denote.
use vstd::prelude::*;

verus! {

/// The character contents of each string, in order.
pub open spec fn strings_view(v: Seq<String>) -> Seq<Seq<char>> {
    v.map_values(|s: String| s@)
}

/// Appending an element that is not yet present keeps a sequence free of
/// duplicates and adds exactly that element to its set.
pub proof fn lemma_push_fresh<A>(s: Seq<A>, x: A)
    requires
        s.no_duplicates(),
        !s.contains(x),
    ensures
        s.push(x).no_duplicates(),
        s.push(x).to_set() =~= s.to_set().insert(x),
{
    let t = s.push(x);
    assert forall|a: A| t.to_set().contains(a) <==> s.to_set().insert(x).contains(a) by {
        if s.contains(a) {
            let k = choose|k: int| 0 <= k < s.len() && s[k] == a;
            assert(t[k] == a);
        }
        if a == x {
            assert(t[s.len() as int] == x);
        }
    }
}

/// Removing the element at an index keeps a sequence free of duplicates and
/// removes exactly that element from its set.
pub proof fn lemma_remove_at<A>(s: Seq<A>, i: int)
    requires
        s.no_duplicates(),
        0 <= i < s.len(),
    ensures
        s.remove(i).no_duplicates(),
        s.remove(i).to_set() =~= s.to_set().remove(s[i]),
{
    let t = s.remove(i);
    assert forall|x: A| t.to_set().contains(x) <==> s.to_set().remove(s[i]).contains(x) by {
        if s.contains(x) && x != s[i] {
            let k = choose|k: int| 0 <= k < s.len() && s[k] == x;
            if k < i {
                assert(t[k] == x);
            } else {
                assert(t[k - 1] == x);
            }
        }
    }
}

/// A duplicate-free sequence has as many elements as its set.
pub proof fn lemma_unique_len<A>(s: Seq<A>)
    requires
        s.no_duplicates(),
    ensures
        s.to_set().finite(),
        s.to_set().len() == s.len(),
{
    vstd::seq_lib::seq_to_set_is_finite(s);
    s.unique_seq_to_set();
}

} // verus!
