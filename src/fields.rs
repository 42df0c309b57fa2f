//! Decoded form submissions: an ordered list of key/value pairs.
use vstd::prelude::*;

verus! {

/// The value submitted under `key`: the value of the first pair whose key is
/// `key`, or `None` when no pair has that key.
pub open spec fn field_value(pairs: Seq<(String, String)>, key: Seq<char>) -> Option<Seq<char>>
    decreases pairs.len(),
{
    if pairs.len() == 0 {
        None
    } else if pairs[0].0@ == key {
        Some(pairs[0].1@)
    } else {
        field_value(pairs.subrange(1, pairs.len() as int), key)
    }
}

proof fn lemma_field_value_step(pairs: Seq<(String, String)>, key: Seq<char>, i: int)
    requires
        0 <= i < pairs.len(),
        pairs[i].0@ != key,
    ensures
        field_value(pairs.subrange(i, pairs.len() as int), key) == field_value(
            pairs.subrange(i + 1, pairs.len() as int),
            key,
        ),
{
    let s = pairs.subrange(i, pairs.len() as int);
    assert(s.subrange(1, s.len() as int) =~= pairs.subrange(i + 1, pairs.len() as int));
}

/// Looks up the value submitted under `key`, as `field_value` describes it.
pub fn find_field(pairs: &Vec<(String, String)>, key: &str) -> (r: Option<String>)
    ensures
        r.is_some() == field_value(pairs@, key@).is_some(),
        r.is_some() ==> r->Some_0@ == field_value(pairs@, key@)->Some_0,
{
    let wanted = key.to_string();
    let n = pairs.len();
    let mut i: usize = 0;
    proof {
        assert(pairs@.subrange(0, n as int) =~= pairs@);
    }
    while i < n
        invariant
            n == pairs@.len(),
            wanted@ == key@,
            i <= n,
            field_value(pairs@, key@) == field_value(pairs@.subrange(i as int, n as int), key@),
        decreases n - i,
    {
        if pairs[i].0 == wanted {
            return Some(pairs[i].1.clone());
        }
        proof {
            lemma_field_value_step(pairs@, key@, i as int);
        }
        i = i + 1;
    }
    None
}

} // verus!
