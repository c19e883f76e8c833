//! Lists of named values that stand for maps: each name once, the value of
//! a name being the last one given for it.

use vstd::prelude::*;

verus! {

/// The value of the first entry named `key`, if any.
pub open spec fn first_value<W>(s: Seq<(Seq<char>, W)>, key: Seq<char>) -> Option<W>
    decreases s.len(),
{
    if s.len() == 0 {
        None
    } else if s[0].0 == key {
        Some(s[0].1)
    } else {
        first_value(s.drop_first(), key)
    }
}

/// The value of the last entry named `key`, if any: what a map built by
/// inserting the entries in order holds under `key`.
pub open spec fn last_value<W>(s: Seq<(Seq<char>, W)>, key: Seq<char>) -> Option<W>
    decreases s.len(),
{
    if s.len() == 0 {
        None
    } else {
        match last_value(s.drop_first(), key) {
            Some(v) => Some(v),
            None => if s[0].0 == key {
                Some(s[0].1)
            } else {
                None
            },
        }
    }
}

/// No two entries have the same name.
pub open spec fn keys_unique<W>(s: Seq<(Seq<char>, W)>) -> bool {
    forall|i: int, j: int| 0 <= i < j < s.len() ==> s[i].0 != s[j].0
}

/// A name has a first entry exactly where some entry has it.
pub proof fn lemma_first_value_some<W>(s: Seq<(Seq<char>, W)>, key: Seq<char>)
    ensures
        first_value(s, key) is Some <==> exists|i: int| 0 <= i < s.len() && s[i].0 == key,
    decreases s.len(),
{
    if s.len() > 0 {
        lemma_first_value_some(s.drop_first(), key);
        if exists|i: int| 0 <= i < s.len() && s[i].0 == key {
            let i = choose|i: int| 0 <= i < s.len() && s[i].0 == key;
            if i > 0 {
                assert(s.drop_first()[i - 1].0 == key);
            }
        }
        if exists|i: int| 0 <= i < s.drop_first().len() && s.drop_first()[i].0 == key {
            let i = choose|i: int| 0 <= i < s.drop_first().len() && s.drop_first()[i].0 == key;
            assert(s[i + 1].0 == key);
        }
    }
}

/// On a list whose names are unique, the first and the last entry of a name
/// are the same.
pub proof fn lemma_unique_first_is_last<W>(s: Seq<(Seq<char>, W)>, key: Seq<char>)
    requires
        keys_unique(s),
    ensures
        first_value(s, key) == last_value(s, key),
    decreases s.len(),
{
    if s.len() > 0 {
        let t = s.drop_first();
        assert(keys_unique(t));
        lemma_unique_first_is_last(t, key);
        lemma_first_value_some(t, key);
        if s[0].0 == key {
            assert forall|i: int| 0 <= i < t.len() implies t[i].0 != key by {
                assert(s[0].0 != s[i + 1].0);
            }
        }
    }
}

} // verus!
