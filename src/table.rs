use vstd::prelude::*;

verus! {

/// The map that a list of named entries stands for: a later entry under a
/// name overrides an earlier one.
pub open spec fn keyed<V>(e: Seq<(String, V)>) -> Map<Seq<char>, V>
    decreases e.len(),
{
    if e.len() == 0 {
        Map::empty()
    } else {
        keyed(e.drop_last()).insert(e.last().0@, e.last().1)
    }
}

/// Where the entry that `keyed` takes for `name` stands, if any does.
pub fn position_of<V>(entries: &Vec<(String, V)>, name: &String) -> (r: Option<usize>)
    ensures
        r is None <==> !keyed(entries@).contains_key(name@),
        r matches Some(i) ==> i < entries@.len() && entries@[i as int].0@ == name@
            && keyed(entries@)[name@] == entries@[i as int].1,
{
    let mut i: usize = entries.len();
    proof {
        assert(entries@.take(i as int) =~= entries@);
    }
    while i > 0
        invariant
            i <= entries@.len(),
            keyed(entries@).contains_key(name@) == keyed(entries@.take(i as int)).contains_key(
                name@,
            ),
            keyed(entries@).contains_key(name@) ==> keyed(entries@)[name@] == keyed(
                entries@.take(i as int),
            )[name@],
        decreases i,
    {
        i = i - 1;
        proof {
            assert(entries@.take(i + 1).drop_last() =~= entries@.take(i as int));
            assert(entries@.take(i + 1).last() == entries@[i as int]);
        }
        if entries[i].0 == *name {
            return Some(i);
        }
    }
    None
}

} // verus!
