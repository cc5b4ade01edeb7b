use std::collections::BTreeSet;
use vstd::prelude::*;
use vstd::std_specs::iter::IteratorSpec;
use vstd::std_specs::cmp::OrdSpec;
use vstd::laws_cmp::obeys_cmp;
use vstd::std_specs::btree::{increasing_seq, key_obeys_cmp_spec, spec_btree_keys_iter, spec_btree_set_len};

verus! {

broadcast use vstd::std_specs::btree::group_btree_axioms, vstd::laws_cmp::group_laws_cmp;

/// Whether `x` lies in one of the groups, a group `(start, count)` standing
/// for the numbers `start, start + 1, ..., start + count - 1`.
pub open spec fn in_some_group(groups: Seq<(usize, usize)>, x: int) -> bool {
    exists|i: int|
        0 <= i < groups.len() && #[trigger] groups[i].0 <= x < groups[i].0 + groups[i].1
}

/// Groups are non-empty, come in increasing order and are separated by at
/// least one missing number, so that each group is a maximal run.
pub open spec fn well_separated(groups: Seq<(usize, usize)>) -> bool {
    &&& forall|i: int| 0 <= i < groups.len() ==> #[trigger] groups[i].1 >= 1
    &&& forall|i: int|
        0 <= i < groups.len() - 1 ==> #[trigger] groups[i].0 + groups[i].1 < groups[i + 1].0
}

/// `groups` is the decomposition of `set` into its maximal runs of
/// consecutive numbers, in increasing order.
pub open spec fn is_consecutive_grouping(set: Set<usize>, groups: Seq<(usize, usize)>) -> bool {
    &&& well_separated(groups)
    &&& forall|x: usize| set.contains(x) <==> in_some_group(groups, x as int)
}

proof fn lemma_in_some_group_push(groups: Seq<(usize, usize)>, g: (usize, usize), x: int)
    ensures
        in_some_group(groups.push(g), x) <==> (in_some_group(groups, x) || g.0 <= x < g.0
            + g.1),
{
    let pushed = groups.push(g);
    if in_some_group(pushed, x) {
        let i = choose|i: int|
            0 <= i < pushed.len() && #[trigger] pushed[i].0 <= x < pushed[i].0 + pushed[i].1;
        if i < groups.len() {
            assert(groups[i] == pushed[i]);
        }
    }
    if in_some_group(groups, x) {
        let i = choose|i: int|
            0 <= i < groups.len() && #[trigger] groups[i].0 <= x < groups[i].0 + groups[i].1;
        assert(pushed[i] == groups[i]);
    }
    if g.0 <= x < g.0 + g.1 {
        assert(pushed[groups.len() as int] == g);
    }
}

/// The keys of a set of `usize` come out of its iterator in strictly
/// increasing order, each key exactly once.
proof fn lemma_btree_keys(set: &BTreeSet<usize>)
    ensures
        forall|i: int, j: int|
            0 <= i < j < spec_btree_keys_iter(set).remaining().len() ==> *spec_btree_keys_iter(
                set,
            ).remaining()[i] < *spec_btree_keys_iter(set).remaining()[j],
        spec_btree_keys_iter(set).remaining().unref().to_set() == set@,
        spec_btree_keys_iter(set).remaining().len() <= usize::MAX,
{
    let keys = spec_btree_keys_iter(set).remaining();
    assert(key_obeys_cmp_spec::<usize>());
    assert(obeys_cmp::<usize>());
    assert(obeys_cmp::<&usize>());
    assert(increasing_seq(keys));
    assert forall|i: int, j: int| 0 <= i < j < keys.len() implies *keys[i] < *keys[j] by {
        assert(OrdSpec::cmp_spec(&keys[i], &keys[j]) is Less);
    }
    assert(spec_btree_set_len(set) == set@.len());
}

/// Returns a list of tuples where the first element of a tuple is the first number
/// in a consecutive group, and the second element is the count of numbers in that group.
pub fn consecutive_groups(ordered_set: &BTreeSet<usize>) -> (ret: Vec<(usize, usize)>)
    ensures
        is_consecutive_grouping(ordered_set@, ret@),
{
    let ghost keys = spec_btree_keys_iter(ordered_set).remaining();
    proof {
        lemma_btree_keys(ordered_set);
    }
    let mut ret: Vec<(usize, usize)> = Vec::new();
    let mut current: Option<(usize, usize)> = None;

    for num_ref in it: ordered_set.iter()
        invariant
            it.seq() == keys,
            keys.len() <= usize::MAX,
            forall|i: int, j: int| 0 <= i < j < keys.len() ==> *keys[i] < *keys[j],
            well_separated(ret@),
            current is None <==> it.index() == 0,
            current matches Some(g) ==> {
                &&& 1 <= g.1 <= it.index()
                &&& g.0 + g.1 - 1 == *keys[it.index() - 1]
                &&& ret@.len() > 0 ==> ret@.last().0 + ret@.last().1 < g.0
            },
            current is None ==> ret@.len() == 0,
            forall|x: usize|
                #[trigger] keys.unref().take(it.index()).contains(x) <==> (in_some_group(
                    ret@,
                    x as int,
                ) || (current matches Some(g) && g.0 <= x < g.0 + g.1)),
    {
        let ghost k = it.index();
        let ghost old_ret = ret@;
        let num = *num_ref;
        proof {
            assert(num == *keys[k]);
            assert(keys.unref().take(k + 1) =~= keys.unref().take(k).push(num));
        }
        match current {
            None => {
                current = Some((num, 1));
                proof {
                    assert forall|x: usize|
                        #[trigger] keys.unref().take(k + 1).contains(x) <==> (in_some_group(
                            ret@,
                            x as int,
                        ) || (num <= x < num + 1)) by {
                        assert(keys.unref().take(k + 1)[0] == num);
                    }
                }
            },
            Some((start, count)) => {
                if num == start + count {
                    current = Some((start, count + 1));
                    proof {
                        assert forall|x: usize|
                            #[trigger] keys.unref().take(k + 1).contains(x) <==> (in_some_group(
                                ret@,
                                x as int,
                            ) || (start <= x < start + count + 1)) by {
                            if x == num {
                                assert(keys.unref().take(k + 1)[k] == num);
                            }
                            if keys.unref().take(k).contains(x) {
                                let j = choose|j: int|
                                    0 <= j < k && #[trigger] keys.unref().take(k)[j] == x;
                                assert(keys.unref().take(k + 1)[j] == x);
                            }
                        }
                    }
                } else {
                    ret.push((start, count));
                    current = Some((num, 1));
                    proof {
                        assert forall|x: usize|
                            #[trigger] keys.unref().take(k + 1).contains(x) <==> (in_some_group(
                                ret@,
                                x as int,
                            ) || (num <= x < num + 1)) by {
                            lemma_in_some_group_push(old_ret, (start, count), x as int);
                            if x == num {
                                assert(keys.unref().take(k + 1)[k] == num);
                            }
                            if keys.unref().take(k).contains(x) {
                                let j = choose|j: int|
                                    0 <= j < k && #[trigger] keys.unref().take(k)[j] == x;
                                assert(keys.unref().take(k + 1)[j] == x);
                            }
                        }
                        assert(well_separated(ret@)) by {
                            assert forall|i: int| 0 <= i < ret@.len() - 1 implies #[trigger] ret@[i].0
                                + ret@[i].1 < ret@[i + 1].0 by {
                                if i < old_ret.len() - 1 {
                                    assert(ret@[i] == old_ret[i] && ret@[i + 1] == old_ret[i + 1]);
                                }
                            }
                        }
                    }
                }
            },
        }
    }
    let ghost before_last = ret@;
    if let Some(group) = current {
        ret.push(group);
    }
    proof {
        assert(keys.unref().take(keys.len() as int) =~= keys.unref());
        assert forall|x: usize| ordered_set@.contains(x) <==> in_some_group(ret@, x as int) by {
            assert(keys.unref().to_set().contains(x) <==> keys.unref().contains(x));
            if current is Some {
                lemma_in_some_group_push(before_last, current->0, x as int);
            }
        }
        if current is Some {
            assert(well_separated(ret@)) by {
                assert forall|i: int| 0 <= i < ret@.len() - 1 implies #[trigger] ret@[i].0 + ret@[i].1
                    < ret@[i + 1].0 by {
                    if i < before_last.len() - 1 {
                        assert(ret@[i] == before_last[i] && ret@[i + 1] == before_last[i + 1]);
                    }
                }
            }
        }
    }
    ret
}

} // verus!
