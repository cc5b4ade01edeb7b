//! The recordings saved for a later recognition, in the order they were
//! saved, each found by its identifier.
use vstd::prelude::*;

use super::recording::{
    is_ready_to_take, is_recording_ready_to_take, lemma_recording_updates, same_recording, same_result, Recording,
};
use super::provider::error::RecognizeError;
use crate::song::Song;

verus! {

#[verifier::external_type_specification]
#[verifier::external_body]
#[verifier::reject_recursive_types(K)]
#[verifier::reject_recursive_types(V)]
#[verifier::reject_recursive_types(S)]
pub struct ExIndexMap<K, V, S>(indexmap::IndexMap<K, V, S>);

/// The entries of the map in its order, each key taken by its text. The
/// wrappers below claim of it what the source of `indexmap` shows: keys are
/// distinct (compared as `String`s, that is by their text), new keys go
/// last, and removal by `shift_remove` keeps the order of the others.
pub uninterp spec fn recording_entries(m: indexmap::IndexMap<String, Recording>) -> Seq<(Seq<char>, Recording)>;

/// No key occurs twice.
pub open spec fn keys_distinct(e: Seq<(Seq<char>, Recording)>) -> bool {
    forall|i: int, j: int| 0 <= i < j < e.len() ==> #[trigger] e[i].0 != #[trigger] e[j].0
}

/// Whether some entry has the key `key`.
pub open spec fn has_key(e: Seq<(Seq<char>, Recording)>, key: Seq<char>) -> bool {
    exists|i: int| 0 <= i < e.len() && #[trigger] e[i].0 == key
}

/// `IndexMap::new`: an empty map.
#[verifier::external_body]
fn map_new() -> (r: indexmap::IndexMap<String, Recording>)
    ensures
        recording_entries(r) == Seq::<(Seq<char>, Recording)>::empty(),
{
    indexmap::IndexMap::new()
}

/// `IndexMap::len`: the number of entries. Claimed: it is the length of
/// the entries.
#[verifier::external_body]
fn map_len(m: &indexmap::IndexMap<String, Recording>) -> (r: usize)
    ensures
        r == recording_entries(*m).len(),
{
    m.len()
}

/// `IndexMap::insert_full`: with a key already there, its value is
/// replaced in place and the old one returned with its index; otherwise the
/// entry goes last, at the old length. Keys stay distinct.
#[verifier::external_body]
fn map_insert_full(m: &mut indexmap::IndexMap<String, Recording>, key: String, value: Recording) -> (r: (
    usize,
    Option<Recording>,
))
    ensures
        keys_distinct(recording_entries(*final(m))),
        has_key(recording_entries(*old(m)), key@) ==> {
            &&& r.0 < recording_entries(*old(m)).len()
            &&& recording_entries(*old(m))[r.0 as int].0 == key@
            &&& r.1 == Some(recording_entries(*old(m))[r.0 as int].1)
            &&& recording_entries(*final(m)) == recording_entries(*old(m)).update(r.0 as int, (key@, value))
        },
        !has_key(recording_entries(*old(m)), key@) ==> {
            &&& r.0 == recording_entries(*old(m)).len()
            &&& r.1 is None
            &&& recording_entries(*final(m)) == recording_entries(*old(m)).push((key@, value))
        },
{
    m.insert_full(key, value)
}

/// `IndexMap::get_index`: the entry at `index`, if there is one. Claimed:
/// the key and value there, and `None` past the end.
#[verifier::external_body]
fn map_get_index(m: &indexmap::IndexMap<String, Recording>, index: usize) -> (r: Option<(&String, &Recording)>)
    ensures
        match r {
            Some((k, v)) => {
                &&& index < recording_entries(*m).len()
                &&& k@ == recording_entries(*m)[index as int].0
                &&& *v == recording_entries(*m)[index as int].1
            },
            None => index >= recording_entries(*m).len(),
        },
{
    m.get_index(index)
}

/// `IndexMap::get_index_of`: the index of the entry with the key `key`.
/// Claimed: an index whose key is `key`, and `None` only when no key is.
#[verifier::external_body]
fn map_get_index_of(m: &indexmap::IndexMap<String, Recording>, key: &str) -> (r: Option<usize>)
    ensures
        r matches Some(i) ==> i < recording_entries(*m).len() && recording_entries(*m)[i as int].0 == key@,
        r is None ==> !has_key(recording_entries(*m), key@),
{
    m.get_index_of(key)
}

/// `IndexMap::shift_remove_full`: removes the entry with the key `key` and
/// shifts those after it down by one, returning its index, key and value.
#[verifier::external_body]
fn map_shift_remove_full(m: &mut indexmap::IndexMap<String, Recording>, key: &str) -> (r: Option<(usize, String, Recording)>)
    ensures
        keys_distinct(recording_entries(*final(m))),
        match r {
            Some((i, k, v)) => {
                &&& i < recording_entries(*old(m)).len()
                &&& recording_entries(*old(m))[i as int].0 == key@
                &&& k@ == key@
                &&& v == recording_entries(*old(m))[i as int].1
                &&& recording_entries(*final(m)) == recording_entries(*old(m)).remove(i as int)
            },
            None => {
                &&& !has_key(recording_entries(*old(m)), key@)
                &&& recording_entries(*final(m)) == recording_entries(*old(m))
            },
        },
{
    m.shift_remove_full(key)
}

/// `IndexMap::get_index_mut` at an index below the length: the value
/// there, to change in place. Claimed: whatever is left behind the
/// reference becomes the value at that index, the key staying.
#[verifier::external_body]
fn map_get_index_mut(m: &mut indexmap::IndexMap<String, Recording>, index: usize) -> (r: &mut Recording)
    requires
        index < recording_entries(*old(m)).len(),
    ensures
        *r == recording_entries(*old(m))[index as int].1,
        recording_entries(*final(m)) == recording_entries(*old(m)).update(
            index as int,
            (recording_entries(*old(m))[index as int].0, *final(r)),
        ),
{
    m.get_index_mut(index).unwrap().1
}

/// A change of the list: at `position`, `removed` items went and `added`
/// came.
#[derive(Debug, Clone, Copy, PartialEq, Eq, Structural)]
pub struct ItemsChanged {
    pub position: usize,
    pub removed: usize,
    pub added: usize,
}

/// The entries whose flag in `picked` is false, in order.
pub open spec fn kept(e: Seq<(Seq<char>, Recording)>, picked: Seq<bool>) -> Seq<(Seq<char>, Recording)>
    decreases e.len(),
{
    if e.len() == 0 || picked.len() != e.len() {
        Seq::empty()
    } else if picked.last() {
        kept(e.drop_last(), picked.drop_last())
    } else {
        kept(e.drop_last(), picked.drop_last()).push(e.last())
    }
}

/// The recordings of the entries whose flag in `picked` is true, in order.
pub open spec fn picked_out(e: Seq<(Seq<char>, Recording)>, picked: Seq<bool>) -> Seq<Recording>
    decreases e.len(),
{
    if e.len() == 0 || picked.len() != e.len() {
        Seq::empty()
    } else if picked.last() {
        picked_out(e.drop_last(), picked.drop_last()).push(e.last().1)
    } else {
        picked_out(e.drop_last(), picked.drop_last())
    }
}

/// The positions at which the picked entries are removed one after the
/// other, front to back: each one's position is the number of entries
/// before it that stay.
pub open spec fn removal_positions(picked: Seq<bool>) -> Seq<int>
    decreases picked.len(),
{
    if picked.len() == 0 {
        Seq::empty()
    } else if picked.last() {
        removal_positions(picked.drop_last()).push(kept_count(picked.drop_last()))
    } else {
        removal_positions(picked.drop_last())
    }
}

/// How many flags of `picked` are false.
pub open spec fn kept_count(picked: Seq<bool>) -> int
    decreases picked.len(),
{
    if picked.len() == 0 {
        0
    } else if picked.last() {
        kept_count(picked.drop_last())
    } else {
        kept_count(picked.drop_last()) + 1
    }
}

/// `picked` holds, for each entry, an answer `filter` may give for its
/// recording.
pub open spec fn answers_of<F: Fn(&Recording) -> bool>(filter: F, e: Seq<(Seq<char>, Recording)>, picked: Seq<bool>) -> bool {
    &&& picked.len() == e.len()
    &&& forall|i: int| 0 <= i < e.len() ==> call_ensures(filter, (&e[i].1,), #[trigger] picked[i])
}

/// One more entry looked at: how the kept entries, the picked recordings,
/// the count of kept entries and the removal positions grow.
proof fn lemma_pick_step(e: Seq<(Seq<char>, Recording)>, picked: Seq<bool>, n: int, b: bool)
    requires
        picked.len() == n,
        0 <= n < e.len(),
    ensures
        kept(e.take(n + 1), picked.push(b)) == (if b {
            kept(e.take(n), picked)
        } else {
            kept(e.take(n), picked).push(e[n])
        }),
        picked_out(e.take(n + 1), picked.push(b)) == (if b {
            picked_out(e.take(n), picked).push(e[n].1)
        } else {
            picked_out(e.take(n), picked)
        }),
        kept_count(picked.push(b)) == kept_count(picked) + (if b {
            0int
        } else {
            1int
        }),
        removal_positions(picked.push(b)) == (if b {
            removal_positions(picked).push(kept_count(picked))
        } else {
            removal_positions(picked)
        }),
{
    assert(e.take(n + 1).drop_last() =~= e.take(n));
    assert(picked.push(b).drop_last() =~= picked);
}

/// There are as many kept entries as false flags.
proof fn lemma_kept_len(e: Seq<(Seq<char>, Recording)>, picked: Seq<bool>)
    requires
        picked.len() == e.len(),
    ensures
        kept(e, picked).len() == kept_count(picked),
        kept_count(picked) <= picked.len(),
    decreases e.len(),
{
    if e.len() > 0 {
        lemma_kept_len(e.drop_last(), picked.drop_last());
    }
}

/// For each entry, whether its recording is ready to be taken.
pub open spec fn ready_flags(e: Seq<(Seq<char>, Recording)>) -> Seq<bool> {
    Seq::new(e.len(), |i: int| is_ready_to_take(e[i].1))
}

/// Taking recordings out parts the list in two: every entry either stays
/// or is taken, in its order.
pub proof fn taking_parts_the_list(e: Seq<(Seq<char>, Recording)>, picked: Seq<bool>)
    requires
        picked.len() == e.len(),
    ensures
        kept(e, picked).len() + picked_out(e, picked).len() == e.len(),
        removal_positions(picked).len() == picked_out(e, picked).len(),
        kept(e, picked).len() == kept_count(picked),
    decreases e.len(),
{
    if e.len() > 0 {
        taking_parts_the_list(e.drop_last(), picked.drop_last());
    }
}

/// Where a kept entry comes from: an entry of `e` whose flag is false.
proof fn kept_origin(e: Seq<(Seq<char>, Recording)>, picked: Seq<bool>, i: int) -> (k: int)
    requires
        picked.len() == e.len(),
        0 <= i < kept(e, picked).len(),
    ensures
        0 <= k < e.len(),
        !picked[k],
        kept(e, picked)[i] == e[k],
    decreases e.len(),
{
    let d = e.drop_last();
    let q = picked.drop_last();
    taking_parts_the_list(d, q);
    if picked.last() {
        kept_origin(d, q, i)
    } else if i < kept(d, q).len() {
        kept_origin(d, q, i)
    } else {
        (e.len() - 1) as int
    }
}

/// Where a picked recording comes from: an entry of `e` whose flag is true.
proof fn picked_origin(e: Seq<(Seq<char>, Recording)>, picked: Seq<bool>, j: int) -> (k: int)
    requires
        picked.len() == e.len(),
        0 <= j < picked_out(e, picked).len(),
    ensures
        0 <= k < e.len(),
        picked[k],
        picked_out(e, picked)[j] == e[k].1,
    decreases e.len(),
{
    let d = e.drop_last();
    let q = picked.drop_last();
    taking_parts_the_list(d, q);
    if !picked.last() {
        picked_origin(d, q, j)
    } else if j < picked_out(d, q).len() {
        picked_origin(d, q, j)
    } else {
        (e.len() - 1) as int
    }
}

/// Recordings taken out are detached from the list: no recording that
/// stays has the identifier of one taken, so a later change made through
/// the list cannot reach them, nor a change to them reach the list.
pub proof fn taken_recordings_are_detached(e: Seq<(Seq<char>, Recording)>, picked: Seq<bool>)
    requires
        is_recordings(e),
        picked.len() == e.len(),
    ensures
        forall|j: int|
            0 <= j < picked_out(e, picked).len() ==> !has_key(kept(e, picked), #[trigger] picked_out(e, picked)[j].spec_id()),
{
    assert forall|j: int| 0 <= j < picked_out(e, picked).len() implies !has_key(
        kept(e, picked),
        #[trigger] picked_out(e, picked)[j].spec_id(),
    ) by {
        if has_key(kept(e, picked), picked_out(e, picked)[j].spec_id()) {
            let i = choose|i: int|
                0 <= i < kept(e, picked).len() && #[trigger] kept(e, picked)[i].0 == picked_out(e, picked)[j].spec_id();
            let k1 = kept_origin(e, picked, i);
            let k2 = picked_origin(e, picked, j);
            assert(e[k2].0 == e[k2].1.spec_id());
            assert(k1 != k2);
            if k1 < k2 {
                assert(e[k1].0 != e[k2].0);
            } else {
                assert(e[k2].0 != e[k1].0);
            }
        }
    }
}

/// After the recognized recordings are taken, none that stays is ready,
/// and every one taken is.
pub proof fn taking_recognized_leaves_none_ready(e: Seq<(Seq<char>, Recording)>)
    ensures
        forall|i: int| 0 <= i < kept(e, ready_flags(e)).len() ==> !is_ready_to_take(#[trigger] kept(e, ready_flags(e))[i].1),
        forall|i: int| 0 <= i < picked_out(e, ready_flags(e)).len() ==> is_ready_to_take(#[trigger] picked_out(e, ready_flags(e))[i]),
        kept(e, ready_flags(e)).len() + picked_out(e, ready_flags(e)).len() == e.len(),
    decreases e.len(),
{
    if e.len() > 0 {
        let d = e.drop_last();
        assert(ready_flags(e).drop_last() =~= ready_flags(d));
        taking_recognized_leaves_none_ready(d);
    }
}

/// Each entry's key is its recording's identifier, and no identifier
/// occurs twice.
pub open spec fn is_recordings(e: Seq<(Seq<char>, Recording)>) -> bool {
    &&& keys_distinct(e)
    &&& forall|i: int| 0 <= i < e.len() ==> #[trigger] e[i].0 == e[i].1.spec_id()
}

/// The saved recordings, in the order they were saved.
pub struct Recordings {
    list: indexmap::IndexMap<String, Recording>,
}

impl View for Recordings {
    type V = Seq<(Seq<char>, Recording)>;

    closed spec fn view(&self) -> Seq<(Seq<char>, Recording)> {
        recording_entries(self.list)
    }
}

impl Recordings {
    pub open spec fn wf(self) -> bool {
        is_recordings(self@)
    }

    /// No recording.
    pub fn new() -> (r: Self)
        ensures
            r.wf(),
            r@ == Seq::<(Seq<char>, Recording)>::empty(),
    {
        Recordings { list: map_new() }
    }

    /// How many recordings are saved.
    pub fn n_items(&self) -> (r: usize)
        ensures
            r == self@.len(),
    {
        map_len(&self.list)
    }

    pub fn is_empty(&self) -> (r: bool)
        ensures
            r == (self@.len() == 0),
    {
        self.n_items() == 0
    }

    /// The recording at `position`, if there is one.
    pub fn item(&self, position: usize) -> (r: Option<&Recording>)
        ensures
            position < self@.len() ==> r == Some(&self@[position as int].1),
            position >= self@.len() ==> r is None,
    {
        match map_get_index(&self.list, position) {
            Some((_, recording)) => Some(recording),
            None => None,
        }
    }

    /// Saves `recording` last, or in the place of the recording with the
    /// same identifier. Says where the list changed.
    pub fn insert(&mut self, recording: Recording) -> (changed: ItemsChanged)
        requires
            old(self).wf(),
        ensures
            final(self).wf(),
            changed.removed == 0,
            changed.added == 1,
            changed.position < final(self)@.len(),
            final(self)@[changed.position as int] == (recording.spec_id(), recording),
            has_key(old(self)@, recording.spec_id()) ==> {
                &&& changed.position < old(self)@.len()
                &&& old(self)@[changed.position as int].0 == recording.spec_id()
                &&& final(self)@ == old(self)@.update(changed.position as int, (recording.spec_id(), recording))
            },
            !has_key(old(self)@, recording.spec_id()) ==> {
                &&& changed.position == old(self)@.len()
                &&& final(self)@ == old(self)@.push((recording.spec_id(), recording))
            },
    {
        let id = recording.id().to_owned();
        let ghost rec = recording;
        let (position, _last_value) = map_insert_full(&mut self.list, id, recording);
        proof {
            assert forall|i: int| 0 <= i < self@.len() implies #[trigger] self@[i].0 == self@[i].1.spec_id() by {
                if has_key(old(self)@, rec.spec_id()) {
                    if i != position {
                        assert(self@[i] == old(self)@[i]);
                    }
                } else {
                    if i < old(self)@.len() {
                        assert(self@[i] == old(self)@[i]);
                    }
                }
            }
        }
        ItemsChanged { position, removed: 0, added: 1 }
    }

    /// Sets the result of the recording `id`. When the result changes, the
    /// recording's place in the list is said to have changed.
    pub fn set_recognize_result(&mut self, id: &str, result: Option<Result<Song, RecognizeError>>) -> (r: Option<ItemsChanged>)
        requires
            old(self).wf(),
        ensures
            final(self).wf(),
            !has_key(old(self)@, id@) ==> r is None && final(self)@ == old(self)@,
            forall|i: int| 0 <= i < old(self)@.len() && #[trigger] old(self)@[i].0 == id@ ==> {
                let changed = !same_result(result, old(self)@[i].1.spec_recognize_result());
                &&& final(self)@ == old(self)@.update(i, (id@, if changed {
                    old(self)@[i].1.spec_with_result(result)
                } else {
                    old(self)@[i].1
                }))
                &&& r == if changed {
                    Some(ItemsChanged { position: i as usize, removed: 1, added: 1 })
                } else {
                    None::<ItemsChanged>
                }
            },
    {
        match map_get_index_of(&self.list, id) {
            None => None,
            Some(index) => {
                let ghost before = self@;
                let recording = map_get_index_mut(&mut self.list, index);
                let changed = recording.set_recognize_result(result);
                proof {
                    assert forall|i: int| 0 <= i < before.len() && #[trigger] before[i].0 == id@ implies i == index by {
                        if i != index {
                            assert(before[i].0 == before[index as int].0);
                        }
                    }
                    assert forall|j: int| 0 <= j < self@.len() implies #[trigger] self@[j].0 == self@[j].1.spec_id() by {
                        if j != index {
                            assert(self@[j] == before[j]);
                        }
                    }
                    assert forall|a: int, b: int| 0 <= a < b < self@.len() implies #[trigger] self@[a].0 != #[trigger] self@[b].0 by {
                        assert(self@[a].0 == before[a].0);
                        assert(self@[b].0 == before[b].0);
                    }
                }
                if changed {
                    Some(ItemsChanged { position: index, removed: 1, added: 1 })
                } else {
                    None
                }
            },
        }
    }

    /// Counts one more retry for the recording `id`. Returns whether it is
    /// there.
    pub fn increment_recognize_retries(&mut self, id: &str) -> (found: bool)
        requires
            old(self).wf(),
            forall|i: int| 0 <= i < old(self)@.len() && #[trigger] old(self)@[i].0 == id@
                ==> old(self)@[i].1.spec_recognize_retries() < u8::MAX,
        ensures
            final(self).wf(),
            found == has_key(old(self)@, id@),
            !found ==> final(self)@ == old(self)@,
            forall|i: int| 0 <= i < old(self)@.len() && #[trigger] old(self)@[i].0 == id@
                ==> final(self)@ == old(self)@.update(i, (id@, old(self)@[i].1.spec_with_one_more_retry())),
    {
        match map_get_index_of(&self.list, id) {
            None => false,
            Some(index) => {
                let ghost before = self@;
                let recording = map_get_index_mut(&mut self.list, index);
                recording.increment_recognize_retries();
                proof {
                    assert forall|i: int| 0 <= i < before.len() && #[trigger] before[i].0 == id@ implies i == index by {
                        if i != index {
                            assert(before[i].0 == before[index as int].0);
                        }
                    }
                    assert forall|j: int| 0 <= j < self@.len() implies #[trigger] self@[j].0 == self@[j].1.spec_id() by {
                        if j != index {
                            assert(self@[j] == before[j]);
                        }
                    }
                    assert forall|a: int, b: int| 0 <= a < b < self@.len() implies #[trigger] self@[a].0 != #[trigger] self@[b].0 by {
                        assert(self@[a].0 == before[a].0);
                        assert(self@[b].0 == before[b].0);
                    }
                }
                true
            },
        }
    }

    /// Takes out the recordings whose result is set and final, in order,
    /// and says where the list changed.
    /// Returned recordings are guaranteed to have a recognizing result.
    /// However, the results may not be successful.
    pub fn take_recognized(&mut self) -> (r: (Vec<Recording>, Vec<ItemsChanged>))
        requires
            old(self).wf(),
        ensures
            final(self).wf(),
            final(self)@ == kept(old(self)@, ready_flags(old(self)@)),
            r.0@ == picked_out(old(self)@, ready_flags(old(self)@)),
            forall|j: int| 0 <= j < r.0@.len() ==> !has_key(final(self)@, #[trigger] r.0@[j].spec_id()),
            r.1@.len() == removal_positions(ready_flags(old(self)@)).len(),
            forall|k: int| 0 <= k < r.1@.len() ==> #[trigger] r.1@[k] == (ItemsChanged {
                position: removal_positions(ready_flags(old(self)@))[k] as usize,
                removed: 1,
                added: 0,
            }),
    {
        let ghost e0 = self@;
        let r = self.take_filtered(is_recording_ready_to_take);
        proof {
            let picked = choose|picked: Seq<bool>|
                {
                    &&& answers_of(is_recording_ready_to_take, e0, picked)
                    &&& self@ == kept(e0, picked)
                    &&& r.0@ == picked_out(e0, picked)
                    &&& r.1@.len() == removal_positions(picked).len()
                    &&& forall|k: int| 0 <= k < r.1@.len() ==> #[trigger] r.1@[k] == (ItemsChanged {
                        position: removal_positions(picked)[k] as usize,
                        removed: 1,
                        added: 0,
                    })
                };
            assert(picked =~= ready_flags(e0));
        }
        r
    }

    /// Copies of the recordings whose result is set and final, in order.
    pub fn peek_recognized(&self) -> (r: Vec<Recording>)
        ensures
            r@.len() == picked_out(self@, ready_flags(self@)).len(),
            forall|k: int| 0 <= k < r@.len() ==> same_recording(#[trigger] r@[k], picked_out(self@, ready_flags(self@))[k]),
    {
        let r = self.peek_filtered(is_recording_ready_to_take);
        proof {
            let picked = choose|picked: Seq<bool>|
                {
                    &&& answers_of(is_recording_ready_to_take, self@, picked)
                    &&& r@.len() == picked_out(self@, picked).len()
                    &&& forall|k: int| 0 <= k < r@.len() ==> same_recording(#[trigger] r@[k], picked_out(self@, picked)[k])
                };
            assert(picked =~= ready_flags(self@));
        }
        r
    }

    /// Records what the provider answered for the saved recording `id`:
    /// a song, heard when the recording started, or an error, which counts
    /// one more retry. Says where the list changed, if the result did.
    pub fn apply_recognize_outcome(&mut self, id: &str, outcome: Result<Song, RecognizeError>) -> (r: Option<ItemsChanged>)
        requires
            old(self).wf(),
            forall|i: int| 0 <= i < old(self)@.len() && #[trigger] old(self)@[i].0 == id@
                ==> old(self)@[i].1.spec_recognize_retries() < u8::MAX,
        ensures
            final(self).wf(),
            !has_key(old(self)@, id@) ==> r is None && final(self)@ == old(self)@,
            forall|i: int| 0 <= i < old(self)@.len() && #[trigger] old(self)@[i].0 == id@ ==> {
                let rec = old(self)@[i].1;
                let result = match outcome {
                    Ok(song) => Some(Ok::<Song, RecognizeError>(Song { last_heard: Some(rec.spec_recorded_time()), ..song })),
                    Err(err) => Some(Err::<Song, RecognizeError>(err)),
                };
                let counted = match outcome {
                    Ok(_) => rec,
                    Err(_) => rec.spec_with_one_more_retry(),
                };
                let changed = !same_result(result, rec.spec_recognize_result());
                &&& final(self)@ == old(self)@.update(i, (id@, if changed {
                    counted.spec_with_result(result)
                } else {
                    counted
                }))
                &&& r == if changed {
                    Some(ItemsChanged { position: i as usize, removed: 1, added: 1 })
                } else {
                    None::<ItemsChanged>
                }
            },
    {
        let ghost out0 = outcome;
        let index = match map_get_index_of(&self.list, id) {
            None => {
                return None;
            },
            Some(index) => index,
        };
        let ghost before = self@;
        let recorded_time = match map_get_index(&self.list, index) {
            Some((_, recording)) => recording.recorded_time(),
            None => {
                return None;
            },
        };
        proof {
            assert forall|i: int| 0 <= i < before.len() && #[trigger] before[i].0 == id@ implies i == index by {
                if i != index {
                    assert(before[i].0 == before[index as int].0);
                }
            }
        }
        let result = match outcome {
            Ok(song) => {
                let mut song = song;
                song.last_heard = Some(recorded_time);
                Some(Ok(song))
            },
            Err(err) => {
                self.increment_recognize_retries(id);
                Some(Err(err))
            },
        };
        let ghost mid = self@;
        let ghost rec = before[index as int].1;
        let ghost counted = match out0 {
            Ok(_) => rec,
            Err(_) => rec.spec_with_one_more_retry(),
        };
        proof {
            lemma_recording_updates(rec, result);
            assert(mid == before.update(index as int, (id@, counted)));
            assert(mid[index as int].0 == id@);
            assert(mid[index as int].1 == counted);
        }
        let r = self.set_recognize_result(id, result);
        proof {
            lemma_recording_updates(counted, result);
            let changed = !same_result(result, counted.spec_recognize_result());
            let x = (id@, if changed {
                counted.spec_with_result(result)
            } else {
                counted
            });
            assert(self@ == mid.update(index as int, x));
            assert(mid.update(index as int, x) =~= before.update(index as int, x));
        }
        r
    }

    /// Copies of the recordings that `filter_func` accepts, in order; the
    /// list is left as it is.
    pub fn peek_filtered<F: Fn(&Recording) -> bool>(&self, filter_func: F) -> (r: Vec<Recording>)
        requires
            forall|x: &Recording| #[trigger] call_requires(filter_func, (x,)),
        ensures
            exists|picked: Seq<bool>|
                {
                    &&& answers_of(filter_func, self@, picked)
                    &&& r@.len() == picked_out(self@, picked).len()
                    &&& forall|k: int| 0 <= k < r@.len() ==> same_recording(#[trigger] r@[k], picked_out(self@, picked)[k])
                },
    {
        let mut out: Vec<Recording> = Vec::new();
        let ghost mut picked: Seq<bool> = Seq::empty();
        let n = map_len(&self.list);
        let mut i: usize = 0;
        while i < n
            invariant
                n == self@.len(),
                i <= n,
                picked.len() == i,
                forall|x: &Recording| #[trigger] call_requires(filter_func, (x,)),
                answers_of(filter_func, self@.take(i as int), picked),
                out@.len() == picked_out(self@.take(i as int), picked).len(),
                forall|k: int| 0 <= k < out@.len() ==> same_recording(#[trigger] out@[k], picked_out(self@.take(i as int), picked)[k]),
            decreases n - i,
        {
            let entry = map_get_index(&self.list, i);
            let recording = match entry {
                Some((_, recording)) => recording,
                None => {
                    return out;
                },
            };
            let accepted = filter_func(recording);
            proof {
                lemma_pick_step(self@, picked, i as int, accepted);
                assert(self@.take(i + 1) =~= self@.take(i as int).push(self@[i as int]));
            }
            if accepted {
                out.push(recording.duplicate());
            }
            proof {
                picked = picked.push(accepted);
            }
            i = i + 1;
        }
        assert(self@.take(n as int) =~= self@);
        out
    }

    /// Takes out the recordings that `filter_func` accepts, in order, and
    /// says where the list changed: one removal for each, at the position
    /// it then had.
    pub fn take_filtered<F: Fn(&Recording) -> bool>(&mut self, filter_func: F) -> (r: (Vec<Recording>, Vec<ItemsChanged>))
        requires
            old(self).wf(),
            forall|x: &Recording| #[trigger] call_requires(filter_func, (x,)),
        ensures
            final(self).wf(),
            forall|j: int| 0 <= j < r.0@.len() ==> !has_key(final(self)@, #[trigger] r.0@[j].spec_id()),
            exists|picked: Seq<bool>|
                {
                    &&& answers_of(filter_func, old(self)@, picked)
                    &&& final(self)@ == kept(old(self)@, picked)
                    &&& r.0@ == picked_out(old(self)@, picked)
                    &&& r.1@.len() == removal_positions(picked).len()
                    &&& forall|k: int| 0 <= k < r.1@.len() ==> #[trigger] r.1@[k] == (ItemsChanged {
                        position: removal_positions(picked)[k] as usize,
                        removed: 1,
                        added: 0,
                    })
                },
    {
        let ghost e0 = self@;
        let mut taken: Vec<Recording> = Vec::new();
        let mut changes: Vec<ItemsChanged> = Vec::new();
        let ghost mut picked: Seq<bool> = Seq::empty();
        let mut i: usize = 0;
        proof {
            assert(e0.take(0) =~= Seq::<(Seq<char>, Recording)>::empty());
            assert(e0.skip(0) =~= e0);
            assert(kept(e0.take(0), picked) =~= Seq::<(Seq<char>, Recording)>::empty());
        }
        while i < map_len(&self.list)
            invariant
                self.wf(),
                forall|x: &Recording| #[trigger] call_requires(filter_func, (x,)),
                picked.len() <= e0.len(),
                answers_of(filter_func, e0.take(picked.len() as int), picked),
                self@ == kept(e0.take(picked.len() as int), picked) + e0.skip(picked.len() as int),
                i == kept(e0.take(picked.len() as int), picked).len(),
                taken@ == picked_out(e0.take(picked.len() as int), picked),
                changes@.len() == removal_positions(picked).len(),
                forall|k: int| 0 <= k < changes@.len() ==> #[trigger] changes@[k] == (ItemsChanged {
                    position: removal_positions(picked)[k] as usize,
                    removed: 1,
                    added: 0,
                }),
            decreases self@.len() - i,
        {
            let ghost n = picked.len() as int;
            proof {
                lemma_kept_len(e0.take(n), picked);
                assert(self@[i as int] == e0[n]);
            }
            let entry = map_get_index(&self.list, i);
            let (key, accepted) = match entry {
                Some((key, recording)) => (key.clone(), filter_func(recording)),
                None => {
                    proof {
                        assert(false);
                    }
                    return (taken, changes);
                },
            };
            proof {
                lemma_pick_step(e0, picked, n, accepted);
                assert(e0.take(n + 1) =~= e0.take(n).push(e0[n]));
            }
            if accepted {
                let ghost before = self@;
                let removed = map_shift_remove_full(&mut self.list, key.as_str());
                match removed {
                    Some((index, _, recording)) => {
                        proof {
                            assert(index == i) by {
                                if index != i {
                                    assert(before[index as int].0 == before[i as int].0);
                                }
                            }
                            assert(self@ =~= kept(e0.take(n), picked) + e0.skip(n + 1));
                            assert forall|j: int| 0 <= j < self@.len() implies #[trigger] self@[j].0 == self@[j].1.spec_id() by {
                                if j < i {
                                    assert(self@[j] == before[j]);
                                } else {
                                    assert(self@[j] == before[j + 1]);
                                }
                            }
                        }
                        changes.push(ItemsChanged { position: index, removed: 1, added: 0 });
                        taken.push(recording);
                    },
                    None => {
                        proof {
                            assert(before[i as int].0 == key@);
                            assert(false);
                        }
                    },
                }
            } else {
                proof {
                    assert(kept(e0.take(n), picked).push(e0[n]) + e0.skip(n + 1) =~= self@);
                }
                i = i + 1;
            }
            proof {
                picked = picked.push(accepted);
            }
        }
        proof {
            lemma_kept_len(e0.take(picked.len() as int), picked);
            assert(picked.len() == e0.len());
            assert(e0.take(e0.len() as int) =~= e0);
            assert(self@ =~= kept(e0, picked));
            taken_recordings_are_detached(e0, picked);
        }
        (taken, changes)
    }
}

} // verus!
