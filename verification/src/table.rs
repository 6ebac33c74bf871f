//! The per-character animation table: a keyed collection mapping an
//! `(AnimationState, Direction)` pair to its `Animation`. The table may be
//! partial; lookups of absent pairs return nothing and playback then holds the
//! last rendered sprite. Viewed as a `Map` in specifications.

use vstd::prelude::*;

verus! {

use crate::animation::advance_model;
use crate::animation::rebind_model;
use crate::animation::reset_model;
use crate::animation::wf_anim;
use crate::animation::AnimModel;
use crate::animation::Animation;
use crate::animation::AnimationState;
use crate::animation::Direction;
use crate::animation::DT_MAX_US;

/// The pair that addresses one animation of a character.
pub type AnimKey = (AnimationState, Direction);

/// One keyed slot of the table.
struct TableEntry {
    state: AnimationState,
    direction: Direction,
    animation: Animation,
}

/// Index of the first occurrence of `k`, scanning front to back.
spec fn find_index(keys: Seq<AnimKey>, k: AnimKey) -> Option<int>
    decreases keys.len(),
{
    if keys.len() == 0 {
        None
    } else if keys[0] == k {
        Some(0int)
    } else {
        match find_index(keys.skip(1), k) {
            None => None,
            Some(i) => Some(i + 1),
        }
    }
}

/// A found index is in bounds, carries the key, and nothing before it does.
proof fn lemma_find_some(keys: Seq<AnimKey>, k: AnimKey)
    requires
        find_index(keys, k) is Some,
    ensures
        0 <= find_index(keys, k)->0 < keys.len(),
        keys[find_index(keys, k)->0] == k,
        forall|j: int| 0 <= j < find_index(keys, k)->0 ==> keys[j] != k,
    decreases keys.len(),
{
    if keys.len() > 0 && keys[0] != k {
        lemma_find_some(keys.skip(1), k);
        let i = find_index(keys, k)->0;
        assert forall|j: int| 0 <= j < i implies keys[j] != k by {
            if j > 0 {
                assert(keys.skip(1)[j - 1] == keys[j]);
            }
        }
    }
}

/// A key that occurs nowhere is not found.
proof fn lemma_find_none(keys: Seq<AnimKey>, k: AnimKey)
    requires
        forall|j: int| 0 <= j < keys.len() ==> keys[j] != k,
    ensures
        find_index(keys, k) is None,
    decreases keys.len(),
{
    if keys.len() > 0 {
        lemma_find_none(keys.skip(1), k);
    }
}

/// The first occurrence of `k` is found: at `i` stands `k` and nothing before.
proof fn lemma_find_first(keys: Seq<AnimKey>, k: AnimKey, i: int)
    requires
        0 <= i < keys.len(),
        keys[i] == k,
        forall|j: int| 0 <= j < i ==> keys[j] != k,
    ensures
        find_index(keys, k) == Some(i),
    decreases i,
{
    if i > 0 {
        lemma_find_first(keys.skip(1), k, i - 1);
    }
}

/// Appending an entry leaves earlier finds alone and makes an absent key found
/// at the former end.
proof fn lemma_find_push(keys: Seq<AnimKey>, k0: AnimKey, k: AnimKey)
    ensures
        find_index(keys, k) is Some ==> find_index(keys.push(k0), k) == find_index(keys, k),
        find_index(keys, k) is None && k == k0 ==> find_index(keys.push(k0), k) == Some(
            keys.len() as int,
        ),
        find_index(keys, k) is None && k != k0 ==> find_index(keys.push(k0), k) is None,
    decreases keys.len(),
{
    if keys.len() == 0 {
        reveal_with_fuel(find_index, 2);
        assert(keys.push(k0)[0] == k0);
        assert(keys.push(k0).skip(1) =~= Seq::<AnimKey>::empty());
    } else {
        lemma_find_push(keys.skip(1), k0, k);
        assert(keys.push(k0)[0] == keys[0]);
        assert(keys.push(k0).skip(1) =~= keys.skip(1).push(k0));
        if keys[0] != k && find_index(keys.skip(1), k) is None {
            assert(find_index(keys, k) is None);
            if k != k0 {
                assert(find_index(keys.skip(1).push(k0), k) is None);
                assert(find_index(keys.push(k0), k) is None);
            }
        }
    }
}

/// An enum-keyed table with partial coverage, owned by one character.
pub struct AnimationTable {
    entries: Vec<TableEntry>,
}

impl View for AnimationTable {
    type V = Map<AnimKey, AnimModel>;

    closed spec fn view(&self) -> Map<AnimKey, AnimModel> {
        Map::new(|k: AnimKey| self.at(k) is Some, |k: AnimKey| self.at(k)->0)
    }
}

impl AnimationTable {
    /// The keys of the entries, in storage order.
    spec fn keys(&self) -> Seq<AnimKey> {
        self.entries@.map_values(|e: TableEntry| (e.state, e.direction))
    }

    /// The model of the first entry stored under `k`, if any.
    spec fn at(&self, k: AnimKey) -> Option<AnimModel> {
        match find_index(self.keys(), k) {
            None => None,
            Some(i) => Some(self.entries@[i].animation@),
        }
    }

    /// Every animation held by the table is well formed.
    pub open spec fn wf(&self) -> bool {
        forall|k: AnimKey| #[trigger] self@.dom().contains(k) ==> wf_anim(self@[k])
    }

    /// Bridges storage and view: what `at` answers is what the map holds.
    proof fn lemma_view(&self, k: AnimKey)
        ensures
            self@.dom().contains(k) <==> self.at(k) is Some,
            self.at(k) is Some ==> self@[k] == self.at(k)->0,
    {
    }

    pub fn new() -> (r: AnimationTable)
        ensures
            r.wf(),
            r@ == Map::<AnimKey, AnimModel>::empty(),
    {
        let r = AnimationTable { entries: Vec::new() };
        proof {
            assert forall|k: AnimKey| !(#[trigger] r@.dom().contains(k)) by {
                assert(r.keys() =~= Seq::<AnimKey>::empty());
            }
            assert(r@ =~= Map::<AnimKey, AnimModel>::empty());
        }
        r
    }

    /// Index of the first entry stored under `(state, direction)`, if any.
    #[verifier::loop_isolation(false)]
    fn find(&self, state: AnimationState, direction: Direction) -> (r: Option<usize>)
        ensures
            r is Some <==> find_index(self.keys(), (state, direction)) is Some,
            r is Some ==> r->0 as int == find_index(self.keys(), (state, direction))->0,
    {
        let ghost k: AnimKey = (state, direction);
        let n: usize = self.entries.len();
        let mut i: usize = 0;
        while i < n
            invariant
                0 <= i <= n,
                forall|j: int| 0 <= j < i ==> self.keys()[j] != k,
            decreases n - i,
        {
            let e = &self.entries[i];
            if e.state == state && e.direction == direction {
                proof {
                    lemma_find_first(self.keys(), k, i as int);
                }
                return Some(i);
            }
            i = i + 1;
        }
        proof {
            lemma_find_none(self.keys(), k);
        }
        None
    }

    /// The animation bound to `(state, direction)`, if the table has one.
    pub fn get(&self, state: AnimationState, direction: Direction) -> (r: Option<&Animation>)
        ensures
            r is Some <==> self@.dom().contains((state, direction)),
            r is Some ==> r->0@ == self@[(state, direction)],
            self.wf() && r is Some ==> r->0.wf(),
    {
        proof {
            self.lemma_view((state, direction));
        }
        match self.find(state, direction) {
            None => None,
            Some(i) => {
                proof {
                    lemma_find_some(self.keys(), (state, direction));
                }
                Some(&self.entries[i].animation)
            },
        }
    }

    /// A table whose `at` answers agree pointwise with a map is that map.
    proof fn lemma_view_from_at(t: AnimationTable, m: Map<AnimKey, AnimModel>)
        requires
            forall|k: AnimKey| #![auto] t.at(k) is Some <==> m.dom().contains(k),
            forall|k: AnimKey| #![auto] t.at(k) is Some ==> t.at(k)->0 == m[k],
        ensures
            t@ == m,
    {
        assert forall|k: AnimKey| #![auto]
            (t@.dom().contains(k) <==> m.dom().contains(k)) && (m.dom().contains(k) ==> t@[k]
                == m[k]) by {
            t.lemma_view(k);
        }
        assert(t@ =~= m);
    }

    /// After replacing the animation at storage index `i` (the first match for
    /// its own key), the view is the old view with that key overwritten.
    proof fn lemma_update_entry(old_table: AnimationTable, new_table: AnimationTable, i: int)
        requires
            0 <= i < old_table.entries@.len(),
            new_table.entries@.len() == old_table.entries@.len(),
            forall|j: int|
                0 <= j < old_table.entries@.len() && j != i ==> new_table.entries@[j]
                    == old_table.entries@[j],
            new_table.entries@[i].state == old_table.entries@[i].state,
            new_table.entries@[i].direction == old_table.entries@[i].direction,
            find_index(old_table.keys(), old_table.keys()[i]) == Some(i),
        ensures
            new_table@ == old_table@.insert(
                old_table.keys()[i],
                new_table.entries@[i].animation@,
            ),
    {
        let k = old_table.keys()[i];
        let v = new_table.entries@[i].animation@;
        let m = old_table@.insert(k, v);
        assert(new_table.keys() =~= old_table.keys());
        assert forall|k2: AnimKey| #![auto]
            (new_table.at(k2) is Some <==> m.dom().contains(k2)) && (new_table.at(k2) is Some
                ==> new_table.at(k2)->0 == m[k2]) by {
            old_table.lemma_view(k2);
            if find_index(old_table.keys(), k2) is Some {
                lemma_find_some(old_table.keys(), k2);
                if k2 != k {
                    assert(find_index(old_table.keys(), k2)->0 != i);
                }
            }
        }
        Self::lemma_view_from_at(new_table, m);
    }

    /// Binds `animation` to `(state, direction)`, replacing what was there.
    pub fn insert(&mut self, state: AnimationState, direction: Direction, animation: Animation)
        requires
            old(self).wf(),
            animation.wf(),
        ensures
            final(self).wf(),
            final(self)@ == old(self)@.insert((state, direction), animation@),
    {
        let ghost k: AnimKey = (state, direction);
        let ghost v: AnimModel = animation@;
        match self.find(state, direction) {
            Some(i) => {
                proof {
                    lemma_find_some(self.keys(), k);
                }
                let slot = &mut self.entries[i];
                slot.animation = animation;
                proof {
                    Self::lemma_update_entry(*old(self), *self, i as int);
                }
            },
            None => {
                proof {
                    lemma_find_none_from_find(*self, k);
                }
                self.entries.push(TableEntry { state, direction, animation });
                proof {
                    let m = old(self)@.insert(k, v);
                    assert(self.keys() =~= old(self).keys().push(k));
                    assert forall|k2: AnimKey| #![auto] self.at(k2) is Some <==> m.dom().contains(
                        k2,
                    ) by {
                        old(self).lemma_view(k2);
                        lemma_find_push(old(self).keys(), k, k2);
                        if find_index(old(self).keys(), k2) is Some {
                            lemma_find_some(old(self).keys(), k2);
                        }
                    }
                    assert forall|k2: AnimKey| #![auto] self.at(k2) is Some implies self.at(k2)->0
                        == m[k2] by {
                        old(self).lemma_view(k2);
                        lemma_find_push(old(self).keys(), k, k2);
                        if find_index(old(self).keys(), k2) is Some {
                            lemma_find_some(old(self).keys(), k2);
                        }
                    }
                    Self::lemma_view_from_at(*self, m);
                }
            },
        }
    }

    /// Reads the playback phase of the entry under `(state, direction)` and
    /// resets that entry; a missing entry reads as phase 0 and nothing changes.
    pub fn take_phase_and_reset(&mut self, state: AnimationState, direction: Direction) -> (phase:
        usize)
        requires
            old(self).wf(),
        ensures
            final(self).wf(),
            old(self)@.dom().contains((state, direction)) ==> {
                &&& phase == old(self)@[(state, direction)].current
                &&& final(self)@ == old(self)@.insert(
                    (state, direction),
                    reset_model(old(self)@[(state, direction)]),
                )
            },
            !old(self)@.dom().contains((state, direction)) ==> phase == 0 && *final(self) == *old(self),
    {
        proof {
            old(self).lemma_view((state, direction));
        }
        match self.find(state, direction) {
            None => 0,
            Some(i) => {
                proof {
                    lemma_find_some(self.keys(), (state, direction));
                    assert(wf_anim(old(self)@[(state, direction)]));
                }
                let slot = &mut self.entries[i];
                let phase = slot.animation.current_index();
                slot.animation.reset();
                proof {
                    Self::lemma_update_entry(*old(self), *self, i as int);
                }
                phase
            },
        }
    }

    /// Re-binds the playback phase of the entry under `(state, direction)` and
    /// returns its shown sprite index; a missing entry changes nothing.
    pub fn rebind_phase_at(
        &mut self,
        state: AnimationState,
        direction: Direction,
        phase: usize,
    ) -> (r: Option<usize>)
        requires
            old(self).wf(),
        ensures
            final(self).wf(),
            old(self)@.dom().contains((state, direction)) ==> {
                let a = rebind_model(old(self)@[(state, direction)], phase as nat);
                &&& final(self)@ == old(self)@.insert((state, direction), a)
                &&& r == Some(a.frames[a.current as int])
            },
            !old(self)@.dom().contains((state, direction)) ==> r is None && *final(self) == *old(self),
    {
        proof {
            old(self).lemma_view((state, direction));
        }
        match self.find(state, direction) {
            None => None,
            Some(i) => {
                proof {
                    lemma_find_some(self.keys(), (state, direction));
                    assert(wf_anim(old(self)@[(state, direction)]));
                }
                let slot = &mut self.entries[i];
                slot.animation.rebind_phase(phase);
                let sprite = slot.animation.current_sprite_index();
                proof {
                    Self::lemma_update_entry(*old(self), *self, i as int);
                }
                Some(sprite)
            },
        }
    }

    /// Advances the entry under `(state, direction)` by `dt` microseconds and
    /// returns its newly shown sprite index; a missing entry changes nothing.
    pub fn advance_at(&mut self, state: AnimationState, direction: Direction, dt: u64) -> (r:
        Option<usize>)
        requires
            old(self).wf(),
            dt <= DT_MAX_US,
        ensures
            final(self).wf(),
            old(self)@.dom().contains((state, direction)) ==> {
                let a = advance_model(old(self)@[(state, direction)], dt as nat);
                &&& final(self)@ == old(self)@.insert((state, direction), a)
                &&& r == Some(a.frames[a.current as int])
            },
            !old(self)@.dom().contains((state, direction)) ==> r is None && *final(self) == *old(self),
    {
        proof {
            old(self).lemma_view((state, direction));
        }
        match self.find(state, direction) {
            None => None,
            Some(i) => {
                proof {
                    lemma_find_some(self.keys(), (state, direction));
                    assert(wf_anim(old(self)@[(state, direction)]));
                }
                let slot = &mut self.entries[i];
                slot.animation.advance(dt);
                let sprite = slot.animation.current_sprite_index();
                proof {
                    Self::lemma_update_entry(*old(self), *self, i as int);
                }
                Some(sprite)
            },
        }
    }
}

/// A failed search means the key is on no entry.
proof fn lemma_find_none_from_find(t: AnimationTable, k: AnimKey)
    requires
        find_index(t.keys(), k) is None,
    ensures
        t.at(k) is None,
{
}

} // verus!
