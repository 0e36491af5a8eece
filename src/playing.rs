use vstd::prelude::*;

verus! {

/// The playing IDs with every occurrence of `id` taken out, in their order.
pub open spec fn without_id(ids: Seq<u32>, id: u32) -> Seq<u32> {
    ids.filter(other_than(id))
}

/// Holds of every playing ID but `id`.
pub open spec fn other_than(id: u32) -> spec_fn(u32) -> bool {
    |p: u32| p != id
}

/// The playing IDs of the events that are currently playing on one emitter,
/// in the order in which they were posted.
pub struct PlayingIds {
    ids: Vec<u32>,
}

impl View for PlayingIds {
    type V = Seq<u32>;

    closed spec fn view(&self) -> Seq<u32> {
        self.ids@
    }
}

proof fn lemma_without_id_step(ids: Seq<u32>, id: u32, i: int)
    requires
        0 <= i < ids.len(),
    ensures
        without_id(ids.subrange(0, i + 1), id) == if ids[i] != id {
            without_id(ids.subrange(0, i), id).push(ids[i])
        } else {
            without_id(ids.subrange(0, i), id)
        },
{
    let next = ids.subrange(0, i + 1);
    assert(next.drop_last() =~= ids.subrange(0, i));
    assert(next.last() == ids[i]);
    reveal(Seq::filter);
}

impl PlayingIds {
    /// No event is playing.
    pub fn new() -> (r: Self)
        ensures
            r@ == Seq::<u32>::empty(),
    {
        PlayingIds { ids: Vec::new() }
    }

    /// Records that an event was posted and is now playing under `id`.
    pub fn record(&mut self, id: u32)
        ensures
            final(self)@ == old(self)@.push(id),
    {
        self.ids.push(id);
    }

    /// Forgets every occurrence of `id`: the event that played under it ended.
    pub fn end_of_event(&mut self, id: u32)
        ensures
            final(self)@ == without_id(old(self)@, id),
            !final(self)@.contains(id),
            forall|p: u32| p != id ==> (#[trigger] final(self)@.contains(p) <==> old(self)@.contains(p)),
    {
        let ghost before = self.ids@;
        let mut kept: Vec<u32> = Vec::new();
        let mut i: usize = 0;
        while i < self.ids.len()
            invariant
                self.ids@ == before,
                0 <= i <= before.len(),
                kept@ == without_id(before.subrange(0, i as int), id),
            decreases before.len() - i,
        {
            proof {
                lemma_without_id_step(before, id, i as int);
            }
            if self.ids[i] != id {
                kept.push(self.ids[i]);
            }
            i = i + 1;
        }
        proof {
            assert(before.subrange(0, before.len() as int) =~= before);
            broadcast use Seq::lemma_filter_pred, Seq::lemma_filter_contains;
            let pred = other_than(id);
            assert(kept@ == before.filter(pred));
            assert forall|p: u32| p != id implies (#[trigger] kept@.contains(p) <==> before.contains(p)) by {
                if kept@.contains(p) {
                    let j = choose|j: int| 0 <= j < kept@.len() && kept@[j] == p;
                    lemma_filtered_in_source(before, pred, j);
                }
                if before.contains(p) {
                    let j = choose|j: int| 0 <= j < before.len() && before[j] == p;
                    assert(pred(before[j]));
                }
            }
            if kept@.contains(id) {
                let j = choose|j: int| 0 <= j < kept@.len() && kept@[j] == id;
                assert(pred(before.filter(pred)[j]));
            }
        }
        self.ids = kept;
    }

    /// Whether any event is playing.
    pub fn is_playing(&self) -> (r: bool)
        ensures
            r == (self@.len() > 0),
    {
        self.ids.len() > 0
    }

    /// Whether an event is playing under `id`.
    pub fn contains(&self, id: u32) -> (r: bool)
        ensures
            r == self@.contains(id),
    {
        let mut i: usize = 0;
        while i < self.ids.len()
            invariant
                0 <= i <= self.ids@.len(),
                forall|j: int| 0 <= j < i ==> self.ids@[j] != id,
            decreases self.ids@.len() - i,
        {
            if self.ids[i] == id {
                return true;
            }
            i = i + 1;
        }
        false
    }

    /// How many events are playing, counting one per recorded ID.
    pub fn len(&self) -> (r: usize)
        ensures
            r == self@.len(),
    {
        self.ids.len()
    }
}

/// Taking out an ID that is not playing changes nothing.
pub proof fn lemma_without_absent_id(ids: Seq<u32>, id: u32)
    requires
        !ids.contains(id),
    ensures
        without_id(ids, id) == ids,
    decreases ids.len(),
{
    reveal(Seq::filter);
    if ids.len() > 0 {
        let rest = ids.drop_last();
        assert forall|k: int| 0 <= k < rest.len() implies rest[k] != id by {
            assert(ids[k] == rest[k]);
        }
        lemma_without_absent_id(rest, id);
        assert(ids[ids.len() - 1] != id);
        assert(rest.push(ids.last()) =~= ids);
    }
}

/// An event that is posted under a fresh playing ID and then ends leaves the
/// emitter's playing IDs as they were before the post.
pub proof fn lemma_post_then_end_restores(ids: Seq<u32>, id: u32)
    requires
        !ids.contains(id),
    ensures
        without_id(ids.push(id), id) == ids,
{
    reveal(Seq::filter);
    assert(ids.push(id).drop_last() =~= ids);
    lemma_without_absent_id(ids, id);
}

/// An element of a filtered sequence comes from the sequence.
proof fn lemma_filtered_in_source(s: Seq<u32>, pred: spec_fn(u32) -> bool, j: int)
    requires
        0 <= j < s.filter(pred).len(),
    ensures
        s.contains(s.filter(pred)[j]),
    decreases s.len(),
{
    reveal(Seq::filter);
    if s.len() > 0 {
        let rest = s.drop_last().filter(pred);
        if j < rest.len() {
            if pred(s.last()) {
                assert(s.filter(pred)[j] == rest[j]);
            }
            lemma_filtered_in_source(s.drop_last(), pred, j);
            let k = choose|k: int| 0 <= k < s.drop_last().len() && s.drop_last()[k] == rest[j];
            assert(s[k] == rest[j]);
        } else {
            assert(s.filter(pred)[j] == s.last());
            assert(s[s.len() - 1] == s.last());
        }
    }
}

} // verus!
