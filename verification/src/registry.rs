//! The registry of parked readers: a table from reader identity to a
//! resumption handle, drained as a whole when the writer publishes progress.

use vstd::prelude::*;

verus! {

/// A table of resumption handles keyed by reader identity. At most one
/// handle per reader: registering again replaces the stale handle, so a
/// reader can refresh its handle on every poll without disturbing peers.
///
/// The handle type is a parameter: the core never invokes a handle, it only
/// stores, replaces, removes and drains them. Its view is the finite map
/// from parked reader identities to their handles.
pub struct WakerRegistry<W> {
    entries: Vec<(u128, W)>,
}

/// The finite map described by a sequence of key/value pairs, later pairs
/// taking precedence.
pub open spec fn map_of<W>(s: Seq<(u128, W)>) -> Map<u128, W>
    decreases s.len(),
{
    if s.len() == 0 {
        Map::empty()
    } else {
        map_of(s.drop_last()).insert(s.last().0, s.last().1)
    }
}

/// No key occurs twice.
pub open spec fn keys_distinct<W>(s: Seq<(u128, W)>) -> bool {
    forall|i: int, j: int| 0 <= i < j < s.len() ==> (#[trigger] s[i]).0 != (#[trigger] s[j]).0
}

/// A key is in the map exactly when some pair carries it.
proof fn lemma_map_of_dom<W>(s: Seq<(u128, W)>, k: u128)
    ensures
        map_of(s).dom().contains(k) <==> exists|i: int|
            0 <= i < s.len() && (#[trigger] s[i]).0 == k,
    decreases s.len(),
{
    if s.len() > 0 {
        lemma_map_of_dom(s.drop_last(), k);
        if s.last().0 == k {
            assert(s[s.len() - 1].0 == k);
        } else if exists|i: int| 0 <= i < s.len() && (#[trigger] s[i]).0 == k {
            let i = choose|i: int| 0 <= i < s.len() && (#[trigger] s[i]).0 == k;
            assert(s.drop_last()[i] == s[i]);
        }
    }
}

/// The map is finite and carries one entry per pair when keys are distinct.
proof fn lemma_map_of_len<W>(s: Seq<(u128, W)>)
    requires
        keys_distinct(s),
    ensures
        map_of(s).dom().finite(),
        map_of(s).dom().len() == s.len(),
    decreases s.len(),
{
    if s.len() > 0 {
        lemma_map_of_len(s.drop_last());
        lemma_map_of_dom(s.drop_last(), s.last().0);
    }
}

/// With distinct keys, each pair is an entry of the map.
proof fn lemma_map_of_index<W>(s: Seq<(u128, W)>, i: int)
    requires
        keys_distinct(s),
        0 <= i < s.len(),
    ensures
        map_of(s).dom().contains(s[i].0),
        map_of(s)[s[i].0] == s[i].1,
    decreases s.len(),
{
    if i < s.len() - 1 {
        lemma_map_of_index(s.drop_last(), i);
        assert(s.drop_last()[i] == s[i]);
    }
}

/// Appending a pair inserts its entry.
proof fn lemma_map_of_push<W>(s: Seq<(u128, W)>, k: u128, w: W)
    ensures
        map_of(s.push((k, w))) == map_of(s).insert(k, w),
{
    assert(s.push((k, w)).drop_last() =~= s);
    assert(s.push((k, w)).last() == (k, w));
}

/// Appending a pair under a fresh key keeps the keys distinct.
proof fn lemma_distinct_push<W>(s: Seq<(u128, W)>, k: u128, w: W)
    requires
        keys_distinct(s),
        forall|j: int| 0 <= j < s.len() ==> (#[trigger] s[j]).0 != k,
    ensures
        keys_distinct(s.push((k, w))),
{
    let t = s.push((k, w));
    assert forall|i: int, j: int| 0 <= i < j < t.len() implies (#[trigger] t[i]).0 != (
    #[trigger] t[j]).0 by {
        if j < s.len() {
            assert(t[i] == s[i] && t[j] == s[j]);
        } else {
            assert(t[i] == s[i] && t[j] == (k, w));
        }
    }
}

/// With distinct keys, removing the pair at `i` removes exactly its entry.
proof fn lemma_map_of_remove<W>(s: Seq<(u128, W)>, i: int)
    requires
        keys_distinct(s),
        0 <= i < s.len(),
    ensures
        keys_distinct(s.remove(i)),
        map_of(s.remove(i)) == map_of(s).remove(s[i].0),
        forall|j: int| 0 <= j < s.remove(i).len() ==> (#[trigger] s.remove(i)[j]).0 != s[i].0,
    decreases s.len(),
{
    lemma_map_of_dom(s.drop_last(), s.last().0);
    if i == s.len() - 1 {
        assert(s.remove(i) =~= s.drop_last());
        assert(map_of(s.drop_last()) =~= map_of(s).remove(s[i].0));
    } else {
        lemma_map_of_remove(s.drop_last(), i);
        assert(s.remove(i).drop_last() =~= s.drop_last().remove(i));
        assert(s.remove(i).last() == s.last());
        assert(map_of(s.remove(i)) == map_of(s.drop_last().remove(i)).insert(
            s.last().0,
            s.last().1,
        ));
        assert(map_of(s.drop_last()).remove(s[i].0).insert(s.last().0, s.last().1) =~= map_of(
            s,
        ).remove(s[i].0));
    }
}

impl<W> View for WakerRegistry<W> {
    type V = Map<u128, W>;

    closed spec fn view(&self) -> Map<u128, W> {
        map_of(self.entries@)
    }
}

impl<W> WakerRegistry<W> {
    #[verifier::type_invariant]
    spec fn inv(self) -> bool {
        keys_distinct(self.entries@)
    }

    /// An empty registry: no reader is parked.
    pub fn new() -> (r: Self)
        ensures
            r@ == Map::<u128, W>::empty(),
    {
        WakerRegistry { entries: Vec::new() }
    }

    /// The index holding `id`, if any.
    fn find(&self, id: u128) -> (idx: Option<usize>)
        ensures
            idx matches Some(i) ==> i < self.entries@.len() && self.entries@[i as int].0 == id,
            idx is None ==> forall|j: int|
                0 <= j < self.entries@.len() ==> (#[trigger] self.entries@[j]).0 != id,
    {
        let mut j: usize = 0;
        while j < self.entries.len()
            invariant
                j <= self.entries@.len(),
                forall|k: int| 0 <= k < j ==> (#[trigger] self.entries@[k]).0 != id,
            decreases self.entries@.len() - j,
        {
            if self.entries[j].0 == id {
                return Some(j);
            }
            j = j + 1;
        }
        None
    }

    /// Whether a handle is parked under `id`.
    pub fn contains(&self, id: u128) -> (b: bool)
        ensures
            b == self@.dom().contains(id),
    {
        proof {
            use_type_invariant(&*self);
            lemma_map_of_dom(self.entries@, id);
        }
        self.find(id).is_some()
    }

    /// The number of parked readers.
    pub fn len(&self) -> (n: usize)
        ensures
            n == self@.dom().len(),
    {
        proof {
            use_type_invariant(&*self);
            lemma_map_of_len(self.entries@);
        }
        self.entries.len()
    }

    /// Parks a handle under `id`, replacing the handle a previous poll of
    /// the same reader left behind.
    pub fn register(&mut self, id: u128, w: W)
        ensures
            final(self)@ == old(self)@.insert(id, w),
    {
        proof {
            use_type_invariant(&*self);
        }
        let ghost m0 = self@;
        let idx = self.find(id);
        let mut entries: Vec<(u128, W)> = Vec::new();
        std::mem::swap(&mut entries, &mut self.entries);
        if let Some(i) = idx {
            proof {
                lemma_map_of_remove(entries@, i as int);
            }
            entries.remove(i);
        }
        proof {
            lemma_map_of_push(entries@, id, w);
            lemma_distinct_push(entries@, id, w);
        }
        entries.push((id, w));
        proof {
            assert(map_of(entries@) =~= m0.insert(id, w));
        }
        std::mem::swap(&mut entries, &mut self.entries);
    }

    /// Unparks `id`: removes its handle if one is present. A reader does
    /// this when it made progress, and on drop, so that nobody wakes a
    /// defunct task.
    pub fn remove(&mut self, id: u128)
        ensures
            final(self)@ == old(self)@.remove(id),
    {
        proof {
            use_type_invariant(&*self);
        }
        let idx = self.find(id);
        match idx {
            Some(i) => {
                let mut entries: Vec<(u128, W)> = Vec::new();
                std::mem::swap(&mut entries, &mut self.entries);
                proof {
                    lemma_map_of_remove(entries@, i as int);
                }
                entries.remove(i);
                std::mem::swap(&mut entries, &mut self.entries);
            },
            None => {
                proof {
                    lemma_map_of_dom(self.entries@, id);
                    assert(self@.remove(id) =~= self@);
                }
            },
        }
    }

    /// Empties the table and hands back every parked handle, one per parked
    /// reader, so the writer can invoke them after releasing the table.
    /// Draining before waking prevents a woken reader from re-registering
    /// into a table that is about to be cleared.
    pub fn drain(&mut self) -> (ws: Vec<W>)
        ensures
            final(self)@ == Map::<u128, W>::empty(),
            ws@.len() == old(self)@.dom().len(),
            forall|id: u128| #[trigger]
                old(self)@.dom().contains(id) ==> ws@.contains(old(self)@[id]),
    {
        proof {
            use_type_invariant(&*self);
            lemma_map_of_len(self.entries@);
        }
        let ghost m0 = self@;
        let mut entries: Vec<(u128, W)> = Vec::new();
        std::mem::swap(&mut entries, &mut self.entries);
        proof {
            assert(self@ =~= Map::<u128, W>::empty());
        }
        let mut ws: Vec<W> = Vec::new();
        loop
            invariant
                m0 == old(self)@,
                self@ =~= Map::<u128, W>::empty(),
                keys_distinct(entries@),
                forall|id: u128| #[trigger]
                    map_of(entries@).dom().contains(id) ==> m0.dom().contains(id) && m0[id]
                        == map_of(entries@)[id],
                forall|id: u128| #[trigger]
                    m0.dom().contains(id) ==> map_of(entries@).dom().contains(id) || ws@.contains(
                        m0[id],
                    ),
                ws@.len() + entries@.len() == m0.dom().len(),
            decreases entries@.len(),
        {
            let ghost s = entries@;
            let n = entries.len();
            if n == 0 {
                proof {
                    assert(map_of(entries@) =~= Map::<u128, W>::empty());
                }
                return ws;
            }
            proof {
                lemma_map_of_index(s, s.len() - 1);
                lemma_map_of_remove(s, s.len() - 1);
            }
            let (k, w) = entries.remove(n - 1);
            let ghost wspec = w;
            let ghost ws0 = ws@;
            ws.push(w);
            proof {
                assert(m0[k] == wspec);
                assert(ws@[ws@.len() - 1] == wspec);
                assert forall|id: u128| #[trigger]
                    m0.dom().contains(id) implies map_of(entries@).dom().contains(id)
                    || ws@.contains(m0[id]) by {
                    if map_of(s).dom().contains(id) {
                        if id == k {
                            assert(ws@[ws@.len() - 1] == m0[id]);
                        } else {
                            assert(map_of(entries@) == map_of(s).remove(k));
                            assert(map_of(entries@).dom().contains(id));
                        }
                    } else {
                        let i = choose|i: int| 0 <= i < ws0.len() && ws0[i] == m0[id];
                        assert(ws@[i] == m0[id]);
                    }
                }
            }
        }
    }
}

} // verus!
