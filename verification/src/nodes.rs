//! The node directory: a last-write-wins map from a 32-bit mesh node id to the
//! short display name learned from that node's identity broadcasts.
use vstd::prelude::*;

verus! {

/// One learned association between a node id and a short name.
pub struct NodeEntry {
    pub id: u32,
    pub name: String,
}

/// The map a sequence of entries denotes, later entries winning.
pub open spec fn entries_map(s: Seq<NodeEntry>) -> Map<u32, Seq<char>>
    decreases s.len(),
{
    if s.len() == 0 {
        Map::empty()
    } else {
        entries_map(s.drop_last()).insert(s.last().id, s.last().name@)
    }
}

proof fn lemma_entries_map_found(s: Seq<NodeEntry>, i: int)
    requires
        0 <= i < s.len(),
        forall|j: int| i < j < s.len() ==> s[j].id != s[i].id,
    ensures
        entries_map(s).contains_key(s[i].id),
        entries_map(s)[s[i].id] == s[i].name@,
    decreases s.len(),
{
    if i < s.len() - 1 {
        lemma_entries_map_found(s.drop_last(), i);
    }
}

proof fn lemma_entries_map_absent(s: Seq<NodeEntry>, id: u32)
    requires
        forall|j: int| 0 <= j < s.len() ==> s[j].id != id,
    ensures
        !entries_map(s).contains_key(id),
    decreases s.len(),
{
    if s.len() > 0 {
        lemma_entries_map_absent(s.drop_last(), id);
    }
}

proof fn lemma_entries_map_update(s: Seq<NodeEntry>, i: int, e: NodeEntry)
    requires
        0 <= i < s.len(),
        s[i].id == e.id,
        forall|j: int| 0 <= j < s.len() && j != i ==> s[j].id != e.id,
    ensures
        entries_map(s.update(i, e)) == entries_map(s).insert(e.id, e.name@),
    decreases s.len(),
{
    let t = s.update(i, e);
    if i == s.len() - 1 {
        assert(t.drop_last() =~= s.drop_last());
        assert(t.last() == e);
        assert(entries_map(t) =~= entries_map(s).insert(e.id, e.name@));
    } else {
        assert(t.drop_last() =~= s.drop_last().update(i, e));
        assert(t.last() == s.last());
        lemma_entries_map_update(s.drop_last(), i, e);
        assert(s.last().id != e.id);
        assert(entries_map(t) =~= entries_map(s).insert(e.id, e.name@));
    }
}

/// The directory of node names learned during one run. Names are only added
/// or replaced, never evicted; a later broadcast for the same id wins.
pub struct NodeDirectory {
    entries: Vec<NodeEntry>,
}

impl View for NodeDirectory {
    type V = Map<u32, Seq<char>>;

    closed spec fn view(&self) -> Map<u32, Seq<char>> {
        entries_map(self.entries@)
    }
}

impl NodeDirectory {
    /// Well-formed: each node id occurs at most once.
    pub closed spec fn wf(&self) -> bool {
        forall|i: int, j: int|
            0 <= i < j < self.entries@.len() ==> self.entries@[i].id != self.entries@[j].id
    }

    /// An empty directory.
    pub fn new() -> (r: NodeDirectory)
        ensures
            r.wf(),
            r@ == Map::<u32, Seq<char>>::empty(),
    {
        NodeDirectory { entries: Vec::new() }
    }

    /// Looks a node id up, returning its learned short name if there is one.
    pub fn lookup(&self, id: u32) -> (r: Option<&String>)
        requires
            self.wf(),
        ensures
            match r {
                Some(n) => self@.contains_key(id) && self@[id] == n@,
                None => !self@.contains_key(id),
            },
    {
        let mut i: usize = 0;
        while i < self.entries.len()
            invariant
                self.wf(),
                0 <= i <= self.entries@.len(),
                forall|j: int| 0 <= j < i ==> self.entries@[j].id != id,
            decreases self.entries@.len() - i,
        {
            if self.entries[i].id == id {
                proof {
                    lemma_entries_map_found(self.entries@, i as int);
                }
                return Some(&self.entries[i].name);
            }
            i = i + 1;
        }
        proof {
            lemma_entries_map_absent(self.entries@, id);
        }
        None
    }

    /// Records a node's short name, replacing any earlier name for the id.
    pub fn upsert(&mut self, id: u32, name: String)
        requires
            old(self).wf(),
        ensures
            final(self).wf(),
            final(self)@ == old(self)@.insert(id, name@),
    {
        let ghost s0 = self.entries@;
        let mut i: usize = 0;
        while i < self.entries.len()
            invariant
                self.entries@ == s0,
                s0 == old(self).entries@,
                forall|a: int, b: int| 0 <= a < b < s0.len() ==> s0[a].id != s0[b].id,
                0 <= i <= s0.len(),
                forall|j: int| 0 <= j < i ==> s0[j].id != id,
            decreases s0.len() - i,
        {
            if self.entries[i].id == id {
                let e = NodeEntry { id, name };
                proof {
                    assert forall|j: int| 0 <= j < s0.len() && j != i as int implies s0[j].id
                        != e.id by {
                        if (i as int) < j {
                            assert(s0[i as int].id != s0[j].id);
                        }
                    }
                    lemma_entries_map_update(s0, i as int, e);
                }
                vstd::pervasive::VecAdditionalExecFns::set(&mut self.entries, i, e);
                proof {
                    let t = self.entries@;
                    assert forall|a: int, b: int| 0 <= a < b < t.len() implies t[a].id
                        != t[b].id by {
                        assert(s0[a].id != s0[b].id);
                    }
                }
                return;
            }
            i = i + 1;
        }
        self.entries.push(NodeEntry { id, name });
        proof {
            assert(self.entries@.drop_last() =~= s0);
        }
    }
}

} // verus!
