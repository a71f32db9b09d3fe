use vstd::prelude::*;

verus! {

/// The mapping that a sequence of (key, bytes) insertions produces: a later
/// insertion under a key replaces an earlier one.
pub open spec fn map_of(entries: Seq<(Seq<char>, Seq<u8>)>) -> Map<Seq<char>, Seq<u8>>
    decreases entries.len(),
{
    if entries.len() == 0 {
        Map::empty()
    } else {
        let last = entries.last();
        map_of(entries.drop_last()).insert(last.0, last.1)
    }
}

/// Named binary assets of one request, keyed by part name; the last upload under
/// a name wins.
pub struct AssetMap {
    entries: Vec<(String, Vec<u8>)>,
}

impl AssetMap {
    pub closed spec fn entries_model(&self) -> Seq<(Seq<char>, Seq<u8>)> {
        Seq::new(self.entries.len() as nat, |i: int| (self.entries[i].0@, self.entries[i].1@))
    }

    pub closed spec fn view(&self) -> Map<Seq<char>, Seq<u8>> {
        map_of(self.entries_model())
    }

    pub fn new() -> (r: AssetMap)
        ensures
            r.view() == Map::<Seq<char>, Seq<u8>>::empty(),
    {
        AssetMap { entries: Vec::new() }
    }

    /// Stores `bytes` under `key`, replacing what was stored there before.
    pub fn insert(&mut self, key: String, bytes: Vec<u8>)
        ensures
            final(self).view() == old(self).view().insert(key@, bytes@),
    {
        let ghost k = key@;
        let ghost b = bytes@;
        self.entries.push((key, bytes));
        assert(self.entries_model().drop_last() =~= old(self).entries_model());
    }

    /// The bytes stored under `key`, if any.
    pub fn get(&self, key: &String) -> (r: Option<&Vec<u8>>)
        ensures
            r is Some <==> self.view().contains_key(key@),
            r matches Some(b) ==> b@ == self.view()[key@],
    {
        let ghost all = self.entries_model();
        let mut i: usize = self.entries.len();
        assert(all.take(i as int) =~= all);
        while i > 0
            invariant
                i <= self.entries.len(),
                all == self.entries_model(),
                map_of(all.take(i as int)).contains_key(key@) == map_of(all).contains_key(key@),
                map_of(all.take(i as int)).contains_key(key@) ==> map_of(all.take(i as int))[key@]
                    == map_of(all)[key@],
            decreases i,
        {
            assert(all.take(i as int).drop_last() =~= all.take(i - 1));
            if self.entries[i - 1].0 == *key {
                return Some(&self.entries[i - 1].1);
            }
            i = i - 1;
        }
        assert(all.take(0) =~= Seq::<(Seq<char>, Seq<u8>)>::empty());
        None
    }
}

} // verus!
