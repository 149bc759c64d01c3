use vstd::prelude::*;

verus! {

/// Identifies one source text registered in a [`SourceMap`].
#[derive(Clone, Copy, Debug, Default, PartialEq, Eq, Hash, Structural)]
pub struct SourceId(pub usize);

/// Hands out one [`SourceId`] per distinct key (a path or URL), counting up
/// from 1, and maps ids back to their keys.
pub struct SourceMap {
    keys: Vec<String>,
}

/// An empty map, whose first key will get id 1.
impl Default for SourceMap {
    fn default() -> (r: SourceMap)
        ensures
            r.wf(),
            r.view() == Seq::<Seq<char>>::empty(),
    {
        SourceMap::new()
    }
}

impl SourceMap {
    /// The registered keys, in the order in which they were first seen; the
    /// key at index `i` has id `i + 1`.
    pub closed spec fn view(&self) -> Seq<Seq<char>> {
        Seq::new(self.keys@.len(), |i: int| self.keys@[i]@)
    }

    /// No key is registered twice, and every id fits a `usize`.
    pub open spec fn wf(&self) -> bool {
        &&& self.view().no_duplicates()
        &&& self.view().len() < usize::MAX
    }

    pub fn new() -> (r: SourceMap)
        ensures
            r.wf(),
            r.view() == Seq::<Seq<char>>::empty(),
    {
        let r = SourceMap { keys: Vec::new() };
        assert(r.view() =~= Seq::<Seq<char>>::empty());
        r
    }

    /// The key registered under `id`, if any.
    pub fn get_id(&self, id: &SourceId) -> (r: Option<&String>)
        ensures
            match r {
                Some(key) => 1 <= id.0 <= self.view().len() && key@ == self.view()[id.0 - 1],
                None => !(1 <= id.0 <= self.view().len()),
            },
    {
        if id.0 >= 1 && id.0 <= self.keys.len() {
            Some(&self.keys[id.0 - 1])
        } else {
            None
        }
    }

    /// The id under which `key` is registered, if it is.
    pub fn get(&self, key: &String) -> (r: Option<SourceId>)
        requires
            self.wf(),
        ensures
            match r {
                Some(id) => 1 <= id.0 <= self.view().len() && self.view()[id.0 - 1] == key@,
                None => !self.view().contains(key@),
            },
    {
        let mut i: usize = 0;
        while i < self.keys.len()
            invariant
                i <= self.keys@.len(),
                self.wf(),
                forall|j: int| 0 <= j < i ==> self.view()[j] != key@,
            decreases self.keys@.len() - i,
        {
            if self.keys[i] == *key {
                return Some(SourceId(i + 1));
            }
            i = i + 1;
        }
        None
    }

    /// The id of `key`, registering it under the next free id if it is new.
    pub fn get_or_insert(&mut self, key: String) -> (r: SourceId)
        requires
            old(self).wf(),
            old(self).view().len() + 1 < usize::MAX,
        ensures
            final(self).wf(),
            1 <= r.0 <= final(self).view().len(),
            final(self).view()[r.0 - 1] == key@,
            old(self).view().contains(key@) ==> final(self).view() == old(self).view(),
            !old(self).view().contains(key@) ==> final(self).view() == old(self).view().push(key@),
    {
        match self.get(&key) {
            Some(id) => id,
            None => {
                let ghost before = self.view();
                self.keys.push(key);
                assert(self.view() =~= before.push(key@));
                proof {
                    assert forall|i: int, j: int|
                        0 <= i < j < self.view().len() implies self.view()[i] != self.view()[j] by {
                        if j == before.len() {
                            assert(before.contains(before[i]));
                        }
                    }
                }
                SourceId(self.keys.len())
            }
        }
    }
}

impl SourceMap {
    /// A key is registered under one id only: the id that `get_or_insert`
    /// hands out is the one that `get` finds, and `get_id` maps it back.
    pub proof fn law_one_id_per_key(&self, key: Seq<char>, id: usize, other: usize)
        requires
            self.wf(),
            1 <= id <= self.view().len(),
            1 <= other <= self.view().len(),
            self.view()[id - 1] == key,
            self.view()[other - 1] == key,
        ensures
            id == other,
    {
    }

    /// Registering a key adds that key and no other, and every id handed
    /// out before still maps to its key: `before` is a map and `after` is
    /// it after `get_or_insert(key)` returned `id`.
    pub proof fn law_get_or_insert_adds_key(before: SourceMap, after: SourceMap, key: Seq<char>, id: usize)
        requires
            1 <= id <= after.view().len(),
            after.view()[id - 1] == key,
            before.view().contains(key) ==> after.view() == before.view(),
            !before.view().contains(key) ==> after.view() == before.view().push(key),
        ensures
            forall|k: Seq<char>| #[trigger]
                after.view().contains(k) <==> (before.view().contains(k) || k == key),
            forall|i: int| 0 <= i < before.view().len() ==> #[trigger] after.view()[i] == before.view()[i],
    {
        assert(after.view().contains(key));
        assert forall|k: Seq<char>| #[trigger]
            after.view().contains(k) implies (before.view().contains(k) || k == key) by {
            let i = choose|i: int| 0 <= i < after.view().len() && after.view()[i] == k;
            if i < before.view().len() {
                assert(before.view()[i] == k);
            }
        }
        assert forall|k: Seq<char>| #[trigger]
            before.view().contains(k) implies after.view().contains(k) by {
            let i = choose|i: int| 0 <= i < before.view().len() && before.view()[i] == k;
            assert(after.view()[i] == k);
        }
    }
}

} // verus!
