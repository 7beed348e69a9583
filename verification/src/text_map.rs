//! A map from texts to texts, kept as a list of entries with distinct keys.

use vstd::prelude::*;

verus! {

/// The map that a list of entries denotes: later entries override earlier ones.
pub open spec fn map_of(s: Seq<(Seq<char>, Seq<char>)>) -> Map<Seq<char>, Seq<char>>
    decreases s.len(),
{
    if s.len() == 0 {
        Map::empty()
    } else {
        map_of(s.drop_last()).insert(s.last().0, s.last().1)
    }
}

/// No key occurs twice.
pub open spec fn keys_distinct(s: Seq<(Seq<char>, Seq<char>)>) -> bool {
    forall|i: int, j: int| 0 <= i < j < s.len() ==> s[i].0 != s[j].0
}

pub open spec fn entry_views(v: Seq<(String, String)>) -> Seq<(Seq<char>, Seq<char>)> {
    v.map_values(|p: (String, String)| (p.0@, p.1@))
}

proof fn lemma_map_of_keys(s: Seq<(Seq<char>, Seq<char>)>, k: Seq<char>)
    ensures
        map_of(s).dom().contains(k) <==> exists|i: int| 0 <= i < s.len() && s[i].0 == k,
    decreases s.len(),
{
    if s.len() > 0 {
        lemma_map_of_keys(s.drop_last(), k);
        if map_of(s).dom().contains(k) && s.last().0 != k {
            let i = choose|i: int| 0 <= i < s.drop_last().len() && s.drop_last()[i].0 == k;
            assert(s[i].0 == k);
        }
        if exists|i: int| 0 <= i < s.len() && s[i].0 == k {
            let i = choose|i: int| 0 <= i < s.len() && s[i].0 == k;
            if i < s.len() - 1 {
                assert(s.drop_last()[i].0 == k);
            }
        }
    }
}

proof fn lemma_map_of_update(s: Seq<(Seq<char>, Seq<char>)>, i: int, v: Seq<char>)
    requires
        keys_distinct(s),
        0 <= i < s.len(),
    ensures
        map_of(s.update(i, (s[i].0, v))) == map_of(s).insert(s[i].0, v),
    decreases s.len(),
{
    let k = s[i].0;
    let t = s.update(i, (k, v));
    if i == s.len() - 1 {
        assert(t.drop_last() =~= s.drop_last());
        assert(map_of(t) =~= map_of(s).insert(k, v));
    } else {
        let d = s.drop_last();
        assert(t.drop_last() =~= d.update(i, (k, v)));
        lemma_map_of_update(d, i, v);
        assert(s.last().0 != k);
        assert(map_of(t) =~= map_of(s).insert(k, v));
    }
}

/// A map from texts to texts.
#[derive(Debug, Clone, PartialEq)]
pub struct TextMap {
    entries: Vec<(String, String)>,
}

impl View for TextMap {
    type V = Map<Seq<char>, Seq<char>>;

    closed spec fn view(&self) -> Map<Seq<char>, Seq<char>> {
        map_of(entry_views(self.entries@))
    }
}

impl TextMap {
    /// Keys are distinct.
    pub closed spec fn wf(&self) -> bool {
        keys_distinct(entry_views(self.entries@))
    }

    /// The entries, in the order in which their keys were first inserted.
    pub closed spec fn entry_list(&self) -> Seq<(Seq<char>, Seq<char>)> {
        entry_views(self.entries@)
    }

    /// The keys of the map are exactly the keys of the listed entries.
    pub proof fn law_entries_are_the_keys(&self)
        requires
            self.wf(),
        ensures
            forall|k: Seq<char>|
                #![trigger self@.dom().contains(k)]
                self@.dom().contains(k) <==> exists|i: int|
                    0 <= i < self.entry_list().len() && self.entry_list()[i].0 == k,
    {
        assert forall|k: Seq<char>| #![trigger self@.dom().contains(k)]
            self@.dom().contains(k) <==> exists|i: int|
                0 <= i < self.entry_list().len() && self.entry_list()[i].0 == k by {
            lemma_map_of_keys(self.entry_list(), k);
        }
    }

    pub fn new() -> (m: TextMap)
        ensures
            m.wf(),
            m@ == Map::<Seq<char>, Seq<char>>::empty(),
            m.entry_list().len() == 0,
    {
        let m = TextMap { entries: Vec::new() };
        assert(entry_views(m.entries@) =~= Seq::empty());
        m
    }

    /// Sets the value of `key`, as `HashMap::insert` does.
    pub fn insert(&mut self, key: String, value: String)
        requires
            old(self).wf(),
        ensures
            final(self).wf(),
            final(self)@ == old(self)@.insert(key@, value@),
    {
        let ghost s = entry_views(self.entries@);
        let n = self.entries.len();
        let mut i: usize = 0;
        while i < n
            invariant
                n == self.entries@.len(),
                s == entry_views(self.entries@),
                s == entry_views(old(self).entries@),
                keys_distinct(s),
                i <= n,
                forall|j: int| 0 <= j < i ==> s[j].0 != key@,
            decreases n - i,
        {
            if self.entries[i].0 == key {
                proof {
                    assert(s[i as int].0 == key@);
                    lemma_map_of_update(s, i as int, value@);
                }
                self.entries.set(i, (kv_clone(&self.entries[i].0), value));
                assert(entry_views(self.entries@) =~= s.update(i as int, (s[i as int].0, value@)));
                return;
            }
            i = i + 1;
        }
        let ghost kk = key@;
        let ghost vv = value@;
        self.entries.push((key, value));
        assert(entry_views(self.entries@) =~= s.push((kk, vv)));
        assert(entry_views(self.entries@).drop_last() =~= s);
    }

    /// The entries as pairs of strings.
    pub fn pairs(&self) -> (r: &Vec<(String, String)>)
        ensures
            entry_views(r@) == self.entry_list(),
    {
        &self.entries
    }
}

/// A value set under a key is read back under that key, and every other key
/// keeps its value.
pub proof fn law_read_after_insert(before: &TextMap, after: &TextMap, key: Seq<char>, value: Seq<char>)
    requires
        after@ == before@.insert(key, value),
    ensures
        after@.contains_key(key),
        after@[key] == value,
        forall|k: Seq<char>| k != key ==> (#[trigger] after@.contains_key(k)) == before@.contains_key(k),
        forall|k: Seq<char>| k != key && before@.contains_key(k) ==> #[trigger] after@[k] == before@[k],
{
}

fn kv_clone(s: &String) -> (r: String)
    ensures
        r@ == s@,
{
    s.clone()
}

} // verus!
