use vstd::prelude::*;

use crate::config::{Config, ConfigModel};

verus! {

/// The map that a sequence of (identifier, configuration) pairs describes;
/// a later pair wins over an earlier one with the same identifier.
pub open spec fn entries_map(s: Seq<(Seq<char>, ConfigModel)>) -> Map<Seq<char>, ConfigModel>
    decreases s.len(),
{
    if s.len() == 0 {
        Map::empty()
    } else {
        entries_map(s.drop_last()).insert(s.last().0, s.last().1)
    }
}

/// No identifier occurs twice.
pub open spec fn keys_unique(s: Seq<(Seq<char>, ConfigModel)>) -> bool {
    forall|i: int, j: int| 0 <= i < s.len() && 0 <= j < s.len() && i != j ==> s[i].0 != s[j].0
}

proof fn lemma_absent(s: Seq<(Seq<char>, ConfigModel)>, k: Seq<char>)
    requires
        forall|i: int| 0 <= i < s.len() ==> s[i].0 != k,
    ensures
        !entries_map(s).contains_key(k),
    decreases s.len(),
{
    if s.len() > 0 {
        lemma_absent(s.drop_last(), k);
    }
}

proof fn lemma_present(s: Seq<(Seq<char>, ConfigModel)>, i: int)
    requires
        keys_unique(s),
        0 <= i < s.len(),
    ensures
        entries_map(s).contains_key(s[i].0),
        entries_map(s)[s[i].0] == s[i].1,
    decreases s.len(),
{
    if i < s.len() - 1 {
        lemma_present(s.drop_last(), i);
    }
}

proof fn lemma_replace(s: Seq<(Seq<char>, ConfigModel)>, i: int, v: ConfigModel)
    requires
        keys_unique(s),
        0 <= i < s.len(),
    ensures
        entries_map(s.update(i, (s[i].0, v))) == entries_map(s).insert(s[i].0, v),
    decreases s.len(),
{
    let t = s.update(i, (s[i].0, v));
    if i == s.len() - 1 {
        assert(t.drop_last() =~= s.drop_last());
        assert(entries_map(t) =~= entries_map(s).insert(s[i].0, v));
    } else {
        assert(t.drop_last() =~= s.drop_last().update(i, (s[i].0, v)));
        lemma_replace(s.drop_last(), i, v);
        assert(s.last().0 != s[i].0);
        assert(entries_map(t) =~= entries_map(s).insert(s[i].0, v));
    }
}

/// Persisted client configurations, each under its identifier.
pub struct ConfigStore {
    entries: Vec<(String, Config)>,
}

impl View for ConfigStore {
    type V = Map<Seq<char>, ConfigModel>;

    closed spec fn view(&self) -> Map<Seq<char>, ConfigModel> {
        entries_map(self.model())
    }
}

impl ConfigStore {
    closed spec fn model(&self) -> Seq<(Seq<char>, ConfigModel)> {
        self.entries@.map_values(|e: (String, Config)| (e.0@, e.1@))
    }

    /// Well-formedness: every identifier is stored at most once.
    pub closed spec fn wf(&self) -> bool {
        keys_unique(self.model())
    }

    /// An empty store.
    pub fn new() -> (r: ConfigStore)
        ensures
            r.wf(),
            r@ == Map::<Seq<char>, ConfigModel>::empty(),
    {
        let r = ConfigStore { entries: Vec::new() };
        proof {
            assert(r.model() =~= Seq::<(Seq<char>, ConfigModel)>::empty());
        }
        r
    }

    /// The position of `id`, if it is stored.
    fn position(&self, id: &String) -> (r: Option<usize>)
        requires
            self.wf(),
        ensures
            r matches Some(i) ==> i < self.model().len() && self.model()[i as int].0 == id@,
            r is None ==> forall|i: int| 0 <= i < self.model().len() ==> self.model()[i].0 != id@,
    {
        let mut i: usize = 0;
        while i < self.entries.len()
            invariant
                i <= self.entries@.len(),
                self.model().len() == self.entries@.len(),
                forall|j: int| 0 <= j < i ==> self.model()[j].0 != id@,
            decreases self.entries@.len() - i,
        {
            if self.entries[i].0 == *id {
                return Some(i);
            }
            i = i + 1;
        }
        None
    }

    /// Whether a configuration is stored under `id`.
    pub fn contains(&self, id: &str) -> (r: bool)
        requires
            self.wf(),
        ensures
            r == self@.contains_key(id@),
    {
        let key = id.to_owned();
        match self.position(&key) {
            Some(i) => {
                proof {
                    lemma_present(self.model(), i as int);
                }
                true
            },
            None => {
                proof {
                    lemma_absent(self.model(), id@);
                }
                false
            },
        }
    }

    /// A copy of the configuration stored under `id`, if there is one.
    pub fn load(&self, id: &str) -> (r: Option<Config>)
        requires
            self.wf(),
        ensures
            r is Some <==> self@.contains_key(id@),
            r matches Some(c) ==> c@ == self@[id@],
    {
        let key = id.to_owned();
        match self.position(&key) {
            Some(i) => {
                proof {
                    lemma_present(self.model(), i as int);
                }
                Some(self.entries[i].1.duplicate())
            },
            None => {
                proof {
                    lemma_absent(self.model(), id@);
                }
                None
            },
        }
    }

    /// Stores `config` under `id`, replacing whatever was stored there.
    pub fn save(&mut self, id: &str, config: Config)
        requires
            old(self).wf(),
        ensures
            final(self).wf(),
            final(self)@ == old(self)@.insert(id@, config@),
    {
        let key = id.to_owned();
        let ghost m = self.model();
        match self.position(&key) {
            Some(i) => {
                self.entries.set(i, (key, config));
                proof {
                    assert(self.model() =~= m.update(i as int, (m[i as int].0, config@)));
                    lemma_replace(m, i as int, config@);
                }
            },
            None => {
                self.entries.push((key, config));
                proof {
                    assert(self.model() =~= m.push((id@, config@)));
                    assert(self.model().drop_last() =~= m);
                }
            },
        }
    }
}

} // verus!
