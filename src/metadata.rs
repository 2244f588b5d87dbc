use vstd::prelude::*;

verus! {

/// The JSON text that `serde_json` writes for an object with these string
/// entries.
pub uninterp spec fn json_object_text(m: Map<Seq<char>, Seq<char>>) -> Seq<char>;

/// The entries of a key/value list, as spec strings.
pub open spec fn entries_view(s: Seq<(String, String)>) -> Seq<(Seq<char>, Seq<char>)> {
    s.map_values(|p: (String, String)| (p.0@, p.1@))
}

/// No key occurs twice.
pub open spec fn keys_unique(s: Seq<(Seq<char>, Seq<char>)>) -> bool {
    forall|i: int, j: int| 0 <= i < j < s.len() ==> s[i].0 != s[j].0
}

/// Whether `k` is the key of some entry.
pub open spec fn has_key(s: Seq<(Seq<char>, Seq<char>)>, k: Seq<char>) -> bool {
    exists|i: int| 0 <= i < s.len() && s[i].0 == k
}

/// The mapping that a list of entries with unique keys stands for.
pub open spec fn entries_map(s: Seq<(Seq<char>, Seq<char>)>) -> Map<Seq<char>, Seq<char>> {
    Map::new(
        |k: Seq<char>| has_key(s, k),
        |k: Seq<char>| s[choose|i: int| 0 <= i < s.len() && s[i].0 == k].1,
    )
}

/// The mapping after inserting each pair in turn, a later one overwriting an
/// earlier one with the same key.
pub open spec fn insert_all(m: Map<Seq<char>, Seq<char>>, pairs: Seq<(Seq<char>, Seq<char>)>) -> Map<
    Seq<char>,
    Seq<char>,
>
    decreases pairs.len(),
{
    if pairs.len() == 0 {
        m
    } else {
        insert_all(m, pairs.drop_last()).insert(pairs.last().0, pairs.last().1)
    }
}

/// Relies on `serde_json::to_string` of a `BTreeMap<&str, &str>`: the JSON
/// object text is determined by the entries, and an empty map is written `{}`.
/// Its documentation names only a failing `Serialize` impl and non-string map
/// keys as causes of failure, neither of which a map of strings has.
#[verifier::external_body]
fn object_to_json(entries: &Vec<(String, String)>) -> (r: Option<String>)
    requires
        keys_unique(entries_view(entries@)),
    ensures
        r is Some,
        r is Some ==> r->0@ == json_object_text(entries_map(entries_view(entries@))),
        entries@.len() == 0 ==> r is Some && r->0@ == "{}"@,
{
    let m: std::collections::BTreeMap<&str, &str> = entries.iter().map(
        |(k, v)| (k.as_str(), v.as_str()),
    ).collect();
    serde_json::to_string(&m).ok()
}

/// User annotations of an upload: string keys, each bound to one string value.
pub struct MetadataMap {
    entries: Vec<(String, String)>,
}

impl View for MetadataMap {
    type V = Map<Seq<char>, Seq<char>>;

    closed spec fn view(&self) -> Map<Seq<char>, Seq<char>> {
        entries_map(entries_view(self.entries@))
    }
}

proof fn lemma_set_entry(s: Seq<(Seq<char>, Seq<char>)>, i: int, k: Seq<char>, v: Seq<char>)
    requires
        keys_unique(s),
        0 <= i < s.len(),
        s[i].0 == k,
    ensures
        keys_unique(s.update(i, (k, v))),
        entries_map(s.update(i, (k, v))) == entries_map(s).insert(k, v),
{
    let t = s.update(i, (k, v));
    assert forall|q: Seq<char>| has_key(t, q) == has_key(s, q) by {
        if has_key(s, q) {
            let j = choose|j: int| 0 <= j < s.len() && s[j].0 == q;
            assert(t[j].0 == q);
        }
        if has_key(t, q) {
            let j = choose|j: int| 0 <= j < t.len() && t[j].0 == q;
            assert(s[j].0 == q);
        }
    }
    assert forall|q: Seq<char>| #[trigger] has_key(t, q) && q != k implies entries_map(t)[q]
        == entries_map(s)[q] by {
        let j = choose|j: int| 0 <= j < t.len() && t[j].0 == q;
        let j2 = choose|j: int| 0 <= j < s.len() && s[j].0 == q;
        assert(j == j2);
    }
    assert(has_key(t, k));
    let jk = choose|j: int| 0 <= j < t.len() && t[j].0 == k;
    assert(jk == i);
    assert(entries_map(t) =~= entries_map(s).insert(k, v));
}

proof fn lemma_push_entry(s: Seq<(Seq<char>, Seq<char>)>, k: Seq<char>, v: Seq<char>)
    requires
        keys_unique(s),
        !has_key(s, k),
    ensures
        keys_unique(s.push((k, v))),
        entries_map(s.push((k, v))) == entries_map(s).insert(k, v),
{
    let t = s.push((k, v));
    assert forall|q: Seq<char>| has_key(t, q) == (has_key(s, q) || q == k) by {
        if has_key(s, q) {
            let j = choose|j: int| 0 <= j < s.len() && s[j].0 == q;
            assert(t[j].0 == q);
        }
        if q == k {
            assert(t[s.len() as int].0 == q);
        }
    }
    assert forall|q: Seq<char>| #[trigger] has_key(t, q) && q != k implies entries_map(t)[q]
        == entries_map(s)[q] by {
        let j = choose|j: int| 0 <= j < t.len() && t[j].0 == q;
        let j2 = choose|j: int| 0 <= j < s.len() && s[j].0 == q;
        assert(t[j2].0 == q);
        assert(j == j2);
    }
    let jk = choose|j: int| 0 <= j < t.len() && t[j].0 == k;
    assert(t[s.len() as int].0 == k);
    assert(jk == s.len());
    assert(entries_map(t) =~= entries_map(s).insert(k, v));
}

impl MetadataMap {
    /// Keys are never duplicated.
    pub closed spec fn wf(&self) -> bool {
        keys_unique(entries_view(self.entries@))
    }

    /// An empty mapping.
    pub fn new() -> (r: Self)
        ensures
            r.wf(),
            r@ == Map::<Seq<char>, Seq<char>>::empty(),
    {
        let r = MetadataMap { entries: Vec::new() };
        assert(r@ =~= Map::<Seq<char>, Seq<char>>::empty());
        r
    }

    /// Number of keys.
    pub fn len(&self) -> (r: usize)
        requires
            self.wf(),
        ensures
            r == self@.len(),
    {
        proof {
            self.lemma_len();
        }
        self.entries.len()
    }

    proof fn lemma_len(&self)
        requires
            self.wf(),
        ensures
            self@.dom().len() == self.entries@.len(),
        decreases self.entries@.len(),
    {
        let s = entries_view(self.entries@);
        lemma_entries_dom(s);
    }

    /// Binds `key` to `value`, replacing any value that `key` had.
    pub fn insert(&mut self, key: String, value: String)
        requires
            old(self).wf(),
        ensures
            final(self).wf(),
            final(self)@ == old(self)@.insert(key@, value@),
    {
        let ghost s = entries_view(self.entries@);
        let n = self.entries.len();
        let mut i: usize = 0;
        while i < n
            invariant
                n == self.entries@.len(),
                self.entries@ == old(self).entries@,
                s == entries_view(self.entries@),
                keys_unique(s),
                i <= n,
                forall|j: int| 0 <= j < i ==> s[j].0 != key@,
            decreases n - i,
        {
            if self.entries[i].0 == key {
                proof {
                    assert(s[i as int].0 == key@);
                    lemma_set_entry(s, i as int, key@, value@);
                }
                let ghost (kv, vv) = (key@, value@);
                self.entries.set(i, (key, value));
                proof {
                    assert(entries_view(self.entries@) =~= s.update(i as int, (kv, vv)));
                }
                return;
            }
            i = i + 1;
        }
        proof {
            lemma_push_entry(s, key@, value@);
            assert(entries_view(self.entries@.push((key, value))) =~= s.push((key@, value@)));
        }
        self.entries.push((key, value));
    }

    /// The value bound to `key`, if any.
    pub fn get(&self, key: &String) -> (r: Option<&String>)
        requires
            self.wf(),
        ensures
            match r {
                Some(v) => self@.contains_key(key@) && self@[key@] == v@,
                None => !self@.contains_key(key@),
            },
    {
        let n = self.entries.len();
        let mut i: usize = 0;
        let ghost s = entries_view(self.entries@);
        while i < n
            invariant
                n == self.entries@.len(),
                s == entries_view(self.entries@),
                keys_unique(s),
                i <= n,
                forall|j: int| 0 <= j < i ==> s[j].0 != key@,
            decreases n - i,
        {
            if self.entries[i].0 == *key {
                proof {
                    assert(s[i as int].0 == key@);
                    let j = choose|j: int| 0 <= j < s.len() && s[j].0 == key@;
                    assert(j == i);
                }
                return Some(&self.entries[i].1);
            }
            i = i + 1;
        }
        None
    }

    /// The entries, each key once, in no particular order.
    pub fn entries(&self) -> (r: &Vec<(String, String)>)
        requires
            self.wf(),
        ensures
            keys_unique(entries_view(r@)),
            entries_map(entries_view(r@)) == self@,
    {
        &self.entries
    }

    /// The mapping as a JSON object, e.g. `{}` when it is empty.
    pub fn to_json(&self) -> (r: String)
        requires
            self.wf(),
        ensures
            r@ == json_object_text(self@),
            self@.len() == 0 ==> r@ == "{}"@,
    {
        proof {
            self.lemma_len();
        }
        match object_to_json(&self.entries) {
            Some(text) => text,
            None => vstd::pervasive::unreached(),
        }
    }
}

proof fn lemma_entries_dom(s: Seq<(Seq<char>, Seq<char>)>)
    requires
        keys_unique(s),
    ensures
        entries_map(s).dom().len() == s.len(),
        entries_map(s).dom().finite(),
    decreases s.len(),
{
    if s.len() == 0 {
        assert(entries_map(s).dom() =~= Set::<Seq<char>>::empty());
    } else {
        let t = s.drop_last();
        assert(keys_unique(t));
        lemma_entries_dom(t);
        assert(!has_key(t, s.last().0));
        assert forall|q: Seq<char>| has_key(s, q) == (has_key(t, q) || q == s.last().0) by {
            if has_key(t, q) {
                let j = choose|j: int| 0 <= j < t.len() && t[j].0 == q;
                assert(s[j].0 == q);
            }
            if has_key(s, q) && q != s.last().0 {
                let j = choose|j: int| 0 <= j < s.len() && s[j].0 == q;
                assert(t[j].0 == q);
            }
            if q == s.last().0 {
                assert(s[s.len() - 1].0 == q);
            }
        }
        assert(entries_map(s).dom() =~= entries_map(t).dom().insert(s.last().0));
    }
}

/// Adding the same key twice keeps only the latter value, whether the two
/// bindings come one by one or in one list.
pub proof fn lemma_insert_twice_keeps_latter(
    m: Map<Seq<char>, Seq<char>>,
    k: Seq<char>,
    v1: Seq<char>,
    v2: Seq<char>,
)
    ensures
        m.insert(k, v1).insert(k, v2) == m.insert(k, v2),
        insert_all(m, seq![(k, v1), (k, v2)]) == m.insert(k, v2),
        m.insert(k, v1).insert(k, v2)[k] == v2,
{
    let pairs = seq![(k, v1), (k, v2)];
    assert(pairs.drop_last() =~= seq![(k, v1)]);
    assert(seq![(k, v1)].drop_last() =~= Seq::<(Seq<char>, Seq<char>)>::empty());
    assert(insert_all(m, Seq::<(Seq<char>, Seq<char>)>::empty()) == m);
    assert(insert_all(m, seq![(k, v1)]) == m.insert(k, v1));
    assert(insert_all(m, pairs) == m.insert(k, v1).insert(k, v2));
    assert(m.insert(k, v1).insert(k, v2) =~= m.insert(k, v2));
}

} // verus!
