//! Sending messages to queues: the cache of queue addresses and the
//! attributes a message is sent with.

pub mod messages;

use vstd::prelude::*;

verus! {

/// Texts kept by name, each name at most once: the addresses of queues
/// already looked up, or the attributes of a message.
pub struct TextMap {
    entries: Vec<(String, String)>,
}

/// Queue addresses already looked up, by queue name.
pub type QueueUrlCache = TextMap;

/// The map that a list of (name, address) pairs holds: each name listed
/// maps to the address listed with it.
pub open spec fn entries_map(entries: Seq<(String, String)>) -> Map<Seq<char>, Seq<char>> {
    Map::new(
        |name: Seq<char>| exists|i: int| 0 <= i < entries.len() && #[trigger] entries[i].0@ == name,
        |name: Seq<char>|
            entries[choose|i: int| 0 <= i < entries.len() && #[trigger] entries[i].0@ == name].1@,
    )
}

/// No name is listed twice.
pub open spec fn names_distinct(entries: Seq<(String, String)>) -> bool {
    forall|i: int, j: int|
        0 <= i < j < entries.len() ==> #[trigger] entries[i].0@ != #[trigger] entries[j].0@
}

impl View for TextMap {
    type V = Map<Seq<char>, Seq<char>>;

    closed spec fn view(&self) -> Map<Seq<char>, Seq<char>> {
        entries_map(self.entries@)
    }
}

/// In a list without repeated names, the entry at `i` gives the address of
/// its name.
proof fn lemma_entry_is_mapped(entries: Seq<(String, String)>, i: int)
    requires
        names_distinct(entries),
        0 <= i < entries.len(),
    ensures
        entries_map(entries).contains_key(entries[i].0@),
        entries_map(entries)[entries[i].0@] == entries[i].1@,
{
    let name = entries[i].0@;
    assert(entries[i].0@ == name);
    let k = choose|j: int| 0 <= j < entries.len() && #[trigger] entries[j].0@ == name;
    if k != i {
        if k < i {
            assert(entries[k].0@ != entries[i].0@);
        } else {
            assert(entries[i].0@ != entries[k].0@);
        }
    }
}

/// Writing `e` over the entry at `i`, which has the same name, or appending
/// it when its name is not listed, keeps names distinct and maps the name to
/// the new address.
proof fn lemma_store_entry(
    before: Seq<(String, String)>,
    after: Seq<(String, String)>,
    e: (String, String),
)
    requires
        names_distinct(before),
        (exists|i: int|
            0 <= i < before.len() && before[i].0@ == e.0@ && after == before.update(i, e)) || (
        (forall|i: int| 0 <= i < before.len() ==> #[trigger] before[i].0@ != e.0@) && after
            == before.push(e)),
    ensures
        names_distinct(after),
        entries_map(after) == entries_map(before).insert(e.0@, e.1@),
{
    assert(names_distinct(after)) by {
        assert forall|i: int, j: int| 0 <= i < j < after.len() implies #[trigger] after[i].0@
            != #[trigger] after[j].0@ by {
            if after.len() == before.len() {
                let p = choose|p: int|
                    0 <= p < before.len() && before[p].0@ == e.0@ && after == before.update(p, e);
                if i != p && j != p {
                    assert(before[i].0@ != before[j].0@);
                } else if i == p {
                    assert(before[i].0@ != before[j].0@);
                } else {
                    assert(before[i].0@ != before[j].0@);
                }
            } else {
                if j == before.len() {
                    assert(before[i].0@ != e.0@);
                } else {
                    assert(before[i].0@ != before[j].0@);
                }
            }
        }
    }
    let m = entries_map(after);
    let expected = entries_map(before).insert(e.0@, e.1@);
    assert forall|k: Seq<char>| #[trigger] m.contains_key(k) == expected.contains_key(k) by {
        if k == e.0@ {
            if after.len() == before.len() {
                let p = choose|p: int|
                    0 <= p < before.len() && before[p].0@ == e.0@ && after == before.update(p, e);
                assert(after[p].0@ == k);
            } else {
                assert(after[before.len() as int].0@ == k);
            }
        } else if m.contains_key(k) {
            let j = choose|j: int| 0 <= j < after.len() && #[trigger] after[j].0@ == k;
            assert(before[j].0@ == k);
        } else if entries_map(before).contains_key(k) {
            let j = choose|j: int| 0 <= j < before.len() && #[trigger] before[j].0@ == k;
            assert(after[j].0@ == k);
        }
    }
    assert forall|k: Seq<char>| #[trigger] m.contains_key(k) implies m[k] == expected[k] by {
        let j = choose|j: int| 0 <= j < after.len() && #[trigger] after[j].0@ == k;
        lemma_entry_is_mapped(after, j);
        if k != e.0@ {
            assert(before[j].0@ == k);
            lemma_entry_is_mapped(before, j);
        }
    }
    assert(m =~= expected);
}

impl TextMap {
    /// No name is kept twice.
    #[verifier::type_invariant]
    closed spec fn well_formed(&self) -> bool {
        names_distinct(self.entries@)
    }

    /// An empty map.
    pub fn new() -> (r: Self)
        ensures
            r@ == Map::<Seq<char>, Seq<char>>::empty(),
    {
        let r = TextMap { entries: Vec::new() };
        assert(r@ =~= Map::<Seq<char>, Seq<char>>::empty());
        r
    }

    fn position(&self, name: &str) -> (r: Option<usize>)
        ensures
            match r {
                Some(i) => i < self.entries@.len() && self.entries@[i as int].0@ == name@,
                None => forall|i: int|
                    0 <= i < self.entries@.len() ==> #[trigger] self.entries@[i].0@ != name@,
            },
    {
        let key = String::from_str(name);
        let n = self.entries.len();
        for i in 0..n
            invariant
                n == self.entries@.len(),
                key@ == name@,
                forall|j: int| 0 <= j < i ==> #[trigger] self.entries@[j].0@ != name@,
        {
            if self.entries[i].0 == key {
                return Some(i);
            }
        }
        None
    }

    /// The text kept for `name`, if any.
    pub fn lookup(&self, name: &str) -> (r: Option<String>)
        ensures
            match r {
                Some(u) => self@.contains_key(name@) && u@ == self@[name@],
                None => !self@.contains_key(name@),
            },
    {
        proof {
            use_type_invariant(self);
        }
        match self.position(name) {
            Some(i) => {
                proof {
                    lemma_entry_is_mapped(self.entries@, i as int);
                }
                Some(self.entries[i].1.clone())
            },
            None => None,
        }
    }

    /// Keeps `url` as the text for `name`, in place of any text kept for
    /// it.
    pub fn remember(&mut self, name: String, url: String)
        ensures
            final(self)@ == old(self)@.insert(name@, url@),
    {
        proof {
            use_type_invariant(&*self);
        }
        let found = self.position(name.as_str());
        let mut entries: Vec<(String, String)> = Vec::new();
        std::mem::swap(&mut entries, &mut self.entries);
        let ghost before = entries@;
        let e = (name, url);
        let ghost eg = e;
        match found {
            Some(i) => {
                entries.set(i, e);
                proof {
                    assert(before[i as int].0@ == eg.0@ && entries@ == before.update(i as int, eg));
                }
            },
            None => {
                entries.push(e);
            },
        }
        proof {
            lemma_store_entry(before, entries@, eg);
        }
        self.entries = entries;
    }
}

/// The text of the error when the queue service knows no address for a
/// queue.
pub open spec fn missing_queue_text(name: Seq<char>) -> Seq<char> {
    "queue_url not found for "@ + name
}

/// The address of the queue `name`, given the queue service's reply to the
/// lookup: its error message, or the address it holds, if any. A found
/// address is kept in the cache.
pub fn queue_url_from_reply(
    cache: &mut QueueUrlCache,
    name: &str,
    reply: Result<Option<String>, String>,
) -> (r: Result<String, String>)
    ensures
        match reply {
            Err(m) => r == Err::<String, String>(m) && final(cache)@ == old(cache)@,
            Ok(None) => r matches Err(m) && m@ == missing_queue_text(name@) && final(cache)@
                == old(cache)@,
            Ok(Some(u)) => r == Ok::<String, String>(u) && final(cache)@ == old(cache)@.insert(
                name@,
                u@,
            ),
        },
{
    match reply {
        Err(m) => Err(m),
        Ok(None) => {
            let mut m = String::from_str("queue_url not found for ");
            m.append(name);
            Err(m)
        },
        Ok(Some(u)) => {
            cache.remember(String::from_str(name), u.clone());
            Ok(u)
        },
    }
}

/// An attribute of a queued message, as the queue service takes it.
pub struct AttributeValue {
    pub data_type: String,
    pub string_value: String,
}

/// The (name, text) pairs that a list of attributes holds.
pub open spec fn attribute_pairs(v: Seq<(String, AttributeValue)>) -> Seq<(String, String)> {
    v.map_values(|p: (String, AttributeValue)| (p.0, p.1.string_value))
}

/// The attributes a message is sent with: none when it has none, or an
/// empty set; otherwise each, once, as a value of data type `String`.
pub fn message_attributes(attributes: Option<TextMap>) -> (r: Option<Vec<(String, AttributeValue)>>)
    ensures
        match attributes {
            None => r is None,
            Some(a) => if a@ == Map::<Seq<char>, Seq<char>>::empty() {
                r is None
            } else {
                r matches Some(v) && names_distinct(attribute_pairs(v@)) && entries_map(
                    attribute_pairs(v@),
                ) == a@ && forall|i: int| 0 <= i < v.len() ==> (#[trigger] v@[i]).1.data_type@ == "String"@
            },
        },
{
    match attributes {
        None => None,
        Some(a) => {
            proof {
                use_type_invariant(&a);
            }
            if a.entries.len() == 0 {
                assert(a@ =~= Map::<Seq<char>, Seq<char>>::empty());
                return None;
            }
            assert(a@.contains_key(a.entries@[0].0@));
            let mut v: Vec<(String, AttributeValue)> = Vec::new();
            let n = a.entries.len();
            for i in 0..n
                invariant
                    n == a.entries.len(),
                    v.len() == i,
                    forall|j: int|
                        0 <= j < i ==> {
                            &&& (#[trigger] v@[j]).0 == a.entries@[j].0
                            &&& v@[j].1.data_type@ == "String"@
                            &&& v@[j].1.string_value == a.entries@[j].1
                        },
            {
                let name = a.entries[i].0.clone();
                let value = AttributeValue {
                    data_type: String::from_str("String"),
                    string_value: a.entries[i].1.clone(),
                };
                v.push((name, value));
            }
            assert(attribute_pairs(v@) =~= a.entries@);
            Some(v)
        },
    }
}

/// Once the queue service has given an address for a queue, the cache
/// answers for that queue with it, and for every other queue as before.
pub proof fn lemma_lookup_after_fetch(
    before: Map<Seq<char>, Seq<char>>,
    name: Seq<char>,
    url: Seq<char>,
    other: Seq<char>,
)
    ensures
        before.insert(name, url).contains_key(name),
        before.insert(name, url)[name] == url,
        other != name ==> (before.insert(name, url).contains_key(other) == before.contains_key(
            other,
        ) && (before.contains_key(other) ==> before.insert(name, url)[other] == before[other])),
{
}

} // verus!
