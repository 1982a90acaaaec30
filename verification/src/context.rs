//! The string-keyed context threaded through the publish stages.
//!
//! The pipeline treats the context as an opaque, cloneable value: each
//! stage receives the previous stage's context and returns a new one. It
//! is a map from string keys to tagged [`Value`]s, stored as an
//! association list whose keys are unique.

use vstd::prelude::*;
use vstd::pervasive::VecAdditionalExecFns;

verus! {

/// A tagged context value.
#[derive(Debug, PartialEq)]
pub enum Value {
    /// No value.
    Null,
    /// A boolean.
    Boolean(bool),
    /// A signed integer.
    Integer(i64),
    /// A string.
    Text(String),
}

impl Clone for Value {
    /// An equal value.
    fn clone(&self) -> (res: Self)
        ensures
            res == self,
    {
        match self {
            Value::Null => Value::Null,
            Value::Boolean(b) => Value::Boolean(*b),
            Value::Integer(i) => Value::Integer(*i),
            Value::Text(s) => Value::Text(s.clone()),
        }
    }
}

/// The map described by an association list, later entries winning.
pub open spec fn assoc_map(entries: Seq<(String, Value)>) -> Map<Seq<char>, Value>
    decreases entries.len(),
{
    if entries.len() == 0 {
        Map::empty()
    } else {
        assoc_map(entries.drop_last()).insert(entries.last().0@, entries.last().1)
    }
}

/// No key occurs twice in the association list.
pub open spec fn keys_unique(entries: Seq<(String, Value)>) -> bool {
    forall|i: int, j: int|
        0 <= i < j < entries.len() ==> entries[i].0@ != entries[j].0@
}

/// The context data container.
///
/// A clonable map of string keys to [`Value`]s, passed by value through
/// the stages of a publish.
#[derive(Debug)]
pub struct Context {
    data: Vec<(String, Value)>,
}

impl Clone for Context {
    /// An equal context.
    fn clone(&self) -> (res: Self)
        ensures
            res@ == self@,
    {
        let mut data: Vec<(String, Value)> = Vec::new();
        let mut i: usize = 0;
        while i < self.data.len()
            invariant
                i <= self.data.len(),
                data@ =~= self.data@.take(i as int),
            decreases self.data.len() - i,
        {
            data.push((self.data[i].0.clone(), self.data[i].1.clone()));
            proof {
                assert(data@ =~= self.data@.take(i + 1int));
            }
            i = i + 1;
        }
        proof {
            assert(self.data@.take(self.data@.len() as int) =~= self.data@);
        }
        Context { data }
    }
}

impl View for Context {
    type V = Seq<(String, Value)>;

    closed spec fn view(&self) -> Seq<(String, Value)> {
        self.data@
    }
}

impl Context {
    /// The key/value map this context holds.
    pub open spec fn as_map(self) -> Map<Seq<char>, Value> {
        assoc_map(self@)
    }

    /// Well-formed: no duplicate keys.
    pub open spec fn wf(self) -> bool {
        keys_unique(self@)
    }

    /// Build a context from a list of entries; a later entry overrides an
    /// earlier one with the same key.
    pub fn new(entries: Vec<(String, Value)>) -> (r: Self)
        ensures
            r.wf(),
            r.as_map() == assoc_map(entries@),
    {
        let mut r = Context { data: Vec::new() };
        let mut i: usize = 0;
        proof {
            assert(entries@.take(0int) =~= Seq::<(String, Value)>::empty());
        }
        while i < entries.len()
            invariant
                i <= entries.len(),
                r.wf(),
                r.as_map() == assoc_map(entries@.take(i as int)),
            decreases entries.len() - i,
        {
            let (key, value) = (entries[i].0.clone(), entries[i].1.clone());
            r.set(key.as_str(), value);
            proof {
                assert(entries@.take(i + 1int).drop_last() =~= entries@.take(i as int));
                assert(entries@.take(i + 1int).last() == entries@[i as int]);
            }
            i = i + 1;
        }
        proof {
            assert(entries@.take(entries@.len() as int) =~= entries@);
        }
        r
    }

    /// Look a key up.
    pub fn get(&self, key: &str) -> (r: Option<&Value>)
        requires
            self.wf(),
        ensures
            r is Some <==> self.as_map().contains_key(key@),
            r matches Some(v) ==> self.as_map()[key@] == *v,
    {
        let key_string = key.to_owned();
        let mut i: usize = 0;
        while i < self.data.len()
            invariant
                self.wf(),
                i <= self.data.len(),
                key_string@ == key@,
                forall|j: int| 0 <= j < i ==> self.data@[j].0@ != key@,
            decreases self.data.len() - i,
        {
            if self.data[i].0 == key_string {
                proof {
                    lemma_assoc_map_index(self@, i as int);
                }
                return Some(&self.data[i].1);
            }
            i = i + 1;
        }
        proof {
            lemma_assoc_map_absent(self@, key@);
        }
        None
    }

    /// Insert or replace the value under a key.
    pub fn set(&mut self, key: &str, value: Value)
        requires
            old(self).wf(),
        ensures
            final(self).wf(),
            final(self).as_map() == old(self).as_map().insert(key@, value),
    {
        let key_string = key.to_owned();
        let mut i: usize = 0;
        while i < self.data.len()
            invariant
                self == old(self),
                self.wf(),
                i <= self.data.len(),
                key_string@ == key@,
                forall|j: int| 0 <= j < i ==> self.data@[j].0@ != key@,
            decreases self.data.len() - i,
        {
            if self.data[i].0 == key_string {
                let ghost before = self@;
                self.data.set(i, (key_string, value));
                proof {
                    lemma_assoc_map_update(before, i as int, self@[i as int]);
                }
                return ;
            }
            i = i + 1;
        }
        let ghost before = self@;
        self.data.push((key_string, value));
        proof {
            assert(self@.drop_last() =~= before);
        }
    }

    /// The number of entries.
    pub fn len(&self) -> (r: usize)
        requires
            self.wf(),
        ensures
            r == self@.len(),
            r == self.as_map().dom().len(),
    {
        proof {
            lemma_assoc_map_dom_len(self@);
        }
        self.data.len()
    }

    /// Whether the context holds no entry.
    pub fn is_empty(&self) -> (r: bool)
        requires
            self.wf(),
        ensures
            r <==> self@.len() == 0,
    {
        self.data.is_empty()
    }

    /// The entries, in insertion order.
    pub fn entries(&self) -> (r: &Vec<(String, Value)>)
        ensures
            r@ == self@,
    {
        &self.data
    }
}

impl Default for Context {
    /// An empty context.
    fn default() -> (r: Self)
        ensures
            r.wf(),
            r.as_map() == Map::<Seq<char>, Value>::empty(),
            r@.len() == 0,
    {
        Context { data: Vec::new() }
    }
}

/// An entry's key is in the map, bound to its value, when keys are unique.
proof fn lemma_assoc_map_index(entries: Seq<(String, Value)>, i: int)
    requires
        keys_unique(entries),
        0 <= i < entries.len(),
    ensures
        assoc_map(entries).contains_key(entries[i].0@),
        assoc_map(entries)[entries[i].0@] == entries[i].1,
    decreases entries.len(),
{
    if i < entries.len() - 1 {
        lemma_assoc_map_index(entries.drop_last(), i);
    }
}

/// A key under which no entry stands is not in the map.
proof fn lemma_assoc_map_absent(entries: Seq<(String, Value)>, key: Seq<char>)
    requires
        forall|j: int| 0 <= j < entries.len() ==> entries[j].0@ != key,
    ensures
        !assoc_map(entries).contains_key(key),
    decreases entries.len(),
{
    if entries.len() > 0 {
        lemma_assoc_map_absent(entries.drop_last(), key);
    }
}

/// Replacing the entry that holds a key updates just that key's binding.
proof fn lemma_assoc_map_update(entries: Seq<(String, Value)>, i: int, entry: (String, Value))
    requires
        keys_unique(entries),
        0 <= i < entries.len(),
        entry.0@ == entries[i].0@,
    ensures
        keys_unique(entries.update(i, entry)),
        assoc_map(entries.update(i, entry)) == assoc_map(entries).insert(entry.0@, entry.1),
    decreases entries.len(),
{
    let updated = entries.update(i, entry);
    assert(forall|j: int|
        0 <= j < entries.len() && j != i ==> updated[j] == entries[j]);
    if i == entries.len() - 1 {
        assert(updated.drop_last() =~= entries.drop_last());
        assert(assoc_map(updated) == assoc_map(entries.drop_last()).insert(entry.0@, entry.1));
        assert(assoc_map(entries).insert(entry.0@, entry.1) =~= assoc_map(
            entries.drop_last(),
        ).insert(entry.0@, entry.1));
    } else {
        assert(updated.drop_last() =~= entries.drop_last().update(i, entry));
        lemma_assoc_map_update(entries.drop_last(), i, entry);
        assert(updated.last() == entries.last());
        assert(assoc_map(updated) == assoc_map(entries.drop_last()).insert(
            entry.0@,
            entry.1,
        ).insert(entries.last().0@, entries.last().1));
        assert(entries.last().0@ != entry.0@);
        assert(assoc_map(entries.drop_last()).insert(entry.0@, entry.1).insert(
            entries.last().0@,
            entries.last().1,
        ) =~= assoc_map(entries.drop_last()).insert(entries.last().0@, entries.last().1).insert(
            entry.0@,
            entry.1,
        ));
    }
}

/// With unique keys the map has exactly one binding per entry.
proof fn lemma_assoc_map_dom_len(entries: Seq<(String, Value)>)
    requires
        keys_unique(entries),
    ensures
        assoc_map(entries).dom().len() == entries.len(),
        assoc_map(entries).dom().finite(),
    decreases entries.len(),
{
    if entries.len() > 0 {
        lemma_assoc_map_dom_len(entries.drop_last());
        lemma_assoc_map_absent(entries.drop_last(), entries.last().0@);
        assert(assoc_map(entries).dom() =~= assoc_map(entries.drop_last()).dom().insert(
            entries.last().0@,
        ));
        vstd::set::axiom_set_insert_len(
            assoc_map(entries.drop_last()).dom(),
            entries.last().0@,
        );
    }
}

} // verus!
