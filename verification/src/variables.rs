//! The recipe variables known to the frontend: JSON values by name.
use vstd::prelude::*;

verus! {

/// Why a variable could not be read.
#[derive(Debug)]
pub enum GetVariableError {
    /// No variable of this name is known.
    NotFound,
    /// The variable holds a value of another type.
    DeserializationError(serde_json::Error),
}

/// Recipe variables: JSON values by name, each name at most once.
pub struct VariableStore {
    entries: Vec<(String, serde_json::Value)>,
    contents: Ghost<Map<Seq<char>, serde_json::Value>>,
}

/// The entries hold each name at most once, and exactly the names and values
/// of `contents`.
spec fn entries_match(entries: Seq<(String, serde_json::Value)>, contents: Map<Seq<char>, serde_json::Value>) -> bool {
        &&& forall|i: int, j: int|
            0 <= i < j < entries.len() ==> #[trigger] entries[i].0@
                != #[trigger] entries[j].0@
        &&& forall|i: int|
            0 <= i < entries.len() ==> contents.contains_key(
                (#[trigger] entries[i]).0@,
            ) && contents[entries[i].0@] == entries[i].1
        &&& forall|k: Seq<char>|
            #[trigger] contents.contains_key(k) ==> exists|i: int|
                0 <= i < entries.len() && #[trigger] entries[i].0@ == k
    }

impl View for VariableStore {
    type V = Map<Seq<char>, serde_json::Value>;

    closed spec fn view(&self) -> Self::V {
        self.contents@
    }
}

impl VariableStore {
    #[verifier::type_invariant]
    spec fn well_formed(self) -> bool {
        entries_match(self.entries@, self.contents@)
    }

    /// A store without variables.
    pub fn new() -> (r: Self)
        ensures
            r@ == Map::<Seq<char>, serde_json::Value>::empty(),
    {
        VariableStore { entries: Vec::new(), contents: Ghost(Map::empty()) }
    }

    /// The position of `name` among the entries, if it is there.
    fn position(&self, name: &String) -> (r: Option<usize>)
        ensures
            match r {
                Some(i) => i < self.entries@.len() && self.entries@[i as int].0@ == name@,
                None => !self@.contains_key(name@),
            },
    {
        proof {
            use_type_invariant(self);
        }
        let mut i: usize = 0;
        while i < self.entries.len()
            invariant
                0 <= i <= self.entries@.len(),
                forall|j: int| 0 <= j < i ==> self.entries@[j].0@ != name@,
            decreases self.entries@.len() - i,
        {
            if self.entries[i].0 == *name {
                return Some(i);
            }
            i = i + 1;
        }
        None
    }

    /// The value of the variable `name`, or `NotFound` if there is none.
    pub fn get_variable(&self, name: &String) -> (r: Result<&serde_json::Value, GetVariableError>)
        ensures
            match r {
                Ok(v) => self@.contains_key(name@) && *v == self@[name@],
                Err(e) => !self@.contains_key(name@) && e is NotFound,
            },
    {
        proof {
            use_type_invariant(self);
        }
        match self.position(name) {
            Some(i) => {
                assert(self.entries@[i as int].0@ == name@);
                Ok(&self.entries[i].1)
            },
            None => Err(GetVariableError::NotFound),
        }
    }

    /// Whether a variable `name` is known.
    pub fn contains(&self, name: &String) -> (r: bool)
        ensures
            r == self@.contains_key(name@),
    {
        proof {
            use_type_invariant(self);
        }
        match self.position(name) {
            Some(i) => {
                assert(self.entries@[i as int].0@ == name@);
                true
            },
            None => false,
        }
    }

    /// Stores the serialized value of the variable `name`, replacing an older
    /// one. A value that could not be serialized is not stored; the answer
    /// says whether the value was stored.
    pub fn set_variable(&mut self, name: String, serialized: Result<serde_json::Value, serde_json::Error>) -> (r:
        bool)
        ensures
            r == serialized is Ok,
            match serialized {
                Ok(v) => final(self)@ == old(self)@.insert(name@, v),
                Err(_) => final(self)@ == old(self)@,
            },
    {
        proof {
            use_type_invariant(&*self);
        }
        let value = match serialized {
            Ok(v) => v,
            Err(_) => return false,
        };
        let ghost new_contents = self.contents@.insert(name@, value);
        match self.position(&name) {
            Some(i) => {
                let ghost old_entries = self.entries@;
                let mut this = VariableStore::new();
                std::mem::swap(self, &mut this);
                let VariableStore { mut entries, contents: _ } = this;
                entries.set(i, (name, value));
                assert(entries@[i as int].0@ == old_entries[i as int].0@);
                assert forall|a: int, b: int|
                    0 <= a < b < entries@.len() implies #[trigger] entries@[a].0@
                    != #[trigger] entries@[b].0@ by {
                    assert(old_entries[a].0@ != old_entries[b].0@);
                }
                assert forall|j: int| 0 <= j < entries@.len() implies new_contents.contains_key(
                    (#[trigger] entries@[j]).0@,
                ) && new_contents[entries@[j].0@] == entries@[j].1 by {
                    if j != i {
                        assert(old_entries[j].0@ != old_entries[i as int].0@);
                        assert(old_entries[j] == entries@[j]);
                    }
                }
                assert forall|k: Seq<char>| #[trigger] new_contents.contains_key(k) implies exists|j: int|
                    0 <= j < entries@.len() && #[trigger] entries@[j].0@ == k by {
                    if k != entries@[i as int].0@ {
                        let j = choose|j: int|
                            0 <= j < old_entries.len() && #[trigger] old_entries[j].0@ == k;
                        assert(entries@[j].0@ == k);
                    }
                }
                assert(entries_match(entries@, new_contents));
                *self = VariableStore { entries, contents: Ghost(new_contents) };
            },
            None => {
                let ghost old_entries = self.entries@;
                let mut this = VariableStore::new();
                std::mem::swap(self, &mut this);
                let VariableStore { mut entries, contents: _ } = this;
                assert forall|j: int| 0 <= j < old_entries.len() implies (#[trigger] old_entries[j]).0@
                    != name@ by {
                    assert(old(self).contents@.contains_key(old_entries[j].0@));
                }
                entries.push((name, value));
                assert forall|a: int, b: int|
                    0 <= a < b < entries@.len() implies #[trigger] entries@[a].0@
                    != #[trigger] entries@[b].0@ by {
                    assert(entries@[a] == old_entries[a]);
                    if b < old_entries.len() {
                        assert(entries@[b] == old_entries[b]);
                    }
                }
                assert forall|j: int| 0 <= j < entries@.len() implies new_contents.contains_key(
                    (#[trigger] entries@[j]).0@,
                ) && new_contents[entries@[j].0@] == entries@[j].1 by {
                    if j < old_entries.len() {
                        assert(entries@[j] == old_entries[j]);
                    }
                }
                assert forall|k: Seq<char>| #[trigger] new_contents.contains_key(k) implies exists|j: int|
                    0 <= j < entries@.len() && #[trigger] entries@[j].0@ == k by {
                    if k != entries@[old_entries.len() as int].0@ {
                        let j = choose|j: int|
                            0 <= j < old_entries.len() && #[trigger] old_entries[j].0@ == k;
                        assert(entries@[j].0@ == k);
                    }
                }
                assert(entries_match(entries@, new_contents));
                *self = VariableStore { entries, contents: Ghost(new_contents) };
            },
        }
        true
    }
}

/// A read gives back what the last write of the same name wrote; a write of
/// one name leaves every other name as it was; a name never written is not
/// found.
pub proof fn lemma_read_after_write(
    store: Map<Seq<char>, serde_json::Value>,
    name: Seq<char>,
    other: Seq<char>,
    value: serde_json::Value,
)
    requires
        other != name,
    ensures
        store.insert(name, value).contains_key(name),
        store.insert(name, value)[name] == value,
        store.insert(name, value).contains_key(other) == store.contains_key(other),
        store.contains_key(other) ==> store.insert(name, value)[other] == store[other],
        !Map::<Seq<char>, serde_json::Value>::empty().contains_key(name),
{
}

} // verus!
