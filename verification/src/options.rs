//! The options that a user gives for a connection: a mapping from names to
//! texts, from which the connector takes what it knows.

use vstd::prelude::*;
use crate::config::{CompileError, CompileFailure};

verus! {

/// Whether no two entries have the same name.
pub open spec fn names_distinct(entries: Seq<(String, String)>) -> bool {
    forall|i: int, j: int|
        0 <= i < j < entries.len() ==> (#[trigger] entries[i]).0@ != (#[trigger] entries[j]).0@
}

/// Whether some entry is named `name`.
pub open spec fn has_name(entries: Seq<(String, String)>, name: Seq<char>) -> bool {
    exists|i: int| 0 <= i < entries.len() && (#[trigger] entries[i]).0@ == name
}

/// The place of an entry named `name`.
pub open spec fn place_of(entries: Seq<(String, String)>, name: Seq<char>) -> int {
    choose|i: int| 0 <= i < entries.len() && (#[trigger] entries[i]).0@ == name
}

/// The mapping that a list of entries stands for.
pub open spec fn mapping_of(entries: Seq<(String, String)>) -> Map<Seq<char>, Seq<char>> {
    Map::new(
        |name: Seq<char>| has_name(entries, name),
        |name: Seq<char>| entries[place_of(entries, name)].1@,
    )
}

/// In a list without repeated names, the entry at place `i` is what the
/// mapping holds for its name.
pub proof fn lemma_entry_in_mapping(entries: Seq<(String, String)>, i: int)
    requires
        names_distinct(entries),
        0 <= i < entries.len(),
    ensures
        mapping_of(entries).contains_key(entries[i].0@),
        mapping_of(entries)[entries[i].0@] == entries[i].1@,
        place_of(entries, entries[i].0@) == i,
{
    let name = entries[i].0@;
    assert(has_name(entries, name));
    let p = place_of(entries, name);
    assert(0 <= p < entries.len() && entries[p].0@ == name);
    if p < i {
        assert(entries[p].0@ != entries[i].0@);
    } else if i < p {
        assert(entries[i].0@ != entries[p].0@);
    }
}

/// The options of a connection, by name. No name occurs twice.
#[derive(Debug)]
pub struct RawOptions {
    entries: Vec<(String, String)>,
}

impl View for RawOptions {
    type V = Map<Seq<char>, Seq<char>>;

    closed spec fn view(&self) -> Map<Seq<char>, Seq<char>> {
        mapping_of(self.entries@)
    }
}

impl RawOptions {
    #[verifier::type_invariant]
    spec fn type_inv(self) -> bool {
        names_distinct(self.entries@)
    }

    /// No options.
    pub fn new() -> (options: Self)
        ensures
            options@ == Map::<Seq<char>, Seq<char>>::empty(),
    {
        let options = RawOptions { entries: Vec::new() };
        assert(options@ =~= Map::<Seq<char>, Seq<char>>::empty());
        options
    }

    /// The place of the entry named `name`, if there is one.
    fn position(&self, name: &str) -> (place: Option<usize>)
        ensures
            match place {
                Some(i) => i < self.entries@.len() && self.entries@[i as int].0@ == name@,
                None => !has_name(self.entries@, name@),
            },
    {
        let wanted = name.to_owned();
        let mut i: usize = 0;
        while i < self.entries.len()
            invariant
                0 <= i <= self.entries@.len(),
                wanted@ == name@,
                forall|j: int| 0 <= j < i ==> (#[trigger] self.entries@[j]).0@ != name@,
            decreases self.entries@.len() - i,
        {
            if self.entries[i].0 == wanted {
                return Some(i);
            }
            i = i + 1;
        }
        None
    }

    /// How many options there are.
    pub fn len(&self) -> (count: usize)
        ensures
            count == self@.dom().len(),
            self@.dom().finite(),
    {
        proof {
            use_type_invariant(self);
            lemma_domain_size(self.entries@);
        }
        self.entries.len()
    }

    /// Whether there is no option.
    pub fn is_empty(&self) -> (empty: bool)
        ensures
            empty == (self@ == Map::<Seq<char>, Seq<char>>::empty()),
    {
        proof {
            if self.entries@.len() == 0 {
                assert(self@ =~= Map::<Seq<char>, Seq<char>>::empty());
            } else {
                assert(has_name(self.entries@, self.entries@[0].0@));
                assert(self@.contains_key(self.entries@[0].0@));
            }
        }
        self.entries.len() == 0
    }

    /// Whether an option is named `name`.
    pub fn contains_key(&self, name: &str) -> (found: bool)
        ensures
            found == self@.contains_key(name@),
    {
        self.position(name).is_some()
    }

    /// The text of the option named `name`, if there is one.
    pub fn get(&self, name: &str) -> (text: Option<&String>)
        ensures
            match text {
                Some(text) => self@.contains_key(name@) && self@[name@] == text@,
                None => !self@.contains_key(name@),
            },
    {
        match self.position(name) {
            Some(i) => {
                proof {
                    use_type_invariant(self);
                    lemma_entry_in_mapping(self.entries@, i as int);
                }
                Some(&self.entries[i].1)
            },
            None => None,
        }
    }

    /// Sets the option named `name` to `text`, and returns the text that it
    /// had before, if it was set.
    pub fn insert(&mut self, name: String, text: String) -> (previous: Option<String>)
        ensures
            final(self)@ == old(self)@.insert(name@, text@),
            match previous {
                Some(previous) => old(self)@.contains_key(name@) && old(self)@[name@]
                    == previous@,
                None => !old(self)@.contains_key(name@),
            },
    {
        proof {
            use_type_invariant(&*self);
        }
        let ghost before = self.entries@;
        let place = self.position(name.as_str());
        let mut entries: Vec<(String, String)> = Vec::new();
        std::mem::swap(&mut self.entries, &mut entries);
        match place {
            Some(i) => {
                proof {
                    lemma_entry_in_mapping(before, i as int);
                }
                let entry = entries.remove(i);
                entries.insert(i, (name, text));
                proof {
                    let after = entries@;
                    assert(after.len() == before.len());
                    assert(forall|j: int|
                        0 <= j < after.len() ==> (#[trigger] after[j]).0@ == before[j].0@);
                    assert(names_distinct(after));
                    lemma_replaced(before, after, i as int);
                }
                self.entries = entries;
                Some(entry.1)
            },
            None => {
                entries.push((name, text));
                proof {
                    let after = entries@;
                    assert(names_distinct(after)) by {
                        assert forall|a: int, b: int| 0 <= a < b < after.len() implies (
                        #[trigger] after[a]).0@ != (#[trigger] after[b]).0@ by {
                            if b < before.len() {
                                assert(after[a] == before[a] && after[b] == before[b]);
                            } else {
                                assert(after[a] == before[a]);
                            }
                        }
                    }
                    lemma_appended(before, after);
                }
                self.entries = entries;
                None
            },
        }
    }

    /// Takes the option named `name` out, and returns its text, if there was
    /// one.
    pub fn remove(&mut self, name: &str) -> (text: Option<String>)
        ensures
            final(self)@ == old(self)@.remove(name@),
            match text {
                Some(text) => old(self)@.contains_key(name@) && old(self)@[name@] == text@,
                None => !old(self)@.contains_key(name@),
            },
    {
        proof {
            use_type_invariant(&*self);
        }
        let ghost before = self.entries@;
        match self.position(name) {
            Some(i) => {
                proof {
                    lemma_entry_in_mapping(before, i as int);
                }
                let mut entries: Vec<(String, String)> = Vec::new();
                std::mem::swap(&mut self.entries, &mut entries);
                let entry = entries.remove(i);
                proof {
                    lemma_removed(before, entries@, i as int);
                }
                self.entries = entries;
                Some(entry.1)
            },
            None => {
                assert(self@ =~= old(self)@.remove(name@));
                None
            },
        }
    }

    /// The names of the options that are there, each once.
    pub fn keys(&self) -> (names: Vec<String>)
        ensures
            names@.len() == self@.dom().len(),
            forall|i: int, j: int|
                0 <= i < j < names@.len() ==> (#[trigger] names@[i])@ != (#[trigger] names@[j])@,
            forall|i: int| 0 <= i < names@.len() ==> self@.contains_key(#[trigger] names@[i]@),
            forall|name: Seq<char>|
                self@.contains_key(name) ==> exists|i: int|
                    0 <= i < names@.len() && (#[trigger] names@[i])@ == name,
    {
        proof {
            use_type_invariant(self);
            lemma_domain_size(self.entries@);
        }
        let mut names: Vec<String> = Vec::new();
        let mut i: usize = 0;
        while i < self.entries.len()
            invariant
                0 <= i <= self.entries@.len(),
                names@.len() == i,
                forall|j: int| 0 <= j < i ==> (#[trigger] names@[j])@ == self.entries@[j].0@,
            decreases self.entries@.len() - i,
        {
            names.push(self.entries[i].0.clone());
            i = i + 1;
        }
        proof {
            assert forall|j: int| 0 <= j < names@.len() implies self@.contains_key(
                #[trigger] names@[j]@,
            ) by {
                assert(has_name(self.entries@, self.entries@[j].0@));
            }
            assert forall|name: Seq<char>| self@.contains_key(name) implies exists|j: int|
                0 <= j < names@.len() && (#[trigger] names@[j])@ == name by {
                let p = place_of(self.entries@, name);
                assert(names@[p]@ == name);
            }
        }
        names
    }
}

/// Takes the required option named `name` out of `opts` and returns its
/// text. When there is no such option, `opts` stays as it is and the error
/// names the option.
pub fn pull_opt(name: &str, opts: &mut RawOptions) -> (text: Result<String, CompileError>)
    ensures
        final(opts)@ == old(opts)@.remove(name@),
        match text {
            Ok(text) => old(opts)@.contains_key(name@) && old(opts)@[name@] == text@,
            Err(error) => !old(opts)@.contains_key(name@) && error@
                == CompileFailure::MissingOption(name@),
        },
{
    match opts.remove(name) {
        Some(text) => Ok(text),
        None => Err(CompileError::MissingOption(name.to_owned())),
    }
}

/// Replacing the text of the entry at place `i` sets the mapping at its name.
proof fn lemma_replaced(before: Seq<(String, String)>, after: Seq<(String, String)>, i: int)
    requires
        names_distinct(before),
        names_distinct(after),
        0 <= i < before.len(),
        after.len() == before.len(),
        after[i].0@ == before[i].0@,
        forall|j: int| 0 <= j < before.len() && j != i ==> #[trigger] after[j] == before[j],
    ensures
        mapping_of(after) == mapping_of(before).insert(after[i].0@, after[i].1@),
{
    let target = mapping_of(before).insert(after[i].0@, after[i].1@);
    assert forall|name: Seq<char>| mapping_of(after).contains_key(name) implies target.contains_key(
        name,
    ) && target[name] == mapping_of(after)[name] by {
        let p = place_of(after, name);
        lemma_entry_in_mapping(after, p);
        if p != i {
            assert(before[p].0@ == name);
            lemma_entry_in_mapping(before, p);
        }
    }
    assert forall|name: Seq<char>| target.contains_key(name) implies mapping_of(
        after,
    ).contains_key(name) by {
        if name != after[i].0@ {
            let p = place_of(before, name);
            assert(after[p].0@ == name);
        } else {
            assert(after[i].0@ == name);
        }
    }
    assert(mapping_of(after) =~= target);
}

/// Appending an entry under a new name sets the mapping at that name.
proof fn lemma_appended(before: Seq<(String, String)>, after: Seq<(String, String)>)
    requires
        names_distinct(after),
        after.len() == before.len() + 1,
        forall|j: int| 0 <= j < before.len() ==> #[trigger] after[j] == before[j],
    ensures
        mapping_of(after) == mapping_of(before).insert(after.last().0@, after.last().1@),
{
    let target = mapping_of(before).insert(after.last().0@, after.last().1@);
    assert(names_distinct(before)) by {
        assert forall|a: int, b: int| 0 <= a < b < before.len() implies (#[trigger] before[a]).0@
            != (#[trigger] before[b]).0@ by {
            assert(after[a] == before[a] && after[b] == before[b]);
        }
    }
    assert forall|name: Seq<char>| mapping_of(after).contains_key(name) implies target.contains_key(
        name,
    ) && target[name] == mapping_of(after)[name] by {
        let p = place_of(after, name);
        lemma_entry_in_mapping(after, p);
        if p < before.len() {
            assert(before[p].0@ == name);
            lemma_entry_in_mapping(before, p);
        }
    }
    assert forall|name: Seq<char>| target.contains_key(name) implies mapping_of(
        after,
    ).contains_key(name) by {
        if name != after.last().0@ {
            let p = place_of(before, name);
            assert(after[p].0@ == name);
        } else {
            assert(after[after.len() - 1].0@ == name);
        }
    }
    assert(mapping_of(after) =~= target);
}

/// Taking the entry at place `i` out takes its name out of the mapping.
proof fn lemma_removed(before: Seq<(String, String)>, after: Seq<(String, String)>, i: int)
    requires
        names_distinct(before),
        0 <= i < before.len(),
        after == before.remove(i),
    ensures
        names_distinct(after),
        mapping_of(after) == mapping_of(before).remove(before[i].0@),
{
    assert forall|a: int, b: int| 0 <= a < b < after.len() implies (#[trigger] after[a]).0@ != (
    #[trigger] after[b]).0@ by {
        let first = if a < i { a } else { a + 1 };
        let second = if b < i { b } else { b + 1 };
        assert(after[a] == before[first] && after[b] == before[second]);
    }
    let target = mapping_of(before).remove(before[i].0@);
    assert forall|name: Seq<char>| mapping_of(after).contains_key(name) implies target.contains_key(
        name,
    ) && target[name] == mapping_of(after)[name] by {
        let p = place_of(after, name);
        lemma_entry_in_mapping(after, p);
        let origin = if p < i { p } else { p + 1 };
        assert(after[p] == before[origin]);
        lemma_entry_in_mapping(before, origin);
        if origin < i {
            assert(before[origin].0@ != before[i].0@);
        } else {
            assert(before[i].0@ != before[origin].0@);
        }
    }
    assert forall|name: Seq<char>| target.contains_key(name) implies mapping_of(
        after,
    ).contains_key(name) by {
        let origin = place_of(before, name);
        let p = if origin < i { origin } else { origin - 1 };
        assert(after[p] == before[origin]);
    }
    assert(mapping_of(after) =~= target);
}

/// A list without repeated names stands for a mapping with as many names as
/// the list has entries.
proof fn lemma_domain_size(entries: Seq<(String, String)>)
    requires
        names_distinct(entries),
    ensures
        mapping_of(entries).dom().finite(),
        mapping_of(entries).dom().len() == entries.len(),
    decreases entries.len(),
{
    if entries.len() == 0 {
        assert(mapping_of(entries).dom() =~= Set::<Seq<char>>::empty());
    } else {
        let shorter = entries.drop_last();
        assert(names_distinct(shorter)) by {
            assert forall|a: int, b: int| 0 <= a < b < shorter.len() implies (
            #[trigger] shorter[a]).0@ != (#[trigger] shorter[b]).0@ by {
                assert(shorter[a] == entries[a] && shorter[b] == entries[b]);
            }
        }
        lemma_domain_size(shorter);
        lemma_appended(shorter, entries);
        let name = entries.last().0@;
        assert(!mapping_of(shorter).contains_key(name)) by {
            if has_name(shorter, name) {
                let p = place_of(shorter, name);
                assert(shorter[p] == entries[p]);
                assert(entries[p].0@ != entries[entries.len() - 1].0@);
            }
        }
        assert(mapping_of(entries).dom() =~= mapping_of(shorter).dom().insert(name));
    }
}

} // verus!
