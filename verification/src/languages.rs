//! Maps from text to text, such as the table in which a provider lists the
//! languages it accepts.

use vstd::prelude::*;
use vstd::string::StringExecFns;
use crate::text::same_text;

verus! {

/// Whether no name stands twice in `entries`.
spec fn distinct_names(entries: Seq<(String, String)>) -> bool {
    forall|i: int, j: int|
        0 <= i < j < entries.len() ==> (#[trigger] entries[i]).0@ != (#[trigger] entries[j]).0@
}

/// Whether `entries` lists `name` at position `i`.
spec fn names_at(entries: Seq<(String, String)>, name: Seq<char>, i: int) -> bool {
    0 <= i < entries.len() && entries[i].0@ == name
}

/// The mapping that a list of (name, code) pairs stands for.
spec fn table_of(entries: Seq<(String, String)>) -> Map<Seq<char>, Seq<char>> {
    Map::new(
        |name: Seq<char>| exists|i: int| names_at(entries, name, i),
        |name: Seq<char>| entries[choose|i: int| names_at(entries, name, i)].1@,
    )
}

/// Appending a pair under a name that is not yet listed adds one key.
proof fn lemma_table_push(entries: Seq<(String, String)>, pair: (String, String))
    requires
        distinct_names(entries),
        forall|i: int| 0 <= i < entries.len() ==> (#[trigger] entries[i]).0@ != pair.0@,
    ensures
        distinct_names(entries.push(pair)),
        table_of(entries.push(pair)) == table_of(entries).insert(pair.0@, pair.1@),
{
    let after = entries.push(pair);
    let last = entries.len() as int;
    assert(names_at(after, pair.0@, last));
    assert forall|name: Seq<char>|
        table_of(after).dom().contains(name) <==> table_of(entries).insert(
            pair.0@,
            pair.1@,
        ).dom().contains(name) by {
        if table_of(after).dom().contains(name) {
            let i = choose|i: int| names_at(after, name, i);
            if i < last {
                assert(names_at(entries, name, i));
            }
        }
        if name != pair.0@ && table_of(entries).dom().contains(name) {
            let i = choose|i: int| names_at(entries, name, i);
            assert(names_at(after, name, i));
        }
    }
    assert forall|name: Seq<char>| table_of(after).dom().contains(name) implies table_of(
        after,
    )[name] == table_of(entries).insert(pair.0@, pair.1@)[name] by {
        let i = choose|i: int| names_at(after, name, i);
        if name == pair.0@ {
            assert(i == last);
        } else {
            assert(names_at(entries, name, i));
            let j = choose|j: int| names_at(entries, name, j);
            assert(after[i] == entries[i]);
            assert(i == j);
        }
    }
    assert(table_of(after) =~= table_of(entries).insert(pair.0@, pair.1@));
}

/// Replacing the pair of a listed name changes the code of that key only.
proof fn lemma_table_update(entries: Seq<(String, String)>, at: int, pair: (String, String))
    requires
        distinct_names(entries),
        0 <= at < entries.len(),
        entries[at].0@ == pair.0@,
    ensures
        distinct_names(entries.update(at, pair)),
        table_of(entries.update(at, pair)) == table_of(entries).insert(pair.0@, pair.1@),
{
    let after = entries.update(at, pair);
    assert(names_at(after, pair.0@, at));
    assert(names_at(entries, pair.0@, at));
    assert forall|i: int| 0 <= i < entries.len() implies (#[trigger] after[i]).0@
        == entries[i].0@ by {}
    assert forall|name: Seq<char>|
        table_of(after).dom().contains(name) <==> table_of(entries).insert(
            pair.0@,
            pair.1@,
        ).dom().contains(name) by {
        if table_of(after).dom().contains(name) {
            let i = choose|i: int| names_at(after, name, i);
            assert(names_at(entries, name, i));
        }
        if table_of(entries).dom().contains(name) {
            let i = choose|i: int| names_at(entries, name, i);
            assert(names_at(after, name, i));
        }
    }
    assert forall|name: Seq<char>| table_of(after).dom().contains(name) implies table_of(
        after,
    )[name] == table_of(entries).insert(pair.0@, pair.1@)[name] by {
        let i = choose|i: int| names_at(after, name, i);
        if name == pair.0@ {
            assert(i == at);
        } else {
            assert(names_at(entries, name, i));
            let j = choose|j: int| names_at(entries, name, j);
            assert(i == j);
        }
    }
    assert(table_of(after) =~= table_of(entries).insert(pair.0@, pair.1@));
}

/// A map from names to texts, kept as a list in which no name stands
/// twice. Two maps are equal where they list the same names under the same
/// texts, in whatever order.
#[derive(Debug)]
pub struct TextMap {
    entries: Vec<(String, String)>,
}

impl View for TextMap {
    type V = Map<Seq<char>, Seq<char>>;

    closed spec fn view(&self) -> Map<Seq<char>, Seq<char>> {
        table_of(self.entries@)
    }
}

impl TextMap {
    #[verifier::type_invariant]
    spec fn well_formed(self) -> bool {
        distinct_names(self.entries@)
    }

    /// A map without entries.
    pub fn new() -> (r: Self)
        ensures
            r@ == Map::<Seq<char>, Seq<char>>::empty(),
    {
        let r = TextMap { entries: Vec::new() };
        assert(r@ =~= Map::<Seq<char>, Seq<char>>::empty());
        r
    }

    /// The position at which `name` is listed, if it is.
    fn position(&self, name: &str) -> (r: Option<usize>)
        ensures
            match r {
                Some(i) => names_at(self.entries@, name@, i as int),
                None => forall|i: int| !names_at(self.entries@, name@, i),
            },
    {
        let mut i: usize = 0;
        while i < self.entries.len()
            invariant
                i <= self.entries@.len(),
                forall|j: int| 0 <= j < i ==> !names_at(self.entries@, name@, j),
            decreases self.entries@.len() - i,
        {
            if same_text(self.entries[i].0.as_str(), name) {
                return Some(i);
            }
            i += 1;
        }
        None
    }

    /// This map with `name` listed under `code`, in place of what it was
    /// listed under, if it was.
    pub fn with(self, name: &str, code: &str) -> (r: Self)
        ensures
            r@ == self@.insert(name@, code@),
    {
        proof {
            use_type_invariant(&self);
        }
        let found = self.position(name);
        let pair = (String::from_str(name), String::from_str(code));
        let mut entries = self.entries;
        match found {
            Some(i) => {
                proof {
                    lemma_table_update(entries@, i as int, pair);
                }
                entries.set(i, pair);
            },
            None => {
                proof {
                    assert forall|i: int| 0 <= i < entries@.len() implies (#[trigger] entries@[i]).0@
                        != pair.0@ by {
                        assert(!names_at(entries@, name@, i));
                    }
                    lemma_table_push(entries@, pair);
                }
                entries.push(pair);
            },
        }
        TextMap { entries }
    }

    /// The text under which `name` is listed.
    pub fn get(&self, name: &str) -> (r: Option<&String>)
        ensures
            match r {
                Some(code) => self@.contains_key(name@) && self@[name@] == code@,
                None => !self@.contains_key(name@),
            },
    {
        proof {
            use_type_invariant(self);
        }
        match self.position(name) {
            Some(i) => {
                proof {
                    let j = choose|j: int| names_at(self.entries@, name@, j);
                    assert(j == i);
                }
                Some(&self.entries[i].1)
            },
            None => None,
        }
    }

    /// Whether `name` is listed.
    pub fn contains_key(&self, name: &str) -> (r: bool)
        ensures
            r == self@.contains_key(name@),
    {
        self.position(name).is_some()
    }
}

impl TextMap {
    /// Whether `other` lists every name of this map, under the same text.
    fn within(&self, other: &TextMap) -> (r: bool)
        ensures
            r == self@.submap_of(other@),
    {
        proof {
            use_type_invariant(self);
        }
        let mut i: usize = 0;
        while i < self.entries.len()
            invariant
                i <= self.entries@.len(),
                distinct_names(self.entries@),
                forall|j: int|
                    0 <= j < i ==> other@.contains_key((#[trigger] self.entries@[j]).0@)
                        && other@[self.entries@[j].0@] == self.entries@[j].1@,
            decreases self.entries@.len() - i,
        {
            let name = self.entries[i].0.as_str();
            let ghost chosen = choose|j: int| names_at(self.entries@, name@, j);
            proof {
                assert(names_at(self.entries@, name@, i as int));
                assert(chosen == i);
                assert(self@.contains_key(name@) && self@[name@] == self.entries@[i as int].1@);
            }
            match other.get(name) {
                Some(text) => {
                    if !same_text(text.as_str(), self.entries[i].1.as_str()) {
                        return false;
                    }
                },
                None => {
                    return false;
                },
            }
            i += 1;
        }
        proof {
            assert forall|name: Seq<char>| #[trigger] self@.dom().contains(name) implies other@.dom().contains(
                name,
            ) && self@[name] == other@[name] by {
                let j = choose|j: int| names_at(self.entries@, name, j);
                assert(names_at(self.entries@, name, j));
                assert(other@.contains_key(self.entries@[j].0@));
            }
        }
        true
    }
}

impl PartialEq for TextMap {
    fn eq(&self, other: &Self) -> (r: bool) {
        let r = self.within(other) && other.within(self);
        proof {
            let a = self@;
            let b = other@;
            if a.submap_of(b) && b.submap_of(a) {
                assert forall|name: Seq<char>| a.dom().contains(name) == b.dom().contains(name) by {
                    if a.dom().contains(name) {
                        assert(b.dom().contains(name));
                    }
                    if b.dom().contains(name) {
                        assert(a.dom().contains(name));
                    }
                }
                assert forall|name: Seq<char>| a.dom().contains(name) implies a[name] == b[name] by {
                    assert(b.dom().contains(name));
                }
                assert(a =~= b);
            }
        }
        r
    }
}

impl vstd::std_specs::cmp::PartialEqSpecImpl for TextMap {
    open spec fn obeys_eq_spec() -> bool {
        true
    }

    open spec fn eq_spec(&self, other: &Self) -> bool {
        self@ == other@
    }
}

impl Eq for TextMap {

}

/// A provider's language table: language names, each with the code under
/// which the provider knows the language.
pub type LanguagesToCodes = TextMap;

} // verus!
