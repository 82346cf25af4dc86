//! The map of a map literal: property keys to expressions, no key twice.

use vstd::prelude::*;

use crate::ast::cypher::Expression;
use crate::ast::model::{view_expression, ExpressionView};

verus! {

/// An inline map from property keys to expressions, as written between braces.
/// No key occurs twice: writing a key again replaces the expression it had.
/// Entries are kept in the order in which their keys first appeared.
#[derive(Debug, PartialEq, Eq)]
pub struct PropertyMap {
    entries: Vec<(String, Expression)>,
}

/// The value of a [`PropertyMap`]: its (key, expression) entries in order.
pub struct PropertyMapView {
    pub entries: Seq<(Seq<char>, ExpressionView)>,
}

impl PropertyMapView {
    /// The map without entries.
    pub open spec fn empty() -> PropertyMapView {
        PropertyMapView { entries: Seq::empty() }
    }

    /// Whether some entry has this key.
    pub open spec fn contains_key(self, key: Seq<char>) -> bool {
        exists|i: int| 0 <= i < self.entries.len() && #[trigger] self.entries[i].0 == key
    }

    /// The position of an entry with this key, where there is one.
    pub open spec fn index_of(self, key: Seq<char>) -> int {
        choose|i: int| 0 <= i < self.entries.len() && #[trigger] self.entries[i].0 == key
    }

    /// No two entries share a key.
    pub open spec fn keys_distinct(self) -> bool {
        let e = self.entries;
        forall|i: int, j: int| 0 <= i < j < e.len() ==> (#[trigger] e[i]).0 != (#[trigger] e[j]).0
    }

    /// The map after `key` is written with `value`: the entry of that key is
    /// replaced where it stands, or a new entry is added at the end.
    pub open spec fn insert(self, key: Seq<char>, value: ExpressionView) -> PropertyMapView {
        if self.contains_key(key) {
            PropertyMapView { entries: self.entries.update(self.index_of(key), (key, value)) }
        } else {
            PropertyMapView { entries: self.entries.push((key, value)) }
        }
    }

    /// The entries as a mathematical map.
    pub open spec fn to_map(self) -> Map<Seq<char>, ExpressionView> {
        Map::new(
            |k: Seq<char>| self.contains_key(k),
            |k: Seq<char>| self.entries[self.index_of(k)].1,
        )
    }
}

pub closed spec fn view_property_map(m: PropertyMap) -> PropertyMapView
    decreases m,
{
    PropertyMapView {
        entries: Seq::new(
            m.entries@.len(),
            |i: int|
                if 0 <= i < m.entries@.len() {
                    (m.entries@[i].0@, view_expression(m.entries@[i].1))
                } else {
                    arbitrary()
                },
        ),
    }
}

impl View for PropertyMap {
    type V = PropertyMapView;

    open spec fn view(&self) -> PropertyMapView {
        view_property_map(*self)
    }
}

impl PropertyMap {
    #[verifier::type_invariant]
    spec fn well_formed(self) -> bool {
        let e = self.entries@;
        forall|i: int, j: int| 0 <= i < j < e.len() ==> (#[trigger] e[i]).0@ != (#[trigger] e[j]).0@
    }

    proof fn lemma_entries(self)
        ensures
            self@.entries.len() == self.entries@.len(),
            forall|i: int|
                0 <= i < self.entries@.len() ==> #[trigger] self@.entries[i] == (
                    self.entries@[i].0@,
                    self.entries@[i].1@,
                ),
    {
    }

    /// The map without entries.
    pub fn new() -> (m: PropertyMap)
        ensures
            m@ == PropertyMapView::empty(),
    {
        let m = PropertyMap { entries: Vec::new() };
        assert(m@.entries =~= Seq::empty());
        m
    }

    /// The number of entries.
    pub fn len(&self) -> (n: usize)
        ensures
            n == self@.entries.len(),
            self@.keys_distinct(),
    {
        proof {
            use_type_invariant(self);
            self.lemma_entries();
        }
        self.entries.len()
    }

    /// The map after `key` is written with `value`, which replaces the
    /// expression the key had.
    pub fn insert(self, key: String, value: Expression) -> (m: PropertyMap)
        ensures
            m@ == self@.insert(key@, value@),
            m@.keys_distinct(),
    {
        proof {
            use_type_invariant(&self);
            self.lemma_entries();
        }
        let mut entries = self.entries;
        let mut i: usize = 0;
        while i < entries.len()
            invariant
                i <= entries.len(),
                entries@ == self.entries@,
                forall|a: int, b: int|
                    0 <= a < b < self.entries@.len() ==> #[trigger] self.entries@[a].0@
                        != #[trigger] self.entries@[b].0@,
                forall|k: int| 0 <= k < i ==> #[trigger] entries@[k].0@ != key@,
            decreases entries.len() - i,
        {
            if entries[i].0 == key {
                proof {
                    self.lemma_entries();
                    assert(self@.entries[i as int].0 == key@);
                    let j = self@.index_of(key@);
                    assert(self@.entries[j].0 == key@);
                    assert(j == i);
                }
                entries.set(i, (key, value));
                let m = PropertyMap { entries };
                proof {
                    m.lemma_entries();
                    assert(m@.entries =~= self@.entries.update(i as int, (key@, value@)));
                }
                return m;
            }
            i += 1;
        }
        proof {
            self.lemma_entries();
            assert(!self@.contains_key(key@));
        }
        entries.push((key, value));
        let m = PropertyMap { entries };
        proof {
            m.lemma_entries();
            assert(m@.entries =~= self@.entries.push((key@, value@)));
        }
        m
    }

    /// The expression written for `key`, if the map has that key.
    pub fn get(&self, key: &String) -> (r: Option<&Expression>)
        ensures
            self@.keys_distinct(),
            match r {
                Some(e) => self@.contains_key(key@) && e@ == self@.entries[self@.index_of(key@)].1,
                None => !self@.contains_key(key@),
            },
    {
        proof {
            use_type_invariant(self);
            self.lemma_entries();
        }
        let mut i: usize = 0;
        while i < self.entries.len()
            invariant
                i <= self.entries.len(),
                forall|k: int| 0 <= k < i ==> #[trigger] self.entries@[k].0@ != key@,
            decreases self.entries.len() - i,
        {
            if self.entries[i].0 == *key {
                proof {
                    use_type_invariant(self);
                    self.lemma_entries();
                    assert(self@.entries[i as int].0 == key@);
                    let j = self@.index_of(key@);
                    assert(self@.entries[j].0 == key@);
                    assert(j == i);
                }
                return Some(&self.entries[i].1);
            }
            i += 1;
        }
        proof {
            self.lemma_entries();
        }
        None
    }

    /// The entry at position `i`, in order of first appearance.
    pub fn entry(&self, i: usize) -> (r: Option<(&String, &Expression)>)
        ensures
            match r {
                Some((k, e)) => i < self@.entries.len() && self@.entries[i as int] == (k@, e@),
                None => i >= self@.entries.len(),
            },
    {
        proof {
            self.lemma_entries();
        }
        if i < self.entries.len() {
            Some((&self.entries[i].0, &self.entries[i].1))
        } else {
            None
        }
    }
}

} // verus!
