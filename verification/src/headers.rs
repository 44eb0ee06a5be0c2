//! A mapping from header names to header values, backed by a vector of
//! entries with pairwise-distinct names. Inserting an existing name replaces
//! its value in place; iteration order is the insertion order of the names.
//! The view of a map is the sequence of its (name, value) entries.

use vstd::prelude::*;

use crate::strutil::str_eq;

verus! {

/// One header entry: a name and a value.
#[derive(Debug, PartialEq, Clone)]
pub struct HeaderField {
    pub name: String,
    pub value: String,
}

/// A header mapping. The entries stand in insertion order; no two entries
/// share a name.
#[derive(Debug, PartialEq, Clone)]
pub struct HeaderMap {
    entries: Vec<HeaderField>,
}

impl View for HeaderMap {
    type V = Seq<(Seq<char>, Seq<char>)>;

    closed spec fn view(&self) -> Seq<(Seq<char>, Seq<char>)> {
        self.entries@.map_values(|h: HeaderField| (h.name@, h.value@))
    }
}

/// Position of the first entry named `n` at or after `i`.
pub open spec fn find_name_from(hs: Seq<(Seq<char>, Seq<char>)>, n: Seq<char>, i: int) -> Option<
    int,
>
    decreases hs.len() - i,
{
    if i < 0 || i >= hs.len() {
        None
    } else if hs[i].0 == n {
        Some(i)
    } else {
        find_name_from(hs, n, i + 1)
    }
}

/// The entries after adding `n: v`: the value of the first entry named `n`
/// is replaced, or a new entry is appended when none carries that name.
pub open spec fn add_header(
    hs: Seq<(Seq<char>, Seq<char>)>,
    n: Seq<char>,
    v: Seq<char>,
) -> Seq<(Seq<char>, Seq<char>)> {
    match find_name_from(hs, n, 0) {
        Some(i) => hs.update(i, (n, v)),
        None => hs.push((n, v)),
    }
}

/// The value mapped to `n`, if an entry carries that name.
pub open spec fn lookup(hs: Seq<(Seq<char>, Seq<char>)>, n: Seq<char>) -> Option<Seq<char>> {
    match find_name_from(hs, n, 0) {
        Some(i) => Some(hs[i].1),
        None => None,
    }
}

impl HeaderMap {
    /// An empty mapping.
    pub fn new() -> (m: HeaderMap)
        ensures
            m@ == Seq::<(Seq<char>, Seq<char>)>::empty(),
    {
        let m = HeaderMap { entries: Vec::new() };
        proof {
            assert(m@ =~= Seq::<(Seq<char>, Seq<char>)>::empty());
        }
        m
    }

    /// How many entries the mapping holds.
    pub fn len(&self) -> (n: usize)
        ensures
            n == self@.len(),
    {
        self.entries.len()
    }

    /// The name of the entry at position `i`.
    pub fn name_at(&self, i: usize) -> (r: &str)
        requires
            i < self@.len(),
        ensures
            r@ == self@[i as int].0,
    {
        self.entries[i].name.as_str()
    }

    /// The value of the entry at position `i`.
    pub fn value_at(&self, i: usize) -> (r: &str)
        requires
            i < self@.len(),
        ensures
            r@ == self@[i as int].1,
    {
        self.entries[i].value.as_str()
    }

    /// Maps `name` to `value`: replaces the value of the entry carrying
    /// `name`, or appends a new entry when none does.
    pub fn insert(&mut self, name: &str, value: &str)
        ensures
            final(self)@ == add_header(old(self)@, name@, value@),
    {
        let n = self.entries.len();
        let mut j: usize = 0;
        while j < n
            invariant
                n == self.entries@.len(),
                0 <= j <= n,
                self.entries == old(self).entries,
                find_name_from(self@, name@, 0) == find_name_from(self@, name@, j as int),
            decreases n - j,
        {
            proof {
                assert(self@[j as int] == (self.entries@[j as int].name@,
                self.entries@[j as int].value@));
            }
            if str_eq(self.entries[j].name.as_str(), name) {
                proof {
                    assert(find_name_from(self@, name@, j as int) == Some(j as int));
                }
                let ghost old_fields = self.entries@;
                let ghost old_view = self@;
                let nf = HeaderField { name: name.to_owned(), value: value.to_owned() };
                let ghost gnf = nf;
                let _replaced = self.entries.remove(j);
                self.entries.insert(j, nf);
                proof {
                    assert(self.entries@ =~= old_fields.update(j as int, gnf));
                    assert(self@ =~= old_view.update(j as int, (name@, value@)));
                }
                return;
            }
            proof {
                assert(find_name_from(self@, name@, j as int) == find_name_from(
                    self@,
                    name@,
                    j as int + 1,
                ));
            }
            j = j + 1;
        }
        proof {
            assert(find_name_from(self@, name@, n as int) is None);
        }
        let ghost old_view = self@;
        self.entries.push(HeaderField { name: name.to_owned(), value: value.to_owned() });
        proof {
            assert(self@ =~= old_view.push((name@, value@)));
        }
    }

    /// Looks a name up and hands back its value, if any entry carries it.
    pub fn get(&self, name: &str) -> (r: Option<&str>)
        ensures
            match lookup(self@, name@) {
                Some(v) => r is Some && r.unwrap()@ == v,
                None => r is None,
            },
    {
        let n = self.entries.len();
        let mut j: usize = 0;
        while j < n
            invariant
                n == self.entries@.len(),
                0 <= j <= n,
                find_name_from(self@, name@, 0) == find_name_from(self@, name@, j as int),
            decreases n - j,
        {
            proof {
                assert(self@[j as int] == (self.entries@[j as int].name@,
                self.entries@[j as int].value@));
            }
            if str_eq(self.entries[j].name.as_str(), name) {
                proof {
                    assert(find_name_from(self@, name@, j as int) == Some(j as int));
                }
                return Some(self.entries[j].value.as_str());
            }
            proof {
                assert(find_name_from(self@, name@, j as int) == find_name_from(
                    self@,
                    name@,
                    j as int + 1,
                ));
            }
            j = j + 1;
        }
        proof {
            assert(find_name_from(self@, name@, n as int) is None);
        }
        None
    }
}

} // verus!
