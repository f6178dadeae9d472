//! The relay registry: an immutable mapping from relay names to single-byte
//! pin identifiers, built once from configuration and queried by name.

use vstd::prelude::*;
use vstd::string::StringExecFns;

verus! {

/// Whether some pair in `pairs` carries `name`.
pub open spec fn pairs_contain(pairs: Seq<(String, u8)>, name: Seq<char>) -> bool {
    exists|i: int| 0 <= i < pairs.len() && pairs[i].0@ == name
}

/// No two pairs share a name.
pub open spec fn names_unique(pairs: Seq<(String, u8)>) -> bool {
    forall|i: int, j: int|
        0 <= i < pairs.len() && 0 <= j < pairs.len() && i != j ==> pairs[i].0@ != pairs[j].0@
}

/// The pin of the pair that carries `name`; meaningful when names are unique.
pub open spec fn pin_of(pairs: Seq<(String, u8)>, name: Seq<char>) -> u8 {
    pairs[choose|i: int| 0 <= i < pairs.len() && pairs[i].0@ == name].1
}

/// The pin of the first pair that carries `name`, scanning from index `k`.
pub open spec fn first_pin_from(pairs: Seq<(String, u8)>, name: Seq<char>, k: int) -> u8
    decreases pairs.len() - k,
{
    if k < 0 || k >= pairs.len() {
        0
    } else if pairs[k].0@ == name {
        pairs[k].1
    } else {
        first_pin_from(pairs, name, k + 1)
    }
}

/// The pin of the first pair that carries `name`; meaningful when some pair
/// does.
pub open spec fn first_pin(pairs: Seq<(String, u8)>, name: Seq<char>) -> u8 {
    first_pin_from(pairs, name, 0)
}

/// When names are unique, any pair that carries `name` gives its pin.
proof fn lemma_pin_of_unique(pairs: Seq<(String, u8)>, name: Seq<char>, k: int)
    requires
        names_unique(pairs),
        0 <= k < pairs.len(),
        pairs[k].0@ == name,
    ensures
        pairs_contain(pairs, name),
        pin_of(pairs, name) == pairs[k].1,
{
    assert(pairs_contain(pairs, name));
    let c = choose|i: int| 0 <= i < pairs.len() && pairs[i].0@ == name;
    assert(c == k);
}

/// When no pair before `m` carries `name` and the pair at `m` does, the
/// first matching pin from `k` on is the pin at `m`.
proof fn lemma_first_pin_skip(pairs: Seq<(String, u8)>, name: Seq<char>, k: int, m: int)
    requires
        0 <= k <= m < pairs.len(),
        forall|j: int| k <= j < m ==> pairs[j].0@ != name,
        pairs[m].0@ == name,
    ensures
        first_pin_from(pairs, name, k) == pairs[m].1,
    decreases m - k,
{
    if k < m {
        lemma_first_pin_skip(pairs, name, k + 1, m);
    }
}

/// Immutable mapping from relay names to single-byte pin identifiers.
pub struct RelayRegistry {
    entries: Vec<(String, u8)>,
}

impl RelayRegistry {
    /// Well-formed: no two entries share a name, so each name has one pin.
    pub closed spec fn wf(&self) -> bool {
        names_unique(self.entries@)
    }

    /// Whether some entry carries `name`.
    pub closed spec fn spec_contains(&self, name: Seq<char>) -> bool {
        pairs_contain(self.entries@, name)
    }

    /// The pin of the entry that carries `name`.
    pub closed spec fn spec_pin(&self, name: Seq<char>) -> u8 {
        pin_of(self.entries@, name)
    }

    /// Whether some pair in `entries` carries `name`.
    fn entries_contain(entries: &Vec<(String, u8)>, name: &String) -> (b: bool)
        ensures
            b == pairs_contain(entries@, name@),
    {
        let n = entries.len();
        let mut i: usize = 0;
        while i < n
            invariant
                n == entries@.len(),
                0 <= i <= n,
                forall|j: int| 0 <= j < i ==> entries@[j].0@ != name@,
            decreases n - i,
        {
            if entries[i].0 == *name {
                assert(pairs_contain(entries@, name@));
                return true;
            }
            i += 1;
        }
        false
    }

    /// Builds a registry from name/pin pairs. Every name that occurs in the
    /// pairs is in the registry; a name that occurs more than once keeps the
    /// pin of its first occurrence.
    pub fn from_pairs(pairs: &Vec<(String, u8)>) -> (r: RelayRegistry)
        ensures
            r.wf(),
            forall|name: Seq<char>| r.spec_contains(name) <==> pairs_contain(pairs@, name),
            forall|name: Seq<char>|
                r.spec_contains(name) ==> r.spec_pin(name) == first_pin(pairs@, name),
    {
        let n = pairs.len();
        let mut entries: Vec<(String, u8)> = Vec::new();
        let mut i: usize = 0;
        while i < n
            invariant
                n == pairs@.len(),
                0 <= i <= n,
                names_unique(entries@),
                forall|name: Seq<char>|
                    pairs_contain(entries@, name) <==> exists|j: int|
                        0 <= j < i && pairs@[j].0@ == name,
                forall|name: Seq<char>|
                    pairs_contain(entries@, name) ==> pin_of(entries@, name) == first_pin(
                        pairs@,
                        name,
                    ),
            decreases n - i,
        {
            let present = Self::entries_contain(&entries, &pairs[i].0);
            if !present {
                let ghost old_entries = entries@;
                let name_owned = pairs[i].0.clone();
                let ghost new_name: Seq<char> = name_owned@;
                let pin = pairs[i].1;
                entries.push((name_owned, pin));
                proof {
                    let len0 = old_entries.len() as int;
                    assert(new_name == pairs@[i as int].0@);
                    assert(entries@.len() == len0 + 1);
                    assert(forall|k: int| 0 <= k < len0 ==> entries@[k] == old_entries[k]);
                    assert(entries@[len0].0@ == new_name && entries@[len0].1 == pin);
                    // The pushed name was absent from the old entries, so
                    // uniqueness is kept.
                    assert forall|x: int, y: int|
                        0 <= x < entries@.len() && 0 <= y < entries@.len() && x != y implies
                        entries@[x].0@ != entries@[y].0@ by {
                        if x < len0 && y < len0 {
                            assert(entries@[x] == old_entries[x]);
                            assert(entries@[y] == old_entries[y]);
                        } else if x == len0 {
                            if entries@[x].0@ == entries@[y].0@ {
                                assert(0 <= y < len0 && old_entries[y].0@ == new_name);
                                assert(pairs_contain(old_entries, new_name));
                            }
                        } else {
                            if entries@[x].0@ == entries@[y].0@ {
                                assert(0 <= x < len0 && old_entries[x].0@ == new_name);
                                assert(pairs_contain(old_entries, new_name));
                            }
                        }
                    }
                    // A name is in the new entries exactly when it is among
                    // the first i + 1 pairs.
                    assert forall|nm: Seq<char>|
                        pairs_contain(entries@, nm) <==> (exists|j: int|
                            0 <= j < i + 1 && pairs@[j].0@ == nm) by {
                        if pairs_contain(entries@, nm) {
                            let k = choose|k: int|
                                0 <= k < entries@.len() && entries@[k].0@ == nm;
                            if k < len0 {
                                assert(old_entries[k].0@ == nm);
                                assert(pairs_contain(old_entries, nm));
                                let j = choose|j: int| 0 <= j < i && pairs@[j].0@ == nm;
                                assert(0 <= j < i + 1 && pairs@[j].0@ == nm);
                            } else {
                                assert(pairs@[i as int].0@ == nm);
                            }
                        }
                        if exists|j: int| 0 <= j < i + 1 && pairs@[j].0@ == nm {
                            let j = choose|j: int| 0 <= j < i + 1 && pairs@[j].0@ == nm;
                            if j < i {
                                assert(pairs_contain(old_entries, nm));
                                let k = choose|k: int|
                                    0 <= k < old_entries.len() && old_entries[k].0@ == nm;
                                assert(entries@[k].0@ == nm);
                                assert(pairs_contain(entries@, nm));
                            } else {
                                assert(entries@[len0].0@ == nm);
                                assert(pairs_contain(entries@, nm));
                            }
                        }
                    }
                    // Each name still maps to the pin of its first occurrence.
                    assert forall|nm: Seq<char>| pairs_contain(entries@, nm) implies pin_of(
                        entries@,
                        nm,
                    ) == first_pin(pairs@, nm) by {
                        if pairs_contain(old_entries, nm) {
                            let k = choose|k: int|
                                0 <= k < old_entries.len() && old_entries[k].0@ == nm;
                            assert(entries@[k].0@ == nm);
                            lemma_pin_of_unique(entries@, nm, k);
                            lemma_pin_of_unique(old_entries, nm, k);
                        } else {
                            let c = choose|k: int|
                                0 <= k < entries@.len() && entries@[k].0@ == nm;
                            if c < len0 {
                                assert(old_entries[c].0@ == nm);
                                assert(pairs_contain(old_entries, nm));
                            }
                            assert(c == len0);
                            assert(nm == new_name);
                            lemma_pin_of_unique(entries@, nm, len0);
                            assert(forall|j: int| 0 <= j < i ==> pairs@[j].0@ != nm);
                            lemma_first_pin_skip(pairs@, nm, 0, i as int);
                        }
                    }
                }
            } else {
                proof {
                    // The name of the i-th pair is already present, so the
                    // entries, and every name's pin, are unchanged.
                    assert forall|nm: Seq<char>|
                        pairs_contain(entries@, nm) <==> (exists|j: int|
                            0 <= j < i + 1 && pairs@[j].0@ == nm) by {
                        if pairs_contain(entries@, nm) {
                            let j = choose|j: int| 0 <= j < i && pairs@[j].0@ == nm;
                            assert(0 <= j < i + 1 && pairs@[j].0@ == nm);
                        }
                        if exists|j: int| 0 <= j < i + 1 && pairs@[j].0@ == nm {
                            let j = choose|j: int| 0 <= j < i + 1 && pairs@[j].0@ == nm;
                            if j == i {
                                assert(nm == pairs@[i as int].0@);
                                assert(pairs_contain(entries@, nm));
                            }
                        }
                    }
                }
            }
            i += 1;
        }
        RelayRegistry { entries }
    }

    /// Pure lookup: the configured pin for every name in the registry, and
    /// `None` for every name absent from it.
    pub fn resolve(&self, name: &str) -> (r: Option<u8>)
        requires
            self.wf(),
        ensures
            r == if self.spec_contains(name@) {
                Some(self.spec_pin(name@))
            } else {
                None::<u8>
            },
    {
        let key = String::from_str(name);
        let n = self.entries.len();
        let mut i: usize = 0;
        while i < n
            invariant
                n == self.entries@.len(),
                0 <= i <= n,
                self.wf(),
                key@ == name@,
                forall|j: int| 0 <= j < i ==> self.entries@[j].0@ != name@,
            decreases n - i,
        {
            if self.entries[i].0 == key {
                proof {
                    lemma_pin_of_unique(self.entries@, name@, i as int);
                }
                return Some(self.entries[i].1);
            }
            i += 1;
        }
        None
    }
}

} // verus!
