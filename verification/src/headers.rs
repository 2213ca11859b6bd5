//! A small collection of HTTP header name/value pairs.
//!
//! What a header name maps to is given by [`seq_lookup`], a first-match scan
//! over the stored pairs; [`Headers::set`] removes every pair with the given
//! name before pushing the new one, so the first match is also the only one.

use vstd::prelude::*;

verus! {

/// The first value paired with `name` in `entries`, scanning from the front.
pub open spec fn seq_lookup(entries: Seq<(Seq<char>, Seq<char>)>, name: Seq<char>) -> Option<
    Seq<char>,
>
    decreases entries.len(),
{
    if entries.len() == 0 {
        None
    } else if entries[0].0 == name {
        Some(entries[0].1)
    } else {
        seq_lookup(entries.drop_first(), name)
    }
}

proof fn lemma_seq_lookup_push(entries: Seq<(Seq<char>, Seq<char>)>, p: (Seq<char>, Seq<char>), name: Seq<char>)
    ensures
        seq_lookup(entries.push(p), name) == if seq_lookup(entries, name) is Some {
            seq_lookup(entries, name)
        } else if p.0 == name {
            Some(p.1)
        } else {
            None
        },
    decreases entries.len(),
{
    if entries.len() == 0 {
        assert(entries.push(p).drop_first() =~= entries);
    } else {
        assert(entries.push(p).drop_first() =~= entries.drop_first().push(p));
        lemma_seq_lookup_push(entries.drop_first(), p, name);
    }
}

/// `entries` with every pair named `name` removed, order kept.
pub open spec fn remove_name(entries: Seq<(Seq<char>, Seq<char>)>, name: Seq<char>) -> Seq<
    (Seq<char>, Seq<char>),
>
    decreases entries.len(),
{
    if entries.len() == 0 {
        entries
    } else if entries.last().0 == name {
        remove_name(entries.drop_last(), name)
    } else {
        remove_name(entries.drop_last(), name).push(entries.last())
    }
}

proof fn lemma_seq_lookup_absent(entries: Seq<(Seq<char>, Seq<char>)>, name: Seq<char>)
    requires
        forall|j: int| 0 <= j < entries.len() ==> (#[trigger] entries[j]).0 != name,
    ensures
        seq_lookup(entries, name) is None,
    decreases entries.len(),
{
    if entries.len() > 0 {
        lemma_seq_lookup_absent(entries.drop_first(), name);
    }
}

/// An ordered list of header name/value pairs.
#[derive(Debug)]
pub struct Headers {
    pairs: Vec<(String, String)>,
}

impl Headers {
    /// The stored pairs, as sequences of characters, in order.
    pub closed spec fn entries(self) -> Seq<(Seq<char>, Seq<char>)> {
        entries_of(self.pairs@)
    }

    /// The value the collection holds for `name`, if any.
    pub open spec fn lookup(self, name: Seq<char>) -> Option<Seq<char>> {
        seq_lookup(self.entries(), name)
    }

    /// An empty collection.
    pub fn new() -> (r: Headers)
        ensures
            r.entries() == Seq::<(Seq<char>, Seq<char>)>::empty(),
    {
        let r = Headers { pairs: Vec::new() };
        proof {
            assert(r.entries() =~= Seq::<(Seq<char>, Seq<char>)>::empty());
        }
        r
    }

    /// Sets `name` to `value`: every pair of that name is removed and the
    /// new pair is pushed at the end, so every other name's pairs stay as
    /// they were.
    pub fn set(&mut self, name: &str, value: String)
        ensures
            final(self).entries() == remove_name(old(self).entries(), name@).push((name@, value@)),
            final(self).lookup(name@) == Some(value@),
            forall|n: Seq<char>| n != name@ ==> final(self).lookup(n) == old(self).lookup(n),
    {
        let name_owned: String = name.to_owned();
        let mut kept: Vec<(String, String)> = Vec::new();
        let n = self.pairs.len();
        let mut i: usize = 0;
        proof {
            assert(self.pairs@.take(0) =~= Seq::<(String, String)>::empty());
            assert(entries_of(kept@) =~= remove_name(entries_of(self.pairs@.take(0)), name@));
        }
        while i < n
            invariant
                n == self.pairs.len(),
                i <= n,
                forall|j: int| 0 <= j < kept@.len() ==> (#[trigger] kept@[j]).0@ != name@,
                entries_of(kept@) == remove_name(entries_of(self.pairs@.take(i as int)), name@),
                forall|m: Seq<char>|
                    m != name@ ==> #[trigger] seq_lookup(entries_of(kept@), m) == seq_lookup(
                        entries_of(self.pairs@.take(i as int)),
                        m,
                    ),
                name_owned@ == name@,
            decreases n - i,
        {
            let ghost prev = kept@;
            let ghost prefix = self.pairs@.take(i as int);
            let keep_it = !(self.pairs[i].0 == name_owned);
            if keep_it {
                let entry = (clone_string(&self.pairs[i].0), clone_string(&self.pairs[i].1));
                kept.push(entry);
            }
            proof {
                assert(self.pairs@.take(i + 1) =~= prefix.push(self.pairs@[i as int]));
                assert(entries_of(prefix.push(self.pairs@[i as int])) =~= entries_of(prefix).push(
                    (self.pairs@[i as int].0@, self.pairs@[i as int].1@),
                ));
                assert(entries_of(prefix).push(
                    (self.pairs@[i as int].0@, self.pairs@[i as int].1@),
                ).drop_last() =~= entries_of(prefix));
                if keep_it {
                    assert(entries_of(kept@) =~= entries_of(prev).push(
                        (self.pairs@[i as int].0@, self.pairs@[i as int].1@),
                    ));
                }
                assert(entries_of(kept@) == remove_name(
                    entries_of(self.pairs@.take(i + 1)),
                    name@,
                ));
                assert forall|m: Seq<char>| m != name@ implies #[trigger] seq_lookup(
                    entries_of(kept@),
                    m,
                ) == seq_lookup(entries_of(self.pairs@.take(i + 1)), m) by {
                    lemma_seq_lookup_push(
                        entries_of(prefix),
                        (self.pairs@[i as int].0@, self.pairs@[i as int].1@),
                        m,
                    );
                    if keep_it {
                        lemma_seq_lookup_push(
                            entries_of(prev),
                            (self.pairs@[i as int].0@, self.pairs@[i as int].1@),
                            m,
                        );
                    }
                }
            }
            i = i + 1;
        }
        proof {
            assert(self.pairs@.take(n as int) =~= self.pairs@);
            assert(entries_of(self.pairs@.take(n as int)) == entries_of(self.pairs@));
        }
        let ghost before_push = kept@;
        kept.push((name_owned, value));
        proof {
            assert(entries_of(kept@) =~= entries_of(before_push).push((name@, value@)));
            lemma_seq_lookup_absent(entries_of(before_push), name@);
            lemma_seq_lookup_push(entries_of(before_push), (name@, value@), name@);
            assert(seq_lookup(entries_of(kept@), name@) == Some(value@));
            assert forall|m: Seq<char>| m != name@ implies seq_lookup(entries_of(kept@), m)
                == seq_lookup(entries_of(self.pairs@), m) by {
                lemma_seq_lookup_push(entries_of(before_push), (name@, value@), m);
                assert(seq_lookup(entries_of(before_push), m) == seq_lookup(
                    entries_of(self.pairs@.take(n as int)),
                    m,
                ));
            }
        }
        self.pairs = kept;
    }

    /// The value held for `name`, if any.
    pub fn get(&self, name: &str) -> (r: Option<&String>)
        ensures
            match r {
                Some(v) => self.lookup(name@) == Some(v@),
                None => self.lookup(name@) is None,
            },
    {
        let name_owned: String = name.to_owned();
        let n = self.pairs.len();
        let mut i: usize = 0;
        proof {
            assert(self.pairs@.skip(0) =~= self.pairs@);
            assert(entries_of(self.pairs@.skip(0)) == entries_of(self.pairs@));
        }
        while i < n
            invariant
                n == self.pairs.len(),
                i <= n,
                name_owned@ == name@,
                seq_lookup(entries_of(self.pairs@.skip(i as int)), name@) == seq_lookup(
                    entries_of(self.pairs@),
                    name@,
                ),
                forall|j: int| 0 <= j < i ==> (#[trigger] self.pairs@[j]).0@ != name@,
            decreases n - i,
        {
            proof {
                assert(entries_of(self.pairs@.skip(i as int)).len() > 0);
                assert(entries_of(self.pairs@.skip(i as int))[0] == (
                    self.pairs@[i as int].0@,
                    self.pairs@[i as int].1@,
                ));
            }
            if self.pairs[i].0 == name_owned {
                return Some(&self.pairs[i].1);
            }
            proof {
                assert(entries_of(self.pairs@.skip(i as int)).drop_first() =~= entries_of(
                    self.pairs@.skip(i + 1),
                ));
            }
            i = i + 1;
        }
        proof {
            assert(self.pairs@.skip(n as int) =~= Seq::<(String, String)>::empty());
            assert(entries_of(Seq::<(String, String)>::empty()) =~= Seq::<
                (Seq<char>, Seq<char>),
            >::empty());
        }
        None
    }

    /// How many pairs the collection holds.
    pub fn len(&self) -> (r: usize)
        ensures
            r == self.entries().len(),
    {
        self.pairs.len()
    }

    /// Read access to the stored pairs, for handing them to a transport.
    pub fn all(&self) -> (r: &Vec<(String, String)>)
        ensures
            r@.len() == self.entries().len(),
            forall|j: int|
                0 <= j < r@.len() ==> ((#[trigger] r@[j]).0@, r@[j].1@) == self.entries()[j],
    {
        &self.pairs
    }
}

impl Clone for Headers {
    /// A copy holding the same entries.
    fn clone(&self) -> (r: Headers)
        ensures
            r.entries() == self.entries(),
    {
        let mut pairs: Vec<(String, String)> = Vec::new();
        let n = self.pairs.len();
        let mut i: usize = 0;
        while i < n
            invariant
                n == self.pairs.len(),
                i <= n,
                pairs@.len() == i,
                forall|j: int|
                    0 <= j < i ==> ((#[trigger] pairs@[j]).0@, pairs@[j].1@) == (
                        self.pairs@[j].0@,
                        self.pairs@[j].1@,
                    ),
            decreases n - i,
        {
            let entry = (clone_string(&self.pairs[i].0), clone_string(&self.pairs[i].1));
            pairs.push(entry);
            i = i + 1;
        }
        let r = Headers { pairs };
        proof {
            assert(r.entries() =~= self.entries());
        }
        r
    }
}

/// The pairs of `s`, as sequences of characters.
pub open spec fn entries_of(s: Seq<(String, String)>) -> Seq<(Seq<char>, Seq<char>)> {
    s.map(|i: int, p: (String, String)| (p.0@, p.1@))
}

/// A copy of `s` with the same characters.
pub fn clone_string(s: &String) -> (r: String)
    ensures
        r@ == s@,
{
    s.clone()
}

} // verus!
