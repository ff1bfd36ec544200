//! Identifiers and the validator-set abstraction shared by every component.

use vstd::prelude::*;

verus! {

/// A 256-bit account identifier for a validator, held as four 64-bit words.
#[derive(Clone, Copy, PartialEq, Eq, Structural, Hash, Debug)]
pub struct Author {
    pub w0: u64,
    pub w1: u64,
    pub w2: u64,
    pub w3: u64,
}

impl Author {
    /// A short identifier, convenient where a test only needs distinct authors.
    pub fn from_low(low: u64) -> (a: Author)
        ensures
            a == (Author { w0: 0u64, w1: 0u64, w2: 0u64, w3: low }),
    {
        Author { w0: 0, w1: 0, w2: 0, w3: low }
    }
}

/// Peers of the discovery protocol are identified the same way as validators.
pub type PeerId = Author;

/// Sum of a sequence of voting powers.
pub open spec fn sum_of_powers(s: Seq<u64>) -> int
    decreases s.len(),
{
    if s.len() == 0 {
        0
    } else {
        sum_of_powers(s.drop_last()) + s.last()
    }
}

/// Resolves an author to its voting power, yields the quorum threshold, and
/// fixes the canonical ordering of authors that leader rotation relies on.
#[derive(Clone, Debug)]
pub struct ValidatorVerifier {
    pub authors: Vec<Author>,
    pub voting_powers: Vec<u64>,
    pub total_voting_power: u64,
}

impl ValidatorVerifier {
    /// The canonical ordering: the order in which the validators were given.
    pub open spec fn spec_authors(self) -> Seq<Author> {
        self.authors@
    }

    pub open spec fn spec_voting_powers(self) -> Seq<u64> {
        self.voting_powers@
    }

    pub open spec fn spec_total_voting_power(self) -> u64 {
        self.total_voting_power
    }

    pub open spec fn spec_contains(self, a: Author) -> bool {
        self.authors@.contains(a)
    }

    /// Internal consistency: one power per author, no author twice, and a
    /// total small enough that the quorum threshold can be computed.
    pub open spec fn wf(self) -> bool {
        &&& self.authors@.len() == self.voting_powers@.len()
        &&& forall|i: int, j: int|
            0 <= i < j < self.authors@.len() ==> self.authors@[i] != self.authors@[j]
        &&& self.total_voting_power == sum_of_powers(self.voting_powers@)
        &&& self.total_voting_power <= u64::MAX / 2
    }

    /// Builds a verifier from `(author, voting power)` pairs, in canonical
    /// order.  Fails when an author repeats or the total power is too large
    /// to take a quorum threshold of.
    pub fn new(entries: Vec<(Author, u64)>) -> (r: Option<ValidatorVerifier>)
        ensures
            match r {
                Some(v) => {
                    &&& v.wf()
                    &&& v.spec_authors() == entries@.map_values(|e: (Author, u64)| e.0)
                    &&& v.spec_voting_powers() == entries@.map_values(|e: (Author, u64)| e.1)
                },
                None => {
                    ||| exists|i: int, j: int|
                        0 <= i < j < entries@.len() && entries@[i].0 == entries@[j].0
                    ||| sum_of_powers(entries@.map_values(|e: (Author, u64)| e.1)) > u64::MAX / 2
                },
            },
    {
        let ghost all_authors = entries@.map_values(|e: (Author, u64)| e.0);
        let ghost all_powers = entries@.map_values(|e: (Author, u64)| e.1);
        let mut authors: Vec<Author> = Vec::new();
        let mut voting_powers: Vec<u64> = Vec::new();
        let mut total: u64 = 0;
        let mut k: usize = 0;
        while k < entries.len()
            invariant
                k <= entries@.len(),
                all_authors == entries@.map_values(|e: (Author, u64)| e.0),
                all_powers == entries@.map_values(|e: (Author, u64)| e.1),
                authors@ == all_authors.take(k as int),
                voting_powers@ == all_powers.take(k as int),
                forall|i: int, j: int|
                    0 <= i < j < authors@.len() ==> authors@[i] != authors@[j],
                total == sum_of_powers(all_powers.take(k as int)),
                total <= u64::MAX / 2,
            decreases entries@.len() - k,
        {
            let (a, p) = entries[k];
            if let Some(i) = author_index(&authors, &a) {
                proof {
                    assert(authors@[i as int] == all_authors.take(k as int)[i as int]);
                    assert(all_authors[i as int] == entries@[i as int].0);
                    assert(entries@[i as int].0 == a);
                    assert(entries@[k as int].0 == a);
                }
                return None;
            }
            if p > u64::MAX / 2 || total > u64::MAX / 2 - p {
                proof {
                    lemma_sum_take_grows(all_powers, k as int + 1);
                    assert(all_powers[k as int] == entries@[k as int].1);
                    assert(sum_of_powers(all_powers.take(k as int + 1)) == total + p);
                    lemma_sum_prefix_le(all_powers, k as int + 1);
                }
                return None;
            }
            total = total + p;
            authors.push(a);
            voting_powers.push(p);
            proof {
                assert(authors@ =~= all_authors.take(k as int + 1));
                assert(voting_powers@ =~= all_powers.take(k as int + 1));
                assert(all_powers.take(k as int + 1).drop_last() =~= all_powers.take(k as int));
            }
            k += 1;
        }
        proof {
            assert(authors@ =~= all_authors);
            assert(voting_powers@ =~= all_powers);
        }
        Some(ValidatorVerifier { authors, voting_powers, total_voting_power: total })
    }

    /// Whether `a` is a validator of this set.
    pub fn contains(&self, a: &Author) -> (r: bool)
        ensures
            r == self.spec_contains(*a),
    {
        author_index(&self.authors, a).is_some()
    }

    /// The voting power of `a`, or `None` for an author outside the set.
    pub fn get_voting_power(&self, a: &Author) -> (r: Option<u64>)
        requires
            self.wf(),
        ensures
            match r {
                Some(p) => exists|i: int|
                    0 <= i < self.spec_authors().len() && self.spec_authors()[i] == *a
                        && self.spec_voting_powers()[i] == p,
                None => !self.spec_contains(*a),
            },
    {
        match author_index(&self.authors, a) {
            Some(i) => {
                let p = self.voting_powers[i];
                proof {
                    assert(self.spec_authors()[i as int] == *a && self.spec_voting_powers()[
                        i as int
                    ] == p);
                }
                Some(p)
            },
            None => None,
        }
    }

    /// The least voting power that proves a quorum: two thirds of the total,
    /// plus one.
    pub fn quorum_voting_power(&self) -> (q: u64)
        requires
            self.wf(),
        ensures
            q == self.total_voting_power * 2 / 3 + 1,
    {
        self.total_voting_power * 2 / 3 + 1
    }

    /// The validators in canonical order.
    pub fn ordered_authors(&self) -> (r: &Vec<Author>)
        ensures
            r@ == self.spec_authors(),
    {
        &self.authors
    }

    pub fn len(&self) -> (n: usize)
        ensures
            n == self.spec_authors().len(),
    {
        self.authors.len()
    }
}

/// The position of `a` in `authors`, or `None` when absent.
pub fn author_index(authors: &Vec<Author>, a: &Author) -> (r: Option<usize>)
    ensures
        match r {
            Some(i) => i < authors@.len() && authors@[i as int] == *a,
            None => !authors@.contains(*a),
        },
{
    let mut i: usize = 0;
    while i < authors.len()
        invariant
            i <= authors@.len(),
            forall|j: int| 0 <= j < i ==> authors@[j] != *a,
        decreases authors@.len() - i,
    {
        if authors[i] == *a {
            return Some(i);
        }
        i += 1;
    }
    None
}

proof fn lemma_sum_take_grows(s: Seq<u64>, n: int)
    requires
        0 < n <= s.len(),
    ensures
        sum_of_powers(s.take(n)) == sum_of_powers(s.take(n - 1)) + s[n - 1],
{
    assert(s.take(n).drop_last() =~= s.take(n - 1));
    assert(s.take(n).last() == s[n - 1]);
}

proof fn lemma_sum_prefix_le(s: Seq<u64>, n: int)
    requires
        0 <= n <= s.len(),
    ensures
        sum_of_powers(s.take(n)) <= sum_of_powers(s),
    decreases s.len() - n,
{
    if n < s.len() {
        lemma_sum_take_grows(s, n + 1);
        lemma_sum_prefix_le(s, n + 1);
    } else {
        assert(s.take(n) =~= s);
    }
}

/// The configuration period during which one validator set is fixed.
/// Immutable for the life of one epoch.
#[derive(Clone, Debug)]
pub struct EpochState {
    pub epoch: u64,
    pub verifier: ValidatorVerifier,
}

impl EpochState {
    pub open spec fn wf(self) -> bool {
        self.verifier.wf()
    }
}

} // verus!
