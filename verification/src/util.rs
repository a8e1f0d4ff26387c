//! The bookkeeping a peer keeps: sequence numbers, the commands it has
//! processed, and the peers it knows a route to.

use vstd::prelude::*;

verus! {

/// Hands out the sequence numbers of the messages a peer originates.
#[derive(Debug)]
pub struct SequenceNumberGenerator {
    next_value: u64,
}

impl View for SequenceNumberGenerator {
    type V = u64;

    /// The number the next call of `next` hands out.
    closed spec fn view(&self) -> u64 {
        self.next_value
    }
}

/// The number handed out after `n`: one more, wrapping after `u64::MAX`.
pub open spec fn successor(n: u64) -> u64 {
    if n == u64::MAX {
        0
    } else {
        (n + 1) as u64
    }
}

impl SequenceNumberGenerator {
    /// A generator whose first number is `start`.
    pub fn new(start: u64) -> (r: Self)
        ensures
            r@ == start,
    {
        SequenceNumberGenerator { next_value: start }
    }

    /// Hands out the current number and moves on to its successor.
    pub fn next(&mut self) -> (r: u64)
        ensures
            r == old(self)@,
            final(self)@ == successor(old(self)@),
    {
        let r = self.next_value;
        self.next_value = if r == u64::MAX { 0 } else { r + 1 };
        r
    }
}

/// The commands already processed, by sender and sequence number.
#[derive(Debug)]
pub struct ProcessedCommands {
    seen: Vec<(String, u64)>,
}

impl View for ProcessedCommands {
    type V = Set<(Seq<char>, u64)>;

    closed spec fn view(&self) -> Set<(Seq<char>, u64)> {
        Set::new(|k: (Seq<char>, u64)| exists|i: int| 0 <= i < self.seen@.len() && #[trigger] self.seen@[i].0@ == k.0 && self.seen@[i].1 == k.1)
    }
}

impl ProcessedCommands {
    /// No command processed yet.
    pub fn new() -> (r: Self)
        ensures
            r@ == Set::<(Seq<char>, u64)>::empty(),
    {
        let r = ProcessedCommands { seen: Vec::new() };
        assert(r@ =~= Set::<(Seq<char>, u64)>::empty());
        r
    }

    /// Whether the command `sequence_number` from `source` was processed.
    pub fn check_duplicate(&self, source: &String, sequence_number: u64) -> (r: bool)
        ensures
            r == self@.contains((source@, sequence_number)),
    {
        let mut i: usize = 0;
        while i < self.seen.len()
            invariant
                0 <= i <= self.seen.len(),
                forall|j: int| 0 <= j < i ==> !(#[trigger] self.seen@[j].0@ == source@ && self.seen@[j].1 == sequence_number),
            decreases self.seen.len() - i,
        {
            if self.seen[i].1 == sequence_number && self.seen[i].0 == *source {
                return true;
            }
            i = i + 1;
        }
        false
    }

    /// Records the command `sequence_number` from `source` as processed.
    pub fn set_processed(&mut self, source: String, sequence_number: u64)
        ensures
            final(self)@ == old(self)@.insert((source@, sequence_number)),
    {
        let ghost k = (source@, sequence_number);
        self.seen.push((source, sequence_number));
        assert forall|x: (Seq<char>, u64)| final(self)@.contains(x) <==> old(self)@.insert(k).contains(x) by {
            if x == k {
                assert(self.seen@[self.seen@.len() - 1].0@ == k.0);
            }
            if old(self)@.contains(x) {
                let i = choose|i: int| 0 <= i < old(self).seen@.len() && #[trigger] old(self).seen@[i].0@ == x.0 && old(self).seen@[i].1 == x.1;
                assert(self.seen@[i] == old(self).seen@[i]);
            }
            if final(self)@.contains(x) && x != k {
                let i = choose|i: int| 0 <= i < self.seen@.len() && #[trigger] self.seen@[i].0@ == x.0 && self.seen@[i].1 == x.1;
                assert(i < old(self).seen@.len());
                assert(self.seen@[i] == old(self).seen@[i]);
            }
        }
        assert(final(self)@ =~= old(self)@.insert(k));
    }
}

/// The peers that a route is known to.
#[derive(Debug)]
pub struct AdjacencyList {
    names: Vec<String>,
}

impl View for AdjacencyList {
    type V = Set<Seq<char>>;

    closed spec fn view(&self) -> Set<Seq<char>> {
        Set::new(|n: Seq<char>| exists|i: int| 0 <= i < self.names@.len() && #[trigger] self.names@[i]@ == n)
    }
}

impl AdjacencyList {
    /// No route known yet.
    pub fn new() -> (r: Self)
        ensures
            r@ == Set::<Seq<char>>::empty(),
    {
        let r = AdjacencyList { names: Vec::new() };
        assert(r@ =~= Set::<Seq<char>>::empty());
        r
    }

    /// Whether a route to `name` is known.
    pub fn contains(&self, name: &String) -> (r: bool)
        ensures
            r == self@.contains(name@),
    {
        let mut i: usize = 0;
        while i < self.names.len()
            invariant
                0 <= i <= self.names.len(),
                forall|j: int| 0 <= j < i ==> #[trigger] self.names@[j]@ != name@,
            decreases self.names.len() - i,
        {
            if self.names[i] == *name {
                return true;
            }
            i = i + 1;
        }
        false
    }

    /// Records that a route to `name` is known.
    pub fn insert(&mut self, name: String)
        ensures
            final(self)@ == old(self)@.insert(name@),
    {
        if !self.contains(&name) {
            let ghost n = name@;
            self.names.push(name);
            assert forall|x: Seq<char>| final(self)@.contains(x) <==> old(self)@.insert(n).contains(x) by {
                if x == n {
                    assert(self.names@[self.names@.len() - 1]@ == n);
                }
                if old(self)@.contains(x) {
                    let i = choose|i: int| 0 <= i < old(self).names@.len() && #[trigger] old(self).names@[i]@ == x;
                    assert(self.names@[i] == old(self).names@[i]);
                }
                if final(self)@.contains(x) && x != n {
                    let i = choose|i: int| 0 <= i < self.names@.len() && #[trigger] self.names@[i]@ == x;
                    assert(i < old(self).names@.len());
                    assert(self.names@[i] == old(self).names@[i]);
                }
            }
            assert(final(self)@ =~= old(self)@.insert(n));
        } else {
            assert(old(self)@.insert(name@) =~= old(self)@);
        }
    }
}

} // verus!
