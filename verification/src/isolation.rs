//! Which shards a desktop session may reach from the shard it runs in.
use vstd::prelude::*;
use crate::text::{owned, str_eq};

verus! {

/// The shards a session may access: its own, and any added for cross-shard
/// access through the airlock.
pub struct ShardIsolation {
    current_shard: String,
    allowed_shards: Vec<String>,
}

impl ShardIsolation {
    /// The shard the session runs in.
    pub closed spec fn current(&self) -> Seq<char> {
        self.current_shard@
    }

    /// The shards the session may access, in the order they were allowed.
    pub closed spec fn allowed(&self) -> Seq<Seq<char>> {
        self.allowed_shards@.map_values(|s: String| s@)
    }

    /// A session in `shard` that may access only `shard`.
    pub fn new(shard: &str) -> (r: Self)
        ensures
            r.current() == shard@,
            r.allowed() == seq![shard@],
    {
        let mut allowed_shards: Vec<String> = Vec::new();
        allowed_shards.push(owned(shard));
        let r = ShardIsolation { current_shard: owned(shard), allowed_shards };
        proof {
            assert(r.allowed() =~= seq![shard@]);
        }
        r
    }

    /// Whether the session may access resources of `resource_shard`.
    pub fn can_access(&self, resource_shard: &str) -> (r: bool)
        ensures
            r == self.allowed().contains(resource_shard@),
    {
        let mut i: usize = 0;
        while i < self.allowed_shards.len()
            invariant
                i <= self.allowed_shards@.len(),
                forall|j: int| 0 <= j < i ==> #[trigger] self.allowed_shards@[j]@ != resource_shard@,
            decreases self.allowed_shards@.len() - i,
        {
            if str_eq(self.allowed_shards[i].as_str(), resource_shard) {
                proof {
                    assert(self.allowed()[i as int] == resource_shard@);
                }
                return true;
            }
            i = i + 1;
        }
        proof {
            if self.allowed().contains(resource_shard@) {
                let j = choose|j: int| 0 <= j < self.allowed().len() && self.allowed()[j] == resource_shard@;
                assert(self.allowed_shards@[j]@ == resource_shard@);
            }
        }
        false
    }

    /// Lets the session access `shard` too; a shard already allowed is not
    /// added twice.
    pub fn add_allowed_shard(&mut self, shard: &str)
        ensures
            final(self).current() == old(self).current(),
            final(self).allowed() == with_shard(old(self).allowed(), shard@),
    {
        if !self.can_access(shard) {
            let ghost before = self.allowed_shards@;
            self.allowed_shards.push(owned(shard));
            proof {
                assert(self.allowed() =~= before.map_values(|s: String| s@).push(shard@));
            }
        }
    }
}

/// The shards allowed after allowing `added` too: a new shard is appended,
/// one already allowed is not repeated.
pub open spec fn with_shard(allowed: Seq<Seq<char>>, added: Seq<char>) -> Seq<Seq<char>> {
    if allowed.contains(added) {
        allowed
    } else {
        allowed.push(added)
    }
}

/// Allowing a shard makes it accessible, keeps every shard allowed before
/// accessible, and adds no other shard.
pub proof fn lemma_allowed_shards_only_grow(before: Seq<Seq<char>>, added: Seq<char>, shard: Seq<char>)
    ensures
        with_shard(before, added).contains(added),
        before.contains(shard) ==> with_shard(before, added).contains(shard),
        with_shard(before, added).contains(shard) ==> before.contains(shard) || shard == added,
{
    if !before.contains(added) {
        assert(before.push(added)[before.len() as int] == added);
        if before.contains(shard) {
            let j = choose|j: int| 0 <= j < before.len() && before[j] == shard;
            assert(before.push(added)[j] == shard);
        }
        if with_shard(before, added).contains(shard) && shard != added {
            let j = choose|j: int| 0 <= j < before.len() + 1 && before.push(added)[j] == shard;
            assert(before[j] == shard);
        }
    }
}

} // verus!
