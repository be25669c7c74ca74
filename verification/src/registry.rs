use vstd::prelude::*;

verus! {

use crate::errors::CustomError;
use crate::pool::{initialize_pool, initialize_pool_spec, SwapPool};

/// Address of one pool in the registry. The salt lets several pools trade
/// the same asset pair side by side.
#[derive(Clone, Copy, Debug, PartialEq, Eq, Structural)]
pub struct PoolKey {
    pub asset_a_id: u64,
    pub asset_b_id: u64,
    pub salt: u64,
}

/// Whether some entry carries the key.
pub open spec fn has_key(entries: Seq<(PoolKey, SwapPool)>, key: PoolKey) -> bool {
    exists|j: int| 0 <= j < entries.len() && (#[trigger] entries[j]).0 == key
}

/// Keys are unique and every stored pool record is well-formed.
pub open spec fn entries_wf(entries: Seq<(PoolKey, SwapPool)>) -> bool {
    &&& forall|i: int, j: int|
        0 <= i < j < entries.len() ==> (#[trigger] entries[i]).0 != (#[trigger] entries[j]).0
    &&& forall|i: int| 0 <= i < entries.len() ==> (#[trigger] entries[i]).1.wf()
}

/// Appending a well-formed record under a fresh key keeps the store
/// well-formed.
proof fn lemma_push_preserves_wf(entries: Seq<(PoolKey, SwapPool)>, key: PoolKey, pool: SwapPool)
    requires
        entries_wf(entries),
        !has_key(entries, key),
        pool.wf(),
    ensures
        entries_wf(entries.push((key, pool))),
{
    let t = entries.push((key, pool));
    assert forall|a: int, b: int|
        0 <= a < b < t.len() implies (#[trigger] t[a]).0 != (#[trigger] t[b]).0 by {
        assert(t[a] == entries[a]);
        if b < t.len() - 1 {
            assert(t[b] == entries[b]);
        } else {
            assert(t[b] == (key, pool));
            assert(entries[a].0 != key);
        }
    }
    assert forall|a: int| 0 <= a < t.len() implies (#[trigger] t[a]).1.wf() by {
        if a < t.len() - 1 {
            assert(t[a] == entries[a]);
        } else {
            assert(t[a] == (key, pool));
        }
    }
}

/// Replacing the record stored under a key with another well-formed record
/// keeps the store well-formed.
proof fn lemma_update_preserves_wf(
    entries: Seq<(PoolKey, SwapPool)>,
    i: int,
    key: PoolKey,
    pool: SwapPool,
)
    requires
        entries_wf(entries),
        0 <= i < entries.len(),
        entries[i].0 == key,
        pool.wf(),
    ensures
        entries_wf(entries.update(i, (key, pool))),
{
    let t = entries.update(i, (key, pool));
    assert forall|a: int, b: int|
        0 <= a < b < t.len() implies (#[trigger] t[a]).0 != (#[trigger] t[b]).0 by {
        assert(entries[a].0 != entries[b].0);
        assert(t[a].0 == entries[a].0);
        assert(t[b].0 == entries[b].0);
    }
    assert forall|a: int| 0 <= a < t.len() implies (#[trigger] t[a]).1.wf() by {
        if a != i {
            assert(t[a] == entries[a]);
        }
    }
}

/// A keyed store of pool records, so multiple pools coexist without shared
/// mutable state. Keys are unique and every stored record is well-formed.
///
/// An operation on a stored pool is a scoped exclusive access: `lookup` hands
/// out a copy, the caller computes on it, and `update_pool` commits the new
/// record — or nothing is written back and the store is untouched.
pub struct PoolRegistry {
    entries: Vec<(PoolKey, SwapPool)>,
}

impl View for PoolRegistry {
    type V = Seq<(PoolKey, SwapPool)>;

    closed spec fn view(&self) -> Seq<(PoolKey, SwapPool)> {
        self.entries@
    }
}

impl PoolRegistry {
    pub open spec fn wf(self) -> bool {
        entries_wf(self@)
    }

    /// An empty registry.
    pub fn new() -> (r: PoolRegistry)
        ensures
            r@ == Seq::<(PoolKey, SwapPool)>::empty(),
            r.wf(),
    {
        PoolRegistry { entries: Vec::new() }
    }

    pub fn len(&self) -> (r: usize)
        ensures
            r == self@.len(),
    {
        self.entries.len()
    }

    /// Creates a pool under a fresh key: a key already in use fails with
    /// `InvalidSwapPool`, then the record is built by `initialize_pool` (so a
    /// fee rate above the cap fails with `FeeTooHigh`); any failure leaves
    /// the registry untouched.
    pub fn create_pool(
        &mut self,
        key: PoolKey,
        fee_rate: u64,
        bump: u8,
        token_a_mint: u64,
        token_b_mint: u64,
        token_a_vault: u64,
        token_b_vault: u64,
        lp_mint: u64,
        pool_authority: u64,
        admin: u64,
    ) -> (r: Result<(), CustomError>)
        requires
            old(self).wf(),
            token_a_mint != token_b_mint,
        ensures
            final(self).wf(),
            match r {
                Ok(()) => !has_key(old(self)@, key) && (initialize_pool_spec(
                    fee_rate,
                    bump,
                    token_a_mint,
                    token_b_mint,
                    token_a_vault,
                    token_b_vault,
                    lp_mint,
                    pool_authority,
                    admin,
                ) matches Ok(p) && final(self)@ == old(self)@.push((key, p))),
                Err(e) => final(self)@ == old(self)@ && if has_key(old(self)@, key) {
                    e == CustomError::InvalidSwapPool
                } else {
                    e == CustomError::FeeTooHigh && fee_rate > 1000
                },
            },
    {
        let mut i: usize = 0;
        while i < self.entries.len()
            invariant
                old(self).wf(),
                token_a_mint != token_b_mint,
                i <= self@.len(),
                self@ == old(self)@,
                forall|j: int| 0 <= j < i ==> (#[trigger] self@[j]).0 != key,
            decreases self@.len() - i,
        {
            if self.entries[i].0 == key {
                return Err(CustomError::InvalidSwapPool);
            }
            i = i + 1;
        }
        let pool = match initialize_pool(
            fee_rate,
            bump,
            token_a_mint,
            token_b_mint,
            token_a_vault,
            token_b_vault,
            lp_mint,
            pool_authority,
            admin,
        ) {
            Err(e) => {
                return Err(e);
            },
            Ok(p) => p,
        };
        proof {
            lemma_push_preserves_wf(self@, key, pool);
        }
        self.entries.push((key, pool));
        Ok(())
    }

    /// Hands out a copy of the stored record, or `None` for an unknown key.
    pub fn lookup(&self, key: PoolKey) -> (r: Option<SwapPool>)
        ensures
            match r {
                Some(p) => exists|j: int| 0 <= j < self@.len() && (#[trigger] self@[j]) == (key, p),
                None => !has_key(self@, key),
            },
    {
        let mut i: usize = 0;
        while i < self.entries.len()
            invariant
                i <= self@.len(),
                forall|j: int| 0 <= j < i ==> (#[trigger] self@[j]).0 != key,
            decreases self@.len() - i,
        {
            if self.entries[i].0 == key {
                proof {
                    assert(self@[i as int] == (key, self.entries@[i as int].1));
                }
                return Some(self.entries[i].1);
            }
            i = i + 1;
        }
        None
    }

    /// Commits a computed record over the stored one; an unknown key fails
    /// with `InvalidSwapPool` and writes nothing.
    pub fn update_pool(&mut self, key: PoolKey, pool: SwapPool) -> (r: Result<(), CustomError>)
        requires
            old(self).wf(),
        ensures
            pool.wf() ==> final(self).wf(),
            match r {
                Ok(()) => exists|j: int|
                    0 <= j < old(self)@.len() && (#[trigger] old(self)@[j]).0 == key
                        && final(self)@ == old(self)@.update(j, (key, pool)),
                Err(e) => e == CustomError::InvalidSwapPool && !has_key(old(self)@, key)
                    && final(self)@ == old(self)@,
            },
    {
        let mut i: usize = 0;
        while i < self.entries.len()
            invariant
                old(self).wf(),
                i <= self@.len(),
                self@ == old(self)@,
                forall|j: int| 0 <= j < i ==> (#[trigger] self@[j]).0 != key,
            decreases self@.len() - i,
        {
            if self.entries[i].0 == key {
                proof {
                    assert((old(self)@[i as int]).0 == key);
                    if pool.wf() {
                        lemma_update_preserves_wf(old(self)@, i as int, key, pool);
                    }
                }
                self.entries[i] = (key, pool);
                return Ok(());
            }
            i = i + 1;
        }
        Err(CustomError::InvalidSwapPool)
    }
}

} // verus!
