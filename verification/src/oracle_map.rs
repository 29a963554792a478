//! Oracle accounts indexed by their key, with the slot and the guard rails
//! that price lookups on them go by.
//!
//! Like a market map, an oracle map is built for one call, borrows the
//! caller's list and is all or nothing: a key that occurs twice in the list
//! fails the load. The map records the slot the call was made for and the
//! caller's guard rails; a price read through the map is to be judged
//! against that slot and no other.

use vstd::prelude::*;
use crate::account::{AccountRef, Pubkey};
use crate::error::{LookupError, StructuralError};

verus! {

/// How far a price may lie from the market's own before it is doubted.
#[derive(Clone, Copy, Debug, PartialEq, Eq, Structural)]
pub struct PriceDivergenceGuardRails {
    pub mark_oracle_percent_divergence: u64,
    pub oracle_twap_5min_percent_divergence: u64,
}

/// How old and how uncertain a price may be before it is refused.
#[derive(Clone, Copy, Debug, PartialEq, Eq, Structural)]
pub struct ValidityGuardRails {
    pub slots_before_stale_for_amm: i64,
    pub slots_before_stale_for_margin: i64,
    pub confidence_interval_max_size: u64,
    pub too_volatile_ratio: i64,
}

/// The tolerances that price lookups are held to.
#[derive(Clone, Copy, Debug, PartialEq, Eq, Structural)]
pub struct OracleGuardRails {
    pub price_divergence: PriceDivergenceGuardRails,
    pub validity: ValidityGuardRails,
}

/// The keys of `accounts`, in the order of the list.
pub open spec fn keys(accounts: Seq<AccountRef>) -> Seq<Seq<u8>> {
    accounts.map_values(|a: AccountRef| a.key@)
}

/// The accounts by their key.
pub open spec fn by_key(accounts: Seq<AccountRef>) -> Map<Seq<u8>, AccountRef> {
    Map::new(
        |k: Seq<u8>| keys(accounts).contains(k),
        |k: Seq<u8>| accounts[keys(accounts).index_of(k)],
    )
}

/// What loading `accounts` gives: the accounts by key where no key occurs
/// twice, and else a structural failure.
pub open spec fn load_outcome(accounts: Seq<AccountRef>) -> Result<
    Map<Seq<u8>, AccountRef>,
    StructuralError,
> {
    if keys(accounts).no_duplicates() {
        Ok(by_key(accounts))
    } else {
        Err(StructuralError::DuplicateKey)
    }
}

/// Where no key occurs twice, each entry is found again under its key.
proof fn lemma_by_key_entry(accounts: Seq<AccountRef>, i: int)
    requires
        keys(accounts).no_duplicates(),
        0 <= i < accounts.len(),
    ensures
        by_key(accounts).contains_key(accounts[i].key@),
        by_key(accounts)[accounts[i].key@] == accounts[i],
{
    let k = accounts[i].key@;
    assert(keys(accounts)[i] == k);
    let c = keys(accounts).index_of(k);
    assert(0 <= c < accounts.len() && keys(accounts)[c] == k);
}

/// Every list with pairwise distinct keys loads, and the map then holds
/// exactly one entry for each account of the list, under the account's
/// key.
pub proof fn lemma_unique_keys_load(accounts: Seq<AccountRef>)
    requires
        forall|i: int, j: int|
            0 <= i < j < accounts.len() ==> #[trigger] accounts[i].key@ != #[trigger] accounts[j].key@,
    ensures
        load_outcome(accounts) == Ok::<Map<Seq<u8>, AccountRef>, StructuralError>(
            by_key(accounts),
        ),
        by_key(accounts).dom().finite(),
        by_key(accounts).len() == accounts.len(),
        forall|i: int|
            0 <= i < accounts.len() ==> {
                &&& by_key(accounts).contains_key(#[trigger] accounts[i].key@)
                &&& by_key(accounts)[accounts[i].key@] == accounts[i]
            },
{
    let ks = keys(accounts);
    assert forall|i: int, j: int| 0 <= i < ks.len() && 0 <= j < ks.len() && i != j implies ks[i]
        != ks[j] by {
        if i < j {
            assert(accounts[i].key@ != accounts[j].key@);
        } else {
            assert(accounts[j].key@ != accounts[i].key@);
        }
    }
    ks.unique_seq_to_set();
    assert(by_key(accounts).dom() =~= ks.to_set());
    assert forall|i: int| 0 <= i < accounts.len() implies {
        &&& by_key(accounts).contains_key(#[trigger] accounts[i].key@)
        &&& by_key(accounts)[accounts[i].key@] == accounts[i]
    } by {
        lemma_by_key_entry(accounts, i);
    }
}

/// Every list in which two entries have the same key fails to load: the
/// outcome is a structural failure, and no map.
pub proof fn lemma_duplicate_key_fails(accounts: Seq<AccountRef>, i: int, j: int)
    requires
        0 <= i < j < accounts.len(),
        accounts[i].key@ == accounts[j].key@,
    ensures
        load_outcome(accounts) == Err::<Map<Seq<u8>, AccountRef>, StructuralError>(
            StructuralError::DuplicateKey,
        ),
{
    assert(keys(accounts)[i] == keys(accounts)[j]);
}

/// Oracle accounts by key, borrowed from the list they were loaded from,
/// with the slot and the guard rails of the call.
#[derive(Debug)]
pub struct OracleMap<'a> {
    accounts: &'a Vec<AccountRef>,
    slot: u64,
    guard_rails: OracleGuardRails,
}

impl<'a> View for OracleMap<'a> {
    type V = Map<Seq<u8>, AccountRef>;

    /// The account under each key.
    closed spec fn view(&self) -> Map<Seq<u8>, AccountRef> {
        by_key(self.accounts@)
    }
}

impl<'a> OracleMap<'a> {
    #[verifier::type_invariant]
    spec fn keys_distinct(self) -> bool {
        keys(self.accounts@).no_duplicates()
    }

    /// The slot that the map was loaded for.
    pub closed spec fn spec_slot(&self) -> u64 {
        self.slot
    }

    /// The guard rails that the map was loaded with.
    pub closed spec fn spec_guard_rails(&self) -> OracleGuardRails {
        self.guard_rails
    }

    /// Whether the key of entry `i` is that of an earlier entry.
    fn key_taken_before(accounts: &Vec<AccountRef>, i: usize) -> (r: bool)
        requires
            i < accounts.len(),
        ensures
            r == exists|j: int| 0 <= j < i && #[trigger] accounts@[j].key@ == accounts@[i as int].key@,
    {
        let mut j: usize = 0;
        while j < i
            invariant
                j <= i < accounts.len(),
                forall|a: int| 0 <= a < j ==> #[trigger] accounts@[a].key@ != accounts@[i as int].key@,
            decreases i - j,
        {
            if accounts[j].key.matches(&accounts[i].key) {
                return true;
            }
            j += 1;
        }
        false
    }

    /// Builds the map of `accounts` and records `slot` and `guard_rails`
    /// in it. The load fails when a key occurs twice in the list; else the
    /// map holds every account under its key.
    pub fn load(accounts: &'a Vec<AccountRef>, slot: u64, guard_rails: OracleGuardRails) -> (r:
        Result<OracleMap<'a>, StructuralError>)
        ensures
            match r {
                Ok(m) => {
                    &&& load_outcome(accounts@) == Ok::<Map<Seq<u8>, AccountRef>, StructuralError>(
                        m@,
                    )
                    &&& m@.dom().finite()
                    &&& m@.len() == accounts@.len()
                    &&& forall|i: int|
                        0 <= i < accounts@.len() ==> {
                            &&& m@.contains_key(#[trigger] accounts@[i].key@)
                            &&& m@[accounts@[i].key@] == accounts@[i]
                        }
                    &&& m.spec_slot() == slot
                    &&& m.spec_guard_rails() == guard_rails
                },
                Err(e) => load_outcome(accounts@) == Err::<
                    Map<Seq<u8>, AccountRef>,
                    StructuralError,
                >(e),
            },
    {
        let mut i: usize = 0;
        while i < accounts.len()
            invariant
                i <= accounts.len(),
                forall|a: int, b: int|
                    0 <= a < b < i ==> #[trigger] accounts@[a].key@ != #[trigger] accounts@[b].key@,
            decreases accounts.len() - i,
        {
            if Self::key_taken_before(accounts, i) {
                proof {
                    let j = choose|j: int|
                        0 <= j < i && #[trigger] accounts@[j].key@ == accounts@[i as int].key@;
                    lemma_duplicate_key_fails(accounts@, j, i as int);
                }
                return Err(StructuralError::DuplicateKey);
            }
            i += 1;
        }
        proof {
            lemma_unique_keys_load(accounts@);
        }
        Ok(OracleMap { accounts, slot, guard_rails })
    }

    /// The account of the oracle with key `key`. An oracle that is not in
    /// the map is a lookup failure; nothing stands in for it.
    pub fn get(&self, key: &Pubkey) -> (r: Result<&'a AccountRef, LookupError>)
        ensures
            match r {
                Ok(account) => self@.contains_key(key@) && *account == self@[key@],
                Err(e) => !self@.contains_key(key@) && e == LookupError::OracleNotFound,
            },
    {
        proof {
            use_type_invariant(self);
        }
        let mut i: usize = 0;
        while i < self.accounts.len()
            invariant
                i <= self.accounts.len(),
                keys(self.accounts@).no_duplicates(),
                forall|a: int| 0 <= a < i ==> #[trigger] self.accounts@[a].key@ != key@,
            decreases self.accounts.len() - i,
        {
            if self.accounts[i].key.matches(key) {
                proof {
                    lemma_by_key_entry(self.accounts@, i as int);
                }
                return Ok(&self.accounts[i]);
            }
            i += 1;
        }
        proof {
            if keys(self.accounts@).contains(key@) {
                let c = keys(self.accounts@).index_of(key@);
                assert(self.accounts@[c].key@ == key@);
            }
        }
        Err(LookupError::OracleNotFound)
    }

    /// The number of oracles in the map.
    pub fn len(&self) -> (r: usize)
        ensures
            self@.dom().finite(),
            r == self@.len(),
    {
        proof {
            use_type_invariant(self);
            keys(self.accounts@).unique_seq_to_set();
            assert(self@.dom() =~= keys(self.accounts@).to_set());
        }
        self.accounts.len()
    }

    /// The slot that the map was loaded for.
    #[verifier::when_used_as_spec(spec_slot)]
    pub fn slot(&self) -> (r: u64)
        ensures
            r == self.spec_slot(),
    {
        self.slot
    }

    /// The guard rails that the map was loaded with.
    #[verifier::when_used_as_spec(spec_guard_rails)]
    pub fn guard_rails(&self) -> (r: OracleGuardRails)
        ensures
            r == self.spec_guard_rails(),
    {
        self.guard_rails
    }
}

} // verus!
