//! Market accounts indexed by the market index that each one declares.
//!
//! A map is built for one call from the list of accounts that the caller
//! supplies, and borrows that list. Building it is all or nothing: one
//! buffer that is no sound record, or one index declared twice, and there
//! is no map. An index is never overwritten, so no account can take the
//! place of another.

use std::collections::BTreeMap;
use vstd::prelude::*;
use crate::account::{AccountLayout, AccountRef};
use crate::error::{LookupError, StructuralError};

verus! {

/// The market index that entry `i` of `accounts` declares.
pub open spec fn index_at(layout: AccountLayout, accounts: Seq<AccountRef>, i: int) -> u16 {
    layout.declared_index(accounts[i].data@)
}

/// Whether the buffer of entry `i` is a sound record.
pub open spec fn sound_at(layout: AccountLayout, accounts: Seq<AccountRef>, i: int) -> bool {
    layout.fault(accounts[i].data@) is None
}

/// Whether a sound entry before entry `i` declares the index of entry `i`.
pub open spec fn collides_before(layout: AccountLayout, accounts: Seq<AccountRef>, i: int) -> bool {
    exists|j: int|
        0 <= j < i && #[trigger] sound_at(layout, accounts, j) && index_at(layout, accounts, j)
            == index_at(layout, accounts, i)
}

/// What stops the load at entry `i`, if anything: an unsound buffer, or
/// else an index that an earlier entry has taken.
pub open spec fn fault_at(layout: AccountLayout, accounts: Seq<AccountRef>, i: int) -> Option<
    StructuralError,
> {
    match layout.fault(accounts[i].data@) {
        Some(e) => Some(e),
        None => if collides_before(layout, accounts, i) {
            Some(StructuralError::DuplicateKey)
        } else {
            None
        },
    }
}

/// Whether no entry of `accounts` stops the load.
pub open spec fn all_sound(layout: AccountLayout, accounts: Seq<AccountRef>) -> bool {
    forall|i: int| 0 <= i < accounts.len() ==> #[trigger] fault_at(layout, accounts, i) is None
}

/// Whether entry `i` is the first that stops the load.
pub open spec fn is_first_fault(layout: AccountLayout, accounts: Seq<AccountRef>, i: int) -> bool {
    &&& 0 <= i < accounts.len()
    &&& fault_at(layout, accounts, i) is Some
    &&& forall|j: int| 0 <= j < i ==> #[trigger] fault_at(layout, accounts, j) is None
}

/// The indices that the first `n` entries declare.
pub open spec fn indices_upto(layout: AccountLayout, accounts: Seq<AccountRef>, n: int) -> Set<
    u16,
> {
    Set::new(|k: u16| exists|i: int| 0 <= i < n && #[trigger] index_at(layout, accounts, i) == k)
}

/// The accounts by the index that each declares.
pub open spec fn index_of(layout: AccountLayout, accounts: Seq<AccountRef>) -> Map<
    u16,
    AccountRef,
> {
    Map::new(
        |k: u16| indices_upto(layout, accounts, accounts.len() as int).contains(k),
        |k: u16|
            accounts[choose|i: int|
                0 <= i < accounts.len() && #[trigger] index_at(layout, accounts, i) == k],
    )
}

/// What loading `accounts` gives: the accounts by index where no entry
/// stops the load, and else what stops it at the first entry that does.
pub open spec fn load_outcome(layout: AccountLayout, accounts: Seq<AccountRef>) -> Result<
    Map<u16, AccountRef>,
    StructuralError,
> {
    if all_sound(layout, accounts) {
        Ok(index_of(layout, accounts))
    } else {
        Err(fault_at(layout, accounts, choose|i: int| is_first_fault(layout, accounts, i))->0)
    }
}

/// At most one entry is the first to stop the load.
proof fn lemma_first_fault_unique(
    layout: AccountLayout,
    accounts: Seq<AccountRef>,
    i: int,
    j: int,
)
    requires
        is_first_fault(layout, accounts, i),
        is_first_fault(layout, accounts, j),
    ensures
        i == j,
{
    if i < j {
        assert(fault_at(layout, accounts, i) is None);
    } else if j < i {
        assert(fault_at(layout, accounts, j) is None);
    }
}

/// Where entry `i` is the first to stop the load, the load gives what
/// stops it there.
proof fn lemma_load_stops_at(layout: AccountLayout, accounts: Seq<AccountRef>, i: int)
    requires
        is_first_fault(layout, accounts, i),
    ensures
        load_outcome(layout, accounts) == Err::<Map<u16, AccountRef>, StructuralError>(
            fault_at(layout, accounts, i)->0,
        ),
{
    let c = choose|c: int| is_first_fault(layout, accounts, c);
    lemma_first_fault_unique(layout, accounts, i, c);
}

/// Where no two sound entries share an index, the first `n` entries
/// declare `n` indices.
proof fn lemma_indices_counted(layout: AccountLayout, accounts: Seq<AccountRef>, n: int)
    requires
        0 <= n <= accounts.len(),
        all_sound(layout, accounts),
    ensures
        indices_upto(layout, accounts, n).finite(),
        indices_upto(layout, accounts, n).len() == n,
    decreases n,
{
    if n == 0 {
        assert(indices_upto(layout, accounts, 0) =~= Set::<u16>::empty());
    } else {
        lemma_indices_counted(layout, accounts, n - 1);
        let before = indices_upto(layout, accounts, n - 1);
        let last = index_at(layout, accounts, n - 1);
        assert(fault_at(layout, accounts, n - 1) is None);
        if before.contains(last) {
            let j = choose|j: int| 0 <= j < n - 1 && #[trigger] index_at(layout, accounts, j) == last;
            assert(fault_at(layout, accounts, j) is None);
            assert(sound_at(layout, accounts, j));
            assert(collides_before(layout, accounts, n - 1));
        }
        assert(indices_upto(layout, accounts, n) =~= before.insert(last)) by {
            assert forall|k: u16| #[trigger]
                indices_upto(layout, accounts, n).contains(k) implies before.insert(last).contains(
                k,
            ) by {
                let i = choose|i: int| 0 <= i < n && #[trigger] index_at(layout, accounts, i) == k;
                if i < n - 1 {
                    assert(index_at(layout, accounts, i) == k);
                }
            }
            assert forall|k: u16| #[trigger]
                before.insert(last).contains(k) implies indices_upto(layout, accounts, n).contains(
                k,
            ) by {
                if k == last {
                    assert(index_at(layout, accounts, n - 1) == k);
                } else {
                    let i = choose|i: int|
                        0 <= i < n - 1 && #[trigger] index_at(layout, accounts, i) == k;
                    assert(index_at(layout, accounts, i) == k);
                }
            }
        }
    }
}

/// Where the load succeeds, each entry is found again under its index.
proof fn lemma_index_of_entry(layout: AccountLayout, accounts: Seq<AccountRef>, i: int)
    requires
        all_sound(layout, accounts),
        0 <= i < accounts.len(),
    ensures
        index_of(layout, accounts).contains_key(index_at(layout, accounts, i)),
        index_of(layout, accounts)[index_at(layout, accounts, i)] == accounts[i],
{
    let k = index_at(layout, accounts, i);
    assert(index_at(layout, accounts, i) == k);
    let c = choose|c: int| 0 <= c < accounts.len() && #[trigger] index_at(layout, accounts, c) == k;
    assert(fault_at(layout, accounts, i) is None);
    assert(fault_at(layout, accounts, c) is None);
    if c < i {
        assert(sound_at(layout, accounts, c));
        assert(collides_before(layout, accounts, i));
    } else if i < c {
        assert(sound_at(layout, accounts, i));
        assert(collides_before(layout, accounts, c));
    }
}

/// Every list of sound records with pairwise distinct indices loads, and
/// the map then holds exactly one entry for each account of the list,
/// under the index that the account declares.
pub proof fn lemma_unique_keys_load(layout: AccountLayout, accounts: Seq<AccountRef>)
    requires
        forall|i: int| 0 <= i < accounts.len() ==> #[trigger] sound_at(layout, accounts, i),
        forall|i: int, j: int|
            0 <= i < j < accounts.len() ==> #[trigger] index_at(layout, accounts, i)
                != #[trigger] index_at(layout, accounts, j),
    ensures
        load_outcome(layout, accounts) == Ok::<Map<u16, AccountRef>, StructuralError>(
            index_of(layout, accounts),
        ),
        index_of(layout, accounts).dom().finite(),
        index_of(layout, accounts).len() == accounts.len(),
        forall|i: int|
            0 <= i < accounts.len() ==> {
                &&& index_of(layout, accounts).contains_key(#[trigger] index_at(layout, accounts, i))
                &&& index_of(layout, accounts)[index_at(layout, accounts, i)] == accounts[i]
            },
{
    assert forall|i: int| 0 <= i < accounts.len() implies #[trigger] fault_at(
        layout,
        accounts,
        i,
    ) is None by {
        assert(sound_at(layout, accounts, i));
        if collides_before(layout, accounts, i) {
            let j = choose|j: int|
                0 <= j < i && #[trigger] sound_at(layout, accounts, j) && index_at(
                    layout,
                    accounts,
                    j,
                ) == index_at(layout, accounts, i);
            assert(index_at(layout, accounts, j) != index_at(layout, accounts, i));
        }
    }
    lemma_loaded_map(layout, accounts);
}

/// Whenever a list loads, the map holds exactly one entry for each account
/// of the list, under the index that the account declares.
pub proof fn lemma_loaded_map(layout: AccountLayout, accounts: Seq<AccountRef>)
    requires
        all_sound(layout, accounts),
    ensures
        index_of(layout, accounts).dom().finite(),
        index_of(layout, accounts).len() == accounts.len(),
        forall|i: int|
            0 <= i < accounts.len() ==> {
                &&& index_of(layout, accounts).contains_key(#[trigger] index_at(layout, accounts, i))
                &&& index_of(layout, accounts)[index_at(layout, accounts, i)] == accounts[i]
            },
{
    lemma_indices_counted(layout, accounts, accounts.len() as int);
    assert(index_of(layout, accounts).dom() =~= indices_upto(
        layout,
        accounts,
        accounts.len() as int,
    ));
    assert forall|i: int| 0 <= i < accounts.len() implies {
        &&& index_of(layout, accounts).contains_key(#[trigger] index_at(layout, accounts, i))
        &&& index_of(layout, accounts)[index_at(layout, accounts, i)] == accounts[i]
    } by {
        lemma_index_of_entry(layout, accounts, i);
    }
}

/// Every list in which two entries declare the same index fails to load:
/// the outcome is a structural failure, and no map.
pub proof fn lemma_duplicate_key_fails(
    layout: AccountLayout,
    accounts: Seq<AccountRef>,
    i: int,
    j: int,
)
    requires
        0 <= i < j < accounts.len(),
        index_at(layout, accounts, i) == index_at(layout, accounts, j),
    ensures
        load_outcome(layout, accounts) is Err,
{
    if all_sound(layout, accounts) {
        assert(fault_at(layout, accounts, i) is None);
        assert(fault_at(layout, accounts, j) is None);
        assert(sound_at(layout, accounts, i));
        assert(collides_before(layout, accounts, j));
    }
}

/// Market accounts by market index, borrowed from the list they were
/// loaded from.
#[derive(Debug)]
pub struct MarketMap<'a> {
    accounts: &'a Vec<AccountRef>,
    positions: BTreeMap<u16, usize>,
}

impl<'a> View for MarketMap<'a> {
    type V = Map<u16, AccountRef>;

    /// The account under each index.
    closed spec fn view(&self) -> Map<u16, AccountRef> {
        Map::new(
            |k: u16| self.positions@.contains_key(k),
            |k: u16| self.accounts@[self.positions@[k] as int],
        )
    }
}

impl<'a> MarketMap<'a> {
    #[verifier::type_invariant]
    spec fn positions_in_range(self) -> bool {
        forall|k: u16| #[trigger]
            self.positions@.contains_key(k) ==> self.positions@[k] < self.accounts@.len()
    }

    /// Builds the map of `accounts`, read as records of `layout`, in the
    /// order of the list. The load fails at the first entry whose buffer is
    /// no sound record or whose index an earlier entry has declared, with
    /// what is wrong there; else the map holds every account under its
    /// index.
    pub fn load(layout: &AccountLayout, accounts: &'a Vec<AccountRef>) -> (r: Result<
        MarketMap<'a>,
        StructuralError,
    >)
        ensures
            match r {
                Ok(m) => {
                    &&& load_outcome(*layout, accounts@) == Ok::<
                        Map<u16, AccountRef>,
                        StructuralError,
                    >(m@)
                    &&& m@.dom().finite()
                    &&& m@.len() == accounts@.len()
                    &&& forall|i: int|
                        0 <= i < accounts@.len() ==> {
                            &&& m@.contains_key(#[trigger] index_at(*layout, accounts@, i))
                            &&& m@[index_at(*layout, accounts@, i)] == accounts@[i]
                        }
                },
                Err(e) => load_outcome(*layout, accounts@) == Err::<
                    Map<u16, AccountRef>,
                    StructuralError,
                >(e),
            },
    {
        let mut positions: BTreeMap<u16, usize> = BTreeMap::new();
        let mut i: usize = 0;
        while i < accounts.len()
            invariant
                i <= accounts.len(),
                forall|j: int| 0 <= j < i ==> #[trigger] fault_at(*layout, accounts@, j) is None,
                forall|k: u16| #[trigger]
                    positions@.contains_key(k) <==> indices_upto(*layout, accounts@, i as int).contains(
                        k,
                    ),
                forall|j: int|
                    0 <= j < i ==> positions@[#[trigger] index_at(*layout, accounts@, j)] == j,
            decreases accounts.len() - i,
        {
            let market_index: u16 = match layout.reconstruct(&accounts[i]) {
                Ok(view) => view.market_index,
                Err(e) => {
                    proof {
                        assert(is_first_fault(*layout, accounts@, i as int));
                        lemma_load_stops_at(*layout, accounts@, i as int);
                    }
                    return Err(e);
                },
            };
            assert(market_index == index_at(*layout, accounts@, i as int));
            if positions.contains_key(&market_index) {
                proof {
                    let j = choose|j: int|
                        0 <= j < i && #[trigger] index_at(*layout, accounts@, j) == market_index;
                    assert(fault_at(*layout, accounts@, j) is None);
                    assert(sound_at(*layout, accounts@, j));
                    assert(collides_before(*layout, accounts@, i as int));
                    assert(is_first_fault(*layout, accounts@, i as int));
                    lemma_load_stops_at(*layout, accounts@, i as int);
                }
                return Err(StructuralError::DuplicateKey);
            }
            proof {
                if collides_before(*layout, accounts@, i as int) {
                    let j = choose|j: int|
                        0 <= j < i && #[trigger] sound_at(*layout, accounts@, j) && index_at(
                            *layout,
                            accounts@,
                            j,
                        ) == index_at(*layout, accounts@, i as int);
                    assert(index_at(*layout, accounts@, j) == market_index);
                    assert(indices_upto(*layout, accounts@, i as int).contains(market_index));
                }
                assert(fault_at(*layout, accounts@, i as int) is None);
            }
            let ghost before = positions@;
            positions.insert(market_index, i);
            proof {
                assert forall|k: u16| #[trigger]
                    positions@.contains_key(k) <==> indices_upto(
                        *layout,
                        accounts@,
                        i + 1,
                    ).contains(k) by {
                    if positions@.contains_key(k) {
                        if k == market_index {
                            assert(index_at(*layout, accounts@, i as int) == k);
                        } else {
                            assert(before.contains_key(k));
                            let j = choose|j: int|
                                0 <= j < i && #[trigger] index_at(*layout, accounts@, j) == k;
                            assert(index_at(*layout, accounts@, j) == k);
                        }
                    }
                    if indices_upto(*layout, accounts@, i + 1).contains(k) {
                        let j = choose|j: int|
                            0 <= j < i + 1 && #[trigger] index_at(*layout, accounts@, j) == k;
                        if j < i {
                            assert(indices_upto(*layout, accounts@, i as int).contains(k));
                        }
                    }
                }
                assert forall|j: int| 0 <= j < i + 1 implies positions@[#[trigger] index_at(
                    *layout,
                    accounts@,
                    j,
                )] == j by {
                    if j < i {
                        assert(indices_upto(*layout, accounts@, i as int).contains(
                            index_at(*layout, accounts@, j),
                        ));
                    }
                }
            }
            i += 1;
        }
        let map = MarketMap { accounts, positions };
        proof {
            assert(all_sound(*layout, accounts@));
            lemma_loaded_map(*layout, accounts@);
            assert(map@ =~= index_of(*layout, accounts@)) by {
                assert forall|k: u16| #[trigger] map@.contains_key(k) implies map@[k] == index_of(
                    *layout,
                    accounts@,
                )[k] by {
                    let j = choose|j: int|
                        0 <= j < accounts@.len() && #[trigger] index_at(*layout, accounts@, j)
                            == k;
                    lemma_index_of_entry(*layout, accounts@, j);
                }
            }
        }
        Ok(map)
    }

    /// The account of the market with index `market_index`. A market that
    /// is not in the map is a lookup failure; nothing stands in for it.
    pub fn get(&self, market_index: u16) -> (r: Result<&'a AccountRef, LookupError>)
        ensures
            match r {
                Ok(account) => self@.contains_key(market_index) && *account == self@[market_index],
                Err(e) => !self@.contains_key(market_index) && e == LookupError::MarketNotFound,
            },
    {
        proof {
            use_type_invariant(self);
        }
        match self.positions.get(&market_index) {
            Some(position) => Ok(&self.accounts[*position]),
            None => Err(LookupError::MarketNotFound),
        }
    }

    /// The number of markets in the map.
    pub fn len(&self) -> (r: usize)
        ensures
            self@.dom().finite(),
            r == self@.len(),
    {
        proof {
            assert(self@.dom() =~= self.positions@.dom());
        }
        self.positions.len()
    }
}

} // verus!
