//! The router: the registry of pair contracts, one per unordered token pair.
//! Deploying and upgrading pair contracts, token issuance and its callbacks
//! are ledger work at the transaction edge; the registry logic and its
//! validations live here.

use vstd::prelude::*;
use crate::errors::DexError;

verus! {

/// The remote interface of a pair contract, as the router drives it: fee
/// configuration and the identity of the pair's liquidity-pool token. The
/// calls go over the ledger; no contract in this crate implements it.
pub trait PairContract {
    fn set_fee_on_endpoint(&mut self, enabled: bool, fee_to_address: u64, fee_token: u64);

    fn set_lp_token_identifier_endpoint(&mut self, token_identifier: u64);

    fn get_lp_token_identifier_endpoint(&self) -> u64;
}

/// One registered pair: the two tokens and the pair contract's address.
#[derive(Clone, Copy, Debug, PartialEq, Eq, Structural)]
pub struct PairEntry {
    pub first_token_id: u64,
    pub second_token_id: u64,
    pub address: u64,
}

/// The router's state: who owns it, the staking configuration, and the
/// registered pairs keyed by ordered token pair.
#[derive(Debug)]
pub struct RouterState {
    pub owner: u64,
    pub staking_address: u64,
    pub staking_token: u64,
    pub pair_map: Vec<PairEntry>,
}

impl RouterState {
    /// Each ordered token pair maps to at most one pair contract, and a
    /// registered pair contract has a proper (non-zero) address.
    pub open spec fn router_wf(self) -> bool {
        &&& forall|i: int, j: int|
            0 <= i < j < self.pair_map@.len() ==> ((#[trigger] self.pair_map@[
            i]).first_token_id, self.pair_map@[i].second_token_id) != ((#[trigger] self.pair_map@[
            j]).first_token_id, self.pair_map@[j].second_token_id)
        &&& forall|i: int| 0 <= i < self.pair_map@.len() ==> (#[trigger] self.pair_map@[i]).address
            != 0
    }

    /// The registered address for an ordered token pair (zero when none).
    pub open spec fn pair_lookup(self, token_a: u64, token_b: u64) -> int {
        if exists|i: int|
            0 <= i < self.pair_map@.len() && (#[trigger] self.pair_map@[i]).first_token_id
                == token_a && self.pair_map@[i].second_token_id == token_b {
            let i = choose|i: int|
                0 <= i < self.pair_map@.len() && (#[trigger] self.pair_map@[i]).first_token_id
                    == token_a && self.pair_map@[i].second_token_id == token_b;
            self.pair_map@[i].address as int
        } else {
            0
        }
    }

    proof fn lemma_pair_lookup(self, token_a: u64, token_b: u64, i: int)
        requires
            self.router_wf(),
            0 <= i < self.pair_map@.len(),
            self.pair_map@[i].first_token_id == token_a,
            self.pair_map@[i].second_token_id == token_b,
        ensures
            self.pair_lookup(token_a, token_b) == self.pair_map@[i].address,
    {
        let j = choose|j: int|
            0 <= j < self.pair_map@.len() && (#[trigger] self.pair_map@[j]).first_token_id
                == token_a && self.pair_map@[j].second_token_id == token_b;
        if i != j {
            assert(((self.pair_map@[i]).first_token_id, self.pair_map@[i].second_token_id) != ((
            self.pair_map@[j]).first_token_id, self.pair_map@[j].second_token_id));
        }
    }

    fn lookup_pair(&self, token_a: u64, token_b: u64) -> (r: u64)
        requires
            self.router_wf(),
        ensures
            r == self.pair_lookup(token_a, token_b),
    {
        let mut i: usize = 0;
        while i < self.pair_map.len()
            invariant
                self.router_wf(),
                i <= self.pair_map@.len(),
                forall|k: int|
                    0 <= k < i ==> ((#[trigger] self.pair_map@[k]).first_token_id,
                    self.pair_map@[k].second_token_id) != (token_a, token_b),
            decreases self.pair_map@.len() - i,
        {
            let entry = self.pair_map[i];
            if entry.first_token_id == token_a && entry.second_token_id == token_b {
                proof {
                    self.lemma_pair_lookup(token_a, token_b, i as int);
                }
                return entry.address;
            }
            i = i + 1;
        }
        proof {
            if exists|k: int|
                0 <= k < self.pair_map@.len() && (#[trigger] self.pair_map@[k]).first_token_id
                    == token_a && self.pair_map@[k].second_token_id == token_b {
                let k = choose|k: int|
                    0 <= k < self.pair_map@.len() && (#[trigger] self.pair_map@[k]).first_token_id
                        == token_a && self.pair_map@[k].second_token_id == token_b;
                assert(false);
            }
        }
        0
    }
}

/// The router's contract surface.
pub trait Router: Sized {
    /// Each ordered token pair maps to at most one pair contract, each with
    /// a proper address.
    spec fn wf(self) -> bool;

    /// The registered address for an ordered token pair (zero when none).
    spec fn pair_for(self, token_a: u64, token_b: u64) -> int;

    /// The owner of the router.
    spec fn owner_spec(self) -> u64;

    /// The registered pairs, in registration order.
    spec fn pairs_spec(self) -> Seq<PairEntry>;

    /// Where trading fees are staked.
    spec fn staking_info_spec(self) -> (u64, u64);

    /// Looks a pair up, trying both token orders.
    fn get_pair(&self, token_a: u64, token_b: u64) -> (r: u64)
        requires
            self.wf(),
        ensures
            self.pair_for(token_a, token_b) != 0 ==> r == self.pair_for(token_a, token_b),
            self.pair_for(token_a, token_b) == 0 ==> r == self.pair_for(token_b, token_a),
    ;

    /// Registers a new pair: the tokens must be distinct standard tokens and
    /// the pair (in either order) not registered yet. The pair contract
    /// itself is deployed at the edge and handed in as `new_pair_address`.
    fn create_pair(&mut self, token_a: u64, token_b: u64, new_pair_address: u64) -> (r: Result<
        u64,
        DexError,
    >)
        requires
            old(self).wf(),
            new_pair_address != 0,
        ensures
            final(self).wf(),
            token_a == token_b ==> r == Err::<u64, DexError>(DexError::IdenticalTokens)
                && *final(self) == *old(self),
            token_a != token_b && (token_a == 0 || token_b == 0) ==> r == Err::<u64, DexError>(
                DexError::OnlyEsdtTokens,
            ) && *final(self) == *old(self),
            token_a != token_b && token_a != 0 && token_b != 0 && (old(self).pair_for(
                token_a,
                token_b,
            ) != 0 || old(self).pair_for(token_b, token_a) != 0) ==> r == Err::<u64, DexError>(
                DexError::PairAlreadyExists,
            ) && *final(self) == *old(self),
            token_a != token_b && token_a != 0 && token_b != 0 && old(self).pair_for(
                token_a,
                token_b,
            ) == 0 && old(self).pair_for(token_b, token_a) == 0 ==> r == Ok::<u64, DexError>(
                new_pair_address,
            ) && final(self).pair_for(token_a, token_b) == new_pair_address,
    ;

    /// All registered pair addresses.
    fn get_all_pairs(&self) -> (r: Vec<u64>)
        ensures
            r@.len() == self.pairs_spec().len(),
            forall|i: int|
                0 <= i < r@.len() ==> r@[i] == (#[trigger] self.pairs_spec()[i]).address,
    ;

    /// Records where trading fees are staked; owner only.
    fn set_staking_info(&mut self, caller: u64, staking_address: u64, staking_token: u64) -> (
        r: Result<(), DexError>)
        ensures
            caller != old(self).owner_spec() ==> r == Err::<(), DexError>(
                DexError::PermissionDenied,
            ) && *final(self) == *old(self),
            caller == old(self).owner_spec() ==> r == Ok::<(), DexError>(()) && final(self).staking_info_spec() == (staking_address, staking_token) && final(self).pairs_spec()
                == old(self).pairs_spec() && final(self).owner_spec() == old(self).owner_spec()
                && final(self).wf() == old(self).wf(),
    ;

    /// Whether an address is one of this router's pair contracts.
    fn check_is_pair_sc(&self, pair_address: u64) -> (r: Result<(), DexError>)
        ensures
            (exists|i: int|
                0 <= i < self.pairs_spec().len() && (#[trigger] self.pairs_spec()[i]).address
                    == pair_address) ==> r == Ok::<(), DexError>(()),
            !(exists|i: int|
                0 <= i < self.pairs_spec().len() && (#[trigger] self.pairs_spec()[i]).address
                    == pair_address) ==> r == Err::<(), DexError>(DexError::NotAPairContract),
    ;
}

impl Router for RouterState {
    open spec fn wf(self) -> bool {
        self.router_wf()
    }

    open spec fn pair_for(self, token_a: u64, token_b: u64) -> int {
        self.pair_lookup(token_a, token_b)
    }

    open spec fn owner_spec(self) -> u64 {
        self.owner
    }

    open spec fn pairs_spec(self) -> Seq<PairEntry> {
        self.pair_map@
    }

    open spec fn staking_info_spec(self) -> (u64, u64) {
        (self.staking_address, self.staking_token)
    }

    fn get_pair(&self, token_a: u64, token_b: u64) -> (r: u64)
    {
        let first = self.lookup_pair(token_a, token_b);
        if first == 0 {
            self.lookup_pair(token_b, token_a)
        } else {
            first
        }
    }

    fn create_pair(&mut self, token_a: u64, token_b: u64, new_pair_address: u64) -> (r: Result<
        u64,
        DexError,
    >)
    {
        if token_a == token_b {
            return Err(DexError::IdenticalTokens);
        }
        if token_a == 0 || token_b == 0 {
            return Err(DexError::OnlyEsdtTokens);
        }
        let existing = self.get_pair(token_a, token_b);
        if existing != 0 {
            return Err(DexError::PairAlreadyExists);
        }
        let entry = PairEntry {
            first_token_id: token_a,
            second_token_id: token_b,
            address: new_pair_address,
        };
        proof {
            // Neither order is registered, so the new ordered key is fresh.
            if exists|k: int|
                0 <= k < self.pair_map@.len() && (#[trigger] self.pair_map@[k]).first_token_id
                    == token_a && self.pair_map@[k].second_token_id == token_b {
                let k = choose|k: int|
                    0 <= k < self.pair_map@.len() && (#[trigger] self.pair_map@[k]).first_token_id
                        == token_a && self.pair_map@[k].second_token_id == token_b;
                self.lemma_pair_lookup(token_a, token_b, k);
                assert(self.pair_map@[k].address != 0);
                assert(false);
            }
        }
        self.pair_map.push(entry);
        proof {
            assert(forall|k: int|
                0 <= k < self.pair_map@.len() - 1 ==> self.pair_map@[k] == old(
                    self,
                ).pair_map@[k]);
            assert(self.wf()) by {
                assert forall|i: int, j: int|
                    0 <= i < j < self.pair_map@.len() implies ((#[trigger] self.pair_map@[
                i]).first_token_id, self.pair_map@[i].second_token_id) != ((
                #[trigger] self.pair_map@[j]).first_token_id,
                self.pair_map@[j].second_token_id) by {
                    if j == self.pair_map@.len() - 1 {
                        if self.pair_map@[i].first_token_id == token_a && self.pair_map@[
                        i].second_token_id == token_b {
                            old(self).lemma_pair_lookup(token_a, token_b, i);
                        }
                    }
                }
            }
            self.lemma_pair_lookup(token_a, token_b, self.pair_map@.len() - 1);
        }
        Ok(new_pair_address)
    }

    fn get_all_pairs(&self) -> (r: Vec<u64>)
    {
        let mut addresses: Vec<u64> = Vec::new();
        let mut i: usize = 0;
        while i < self.pair_map.len()
            invariant
                i <= self.pair_map@.len(),
                addresses@.len() == i,
                forall|k: int|
                    0 <= k < i ==> addresses@[k] == (#[trigger] self.pair_map@[k]).address,
            decreases self.pair_map@.len() - i,
        {
            addresses.push(self.pair_map[i].address);
            i = i + 1;
        }
        addresses
    }

    fn set_staking_info(&mut self, caller: u64, staking_address: u64, staking_token: u64) -> (
        r: Result<(), DexError>)
    {
        if caller != self.owner {
            return Err(DexError::PermissionDenied);
        }
        self.staking_address = staking_address;
        self.staking_token = staking_token;
        Ok(())
    }

    fn check_is_pair_sc(&self, pair_address: u64) -> (r: Result<(), DexError>)
    {
        let mut i: usize = 0;
        while i < self.pair_map.len()
            invariant
                i <= self.pair_map@.len(),
                forall|k: int|
                    0 <= k < i ==> (#[trigger] self.pair_map@[k]).address != pair_address,
            decreases self.pair_map@.len() - i,
        {
            if self.pair_map[i].address == pair_address {
                proof {
                    assert(self.pairs_spec()[i as int].address == pair_address);
                }
                return Ok(());
            }
            i = i + 1;
        }
        Err(DexError::NotAPairContract)
    }
}

} // verus!
