//! Shared state of the dex proxy: the set of accepted locked-asset tokens
//! and the funds recorded as received within the current transaction, which
//! every distribution step must account for exactly.

use vstd::prelude::*;
use crate::errors::DexError;

verus! {

pub const MAX_FUNDS_EXTRIES: usize = 10;

/// Funds of one kind: a token, its nonce, and the recorded amount.
#[derive(Clone, Copy, Debug, PartialEq, Eq, Structural)]
pub struct FundsEntry {
    pub token_id: u64,
    pub token_nonce: u64,
    pub amount: u64,
}

/// The proxy's shared state.
#[derive(Debug)]
pub struct ProxyCommonState {
    pub owner: u64,
    pub asset_token_id: u64,
    pub accepted_locked_assets: Vec<u64>,
    pub current_tx_accepted_funds: Vec<FundsEntry>,
}

/// The slot holding a (token, nonce) key, when one does.
pub open spec fn find_fund(funds: Seq<FundsEntry>, token_id: u64, token_nonce: u64) -> Option<
    int,
> {
    if exists|i: int|
        0 <= i < funds.len() && (#[trigger] funds[i]).token_id == token_id
            && funds[i].token_nonce == token_nonce {
        Some(
            choose|i: int|
                0 <= i < funds.len() && (#[trigger] funds[i]).token_id == token_id
                    && funds[i].token_nonce == token_nonce,
        )
    } else {
        None
    }
}

/// Keys are unique within the recorded funds.
pub open spec fn funds_wf(funds: Seq<FundsEntry>) -> bool {
    forall|i: int, j: int|
        0 <= i < j < funds.len() ==> ((#[trigger] funds[i]).token_id, funds[i].token_nonce) != ((
        #[trigger] funds[j]).token_id, funds[j].token_nonce)
}

/// With unique keys, any matching slot is the lookup's result.
pub proof fn lemma_fund_lookup(funds: Seq<FundsEntry>, token_id: u64, token_nonce: u64, i: int)
    requires
        funds_wf(funds),
        0 <= i < funds.len(),
        funds[i].token_id == token_id,
        funds[i].token_nonce == token_nonce,
    ensures
        find_fund(funds, token_id, token_nonce) == Some(i),
{
    let j = choose|j: int|
        0 <= j < funds.len() && (#[trigger] funds[j]).token_id == token_id
            && funds[j].token_nonce == token_nonce;
    if i != j {
        assert(((funds[i]).token_id, funds[i].token_nonce) != ((funds[j]).token_id,
        funds[j].token_nonce));
    }
}

/// What validating one received-funds triple decides: nothing to check for a
/// zero amount, otherwise the recorded amount must cover it.
pub open spec fn validate_one_spec(
    funds: Seq<FundsEntry>,
    token_id: u64,
    token_nonce: u64,
    amount: u64,
) -> Result<(), DexError> {
    if amount == 0 {
        Ok(())
    } else {
        match find_fund(funds, token_id, token_nonce) {
            None => Err(DexError::NoFundsOfThisType),
            Some(i) => if funds[i].amount >= amount {
                Ok(())
            } else {
                Err(DexError::NotEnoughFunds)
            },
        }
    }
}

/// What validating a whole chunk does to the recorded funds: each triple is
/// deducted exactly (a fully consumed entry disappears), and at the end
/// nothing may be left unaccounted for.
pub open spec fn validate_chunk_spec(funds: Seq<FundsEntry>, received: Seq<FundsEntry>) -> Result<
    Seq<FundsEntry>,
    DexError,
>
    decreases received.len(),
{
    if received.len() == 0 {
        if funds.len() == 0 {
            Ok(funds)
        } else {
            Err(DexError::MoreFundsReceived)
        }
    } else {
        let r0 = received[0];
        if r0.amount == 0 {
            validate_chunk_spec(funds, received.skip(1))
        } else {
            match find_fund(funds, r0.token_id, r0.token_nonce) {
                None => Err(DexError::NoFundsOfThisType),
                Some(i) => if funds[i].amount < r0.amount {
                    Err(DexError::NotEnoughFunds)
                } else if funds[i].amount == r0.amount {
                    validate_chunk_spec(funds.remove(i), received.skip(1))
                } else {
                    validate_chunk_spec(
                        funds.update(
                            i,
                            FundsEntry {
                                amount: (funds[i].amount - r0.amount) as u64,
                                ..funds[i]
                            },
                        ),
                        received.skip(1),
                    )
                },
            }
        }
    }
}

/// Removing a slot keeps the remaining keys unique.
pub proof fn lemma_funds_wf_remove(funds: Seq<FundsEntry>, i: int)
    requires
        funds_wf(funds),
        0 <= i < funds.len(),
    ensures
        funds_wf(funds.remove(i)),
{
    let removed = funds.remove(i);
    assert forall|a: int, b: int|
        0 <= a < b < removed.len() implies ((#[trigger] removed[a]).token_id,
    removed[a].token_nonce) != ((#[trigger] removed[b]).token_id, removed[b].token_nonce) by {
        let a0 = if a < i {
            a
        } else {
            a + 1
        };
        let b0 = if b < i {
            b
        } else {
            b + 1
        };
        assert(removed[a] == funds[a0] && removed[b] == funds[b0]);
        assert(((funds[a0]).token_id, funds[a0].token_nonce) != ((funds[b0]).token_id,
        funds[b0].token_nonce));
    }
}

/// Updating a slot's amount keeps the keys unique.
pub proof fn lemma_funds_wf_update(funds: Seq<FundsEntry>, i: int, entry: FundsEntry)
    requires
        funds_wf(funds),
        0 <= i < funds.len(),
        entry.token_id == funds[i].token_id,
        entry.token_nonce == funds[i].token_nonce,
    ensures
        funds_wf(funds.update(i, entry)),
{
}

impl ProxyCommonState {    fn find_fund_index(&self, token_id: u64, token_nonce: u64) -> (r: Option<usize>)
        requires
            self.wf(),
        ensures
            match r {
                Some(i) => find_fund(self.current_tx_accepted_funds@, token_id, token_nonce)
                    == Some(i as int) && i < self.current_tx_accepted_funds@.len(),
                None => find_fund(self.current_tx_accepted_funds@, token_id, token_nonce)
                    is None,
            },
    {
        let mut i: usize = 0;
        while i < self.current_tx_accepted_funds.len()
            invariant
                self.wf(),
                i <= self.current_tx_accepted_funds@.len(),
                forall|k: int|
                    0 <= k < i ==> ((#[trigger] self.current_tx_accepted_funds@[k]).token_id,
                    self.current_tx_accepted_funds@[k].token_nonce) != (token_id, token_nonce),
            decreases self.current_tx_accepted_funds@.len() - i,
        {
            let entry = self.current_tx_accepted_funds[i];
            if entry.token_id == token_id && entry.token_nonce == token_nonce {
                proof {
                    lemma_fund_lookup(
                        self.current_tx_accepted_funds@,
                        token_id,
                        token_nonce,
                        i as int,
                    );
                }
                return Some(i);
            }
            i = i + 1;
        }
        proof {
            if exists|k: int|
                0 <= k < self.current_tx_accepted_funds@.len() && (
                #[trigger] self.current_tx_accepted_funds@[k]).token_id == token_id
                    && self.current_tx_accepted_funds@[k].token_nonce == token_nonce {
                let k = choose|k: int|
                    0 <= k < self.current_tx_accepted_funds@.len() && (
                    #[trigger] self.current_tx_accepted_funds@[k]).token_id == token_id
                        && self.current_tx_accepted_funds@[k].token_nonce == token_nonce;
                assert(false);
            }
        }
        None
    }
}

/// The proxy's contract surface.
pub trait ProxyCommonModule: Sized {
    /// The owner of the proxy.
    spec fn owner_spec(self) -> u64;

    /// The distributed asset's token.
    spec fn asset_token_id_spec(self) -> u64;

    /// The accepted locked-asset token kinds.
    spec fn assets_spec(self) -> Seq<u64>;

    /// The funds recorded for the current transaction.
    spec fn funds_spec(self) -> Seq<FundsEntry>;

    /// Keys are unique in both records.
    spec fn wf(self) -> bool;

    /// Whether a token kind is an accepted locked asset.
    spec fn contains_asset(self, token_id: u64) -> bool;

    /// Only the owner may manage the accepted assets.
    fn require_permissions(&self, caller: u64) -> (r: Result<(), DexError>)
        ensures
            caller != self.owner_spec() ==> r == Err::<(), DexError>(DexError::PermissionDenied),
            caller == self.owner_spec() ==> r == Ok::<(), DexError>(()),
    ;

    /// Accepts a locked-asset token kind; owner only.
    fn add_accepted_locked_asset_token_id(&mut self, caller: u64, token_id: u64) -> (r: Result<
        (),
        DexError,
    >)
        requires
            old(self).wf(),
        ensures
            final(self).wf(),
            caller != old(self).owner_spec() ==> r == Err::<(), DexError>(DexError::PermissionDenied)
                && *final(self) == *old(self),
            caller == old(self).owner_spec() ==> r == Ok::<(), DexError>(()) && final(self).contains_asset(token_id) && (forall|t: u64|
                t != token_id ==> final(self).contains_asset(t) == old(self).contains_asset(t))
                && final(self).funds_spec() == old(self).funds_spec() && final(self).owner_spec() == old(self).owner_spec(),
    ;

    /// Drops an accepted locked-asset token kind; owner only, and the token
    /// must currently be accepted.
    fn remove_accepted_locked_asset_token_id(&mut self, caller: u64, token_id: u64) -> (r:
        Result<(), DexError>)
        requires
            old(self).wf(),
        ensures
            final(self).wf(),
            caller != old(self).owner_spec() ==> r == Err::<(), DexError>(DexError::PermissionDenied)
                && *final(self) == *old(self),
            caller == old(self).owner_spec() && !old(self).contains_asset(token_id) ==> r == Err::<
                (),
                DexError,
            >(DexError::NotAcceptedLockedAsset) && *final(self) == *old(self),
            caller == old(self).owner_spec() && old(self).contains_asset(token_id) ==> r == Ok::<
                (),
                DexError,
            >(()) && !final(self).contains_asset(token_id) && (forall|t: u64|
                t != token_id ==> final(self).contains_asset(t) == old(self).contains_asset(t))
                && final(self).funds_spec() == old(self).funds_spec() && final(self).owner_spec() == old(self).owner_spec(),
    ;

    /// The token must be an accepted locked asset.
    fn require_is_accepted_locked_asset(&self, token_id: u64) -> (r: Result<(), DexError>)
        ensures
            self.contains_asset(token_id) ==> r == Ok::<(), DexError>(()),
            !self.contains_asset(token_id) ==> r == Err::<(), DexError>(
                DexError::NotAcceptedLockedAsset,
            ),
    ;

    /// Drops everything recorded for the current transaction.
    fn reset_received_funds_on_current_tx(&mut self)
        ensures
            final(self).funds_spec().len() == 0,
            final(self).owner_spec() == old(self).owner_spec(),
            final(self).asset_token_id_spec() == old(self).asset_token_id_spec(),
            final(self).assets_spec() == old(self).assets_spec(),
    ;

    /// The recorded funds must hold exactly `desired_size` kinds.
    fn validate_received_funds_on_current_tx_size(&self, desired_size: usize) -> (r: Result<
        (),
        DexError,
    >)
        ensures
            self.funds_spec().len() == desired_size ==> r == Ok::<(), DexError>(()),
            self.funds_spec().len() != desired_size ==> r == Err::<(), DexError>(
                DexError::BadReceivedFundsSize,
            ),
    ;

    /// Records a payment received within the current transaction; a stale
    /// overfull record from an earlier transaction is dropped first.
    #[allow(non_snake_case)]
    fn acceptPay(&mut self, token_id: u64, token_nonce: u64, amount: u64)
        requires
            old(self).wf(),
            old(self).funds_spec().len() <= MAX_FUNDS_EXTRIES ==> (match find_fund(
                old(self).funds_spec(),
                token_id,
                token_nonce,
            ) {
                Some(i) => old(self).funds_spec()[i].amount + amount
                    <= u64::MAX,
                None => true,
            }),
        ensures
            final(self).wf(),
            final(self).owner_spec() == old(self).owner_spec(),
            final(self).asset_token_id_spec() == old(self).asset_token_id_spec(),
            final(self).assets_spec() == old(self).assets_spec(),
            ({
                let base: Seq<FundsEntry> = if old(self).funds_spec().len()
                    > MAX_FUNDS_EXTRIES {
                    Seq::empty()
                } else {
                    old(self).funds_spec()
                };
                match find_fund(base, token_id, token_nonce) {
                    Some(i) => final(self).funds_spec() == base.update(
                        i,
                        FundsEntry {
                            token_id,
                            token_nonce,
                            amount: (base[i].amount + amount) as u64,
                        },
                    ),
                    None => final(self).funds_spec() == base.push(
                        FundsEntry { token_id, token_nonce, amount },
                    ),
                }
            }),
    ;

    /// The recorded funds must cover one received triple.
    fn validate_received_funds_on_current_tx(
        &self,
        token_id: u64,
        token_nonce: u64,
        amount: u64,
    ) -> (r: Result<(), DexError>)
        requires
            self.wf(),
        ensures
            r == validate_one_spec(
                self.funds_spec(),
                token_id,
                token_nonce,
                amount,
            ),
    ;

    /// Validates a whole chunk of received funds against the record: every
    /// triple is deducted exactly and nothing may remain unaccounted for.
    /// On failure the record is left as the scan got; the surrounding
    /// transaction aborts anyway.
    fn validate_received_funds_chunk(&mut self, received: &Vec<FundsEntry>) -> (r: Result<
        (),
        DexError,
    >)
        requires
            old(self).wf(),
        ensures
            final(self).wf(),
            final(self).owner_spec() == old(self).owner_spec(),
            final(self).asset_token_id_spec() == old(self).asset_token_id_spec(),
            final(self).assets_spec() == old(self).assets_spec(),
            ({
                match validate_chunk_spec(old(self).funds_spec(), received@) {
                    Ok(remaining) => r == Ok::<(), DexError>(()) && final(self).funds_spec() == remaining,
                    Err(e) => r == Err::<(), DexError>(e),
                }
            }),
    ;
}

impl ProxyCommonModule for ProxyCommonState {
    open spec fn owner_spec(self) -> u64 {
        self.owner
    }

    open spec fn asset_token_id_spec(self) -> u64 {
        self.asset_token_id
    }

    open spec fn assets_spec(self) -> Seq<u64> {
        self.accepted_locked_assets@
    }

    open spec fn funds_spec(self) -> Seq<FundsEntry> {
        self.current_tx_accepted_funds@
    }


    open spec fn wf(self) -> bool {
        &&& funds_wf(self.current_tx_accepted_funds@)
        &&& forall|i: int, j: int|
            0 <= i < j < self.accepted_locked_assets@.len()
                ==> (#[trigger] self.accepted_locked_assets@[i])
                != (#[trigger] self.accepted_locked_assets@[j])
    }

    open spec fn contains_asset(self, token_id: u64) -> bool {
        exists|i: int|
            0 <= i < self.accepted_locked_assets@.len()
                && (#[trigger] self.accepted_locked_assets@[i]) == token_id
    }

    fn require_permissions(&self, caller: u64) -> (r: Result<(), DexError>)
    {
        if caller != self.owner {
            return Err(DexError::PermissionDenied);
        }
        Ok(())
    }

    fn add_accepted_locked_asset_token_id(&mut self, caller: u64, token_id: u64) -> (r: Result<
        (),
        DexError,
    >)
    {
        if caller != self.owner {
            return Err(DexError::PermissionDenied);
        }
        let mut i: usize = 0;
        while i < self.accepted_locked_assets.len()
            invariant
                self.wf(),
                i <= self.accepted_locked_assets@.len(),
                forall|k: int|
                    0 <= k < i ==> (#[trigger] self.accepted_locked_assets@[k]) != token_id,
                *self == *old(self),
                caller == self.owner,
            decreases self.accepted_locked_assets@.len() - i,
        {
            if self.accepted_locked_assets[i] == token_id {
                return Ok(());
            }
            i = i + 1;
        }
        self.accepted_locked_assets.push(token_id);
        proof {
            assert(self.accepted_locked_assets@[self.accepted_locked_assets@.len() - 1]
                == token_id);
            assert(forall|k: int|
                0 <= k < self.accepted_locked_assets@.len() - 1
                    ==> self.accepted_locked_assets@[k] == old(self).accepted_locked_assets@[k]);
            assert forall|t: u64|
                t != token_id implies self.contains_asset(t) == old(self).contains_asset(t) by {
                if old(self).contains_asset(t) {
                    let k = choose|k: int|
                        0 <= k < old(self).accepted_locked_assets@.len() && (#[trigger] old(self).accepted_locked_assets@[k]) == t;
                    assert(self.accepted_locked_assets@[k] == t);
                }
                if self.contains_asset(t) {
                    let k = choose|k: int|
                        0 <= k < self.accepted_locked_assets@.len()
                            && (#[trigger] self.accepted_locked_assets@[k]) == t;
                    assert(k < self.accepted_locked_assets@.len() - 1);
                    assert(old(self).accepted_locked_assets@[k] == t);
                }
            }
        }
        Ok(())
    }

    fn remove_accepted_locked_asset_token_id(&mut self, caller: u64, token_id: u64) -> (r:
        Result<(), DexError>)
    {
        if caller != self.owner {
            return Err(DexError::PermissionDenied);
        }
        match self.require_is_accepted_locked_asset(token_id) {
            Ok(_) => {},
            Err(e) => {
                return Err(e);
            },
        }
        let mut kept: Vec<u64> = Vec::new();
        let mut i: usize = 0;
        while i < self.accepted_locked_assets.len()
            invariant
                self.wf(),
                i <= self.accepted_locked_assets@.len(),
                forall|k: int| 0 <= k < kept@.len() ==> (#[trigger] kept@[k]) != token_id,
                forall|k1: int, k2: int|
                    0 <= k1 < k2 < kept@.len() ==> (#[trigger] kept@[k1]) != (#[trigger] kept@[
                    k2]),
                forall|k: int|
                    0 <= k < kept@.len() ==> exists|m: int|
                        0 <= m < i && (#[trigger] kept@[k]) == self.accepted_locked_assets@[m],
                forall|m: int|
                    0 <= m < i && self.accepted_locked_assets@[m] != token_id ==> exists|k: int|
                        0 <= k < kept@.len() && (#[trigger] self.accepted_locked_assets@[m])
                            == kept@[k],
            decreases self.accepted_locked_assets@.len() - i,
        {
            let token = self.accepted_locked_assets[i];
            let ghost old_kept = kept@;
            if token != token_id {
                proof {
                    assert forall|k: int| 0 <= k < kept@.len() implies (#[trigger] kept@[k])
                        != token by {
                        let m = choose|m: int|
                            0 <= m < i && (#[trigger] kept@[k]) == self.accepted_locked_assets@[
                            m];
                        assert(self.accepted_locked_assets@[m]
                            != self.accepted_locked_assets@[i as int]);
                    }
                }
                kept.push(token);
            }
            proof {
                assert forall|m: int|
                    0 <= m < i + 1 && self.accepted_locked_assets@[m] != token_id implies exists|
                k: int|
                    0 <= k < kept@.len() && (#[trigger] self.accepted_locked_assets@[m])
                        == kept@[k] by {
                    if m == i as int {
                        assert(kept@[kept@.len() - 1] == self.accepted_locked_assets@[m]);
                    } else {
                        let k0 = choose|k0: int|
                            0 <= k0 < old_kept.len() && (
                            #[trigger] self.accepted_locked_assets@[m]) == old_kept[k0];
                        assert(kept@[k0] == old_kept[k0]);
                    }
                }
            }
            i = i + 1;
        }
        let ghost old_assets = self.accepted_locked_assets@;
        self.accepted_locked_assets = kept;
        proof {
            if self.contains_asset(token_id) {
                let k = choose|k: int|
                    0 <= k < self.accepted_locked_assets@.len()
                        && (#[trigger] self.accepted_locked_assets@[k]) == token_id;
                assert(false);
            }
            assert forall|t: u64|
                t != token_id implies self.contains_asset(t) == old(self).contains_asset(t) by {
                if old(self).contains_asset(t) {
                    let m = choose|m: int|
                        0 <= m < old_assets.len() && (#[trigger] old_assets[m]) == t;
                    assert(exists|k: int|
                        0 <= k < self.accepted_locked_assets@.len() && (#[trigger] old_assets[m])
                            == self.accepted_locked_assets@[k]);
                }
                if self.contains_asset(t) {
                    let k = choose|k: int|
                        0 <= k < self.accepted_locked_assets@.len()
                            && (#[trigger] self.accepted_locked_assets@[k]) == t;
                    let m = choose|m: int|
                        0 <= m < old_assets.len() && (#[trigger] self.accepted_locked_assets@[k])
                            == old_assets[m];
                    assert(old_assets[m] == t);
                }
            }
        }
        Ok(())
    }

    fn require_is_accepted_locked_asset(&self, token_id: u64) -> (r: Result<(), DexError>)
    {
        let mut i: usize = 0;
        while i < self.accepted_locked_assets.len()
            invariant
                i <= self.accepted_locked_assets@.len(),
                forall|k: int|
                    0 <= k < i ==> (#[trigger] self.accepted_locked_assets@[k]) != token_id,
            decreases self.accepted_locked_assets@.len() - i,
        {
            if self.accepted_locked_assets[i] == token_id {
                return Ok(());
            }
            i = i + 1;
        }
        Err(DexError::NotAcceptedLockedAsset)
    }

    fn reset_received_funds_on_current_tx(&mut self)
    {
        self.current_tx_accepted_funds = Vec::new();
    }

    fn validate_received_funds_on_current_tx_size(&self, desired_size: usize) -> (r: Result<
        (),
        DexError,
    >)
    {
        if self.current_tx_accepted_funds.len() == desired_size {
            Ok(())
        } else {
            Err(DexError::BadReceivedFundsSize)
        }
    }

    #[allow(non_snake_case)]
    fn acceptPay(&mut self, token_id: u64, token_nonce: u64, amount: u64)
    {
        if self.current_tx_accepted_funds.len() > MAX_FUNDS_EXTRIES {
            self.current_tx_accepted_funds = Vec::new();
            proof {
                if exists|k: int|
                    0 <= k < self.current_tx_accepted_funds@.len() && (
                    #[trigger] self.current_tx_accepted_funds@[k]).token_id == token_id
                        && self.current_tx_accepted_funds@[k].token_nonce == token_nonce {
                    let k = choose|k: int|
                        0 <= k < self.current_tx_accepted_funds@.len() && (
                        #[trigger] self.current_tx_accepted_funds@[k]).token_id == token_id
                            && self.current_tx_accepted_funds@[k].token_nonce == token_nonce;
                    assert(false);
                }
            }
        }
        let found = self.find_fund_index(token_id, token_nonce);
        match found {
            Some(i) => {
                let prior = self.current_tx_accepted_funds[i];
                let updated = FundsEntry { token_id, token_nonce, amount: prior.amount + amount };
                self.current_tx_accepted_funds.set(i, updated);
            },
            None => {
                self.current_tx_accepted_funds.push(
                    FundsEntry { token_id, token_nonce, amount },
                );
            },
        }
    }

    fn validate_received_funds_on_current_tx(
        &self,
        token_id: u64,
        token_nonce: u64,
        amount: u64,
    ) -> (r: Result<(), DexError>)
    {
        if amount == 0 {
            return Ok(());
        }
        match self.find_fund_index(token_id, token_nonce) {
            None => Err(DexError::NoFundsOfThisType),
            Some(i) => {
                if self.current_tx_accepted_funds[i].amount >= amount {
                    Ok(())
                } else {
                    Err(DexError::NotEnoughFunds)
                }
            },
        }
    }

    fn validate_received_funds_chunk(&mut self, received: &Vec<FundsEntry>) -> (r: Result<
        (),
        DexError,
    >)
    {
        let mut j: usize = 0;
        proof {
            assert(received@.skip(0) =~= received@);
        }
        while j < received.len()
            invariant
                self.wf(),
                self.owner == old(self).owner,
                self.asset_token_id == old(self).asset_token_id,
                self.accepted_locked_assets@ == old(self).accepted_locked_assets@,
                j <= received@.len(),
                validate_chunk_spec(old(self).current_tx_accepted_funds@, received@)
                    == validate_chunk_spec(
                    self.current_tx_accepted_funds@,
                    received@.skip(j as int),
                ),
            decreases received@.len() - j,
        {
            let funds = received[j];
            proof {
                assert(received@.skip(j as int)[0] == received@[j as int]);
                assert(received@.skip(j as int).skip(1) =~= received@.skip(j as int + 1));
            }
            if funds.amount != 0 {
                let found = self.find_fund_index(funds.token_id, funds.token_nonce);
                match found {
                    None => {
                        return Err(DexError::NoFundsOfThisType);
                    },
                    Some(i) => {
                        let old_amount = self.current_tx_accepted_funds[i].amount;
                        if old_amount < funds.amount {
                            return Err(DexError::NotEnoughFunds);
                        } else if old_amount == funds.amount {
                            proof {
                                lemma_funds_wf_remove(
                                    self.current_tx_accepted_funds@,
                                    i as int,
                                );
                            }
                            self.current_tx_accepted_funds.remove(i);
                        } else {
                            let entry = self.current_tx_accepted_funds[i];
                            let updated = FundsEntry {
                                token_id: entry.token_id,
                                token_nonce: entry.token_nonce,
                                amount: old_amount - funds.amount,
                            };
                            proof {
                                lemma_funds_wf_update(
                                    self.current_tx_accepted_funds@,
                                    i as int,
                                    FundsEntry {
                                        token_id: entry.token_id,
                                        token_nonce: entry.token_nonce,
                                        amount: (old_amount - funds.amount) as u64,
                                    },
                                );
                            }
                            self.current_tx_accepted_funds.set(i, updated);
                        }
                    },
                }
            }
            j = j + 1;
        }
        proof {
            assert(received@.skip(received@.len() as int).len() == 0);
        }
        if self.current_tx_accepted_funds.len() != 0 {
            return Err(DexError::MoreFundsReceived);
        }
        Ok(())
    }
}

} // verus!
