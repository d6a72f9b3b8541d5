//! Farming with locked tokens through a proxy: the proxy burns the locked
//! tokens, enters the underlying farm with the unlocked asset, and wraps the
//! farm position in a proxy token that remembers how to undo the detour. The
//! cross-contract farm calls happen at the transaction edge; here each
//! endpoint is split into the decision before the call and the wrapping of
//! its response.

use vstd::prelude::*;
use crate::errors::DexError;
use crate::payment::EsdtTokenPayment;
use crate::simple_lock_energy::LockedTokenAttributes;

verus! {

/// Which kind of farm a proxy token points into.
#[derive(Clone, Copy, Debug, PartialEq, Eq, Structural)]
pub enum FarmType {
    SimpleFarm,
    FarmWithLockedRewards,
}

/// What a farm proxy token remembers: the wrapped farm position and the
/// locked token it stands in for.
#[derive(Clone, Copy, Debug, PartialEq, Eq, Structural)]
pub struct FarmProxyTokenAttributes {
    pub farm_type: FarmType,
    pub farm_token_id: u64,
    pub farm_token_nonce: u64,
    pub farming_token_id: u64,
    pub farming_token_locked_nonce: u64,
}

/// One whitelist entry: the farm serving a farming token and farm type.
#[derive(Clone, Copy, Debug, PartialEq, Eq, Structural)]
pub struct FarmWhitelistEntry {
    pub farming_token_id: u64,
    pub farm_type: FarmType,
    pub farm_address: u64,
}

/// The proxy contract's state: its two token kinds and the farm whitelist.
#[derive(Debug)]
pub struct ProxyFarmState {
    pub locked_token_id: u64,
    pub farm_proxy_token_id: u64,
    pub farm_whitelist: Vec<FarmWhitelistEntry>,
}

impl ProxyFarmState {    /// With unique keys, the entry at a matching slot is the lookup's result.
    proof fn lemma_unique_lookup(self, farming_token_id: u64, farm_type: FarmType, i: int)
        requires
            self.wf(),
            0 <= i < self.farm_whitelist@.len(),
            self.farm_whitelist@[i].farming_token_id == farming_token_id,
            self.farm_whitelist@[i].farm_type == farm_type,
        ensures
            self.farm_address_for(farming_token_id, farm_type) == Some(
                self.farm_whitelist@[i].farm_address,
            ),
    {
        let j = choose|j: int|
            0 <= j < self.farm_whitelist@.len() && (#[trigger] self.farm_whitelist@[
            j]).farming_token_id == farming_token_id && self.farm_whitelist@[j].farm_type
                == farm_type;
        assert(0 <= j < self.farm_whitelist@.len());
        if i != j {
            assert(((self.farm_whitelist@[i]).farming_token_id, self.farm_whitelist@[i].farm_type)
                != ((self.farm_whitelist@[j]).farming_token_id,
            self.farm_whitelist@[j].farm_type));
        }
    }

    /// A change at one slot leaves lookups of other keys untouched, provided
    /// the key at that slot kept its key in both states.
    proof fn lemma_other_lookup_unchanged(
        self,
        other: ProxyFarmState,
        t: u64,
        ft: FarmType,
        i: int,
    )
        requires
            self.wf(),
            other.wf(),
            self.farm_whitelist@.len() >= other.farm_whitelist@.len(),
            self.farm_whitelist@.len() <= other.farm_whitelist@.len() + 1,
            0 <= i < self.farm_whitelist@.len(),
            self.farm_whitelist@.len() == other.farm_whitelist@.len() + 1 ==> i
                == self.farm_whitelist@.len() - 1,
            forall|k: int|
                0 <= k < other.farm_whitelist@.len() && k != i
                    ==> (#[trigger] self.farm_whitelist@[k]) == other.farm_whitelist@[k],
            (t, ft) != (self.farm_whitelist@[i].farming_token_id,
            self.farm_whitelist@[i].farm_type),
            i < other.farm_whitelist@.len() ==> (t, ft) != (
                other.farm_whitelist@[i].farming_token_id,
                other.farm_whitelist@[i].farm_type,
            ),
        ensures
            self.farm_address_for(t, ft) == other.farm_address_for(t, ft),
    {
        if exists|k: int|
            0 <= k < self.farm_whitelist@.len() && (#[trigger] self.farm_whitelist@[
            k]).farming_token_id == t && self.farm_whitelist@[k].farm_type == ft {
            let k = choose|k: int|
                0 <= k < self.farm_whitelist@.len() && (#[trigger] self.farm_whitelist@[
                k]).farming_token_id == t && self.farm_whitelist@[k].farm_type == ft;
            assert(k != i);
            assert(k < other.farm_whitelist@.len());
            assert(other.farm_whitelist@[k].farming_token_id == t
                && other.farm_whitelist@[k].farm_type == ft);
            other.lemma_unique_lookup(t, ft, k);
            self.lemma_unique_lookup(t, ft, k);
        } else {
            if exists|k: int|
                0 <= k < other.farm_whitelist@.len() && (#[trigger] other.farm_whitelist@[
                k]).farming_token_id == t && other.farm_whitelist@[k].farm_type == ft {
                let k = choose|k: int|
                    0 <= k < other.farm_whitelist@.len() && (#[trigger] other.farm_whitelist@[
                    k]).farming_token_id == t && other.farm_whitelist@[k].farm_type == ft;
                assert(k != i);
                assert(self.farm_whitelist@[k].farming_token_id == t);
                assert(false);
            }
        }
    }
}

/// The locked-token farming proxy's contract surface.
pub trait ProxyFarmModule: Sized {
    /// The locked token the proxy accepts.
    spec fn locked_token_id_spec(self) -> u64;

    /// The proxy token it wraps farm positions in.
    spec fn farm_proxy_token_id_spec(self) -> u64;

    /// At most one farm per (farming token, farm type) pair.
    spec fn wf(self) -> bool;

    /// The whitelisted farm for a pair, if any.
    spec fn farm_address_for(self, farming_token_id: u64, farm_type: FarmType) -> Option<u64>;

    /// Whitelists a farm for a (farming token, farm type) pair; only a smart
    /// contract address may be registered. An existing entry is overwritten.
    fn add_farm_to_whitelist(
        &mut self,
        farm_address: u64,
        farming_token_id: u64,
        farm_type: FarmType,
        address_is_smart_contract: bool,
    ) -> (r: Result<(), DexError>)
        requires
            old(self).wf(),
        ensures
            final(self).wf(),
            !address_is_smart_contract ==> r == Err::<(), DexError>(DexError::InvalidScAddress)
                && *final(self) == *old(self),
            address_is_smart_contract ==> r == Ok::<(), DexError>(())
                && final(self).farm_address_for(farming_token_id, farm_type)
                == Some(farm_address)
                && final(self).locked_token_id_spec() == old(self).locked_token_id_spec()
                && final(self).farm_proxy_token_id_spec() == old(self).farm_proxy_token_id_spec()
                && (forall|t: u64, ft: FarmType|
                (t, ft) != (farming_token_id, farm_type) ==> final(self).farm_address_for(t, ft)
                    == old(self).farm_address_for(t, ft)),
    ;

    /// Looks the farm up for a pair; failing when none is whitelisted.
    fn try_get_farm_address(&self, farming_token_id: u64, farm_type: FarmType) -> (r: Result<
        u64,
        DexError,
    >)
        requires
            self.wf(),
        ensures
            match self.farm_address_for(farming_token_id, farm_type) {
                Some(addr) => r == Ok::<u64, DexError>(addr),
                None => r == Err::<u64, DexError>(DexError::NoFarmForTokenAndType),
            },
    ;

    /// Drops a pair's farm from the whitelist.
    fn remove_farm_from_whitelist(&mut self, farming_token_id: u64, farm_type: FarmType)
        requires
            old(self).wf(),
        ensures
            final(self).wf(),
            final(self).farm_address_for(farming_token_id, farm_type) is None,
    ;

    /// Validates a proxy-token payment and hands its attributes back; the
    /// proxy token itself is burned by the surrounding transaction.
    fn validate_payment_and_get_farm_proxy_token_attributes(
        &self,
        payment: &EsdtTokenPayment,
        attributes: FarmProxyTokenAttributes,
    ) -> (r: Result<FarmProxyTokenAttributes, DexError>)
        ensures
            payment.amount == 0 ==> r == Err::<FarmProxyTokenAttributes, DexError>(
                DexError::NoPayment,
            ),
            payment.amount > 0 && payment.token_identifier != self.farm_proxy_token_id_spec() ==> r
                == Err::<FarmProxyTokenAttributes, DexError>(DexError::InvalidPaymentToken),
            payment.amount > 0 && payment.token_identifier == self.farm_proxy_token_id_spec() ==> r
                == Ok::<FarmProxyTokenAttributes, DexError>(attributes),
    ;

    /// The decision before entering a farm with a locked token: validate the
    /// payment and find the farm to call. The locked tokens are burned and
    /// the farm entered with the unlocked asset at the edge.
    fn enter_farm_locked_token_request(
        &self,
        payment: &EsdtTokenPayment,
        locked_token_attributes: LockedTokenAttributes,
        farm_type: FarmType,
    ) -> (r: Result<(u64, u64, u64), DexError>)
        requires
            self.wf(),
        ensures
            payment.amount == 0 ==> r == Err::<(u64, u64, u64), DexError>(DexError::NoPayment),
            payment.amount > 0 && payment.token_identifier != self.locked_token_id_spec() ==> r == Err::<
                (u64, u64, u64),
                DexError,
            >(DexError::InvalidPaymentToken),
            payment.amount > 0 && payment.token_identifier == self.locked_token_id_spec()
                && locked_token_attributes.original_token_nonce != 0 ==> r == Err::<
                (u64, u64, u64),
                DexError,
            >(DexError::OnlyFungibleTokens),
            payment.amount > 0 && payment.token_identifier == self.locked_token_id_spec()
                && locked_token_attributes.original_token_nonce == 0 ==> r == match self
                .farm_address_for(locked_token_attributes.original_token_id, farm_type) {
                Some(addr) => Ok::<(u64, u64, u64), DexError>(
                    (addr, locked_token_attributes.original_token_id, payment.amount),
                ),
                None => Err::<(u64, u64, u64), DexError>(DexError::NoFarmForTokenAndType),
            },
    ;

    /// Wraps the farm's response into the proxy token's attributes.
    fn enter_farm_locked_token_response(
        &self,
        farm_type: FarmType,
        farm_tokens: &EsdtTokenPayment,
        locked_token_attributes: LockedTokenAttributes,
        locked_token_nonce: u64,
    ) -> (r: FarmProxyTokenAttributes)
        ensures
            r == (FarmProxyTokenAttributes {
                farm_type,
                farm_token_id: farm_tokens.token_identifier,
                farm_token_nonce: farm_tokens.token_nonce,
                farming_token_id: locked_token_attributes.original_token_id,
                farming_token_locked_nonce: locked_token_nonce,
            }),
    ;

    /// Checks a farm exit's response: the farming tokens handed back must be
    /// the ones the proxy token stands in for.
    fn exit_farm_locked_token_response(
        &self,
        attributes: FarmProxyTokenAttributes,
        initial_farming_tokens: &EsdtTokenPayment,
    ) -> (r: Result<(), DexError>)
        ensures
            initial_farming_tokens.token_identifier != attributes.farming_token_id ==> r == Err::<
                (),
                DexError,
            >(DexError::InvalidPaymentsFromFarm),
            initial_farming_tokens.token_identifier == attributes.farming_token_id ==> r == Ok::<
                (),
                DexError,
            >(()),
    ;

    /// Re-wraps a claim's or compound's response: the new farm tokens must be
    /// of the wrapped farm token kind, and the proxy attributes move to the
    /// new farm token nonce.
    fn farm_rewards_locked_token_response(
        &self,
        attributes: FarmProxyTokenAttributes,
        new_farm_tokens: &EsdtTokenPayment,
    ) -> (r: Result<FarmProxyTokenAttributes, DexError>)
        ensures
            new_farm_tokens.token_identifier != attributes.farm_token_id ==> r == Err::<
                FarmProxyTokenAttributes,
                DexError,
            >(DexError::InvalidPaymentsFromFarm),
            new_farm_tokens.token_identifier == attributes.farm_token_id ==> r == Ok::<
                FarmProxyTokenAttributes,
                DexError,
            >(
                FarmProxyTokenAttributes {
                    farm_token_nonce: new_farm_tokens.token_nonce,
                    ..attributes
                },
            ),
    ;
}

impl ProxyFarmModule for ProxyFarmState {
    open spec fn locked_token_id_spec(self) -> u64 {
        self.locked_token_id
    }

    open spec fn farm_proxy_token_id_spec(self) -> u64 {
        self.farm_proxy_token_id
    }


    /// At most one farm per (farming token, farm type) pair.
    open spec fn wf(self) -> bool {
        forall|i: int, j: int|
            0 <= i < j < self.farm_whitelist@.len() ==> ((#[trigger] self.farm_whitelist@[
            i]).farming_token_id, self.farm_whitelist@[i].farm_type) != ((
            #[trigger] self.farm_whitelist@[j]).farming_token_id, self.farm_whitelist@[
            j].farm_type)
    }

    /// The whitelisted farm for a pair, if any.
    open spec fn farm_address_for(self, farming_token_id: u64, farm_type: FarmType) -> Option<
        u64,
    > {
        if exists|i: int|
            0 <= i < self.farm_whitelist@.len() && (#[trigger] self.farm_whitelist@[
            i]).farming_token_id == farming_token_id && self.farm_whitelist@[i].farm_type
                == farm_type {
            let i = choose|i: int|
                0 <= i < self.farm_whitelist@.len() && (#[trigger] self.farm_whitelist@[
                i]).farming_token_id == farming_token_id && self.farm_whitelist@[i].farm_type
                    == farm_type;
            Some(self.farm_whitelist@[i].farm_address)
        } else {
            None
        }
    }

    fn add_farm_to_whitelist(
        &mut self,
        farm_address: u64,
        farming_token_id: u64,
        farm_type: FarmType,
        address_is_smart_contract: bool,
    ) -> (r: Result<(), DexError>)
    {
        if !address_is_smart_contract {
            return Err(DexError::InvalidScAddress);
        }
        let mut i: usize = 0;
        while i < self.farm_whitelist.len()
            invariant
                address_is_smart_contract,
                self.wf(),
                i <= self.farm_whitelist@.len(),
                forall|k: int|
                    0 <= k < i ==> ((#[trigger] self.farm_whitelist@[k]).farming_token_id,
                    self.farm_whitelist@[k].farm_type) != (farming_token_id, farm_type),
                *self == *old(self),
            decreases self.farm_whitelist@.len() - i,
        {
            let entry = self.farm_whitelist[i];
            if entry.farming_token_id == farming_token_id && entry.farm_type == farm_type {
                let new_entry = FarmWhitelistEntry { farming_token_id, farm_type, farm_address };
                self.farm_whitelist.set(i, new_entry);
                proof {
                    self.lemma_unique_lookup(farming_token_id, farm_type, i as int);
                    assert forall|t: u64, ft: FarmType|
                        (t, ft) != (farming_token_id, farm_type) implies self.farm_address_for(
                        t,
                        ft,
                    ) == old(self).farm_address_for(t, ft) by {
                        self.lemma_other_lookup_unchanged(*old(self), t, ft, i as int);
                    }
                }
                return Ok(());
            }
            i = i + 1;
        }
        let new_entry = FarmWhitelistEntry { farming_token_id, farm_type, farm_address };
        self.farm_whitelist.push(new_entry);
        proof {
            assert(forall|k: int|
                0 <= k < self.farm_whitelist@.len() - 1 ==> self.farm_whitelist@[k] == old(
                    self,
                ).farm_whitelist@[k]);
            self.lemma_unique_lookup(
                farming_token_id,
                farm_type,
                self.farm_whitelist@.len() - 1,
            );
            assert forall|t: u64, ft: FarmType|
                (t, ft) != (farming_token_id, farm_type) implies self.farm_address_for(t, ft)
                == old(self).farm_address_for(t, ft) by {
                self.lemma_other_lookup_unchanged(
                    *old(self),
                    t,
                    ft,
                    self.farm_whitelist@.len() - 1,
                );
            }
        }
        Ok(())
    }

    fn try_get_farm_address(&self, farming_token_id: u64, farm_type: FarmType) -> (r: Result<
        u64,
        DexError,
    >)
    {
        let mut i: usize = 0;
        while i < self.farm_whitelist.len()
            invariant
                self.wf(),
                i <= self.farm_whitelist@.len(),
                forall|k: int|
                    0 <= k < i ==> ((#[trigger] self.farm_whitelist@[k]).farming_token_id,
                    self.farm_whitelist@[k].farm_type) != (farming_token_id, farm_type),
            decreases self.farm_whitelist@.len() - i,
        {
            let entry = self.farm_whitelist[i];
            if entry.farming_token_id == farming_token_id && entry.farm_type == farm_type {
                proof {
                    self.lemma_unique_lookup(farming_token_id, farm_type, i as int);
                }
                return Ok(entry.farm_address);
            }
            i = i + 1;
        }
        proof {
            if exists|k: int|
                0 <= k < self.farm_whitelist@.len() && (#[trigger] self.farm_whitelist@[
                k]).farming_token_id == farming_token_id && self.farm_whitelist@[k].farm_type
                    == farm_type {
                let k = choose|k: int|
                    0 <= k < self.farm_whitelist@.len() && (#[trigger] self.farm_whitelist@[
                    k]).farming_token_id == farming_token_id && self.farm_whitelist@[k].farm_type
                        == farm_type;
                assert(false);
            }
        }
        Err(DexError::NoFarmForTokenAndType)
    }

    fn remove_farm_from_whitelist(&mut self, farming_token_id: u64, farm_type: FarmType)
    {
        let mut kept: Vec<FarmWhitelistEntry> = Vec::new();
        let mut i: usize = 0;
        while i < self.farm_whitelist.len()
            invariant
                self.wf(),
                i <= self.farm_whitelist@.len(),
                forall|k: int|
                    0 <= k < kept@.len() ==> ((#[trigger] kept@[k]).farming_token_id,
                    kept@[k].farm_type) != (farming_token_id, farm_type),
                forall|k1: int, k2: int|
                    0 <= k1 < k2 < kept@.len() ==> ((#[trigger] kept@[k1]).farming_token_id,
                    kept@[k1].farm_type) != ((#[trigger] kept@[k2]).farming_token_id,
                    kept@[k2].farm_type),
                forall|k: int|
                    0 <= k < kept@.len() ==> exists|m: int|
                        0 <= m < i && (#[trigger] kept@[k]) == self.farm_whitelist@[m],
            decreases self.farm_whitelist@.len() - i,
        {
            let entry = self.farm_whitelist[i];
            if !(entry.farming_token_id == farming_token_id && entry.farm_type == farm_type) {
                proof {
                    assert forall|k: int| 0 <= k < kept@.len() implies ((
                    #[trigger] kept@[k]).farming_token_id, kept@[k].farm_type) != (
                    entry.farming_token_id, entry.farm_type) by {
                        let m = choose|m: int|
                            0 <= m < i && (#[trigger] kept@[k]) == self.farm_whitelist@[m];
                        assert((self.farm_whitelist@[m].farming_token_id,
                        self.farm_whitelist@[m].farm_type) != (
                        self.farm_whitelist@[i as int].farming_token_id,
                        self.farm_whitelist@[i as int].farm_type));
                    }
                }
                kept.push(entry);
            }
            i = i + 1;
        }
        self.farm_whitelist = kept;
        proof {
            if exists|k: int|
                0 <= k < self.farm_whitelist@.len() && (#[trigger] self.farm_whitelist@[
                k]).farming_token_id == farming_token_id && self.farm_whitelist@[k].farm_type
                    == farm_type {
                let k = choose|k: int|
                    0 <= k < self.farm_whitelist@.len() && (#[trigger] self.farm_whitelist@[
                    k]).farming_token_id == farming_token_id && self.farm_whitelist@[k].farm_type
                        == farm_type;
                assert(false);
            }
        }
    }

    fn validate_payment_and_get_farm_proxy_token_attributes(
        &self,
        payment: &EsdtTokenPayment,
        attributes: FarmProxyTokenAttributes,
    ) -> (r: Result<FarmProxyTokenAttributes, DexError>)
    {
        if payment.amount == 0 {
            return Err(DexError::NoPayment);
        }
        if payment.token_identifier != self.farm_proxy_token_id {
            return Err(DexError::InvalidPaymentToken);
        }
        Ok(attributes)
    }

    fn enter_farm_locked_token_request(
        &self,
        payment: &EsdtTokenPayment,
        locked_token_attributes: LockedTokenAttributes,
        farm_type: FarmType,
    ) -> (r: Result<(u64, u64, u64), DexError>)
    {
        if payment.amount == 0 {
            return Err(DexError::NoPayment);
        }
        if payment.token_identifier != self.locked_token_id {
            return Err(DexError::InvalidPaymentToken);
        }
        if locked_token_attributes.original_token_nonce != 0 {
            return Err(DexError::OnlyFungibleTokens);
        }
        let farm_address = match self.try_get_farm_address(
            locked_token_attributes.original_token_id,
            farm_type,
        ) {
            Ok(a) => a,
            Err(e) => {
                return Err(e);
            },
        };
        Ok((farm_address, locked_token_attributes.original_token_id, payment.amount))
    }

    fn enter_farm_locked_token_response(
        &self,
        farm_type: FarmType,
        farm_tokens: &EsdtTokenPayment,
        locked_token_attributes: LockedTokenAttributes,
        locked_token_nonce: u64,
    ) -> (r: FarmProxyTokenAttributes)
    {
        FarmProxyTokenAttributes {
            farm_type,
            farm_token_id: farm_tokens.token_identifier,
            farm_token_nonce: farm_tokens.token_nonce,
            farming_token_id: locked_token_attributes.original_token_id,
            farming_token_locked_nonce: locked_token_nonce,
        }
    }

    fn exit_farm_locked_token_response(
        &self,
        attributes: FarmProxyTokenAttributes,
        initial_farming_tokens: &EsdtTokenPayment,
    ) -> (r: Result<(), DexError>)
    {
        if initial_farming_tokens.token_identifier != attributes.farming_token_id {
            return Err(DexError::InvalidPaymentsFromFarm);
        }
        Ok(())
    }

    fn farm_rewards_locked_token_response(
        &self,
        attributes: FarmProxyTokenAttributes,
        new_farm_tokens: &EsdtTokenPayment,
    ) -> (r: Result<FarmProxyTokenAttributes, DexError>)
    {
        if new_farm_tokens.token_identifier != attributes.farm_token_id {
            return Err(DexError::InvalidPaymentsFromFarm);
        }
        Ok(
            FarmProxyTokenAttributes {
                farm_type: attributes.farm_type,
                farm_token_id: attributes.farm_token_id,
                farm_token_nonce: new_farm_tokens.token_nonce,
                farming_token_id: attributes.farming_token_id,
                farming_token_locked_nonce: attributes.farming_token_locked_nonce,
            },
        )
    }
}

} // verus!
