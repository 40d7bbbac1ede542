//! The custodian: it holds one deposit, hands it to whoever pays what was
//! asked, and keeps the payment for the holder of the claim token.

use crate::bucket::Bucket;
use crate::bucket::Holding;
use crate::bucket::Vault;
use crate::error::EscrowError;
use crate::error::Refused;
use crate::ledger::copy_local_id;
use crate::ledger::same_local_id;
use crate::ledger::same_resource;
use crate::model::EscrowState;
use crate::model::EscrowView;
use crate::model::TokenView;
use crate::specifier::EscrowBadge;
use crate::specifier::ResourceSpecifier;
use scrypto::prelude::NonFungibleLocalId;
use scrypto::prelude::ResourceAddress;
use vstd::prelude::*;

verus! {

/// The one token issued for an offer. Whoever holds it may reclaim the
/// deposit or collect the payment; presenting it hands it over.
#[derive(Debug)]
pub struct ClaimToken {
    resource_address: ResourceAddress,
    non_fungible_local_id: NonFungibleLocalId,
    data: EscrowBadge,
}

impl View for ClaimToken {
    type V = TokenView;

    closed spec fn view(&self) -> TokenView {
        TokenView {
            resource_address: self.resource_address,
            non_fungible_local_id: self.non_fungible_local_id,
            offered_resource: self.data@,
        }
    }
}

impl ClaimToken {
    /// The token of class `resource_address` with the given identifier and
    /// record, as the ledger holds it.
    pub fn new(
        resource_address: ResourceAddress,
        non_fungible_local_id: NonFungibleLocalId,
        data: EscrowBadge,
    ) -> (token: ClaimToken)
        ensures
            token@ == (TokenView {
                resource_address,
                non_fungible_local_id,
                offered_resource: data@,
            }),
    {
        ClaimToken { resource_address, non_fungible_local_id, data }
    }

    pub fn resource_address(&self) -> (address: ResourceAddress)
        ensures
            address == self@.resource_address,
    {
        self.resource_address
    }

    pub fn non_fungible_local_id(&self) -> (id: &NonFungibleLocalId)
        ensures
            *id == self@.non_fungible_local_id,
    {
        &self.non_fungible_local_id
    }

    pub fn data(&self) -> (badge: &EscrowBadge)
        ensures
            badge@ == self@.offered_resource,
    {
        &self.data
    }
}

/// One offer and what is held for it.
#[derive(Debug)]
pub struct Escrow {
    requested_resource: ResourceSpecifier,
    offered_resource: Vault,
    requested_resource_vault: Vault,
    escrow_nft: ResourceAddress,
    escrow_nft_id: NonFungibleLocalId,
    state: EscrowState,
}

impl View for Escrow {
    type V = EscrowView;

    closed spec fn view(&self) -> EscrowView {
        EscrowView {
            requested_resource: self.requested_resource,
            offered_resource: self.offered_resource@,
            requested_resource_vault: self.requested_resource_vault@,
            escrow_nft: self.escrow_nft,
            escrow_nft_id: self.escrow_nft_id,
            state: self.state,
        }
    }
}

impl Escrow {
    /// Opens an offer: `offered_resource` is held for whoever pays
    /// `requested_resource`. `escrow_nft` and `escrow_nft_id` are the class
    /// and identifier under which the ledger minted the claim token for
    /// this offer.
    pub fn instantiate_escrow(
        requested_resource: ResourceSpecifier,
        offered_resource: Bucket,
        escrow_nft: ResourceAddress,
        escrow_nft_id: NonFungibleLocalId,
    ) -> (made: Result<(Escrow, ClaimToken), Refused<Bucket>>)
        ensures
            match made {
                Ok((escrow, token)) => {
                    &&& EscrowView::instantiate_refusal(requested_resource, offered_resource@)
                        is None
                    &&& escrow@ == EscrowView::instantiate_escrow(
                        requested_resource,
                        offered_resource@,
                        escrow_nft,
                        escrow_nft_id,
                    )
                    &&& escrow@.wf()
                    &&& token@ == escrow@.issued_token()
                },
                Err(refused) => {
                    &&& EscrowView::instantiate_refusal(requested_resource, offered_resource@)
                        == Some(refused.error)
                    &&& refused.returned == offered_resource
                },
            },
    {
        if offered_resource.is_empty() || !requested_resource.is_valid() {
            return Err(Refused { error: EscrowError::InvalidOffer, returned: offered_resource });
        }
        proof {
            use_type_invariant(&offered_resource);
        }
        let token = ClaimToken {
            resource_address: escrow_nft,
            non_fungible_local_id: copy_local_id(&escrow_nft_id),
            data: EscrowBadge::new(offered_resource.resource_address()),
        };
        let requested_resource_vault = Vault::new(requested_resource.get_resource_address());
        let escrow = Escrow {
            requested_resource,
            offered_resource: Vault::with_bucket(offered_resource),
            requested_resource_vault,
            escrow_nft,
            escrow_nft_id,
            state: EscrowState::Open,
        };
        Ok((escrow, token))
    }

    /// Takes an offer up again from what was stored of it. There is an
    /// offer of these parts exactly when they agree with one another as
    /// those of every offer do.
    pub fn restore(
        requested_resource: ResourceSpecifier,
        offered_resource: Bucket,
        requested_resource_vault: Bucket,
        escrow_nft: ResourceAddress,
        escrow_nft_id: NonFungibleLocalId,
        state: EscrowState,
    ) -> (restored: Option<Escrow>)
        ensures
            restored is Some <==> (EscrowView {
                requested_resource,
                offered_resource: offered_resource@,
                requested_resource_vault: requested_resource_vault@,
                escrow_nft,
                escrow_nft_id,
                state,
            }).wf(),
            restored matches Some(escrow) ==> escrow@ == (EscrowView {
                requested_resource,
                offered_resource: offered_resource@,
                requested_resource_vault: requested_resource_vault@,
                escrow_nft,
                escrow_nft_id,
                state,
            }),
    {
        proof {
            use_type_invariant(&offered_resource);
            use_type_invariant(&requested_resource_vault);
        }
        let held_as_expected = match state {
            EscrowState::Open => !offered_resource.is_empty() && requested_resource_vault.is_empty(),
            EscrowState::Fulfilled => offered_resource.is_empty() && requested_resource.check_payment(
                &requested_resource_vault,
            ).is_none(),
            EscrowState::Cancelled | EscrowState::Closed => offered_resource.is_empty()
                && requested_resource_vault.is_empty(),
        };
        if requested_resource.is_valid() && same_resource(
            &requested_resource_vault.resource_address(),
            &requested_resource.get_resource_address(),
        ) && held_as_expected {
            Some(
                Escrow {
                    requested_resource,
                    offered_resource: Vault::with_bucket(offered_resource),
                    requested_resource_vault: Vault::with_bucket(requested_resource_vault),
                    escrow_nft,
                    escrow_nft_id,
                    state,
                },
            )
        } else {
            None
        }
    }

    /// Whether `token` is the claim token that was issued for this offer.
    pub fn accepts(&self, token: &ClaimToken) -> (accepted: bool)
        ensures
            accepted == self@.accepts(token@),
    {
        same_resource(&token.resource_address, &self.escrow_nft) && same_local_id(
            &token.non_fungible_local_id,
            &self.escrow_nft_id,
        )
    }

    /// Pays for the deposit. Anyone may pay; a payment that is accepted is
    /// kept for the holder of the claim token, and the whole deposit is
    /// handed out.
    pub fn exchange(&mut self, bucket_of_resource: Bucket) -> (done: Result<Bucket, Refused<Bucket>>)
        requires
            old(self)@.wf(),
        ensures
            final(self)@ == old(self)@.exchange(bucket_of_resource@).next,
            final(self)@.wf(),
            match done {
                Ok(released) => old(self)@.exchange(bucket_of_resource@).outcome == Ok::<
                    Holding,
                    EscrowError,
                >(released@),
                Err(refused) => {
                    &&& old(self)@.exchange(bucket_of_resource@).outcome == Err::<
                        Holding,
                        EscrowError,
                    >(refused.error)
                    &&& refused.returned == bucket_of_resource
                    &&& *final(self) == *old(self)
                },
            },
    {
        proof {
            use_type_invariant(&bucket_of_resource);
        }
        match self.requested_resource.check_payment(&bucket_of_resource) {
            Some(kind) => {
                return Err(
                    Refused {
                        error: EscrowError::ResourceMismatch(kind),
                        returned: bucket_of_resource,
                    },
                );
            },
            None => {},
        }
        match self.state {
            EscrowState::Open => {},
            _ => {
                return Err(
                    Refused { error: EscrowError::AlreadyFulfilled, returned: bucket_of_resource },
                );
            },
        }
        self.requested_resource_vault.put(bucket_of_resource);
        let released = self.offered_resource.take_all();
        self.state = EscrowState::Fulfilled;
        Ok(released)
    }

    /// Collects the payment. The token is handed over with the call; where
    /// the call is declined it comes back.
    pub fn withdraw_resource(&mut self, escrow_nft: ClaimToken) -> (done: Result<
        Bucket,
        Refused<ClaimToken>,
    >)
        requires
            old(self)@.wf(),
        ensures
            final(self)@ == old(self)@.withdraw_resource(escrow_nft@).next,
            final(self)@.wf(),
            match done {
                Ok(collected) => old(self)@.withdraw_resource(escrow_nft@).outcome == Ok::<
                    Holding,
                    EscrowError,
                >(collected@),
                Err(refused) => {
                    &&& old(self)@.withdraw_resource(escrow_nft@).outcome == Err::<
                        Holding,
                        EscrowError,
                    >(refused.error)
                    &&& refused.returned == escrow_nft
                    &&& *final(self) == *old(self)
                },
            },
    {
        if !self.accepts(&escrow_nft) {
            return Err(Refused { error: EscrowError::Unauthorized, returned: escrow_nft });
        }
        match self.state {
            EscrowState::Fulfilled => {
                let collected = self.requested_resource_vault.take_all();
                self.state = EscrowState::Closed;
                Ok(collected)
            },
            EscrowState::Closed => Err(
                Refused { error: EscrowError::AlreadyWithdrawn, returned: escrow_nft },
            ),
            _ => Err(Refused { error: EscrowError::NotFulfilled, returned: escrow_nft }),
        }
    }

    /// Reclaims the deposit while nobody has paid for it. The token is
    /// handed over with the call; where the call is declined it comes back.
    pub fn cancel_escrow(&mut self, escrow_nft: ClaimToken) -> (done: Result<
        Bucket,
        Refused<ClaimToken>,
    >)
        requires
            old(self)@.wf(),
        ensures
            final(self)@ == old(self)@.cancel_escrow(escrow_nft@).next,
            final(self)@.wf(),
            match done {
                Ok(reclaimed) => old(self)@.cancel_escrow(escrow_nft@).outcome == Ok::<
                    Holding,
                    EscrowError,
                >(reclaimed@),
                Err(refused) => {
                    &&& old(self)@.cancel_escrow(escrow_nft@).outcome == Err::<
                        Holding,
                        EscrowError,
                    >(refused.error)
                    &&& refused.returned == escrow_nft
                    &&& *final(self) == *old(self)
                },
            },
    {
        if !self.accepts(&escrow_nft) {
            return Err(Refused { error: EscrowError::Unauthorized, returned: escrow_nft });
        }
        match self.state {
            EscrowState::Open => {
                let reclaimed = self.offered_resource.take_all();
                self.state = EscrowState::Cancelled;
                Ok(reclaimed)
            },
            _ => Err(Refused { error: EscrowError::AlreadyFulfilled, returned: escrow_nft }),
        }
    }

    pub fn state(&self) -> (state: EscrowState)
        ensures
            state == self@.state,
    {
        self.state
    }

    pub fn requested_resource(&self) -> (asked: &ResourceSpecifier)
        ensures
            *asked == self@.requested_resource,
    {
        &self.requested_resource
    }

    pub fn offered_resource(&self) -> (vault: &Vault)
        ensures
            vault@ == self@.offered_resource,
    {
        &self.offered_resource
    }

    pub fn requested_resource_vault(&self) -> (vault: &Vault)
        ensures
            vault@ == self@.requested_resource_vault,
    {
        &self.requested_resource_vault
    }

    pub fn escrow_nft(&self) -> (address: ResourceAddress)
        ensures
            address == self@.escrow_nft,
    {
        self.escrow_nft
    }

    pub fn escrow_nft_id(&self) -> (id: &NonFungibleLocalId)
        ensures
            *id == self@.escrow_nft_id,
    {
        &self.escrow_nft_id
    }
}

} // verus!
