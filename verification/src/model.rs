//! The custodian as a state machine over what its containers hold: the
//! state after each operation and what the operation hands out, as functions
//! of the state before and of what is handed in.

use crate::bucket::Holding;
use crate::error::EscrowError;
use crate::specifier::ResourceSpecifier;
use scrypto::prelude::NonFungibleLocalId;
use scrypto::prelude::ResourceAddress;
use vstd::prelude::*;

verus! {

/// How far an offer has come.
#[derive(Clone, Copy, Debug, PartialEq, Eq, Structural)]
pub enum EscrowState {
    /// The deposit is held; nothing has been paid.
    Open,
    /// The payment is held for the depositor; the deposit has gone to the payer.
    Fulfilled,
    /// The deposit has gone back to the depositor.
    Cancelled,
    /// The payment has been collected.
    Closed,
}

/// A claim token as the contracts speak of it: its class, its unique
/// identifier within the class, and the class of the deposit it records.
pub struct TokenView {
    pub resource_address: ResourceAddress,
    pub non_fungible_local_id: NonFungibleLocalId,
    pub offered_resource: ResourceAddress,
}

/// The custodian as the contracts speak of it.
pub struct EscrowView {
    pub requested_resource: ResourceSpecifier,
    pub offered_resource: Holding,
    pub requested_resource_vault: Holding,
    pub escrow_nft: ResourceAddress,
    pub escrow_nft_id: NonFungibleLocalId,
    pub state: EscrowState,
}

/// What an operation did: the state it left, and either the holding of the
/// bucket it handed out or the reason why it declined.
pub struct Step {
    pub next: EscrowView,
    pub outcome: Result<Holding, EscrowError>,
}

impl EscrowView {
    /// The containers agree with the state: while open the deposit is held
    /// and nothing else; once fulfilled the deposit is gone and what is held
    /// is a payment of what was asked; afterwards nothing is held.
    pub open spec fn wf(self) -> bool {
        &&& self.requested_resource.valid()
        &&& self.offered_resource.wf()
        &&& self.requested_resource_vault.wf()
        &&& self.requested_resource_vault.resource_address
            == self.requested_resource.resource_address()
        &&& match self.state {
            EscrowState::Open => {
                !self.offered_resource.is_empty() && self.requested_resource_vault.is_empty()
            },
            EscrowState::Fulfilled => {
                self.offered_resource.is_empty() && self.requested_resource.mismatch(
                    self.requested_resource_vault,
                ) is None
            },
            EscrowState::Cancelled | EscrowState::Closed => {
                self.offered_resource.is_empty() && self.requested_resource_vault.is_empty()
            },
        }
    }

    /// Whether `token` is the claim token that was issued for this offer.
    pub open spec fn accepts(self, token: TokenView) -> bool {
        token.resource_address == self.escrow_nft && token.non_fungible_local_id
            == self.escrow_nft_id
    }

    /// The state in which nothing was done, with the reason.
    pub open spec fn declined(self, error: EscrowError) -> Step {
        Step { next: self, outcome: Err(error) }
    }

    /// Why an offer of `offered_resource` for `requested_resource` cannot be
    /// opened, if it cannot.
    pub open spec fn instantiate_refusal(
        requested_resource: ResourceSpecifier,
        offered_resource: Holding,
    ) -> Option<EscrowError> {
        if offered_resource.is_empty() || !requested_resource.valid() {
            Some(EscrowError::InvalidOffer)
        } else {
            None
        }
    }

    /// The custodian of a newly opened offer.
    pub open spec fn instantiate_escrow(
        requested_resource: ResourceSpecifier,
        offered_resource: Holding,
        escrow_nft: ResourceAddress,
        escrow_nft_id: NonFungibleLocalId,
    ) -> EscrowView {
        EscrowView {
            requested_resource,
            offered_resource,
            requested_resource_vault: Holding::nothing(requested_resource.resource_address()),
            escrow_nft,
            escrow_nft_id,
            state: EscrowState::Open,
        }
    }

    /// The claim token that is issued with it.
    pub open spec fn issued_token(self) -> TokenView {
        TokenView {
            resource_address: self.escrow_nft,
            non_fungible_local_id: self.escrow_nft_id,
            offered_resource: self.offered_resource.resource_address,
        }
    }

    /// A payment that is not what was asked for is declined as a mismatch,
    /// whatever the state; a right one is declined once the offer is no
    /// longer open. Otherwise the payment is kept and the deposit handed out.
    pub open spec fn exchange(self, payment: Holding) -> Step {
        match self.requested_resource.mismatch(payment) {
            Some(kind) => self.declined(EscrowError::ResourceMismatch(kind)),
            None => {
                if self.state != EscrowState::Open {
                    self.declined(EscrowError::AlreadyFulfilled)
                } else {
                    Step {
                        next: EscrowView {
                            offered_resource: Holding::nothing(
                                self.offered_resource.resource_address,
                            ),
                            requested_resource_vault: payment,
                            state: EscrowState::Fulfilled,
                            ..self
                        },
                        outcome: Ok(self.offered_resource),
                    }
                }
            },
        }
    }

    /// A wrong token is declined, whatever the state; the right one is
    /// declined unless a payment is waiting. Otherwise the payment is handed
    /// out.
    pub open spec fn withdraw_resource(self, token: TokenView) -> Step {
        if !self.accepts(token) {
            self.declined(EscrowError::Unauthorized)
        } else {
            match self.state {
                EscrowState::Fulfilled => Step {
                    next: EscrowView {
                        requested_resource_vault: Holding::nothing(
                            self.requested_resource_vault.resource_address,
                        ),
                        state: EscrowState::Closed,
                        ..self
                    },
                    outcome: Ok(self.requested_resource_vault),
                },
                EscrowState::Closed => self.declined(EscrowError::AlreadyWithdrawn),
                _ => self.declined(EscrowError::NotFulfilled),
            }
        }
    }

    /// A wrong token is declined, whatever the state; the right one is
    /// declined once the offer is no longer open. Otherwise the deposit is
    /// handed back.
    pub open spec fn cancel_escrow(self, token: TokenView) -> Step {
        if !self.accepts(token) {
            self.declined(EscrowError::Unauthorized)
        } else if self.state != EscrowState::Open {
            self.declined(EscrowError::AlreadyFulfilled)
        } else {
            Step {
                next: EscrowView {
                    offered_resource: Holding::nothing(self.offered_resource.resource_address),
                    state: EscrowState::Cancelled,
                    ..self
                },
                outcome: Ok(self.offered_resource),
            }
        }
    }
}

} // verus!
