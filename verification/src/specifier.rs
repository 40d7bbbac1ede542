//! What a depositor asks for in return, and the record that a claim token
//! carries.

use crate::bucket::Bucket;
use crate::bucket::Holding;
use crate::error::MismatchKind;
use crate::ledger::amount_is_positive;
use crate::ledger::copy_local_id;
use crate::ledger::decimal_attos;
use crate::ledger::same_amount;
use crate::ledger::same_resource;
use scrypto::prelude::Decimal;
use scrypto::prelude::NonFungibleLocalId;
use scrypto::prelude::ResourceAddress;
use vstd::prelude::*;

verus! {

/// A wanted asset: either a quantity of a class, or one unique item of a
/// class.
#[derive(Debug)]
pub enum ResourceSpecifier {
    Fungible { resource_address: ResourceAddress, amount: Decimal },
    NonFungible { resource_address: ResourceAddress, non_fungible_local_id: NonFungibleLocalId },
}

impl ResourceSpecifier {
    /// The asset class that is asked for.
    pub open spec fn resource_address(self) -> ResourceAddress {
        match self {
            ResourceSpecifier::Fungible { resource_address, .. } => resource_address,
            ResourceSpecifier::NonFungible { resource_address, .. } => resource_address,
        }
    }

    /// A quantity that is asked for must be strictly positive; a unique item
    /// can always be asked for.
    pub open spec fn valid(self) -> bool {
        match self {
            ResourceSpecifier::Fungible { amount, .. } => decimal_attos(amount) > 0,
            ResourceSpecifier::NonFungible { .. } => true,
        }
    }

    /// In what respect `payment` fails to be what is asked for, if in any.
    /// A quantity must be paid exactly; a unique item must be among the
    /// items paid.
    pub open spec fn mismatch(self, payment: Holding) -> Option<MismatchKind> {
        match self {
            ResourceSpecifier::Fungible { resource_address, amount } => {
                if payment.resource_address != resource_address {
                    Some(MismatchKind::Class)
                } else if payment.attos != decimal_attos(amount) {
                    Some(MismatchKind::Amount)
                } else {
                    None
                }
            },
            ResourceSpecifier::NonFungible { resource_address, non_fungible_local_id } => {
                if payment.resource_address != resource_address {
                    Some(MismatchKind::Class)
                } else if !payment.ids.contains(non_fungible_local_id) {
                    Some(MismatchKind::Identity)
                } else {
                    None
                }
            },
        }
    }

    pub fn get_resource_address(&self) -> (address: ResourceAddress)
        ensures
            address == self.resource_address(),
    {
        match self {
            Self::Fungible { resource_address, .. }
            | Self::NonFungible { resource_address, .. } => *resource_address,
        }
    }

    pub fn is_valid(&self) -> (ok: bool)
        ensures
            ok == self.valid(),
    {
        match self {
            Self::Fungible { amount, .. } => amount_is_positive(amount),
            Self::NonFungible { .. } => true,
        }
    }

    /// Holds `payment` against what is asked for.
    pub fn check_payment(&self, payment: &Bucket) -> (found: Option<MismatchKind>)
        ensures
            found == self.mismatch(payment@),
    {
        let paid_address = payment.resource_address();
        match self {
            Self::Fungible { resource_address, amount } => {
                if !same_resource(&paid_address, resource_address) {
                    Some(MismatchKind::Class)
                } else if !same_amount(&payment.amount(), amount) {
                    Some(MismatchKind::Amount)
                } else {
                    None
                }
            },
            Self::NonFungible { resource_address, non_fungible_local_id } => {
                if !same_resource(&paid_address, resource_address) {
                    Some(MismatchKind::Class)
                } else if !payment.contains_non_fungible(non_fungible_local_id) {
                    Some(MismatchKind::Identity)
                } else {
                    None
                }
            },
        }
    }
}

impl Clone for ResourceSpecifier {
    fn clone(&self) -> (copy: ResourceSpecifier)
        ensures
            copy == *self,
    {
        match self {
            Self::Fungible { resource_address, amount } => Self::Fungible {
                resource_address: *resource_address,
                amount: *amount,
            },
            Self::NonFungible { resource_address, non_fungible_local_id } => Self::NonFungible {
                resource_address: *resource_address,
                non_fungible_local_id: copy_local_id(non_fungible_local_id),
            },
        }
    }
}

/// The record attached to a claim token: the class of the asset that was
/// deposited when the token was issued.
#[derive(Debug)]
pub struct EscrowBadge {
    offered_resource: ResourceAddress,
}

impl View for EscrowBadge {
    type V = ResourceAddress;

    closed spec fn view(&self) -> ResourceAddress {
        self.offered_resource
    }
}

impl EscrowBadge {
    pub fn new(offered_resource: ResourceAddress) -> (badge: EscrowBadge)
        ensures
            badge@ == offered_resource,
    {
        EscrowBadge { offered_resource }
    }

    pub fn offered_resource(&self) -> (address: ResourceAddress)
        ensures
            address == self@,
    {
        self.offered_resource
    }
}

} // verus!
