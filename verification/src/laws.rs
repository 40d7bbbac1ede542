//! What holds of the custodian over whole sequences of operations.

use crate::bucket::Holding;
use crate::error::EscrowError;
use crate::error::MismatchKind;
use crate::ledger::decimal_attos;
use crate::model::EscrowState;
use crate::model::EscrowView;
use crate::model::TokenView;
use crate::specifier::ResourceSpecifier;
use scrypto::prelude::NonFungibleLocalId;
use scrypto::prelude::ResourceAddress;
use vstd::prelude::*;

verus! {

/// A newly opened offer is well formed, and every operation, accepted or
/// declined, leaves a well-formed custodian well formed.
pub proof fn law_operations_keep_well_formed(
    escrow: EscrowView,
    payment: Holding,
    token: TokenView,
    requested_resource: ResourceSpecifier,
    offered_resource: Holding,
    escrow_nft: ResourceAddress,
    escrow_nft_id: NonFungibleLocalId,
)
    requires
        escrow.wf(),
        payment.wf(),
        offered_resource.wf(),
    ensures
        EscrowView::instantiate_refusal(requested_resource, offered_resource) is None
            ==> EscrowView::instantiate_escrow(
            requested_resource,
            offered_resource,
            escrow_nft,
            escrow_nft_id,
        ).wf(),
        escrow.exchange(payment).next.wf(),
        escrow.withdraw_resource(token).next.wf(),
        escrow.cancel_escrow(token).next.wf(),
{
}

/// A well-formed custodian never holds the deposit and a payment at once:
/// while the offer is open it holds the deposit, once it is fulfilled it
/// holds the payment, and afterwards it holds nothing.
pub proof fn law_single_custody(escrow: EscrowView)
    requires
        escrow.wf(),
    ensures
        escrow.offered_resource.is_empty() || escrow.requested_resource_vault.is_empty(),
        !escrow.offered_resource.is_empty() <==> escrow.state == EscrowState::Open,
        !escrow.requested_resource_vault.is_empty() <==> escrow.state == EscrowState::Fulfilled,
{
    if escrow.state == EscrowState::Fulfilled {
        lemma_payment_is_not_empty(escrow.requested_resource, escrow.requested_resource_vault);
    }
}

/// A well-formed holding that pays a valid request holds something.
pub proof fn lemma_payment_is_not_empty(requested_resource: ResourceSpecifier, payment: Holding)
    requires
        requested_resource.valid(),
        payment.wf(),
        requested_resource.mismatch(payment) is None,
    ensures
        !payment.is_empty(),
{
    match requested_resource {
        ResourceSpecifier::Fungible { .. } => {},
        ResourceSpecifier::NonFungible { non_fungible_local_id, .. } => {
            assert(payment.ids.contains(non_fungible_local_id));
            assert(payment.ids.len() > 0);
        },
    }
}

/// An operation that is declined leaves the custodian exactly as it was.
pub proof fn law_declined_changes_nothing(escrow: EscrowView, payment: Holding, token: TokenView)
    ensures
        escrow.exchange(payment).outcome is Err ==> escrow.exchange(payment).next == escrow,
        escrow.withdraw_resource(token).outcome is Err ==> escrow.withdraw_resource(token).next
            == escrow,
        escrow.cancel_escrow(token).outcome is Err ==> escrow.cancel_escrow(token).next == escrow,
{
}

/// Opening an offer and cancelling it at once with the token that was
/// issued gives back exactly what was deposited; cancelling again is
/// declined, with the same token because the offer is no longer open.
pub proof fn law_cancel_returns_deposit(
    requested_resource: ResourceSpecifier,
    offered_resource: Holding,
    escrow_nft: ResourceAddress,
    escrow_nft_id: NonFungibleLocalId,
    later_token: TokenView,
)
    requires
        requested_resource.valid(),
        offered_resource.wf(),
        !offered_resource.is_empty(),
    ensures
        EscrowView::instantiate_refusal(requested_resource, offered_resource) is None,
        ({
            let opened = EscrowView::instantiate_escrow(
                requested_resource,
                offered_resource,
                escrow_nft,
                escrow_nft_id,
            );
            let token = opened.issued_token();
            let cancelled = opened.cancel_escrow(token);
            &&& cancelled.outcome == Ok::<Holding, EscrowError>(offered_resource)
            &&& cancelled.next.state == EscrowState::Cancelled
            &&& cancelled.next.cancel_escrow(token).outcome == Err::<Holding, EscrowError>(
                EscrowError::AlreadyFulfilled,
            )
            &&& cancelled.next.cancel_escrow(later_token).outcome is Err
        }),
{
}

/// On an open offer a payment of what was asked for is accepted, and
/// collecting with the right token then gives back exactly that payment;
/// collecting again is declined, with the same token because the payment
/// has already been collected.
pub proof fn law_withdraw_returns_payment(
    escrow: EscrowView,
    payment: Holding,
    token: TokenView,
    later_token: TokenView,
)
    requires
        escrow.requested_resource.mismatch(payment) is None,
        escrow.state == EscrowState::Open,
        escrow.accepts(token),
    ensures
        ({
            let paid = escrow.exchange(payment);
            let collected = paid.next.withdraw_resource(token);
            &&& paid.outcome == Ok::<Holding, EscrowError>(escrow.offered_resource)
            &&& paid.next.state == EscrowState::Fulfilled
            &&& collected.outcome == Ok::<Holding, EscrowError>(payment)
            &&& collected.next.state == EscrowState::Closed
            &&& collected.next.withdraw_resource(token).outcome == Err::<Holding, EscrowError>(
                EscrowError::AlreadyWithdrawn,
            )
            &&& collected.next.withdraw_resource(later_token).outcome is Err
        }),
{
}

/// A payment of another class, of a quantity other than the one asked for
/// (too little or too much), or without the unique item asked for, is
/// declined as a mismatch in every state, and nothing changes.
pub proof fn law_mismatch_changes_nothing(escrow: EscrowView, payment: Holding)
    ensures
        escrow.requested_resource.mismatch(payment) matches Some(kind) ==> escrow.exchange(payment)
            == escrow.declined(EscrowError::ResourceMismatch(kind)),
        payment.resource_address != escrow.requested_resource.resource_address()
            ==> escrow.requested_resource.mismatch(payment) == Some(MismatchKind::Class),
        escrow.requested_resource matches ResourceSpecifier::Fungible { resource_address, amount }
            ==> (payment.resource_address == resource_address && payment.attos != decimal_attos(
            amount,
        ) ==> escrow.requested_resource.mismatch(payment) == Some(MismatchKind::Amount)),
        escrow.requested_resource matches ResourceSpecifier::NonFungible {
            resource_address,
            non_fungible_local_id,
        } ==> (payment.resource_address == resource_address && !payment.ids.contains(
            non_fungible_local_id,
        ) ==> escrow.requested_resource.mismatch(payment) == Some(MismatchKind::Identity)),
{
}

/// The claim token of another offer is declined as unauthorized by both
/// operations that take a token, in every state, and nothing changes. The
/// ledger issues every offer a token of its own: the two offers differ in
/// the class or in the identifier of their token.
pub proof fn law_foreign_token_is_refused(escrow: EscrowView, other: EscrowView, token: TokenView)
    requires
        other.accepts(token),
        escrow.escrow_nft != other.escrow_nft || escrow.escrow_nft_id != other.escrow_nft_id,
    ensures
        escrow.cancel_escrow(token) == escrow.declined(EscrowError::Unauthorized),
        escrow.withdraw_resource(token) == escrow.declined(EscrowError::Unauthorized),
{
}

/// Once an offer has left the open state it never returns to it, and
/// neither a payment nor a cancellation is accepted any more.
pub proof fn law_settled_offers_stay_settled(escrow: EscrowView, payment: Holding, token: TokenView)
    requires
        escrow.state != EscrowState::Open,
    ensures
        escrow.exchange(payment).outcome is Err,
        escrow.cancel_escrow(token).outcome is Err,
        escrow.exchange(payment).next.state != EscrowState::Open,
        escrow.withdraw_resource(token).next.state != EscrowState::Open,
        escrow.cancel_escrow(token).next.state != EscrowState::Open,
{
}

} // verus!
