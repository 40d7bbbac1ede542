use escrow::Bucket;
use escrow::ClaimToken;
use escrow::Escrow;
use escrow::EscrowBadge;
use escrow::EscrowError;
use escrow::EscrowState;
use escrow::MismatchKind;
use escrow::ResourceSpecifier;
use scrypto::prelude::Decimal;
use scrypto::prelude::NonFungibleLocalId;
use scrypto::prelude::ResourceAddress;

fn fungible_class(tag: u8) -> ResourceAddress {
    let mut raw = [tag; 30];
    raw[0] = 0b0101_1101;
    ResourceAddress::new_or_panic(raw)
}

fn unique_class(tag: u8) -> ResourceAddress {
    let mut raw = [tag; 30];
    raw[0] = 0b1001_1010;
    ResourceAddress::new_or_panic(raw)
}

fn units(class: ResourceAddress, n: u32) -> Bucket {
    Bucket::fungible(class, Decimal::from(n)).expect("a quantity that is not negative")
}

fn items(class: ResourceAddress, ids: &[u64]) -> Bucket {
    let ids: Vec<NonFungibleLocalId> = ids.iter().map(|n| NonFungibleLocalId::integer(*n)).collect();
    Bucket::non_fungible(class, ids).expect("items that are all different")
}

fn open(requested: ResourceSpecifier, offered: Bucket, serial: u64) -> (Escrow, ClaimToken) {
    match Escrow::instantiate_escrow(
        requested,
        offered,
        unique_class(0xee),
        NonFungibleLocalId::integer(serial),
    ) {
        Ok(pair) => pair,
        Err(refused) => panic!("the offer was declined: {:?}", refused.error),
    }
}

#[test]
fn deposit_is_paid_for_and_payment_collected() {
    let a = fungible_class(1);
    let b = fungible_class(2);
    let asked = ResourceSpecifier::Fungible { resource_address: b, amount: Decimal::from(50u32) };
    let (mut escrow, token) = open(asked, units(a, 100), 7);
    assert_eq!(escrow.state(), EscrowState::Open);
    assert_eq!(token.data().offered_resource(), a);

    let refused = escrow.exchange(units(b, 60)).err().expect("too much is declined");
    assert_eq!(refused.error, EscrowError::ResourceMismatch(MismatchKind::Amount));
    assert_eq!(refused.returned.resource_address(), b);
    assert_eq!(refused.returned.amount(), Decimal::from(60u32));
    assert_eq!(escrow.state(), EscrowState::Open);
    assert_eq!(escrow.offered_resource().amount(), Decimal::from(100u32));
    assert!(escrow.requested_resource_vault().is_empty());

    let released = escrow.exchange(units(b, 50)).ok().expect("the exact payment is accepted");
    assert_eq!(released.resource_address(), a);
    assert_eq!(released.amount(), Decimal::from(100u32));
    assert_eq!(escrow.state(), EscrowState::Fulfilled);
    assert!(escrow.offered_resource().is_empty());
    assert_eq!(escrow.requested_resource_vault().amount(), Decimal::from(50u32));

    let collected = escrow.withdraw_resource(token).ok().expect("the token collects");
    assert_eq!(collected.resource_address(), b);
    assert_eq!(collected.amount(), Decimal::from(50u32));
    assert_eq!(escrow.state(), EscrowState::Closed);
    assert!(escrow.requested_resource_vault().is_empty());
}

#[test]
fn unique_item_is_reclaimed_and_offer_is_dead() {
    let class = unique_class(3);
    let asked = ResourceSpecifier::NonFungible {
        resource_address: class,
        non_fungible_local_id: NonFungibleLocalId::integer(2),
    };
    let (mut escrow, token) = open(asked, items(class, &[1]), 9);

    let reclaimed = escrow.cancel_escrow(token).ok().expect("the token cancels");
    assert_eq!(reclaimed.resource_address(), class);
    assert_eq!(reclaimed.non_fungible_local_ids(), &vec![NonFungibleLocalId::integer(1)]);
    assert_eq!(reclaimed.amount(), Decimal::from(1u32));
    assert_eq!(escrow.state(), EscrowState::Cancelled);
    assert!(escrow.offered_resource().is_empty());

    let refused = escrow.exchange(items(class, &[2])).err().expect("a dead offer takes nothing");
    assert_eq!(refused.error, EscrowError::AlreadyFulfilled);
    assert_eq!(refused.returned.non_fungible_local_ids(), &vec![NonFungibleLocalId::integer(2)]);
    assert_eq!(escrow.state(), EscrowState::Cancelled);
    assert!(escrow.requested_resource_vault().is_empty());

    let again = ClaimToken::new(
        escrow.escrow_nft(),
        NonFungibleLocalId::integer(9),
        EscrowBadge::new(class),
    );
    let refused = escrow.cancel_escrow(again).err().expect("nothing is left to cancel");
    assert_eq!(refused.error, EscrowError::AlreadyFulfilled);
}
