use escrow::bucket::all_distinct;
use escrow::Bucket;
use scrypto::prelude::Decimal;
use scrypto::prelude::I192;
use scrypto::prelude::NonFungibleLocalId;
use scrypto::prelude::ResourceAddress;

fn class(tag: u8) -> ResourceAddress {
    let mut raw = [tag; 30];
    raw[0] = 0b1001_1010;
    ResourceAddress::new_or_panic(raw)
}

fn id(n: u64) -> NonFungibleLocalId {
    NonFungibleLocalId::integer(n)
}

#[test]
fn new_bucket_holds_nothing() {
    let bucket = Bucket::new(class(1));
    assert_eq!(bucket.resource_address(), class(1));
    assert_eq!(bucket.amount(), Decimal::ZERO);
    assert!(bucket.is_empty());
    assert!(bucket.non_fungible_local_ids().is_empty());
}

#[test]
fn fungible_bucket_keeps_class_and_amount() {
    let amount = Decimal::from(7u32) + Decimal::ONE_ATTO;
    let bucket = Bucket::fungible(class(2), amount).expect("not negative");
    assert_eq!(bucket.resource_address(), class(2));
    assert_ne!(bucket.resource_address(), class(1));
    assert_eq!(bucket.amount(), amount);
    assert!(!bucket.is_empty());
    assert!(bucket.non_fungible_local_ids().is_empty());
}

#[test]
fn fungible_bucket_of_zero_is_empty() {
    let bucket = Bucket::fungible(class(2), Decimal::ZERO).expect("not negative");
    assert!(bucket.is_empty());
    assert_eq!(bucket.amount(), Decimal::ZERO);
}

#[test]
fn smallest_amount_is_not_empty() {
    let bucket = Bucket::fungible(class(2), Decimal::ONE_ATTO).expect("not negative");
    assert!(!bucket.is_empty());
}

#[test]
fn no_bucket_of_a_negative_amount() {
    assert!(Bucket::fungible(class(2), Decimal::ZERO - Decimal::ONE_ATTO).is_none());
    assert!(Bucket::fungible(class(2), Decimal::MIN).is_none());
    assert!(Bucket::fungible(class(2), Decimal::MAX).is_some());
}

#[test]
fn non_fungible_bucket_counts_its_items() {
    let bucket = Bucket::non_fungible(class(3), vec![id(5), id(1), id(9)]).expect("all different");
    assert_eq!(bucket.resource_address(), class(3));
    assert_eq!(bucket.amount(), Decimal::from(3u32));
    assert_eq!(bucket.non_fungible_local_ids(), &vec![id(5), id(1), id(9)]);
    assert!(!bucket.is_empty());
}

#[test]
fn non_fungible_bucket_without_items_is_empty() {
    let bucket = Bucket::non_fungible(class(3), Vec::new()).expect("nothing repeats");
    assert!(bucket.is_empty());
    assert_eq!(bucket.amount(), Decimal::ZERO);
}

#[test]
fn no_bucket_with_an_item_twice() {
    assert!(Bucket::non_fungible(class(3), vec![id(1), id(2), id(1)]).is_none());
    assert!(Bucket::non_fungible(class(3), vec![id(4), id(4)]).is_none());
}

#[test]
fn bucket_finds_the_items_it_holds() {
    let bucket = Bucket::non_fungible(class(3), vec![id(5), id(1), id(9)]).expect("all different");
    assert!(bucket.contains_non_fungible(&id(5)));
    assert!(bucket.contains_non_fungible(&id(1)));
    assert!(bucket.contains_non_fungible(&id(9)));
    assert!(!bucket.contains_non_fungible(&id(2)));
    assert!(!Bucket::new(class(3)).contains_non_fungible(&id(5)));
}

#[test]
fn items_of_different_kinds_are_different() {
    let text = NonFungibleLocalId::string("1").expect("a valid name");
    let bytes = NonFungibleLocalId::bytes(vec![1u8]).expect("valid bytes");
    let bucket = Bucket::non_fungible(class(3), vec![id(1), text.clone(), bytes.clone()])
        .expect("all different");
    assert_eq!(bucket.amount(), Decimal::from(3u32));
    assert!(bucket.contains_non_fungible(&text));
    assert!(bucket.contains_non_fungible(&bytes));
    assert!(!bucket.contains_non_fungible(&NonFungibleLocalId::string("2").expect("a valid name")));
}

#[test]
fn distinctness_is_decided_for_every_pair() {
    assert!(all_distinct(&Vec::new()));
    assert!(all_distinct(&vec![id(1)]));
    assert!(all_distinct(&vec![id(1), id(2), id(3)]));
    assert!(!all_distinct(&vec![id(1), id(1)]));
    assert!(!all_distinct(&vec![id(1), id(2), id(3), id(2)]));
    assert!(!all_distinct(&vec![id(3), id(2), id(1), id(3)]));
}

#[test]
fn every_item_counts_as_one_whole_unit() {
    let bucket = Bucket::non_fungible(class(3), vec![id(5), id(1), id(9)]).expect("all different");
    assert_eq!(bucket.amount().attos(), I192::from(3_000_000_000_000_000_000u64));
    let one = Bucket::non_fungible(class(3), vec![id(5)]).expect("all different");
    assert_eq!(one.amount().attos(), I192::from(1_000_000_000_000_000_000u64));
    assert_eq!(Bucket::new(class(3)).amount().attos(), I192::from(0u64));
}

#[test]
fn fungible_amount_is_kept_to_the_last_subunit() {
    let amount = Decimal::from_attos(I192::from(1_234_567_890_123_456_789u64));
    let bucket = Bucket::fungible(class(2), amount).expect("not negative");
    assert_eq!(bucket.amount().attos(), I192::from(1_234_567_890_123_456_789u64));
}
