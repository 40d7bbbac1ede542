//! The value types of the asset ledger, as far as the custodian reads them.
//!
//! Asset classes, quantities and unique item identifiers are the ledger's own
//! types. Nothing here is proved: each item states what the ledger's code is
//! taken to do, and the rest of the crate is verified against these
//! statements.

use scrypto::prelude::Decimal;
use scrypto::prelude::NonFungibleLocalId;
use scrypto::prelude::ResourceAddress;
use vstd::prelude::*;

verus! {

/// `scrypto::prelude::ResourceAddress`: the identifier of an asset class.
/// Carried through as an opaque value.
#[verifier::external_type_specification]
#[verifier::external_body]
pub struct ExResourceAddress(scrypto::prelude::ResourceAddress);

/// `scrypto::prelude::Decimal`: a fixed-scale quantity, an integer number of
/// subunits of `10^-18`. Carried through as an opaque value.
#[verifier::external_type_specification]
#[verifier::external_body]
pub struct ExDecimal(scrypto::prelude::Decimal);

/// `scrypto::prelude::NonFungibleLocalId`: the identifier of one unique item
/// within its asset class. Carried through as an opaque value.
#[verifier::external_type_specification]
#[verifier::external_body]
pub struct ExNonFungibleLocalId(scrypto::prelude::NonFungibleLocalId);

/// The number of `10^-18` subunits that a quantity holds (`Decimal::attos`).
pub uninterp spec fn decimal_attos(d: Decimal) -> int;

/// The number of subunits in `n` whole units.
pub open spec fn whole_units(n: nat) -> int {
    n as int * 1_000_000_000_000_000_000
}

/// `ResourceAddress::eq`: two addresses compare equal exactly when they are
/// the same address (the comparison is bytewise over the whole value).
#[verifier::external_body]
pub(crate) fn same_resource(a: &ResourceAddress, b: &ResourceAddress) -> (r: bool)
    ensures
        r == (*a == *b),
{
    a == b
}

/// `NonFungibleLocalId::eq`: two identifiers compare equal exactly when they
/// are the same identifier (same kind, same content).
#[verifier::external_body]
pub(crate) fn same_local_id(a: &NonFungibleLocalId, b: &NonFungibleLocalId) -> (r: bool)
    ensures
        r == (*a == *b),
{
    a == b
}

/// `NonFungibleLocalId::clone`: the copy is the same identifier.
#[verifier::external_body]
pub(crate) fn copy_local_id(id: &NonFungibleLocalId) -> (r: NonFungibleLocalId)
    ensures
        r == *id,
{
    id.clone()
}

/// `Decimal::eq`: two quantities compare equal exactly when they hold the
/// same number of subunits.
#[verifier::external_body]
pub(crate) fn same_amount(a: &Decimal, b: &Decimal) -> (r: bool)
    ensures
        r == (decimal_attos(*a) == decimal_attos(*b)),
{
    a == b
}

/// `Decimal::is_zero`: whether the quantity holds no subunit.
#[verifier::external_body]
pub(crate) fn amount_is_zero(d: &Decimal) -> (r: bool)
    ensures
        r == (decimal_attos(*d) == 0),
{
    d.is_zero()
}

/// `Decimal::is_positive`: whether the quantity is strictly above zero.
#[verifier::external_body]
pub(crate) fn amount_is_positive(d: &Decimal) -> (r: bool)
    ensures
        r == (decimal_attos(*d) > 0),
{
    d.is_positive()
}

/// `Decimal::from` on a `usize`: the quantity of that many whole units. The
/// product with `10^18` is far inside the 192 bits of a `Decimal`.
#[verifier::external_body]
pub(crate) fn amount_of_units(n: usize) -> (r: Decimal)
    ensures
        decimal_attos(r) == whole_units(n as nat),
{
    Decimal::from(n)
}

} // verus!
