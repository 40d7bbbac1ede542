//! Containers of assets: the bucket that changes hands, and the vault in
//! which the custodian keeps what it holds.

use crate::ledger::amount_is_positive;
use crate::ledger::amount_is_zero;
use crate::ledger::amount_of_units;
use crate::ledger::decimal_attos;
use crate::ledger::same_local_id;
use crate::ledger::whole_units;
use scrypto::prelude::Decimal;
use scrypto::prelude::NonFungibleLocalId;
use scrypto::prelude::ResourceAddress;
use vstd::prelude::*;

verus! {

/// What a container holds: assets of one class, as a quantity in subunits
/// and, for a class of unique items, the items themselves.
pub struct Holding {
    pub resource_address: ResourceAddress,
    pub attos: int,
    pub ids: Seq<NonFungibleLocalId>,
}

impl Holding {
    /// A quantity is never negative, no item occurs twice, and where there
    /// are items the quantity counts them.
    pub open spec fn wf(self) -> bool {
        &&& self.attos >= 0
        &&& self.ids.no_duplicates()
        &&& self.ids.len() > 0 ==> self.attos == whole_units(self.ids.len())
    }

    pub open spec fn is_empty(self) -> bool {
        self.attos == 0
    }

    /// The holding of a container of class `resource_address` with nothing
    /// in it.
    pub open spec fn nothing(resource_address: ResourceAddress) -> Holding {
        Holding { resource_address, attos: 0, ids: Seq::empty() }
    }
}

/// Whether no identifier occurs twice in `ids`.
pub fn all_distinct(ids: &Vec<NonFungibleLocalId>) -> (distinct: bool)
    ensures
        distinct == ids@.no_duplicates(),
{
    let mut i: usize = 0;
    while i < ids.len()
        invariant
            i <= ids.len(),
            forall|a: int, b: int| 0 <= b < a < i ==> ids@[a] != ids@[b],
        decreases ids.len() - i,
    {
        let mut j: usize = 0;
        while j < i
            invariant
                j <= i < ids.len(),
                forall|b: int| 0 <= b < j ==> ids@[i as int] != ids@[b],
            decreases i - j,
        {
            if same_local_id(&ids[i], &ids[j]) {
                return false;
            }
            j += 1;
        }
        i += 1;
    }
    assert forall|a: int, b: int| 0 <= a < ids@.len() && 0 <= b < ids@.len() && a != b implies ids@[a]
        != ids@[b] by {
        if a < b {
            assert(ids@[b] != ids@[a]);
        }
    }
    true
}

/// A quantity of assets of one class, moved as a whole.
#[derive(Debug)]
pub struct Bucket {
    resource_address: ResourceAddress,
    amount: Decimal,
    non_fungible_local_ids: Vec<NonFungibleLocalId>,
}

impl View for Bucket {
    type V = Holding;

    closed spec fn view(&self) -> Holding {
        Holding {
            resource_address: self.resource_address,
            attos: decimal_attos(self.amount),
            ids: self.non_fungible_local_ids@,
        }
    }
}

impl Bucket {
    /// Every bucket holds a well-formed holding.
    #[verifier::type_invariant]
    pub open spec fn inv(&self) -> bool {
        self@.wf()
    }

    /// An empty bucket of the given class.
    pub fn new(resource_address: ResourceAddress) -> (bucket: Bucket)
        ensures
            bucket@ == Holding::nothing(resource_address),
    {
        Bucket { resource_address, amount: amount_of_units(0), non_fungible_local_ids: Vec::new() }
    }

    /// A bucket of `amount` of a class; there is none of a negative amount.
    pub fn fungible(resource_address: ResourceAddress, amount: Decimal) -> (made: Option<Bucket>)
        ensures
            made is Some <==> decimal_attos(amount) >= 0,
            made matches Some(bucket) ==> bucket@ == (Holding {
                resource_address,
                attos: decimal_attos(amount),
                ids: Seq::empty(),
            }),
    {
        if amount_is_zero(&amount) || amount_is_positive(&amount) {
            Some(Bucket { resource_address, amount, non_fungible_local_ids: Vec::new() })
        } else {
            None
        }
    }

    /// A bucket of the given unique items of a class; there is none that
    /// holds an item twice.
    pub fn non_fungible(resource_address: ResourceAddress, ids: Vec<NonFungibleLocalId>) -> (made:
        Option<Bucket>)
        ensures
            made is Some <==> ids@.no_duplicates(),
            made matches Some(bucket) ==> bucket@ == (Holding {
                resource_address,
                attos: whole_units(ids@.len()),
                ids: ids@,
            }),
    {
        if all_distinct(&ids) {
            let amount = amount_of_units(ids.len());
            Some(Bucket { resource_address, amount, non_fungible_local_ids: ids })
        } else {
            None
        }
    }

    pub fn resource_address(&self) -> (address: ResourceAddress)
        ensures
            address == self@.resource_address,
    {
        self.resource_address
    }

    pub fn amount(&self) -> (amount: Decimal)
        ensures
            decimal_attos(amount) == self@.attos,
    {
        self.amount
    }

    pub fn non_fungible_local_ids(&self) -> (ids: &Vec<NonFungibleLocalId>)
        ensures
            ids@ == self@.ids,
    {
        &self.non_fungible_local_ids
    }

    pub fn is_empty(&self) -> (empty: bool)
        ensures
            empty == self@.is_empty(),
    {
        amount_is_zero(&self.amount)
    }

    /// Whether the unique item `id` is in the bucket.
    pub fn contains_non_fungible(&self, id: &NonFungibleLocalId) -> (found: bool)
        ensures
            found == self@.ids.contains(*id),
    {
        let mut i: usize = 0;
        while i < self.non_fungible_local_ids.len()
            invariant
                i <= self.non_fungible_local_ids.len(),
                forall|k: int| 0 <= k < i ==> self.non_fungible_local_ids@[k] != *id,
            decreases self.non_fungible_local_ids.len() - i,
        {
            if same_local_id(&self.non_fungible_local_ids[i], id) {
                return true;
            }
            i += 1;
        }
        false
    }
}

/// The custodian's own container: it takes a bucket only while it holds
/// nothing, and is emptied as a whole.
#[derive(Debug)]
pub struct Vault {
    contents: Bucket,
}

impl View for Vault {
    type V = Holding;

    closed spec fn view(&self) -> Holding {
        self.contents@
    }
}

impl Vault {
    /// Every vault holds a well-formed holding.
    #[verifier::type_invariant]
    pub open spec fn inv(&self) -> bool {
        self@.wf()
    }

    /// A vault that holds what `bucket` held.
    pub(crate) fn with_bucket(bucket: Bucket) -> (vault: Vault)
        ensures
            vault@ == bucket@,
    {
        proof {
            use_type_invariant(&bucket);
        }
        Vault { contents: bucket }
    }

    /// An empty vault for assets of the given class.
    pub(crate) fn new(resource_address: ResourceAddress) -> (vault: Vault)
        ensures
            vault@ == Holding::nothing(resource_address),
    {
        Vault { contents: Bucket::new(resource_address) }
    }

    /// Moves `bucket` into the vault, which holds nothing yet.
    pub(crate) fn put(&mut self, bucket: Bucket)
        requires
            old(self)@.is_empty(),
            bucket@.resource_address == old(self)@.resource_address,
        ensures
            final(self)@ == bucket@,
    {
        proof {
            use_type_invariant(&bucket);
        }
        self.contents = bucket;
    }

    /// Moves everything out of the vault.
    pub(crate) fn take_all(&mut self) -> (taken: Bucket)
        ensures
            taken@ == old(self)@,
            final(self)@ == Holding::nothing(old(self)@.resource_address),
    {
        let mut taken = Bucket::new(self.contents.resource_address);
        core::mem::swap(&mut self.contents, &mut taken);
        taken
    }

    pub fn resource_address(&self) -> (address: ResourceAddress)
        ensures
            address == self@.resource_address,
    {
        self.contents.resource_address()
    }

    pub fn amount(&self) -> (amount: Decimal)
        ensures
            decimal_attos(amount) == self@.attos,
    {
        self.contents.amount()
    }

    pub fn non_fungible_local_ids(&self) -> (ids: &Vec<NonFungibleLocalId>)
        ensures
            ids@ == self@.ids,
    {
        self.contents.non_fungible_local_ids()
    }

    pub fn is_empty(&self) -> (empty: bool)
        ensures
            empty == self@.is_empty(),
    {
        self.contents.is_empty()
    }
}

} // verus!
