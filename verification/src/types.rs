//! Plain value types standing for the ledger identities and quantities that
//! the limit-order protocol reads: resource and component addresses, access
//! rules, decimal amounts, and the positional bucket / proof handles of a
//! manifest.
//!
//! Addresses and access rules are opaque to the protocol: it only compares
//! them for equality and carries them along. Each is therefore held as a
//! numeric identity; the surrounding application keeps the mapping between
//! these identities and the ledger's concrete encodings.

use vstd::prelude::*;

verus! {

/// A decimal quantity, held as its count of `10^(-18)` subunits.
///
/// The protocol only ever deals in non-negative quantities (amounts sold,
/// bought and paid as fees), so the count is unsigned.
#[derive(Clone, Copy, Debug, PartialEq, Eq, Structural)]
pub struct Decimal {
    pub subunits: u128,
}

impl Decimal {
    pub fn zero() -> (r: Decimal)
        ensures
            r.subunits == 0,
    {
        Decimal { subunits: 0 }
    }

    /// Relies on `radix_common::math::Decimal`'s multiplication: the
    /// subunit counts multiply and scale down by one whole unit, rounding
    /// toward zero; the result is absent exactly where the scaled product
    /// does not fit the subunit count.
    #[verifier::external_body]
    pub fn checked_mul(self, other: Decimal) -> (r: Option<Decimal>)
        ensures
            (self.subunits * other.subunits) / (DECIMAL_ONE_SUBUNITS as int) <= u128::MAX ==> r
                == Some(Decimal {
                subunits: ((self.subunits * other.subunits) / (DECIMAL_ONE_SUBUNITS as int)) as u128,
            }),
            (self.subunits * other.subunits) / (DECIMAL_ONE_SUBUNITS as int) > u128::MAX ==> r
                is None,
    {
        let a = radix_common::math::Decimal::from_attos(radix_common::math::I192::from(
            self.subunits,
        ));
        let b = radix_common::math::Decimal::from_attos(radix_common::math::I192::from(
            other.subunits,
        ));
        match radix_common::math::traits::CheckedMul::checked_mul(a, b) {
            Some(c) => match u128::try_from(c.attos()) {
                Ok(n) => Some(Decimal { subunits: n }),
                Err(_) => None,
            },
            None => None,
        }
    }

    /// Sum of two quantities, or `None` where the sum does not fit.
    pub fn checked_add(self, other: Decimal) -> (r: Option<Decimal>)
        ensures
            self.subunits + other.subunits <= u128::MAX ==> (r matches Some(d)
                && d.subunits == self.subunits + other.subunits),
            self.subunits + other.subunits > u128::MAX ==> r is None,
    {
        match self.subunits.checked_add(other.subunits) {
            Some(n) => Some(Decimal { subunits: n }),
            None => None,
        }
    }
}

/// One whole unit, as a count of `10^(-18)` subunits.
pub const DECIMAL_ONE_SUBUNITS: u128 = 1000000000000000000;

/// What parsing a decimal string yields, as a count of subunits, where the
/// value is non-negative and representable; parsing depends on the
/// characters alone.
pub uninterp spec fn decimal_from_text(s: Seq<char>) -> Option<u128>;

/// Relies on `radix_common::math::Decimal`'s string parsing: the parse is
/// a function of the characters alone. A string that does not parse, or
/// whose value is negative or beyond the subunit count, yields nothing.
#[verifier::external_body]
pub fn parse_decimal(s: &String) -> (r: Option<Decimal>)
    ensures
        r matches Some(d) ==> decimal_from_text(s@) == Some(d.subunits),
        r is None ==> decimal_from_text(s@) is None,
{
    match <radix_common::math::Decimal as core::str::FromStr>::from_str(s.as_str()) {
        Ok(d) => match u128::try_from(d.attos()) {
            Ok(n) => Some(Decimal { subunits: n }),
            Err(_) => None,
        },
        Err(_) => None,
    }
}

/// The global identity of a resource (a token) on the ledger.
#[derive(Clone, Copy, Debug, PartialEq, Eq, Structural)]
pub struct ResourceAddress {
    pub id: u64,
}

/// The global identity of a component; for this protocol, an account.
#[derive(Clone, Copy, Debug, PartialEq, Eq, Structural)]
pub struct ComponentAddress {
    pub id: u64,
}

/// The identity of any global entity a method call can target, together with
/// whether that entity is a global account. Accounts and other entities draw
/// from the same identity space, mirroring the ledger's single node space.
#[derive(Clone, Copy, Debug, PartialEq, Eq, Structural)]
pub struct GlobalAddress {
    pub id: u64,
    pub is_account: bool,
}

impl GlobalAddress {
    /// The global address of an account.
    pub open spec fn spec_of_account(account: ComponentAddress) -> GlobalAddress {
        GlobalAddress { id: account.id, is_account: true }
    }

    pub fn of_account(account: ComponentAddress) -> (r: GlobalAddress)
        ensures
            r == Self::spec_of_account(account),
    {
        GlobalAddress { id: account.id, is_account: true }
    }
}

/// An access predicate. The protocol never evaluates it; it only embeds it in
/// the parent gate and reads it back out, so an opaque identity suffices.
#[derive(Clone, Copy, Debug, PartialEq, Eq, Structural)]
pub struct AccessRule {
    pub id: u64,
}

/// A positional, single-use handle to resources taken from the worktop.
/// Handles are numbered in the order the bucket-creating instructions appear.
#[derive(Clone, Copy, Debug, PartialEq, Eq, Structural)]
pub struct ManifestBucket {
    pub index: u64,
}

/// A positional handle to a proof created within the manifest.
#[derive(Clone, Copy, Debug, PartialEq, Eq, Structural)]
pub struct ManifestProof {
    pub index: u64,
}

/// The identity of a non-fungible held under a resource.
#[derive(Clone, Copy, Debug, PartialEq, Eq, Structural)]
pub struct NonFungibleLocalId {
    pub id: u64,
}

} // verus!
