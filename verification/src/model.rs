//! Configuration and account data fetched once per session from the trading
//! service, held read-only thereafter: the gating rule to embed, the table
//! from token symbols to resource identities, the per-resource settlement
//! fee, the per-tier venue fee, and the credit-mint configuration.
//!
//! Tables are held as ordered entry lists; a lookup takes the first entry
//! with the wanted key, and every lookup has a spec function stating exactly
//! that. The service's tables carry each symbol at most once; should a
//! response ever repeat one, the earliest row deliberately wins every
//! lookup.

use vstd::prelude::*;
use crate::types::{AccessRule, ComponentAddress, Decimal, NonFungibleLocalId, ResourceAddress};

verus! {

/// One row of the symbol table: a token symbol and its resource identity.
#[derive(Clone, Debug)]
pub struct TokenResource {
    pub symbol: String,
    pub resource: ResourceAddress,
}

/// One row of the settlement-fee table: a token symbol and the flat fee
/// charged for settling in it.
#[derive(Clone, Debug)]
pub struct SymbolFee {
    pub symbol: String,
    pub amount: Decimal,
}

/// A quantity of a token named by its symbol, as in a balance listing.
#[derive(Clone, Debug)]
pub struct SymbolAmount {
    pub symbol: String,
    pub amount: Decimal,
}

/// The venue's fees for one account tier.
#[derive(Clone, Copy, Debug, PartialEq, Eq, Structural)]
pub struct AnthicLevelFee {
    pub taker_fee: Decimal,
    pub maker_fee: Decimal,
}

/// The trading venue's static configuration.
#[derive(Clone, Debug)]
pub struct AnthicConfig {
    /// The gating rule every order embeds, proving that the venue inspected
    /// the fragment before it may commit.
    pub verify_parent_access_rule: AccessRule,
    /// The table from token symbols to resource identities.
    pub symbol_to_resource: Vec<TokenResource>,
    /// The flat settlement fee for each sellable token symbol.
    pub settlement_fee_per_resource: Vec<SymbolFee>,
    /// The venue fee for each account tier, indexed by tier.
    pub anthic_fee_per_level: Vec<AnthicLevelFee>,
}

/// The resource recorded for a symbol: the first table row carrying it.
pub open spec fn spec_resource_for(entries: Seq<TokenResource>, symbol: Seq<char>) -> Option<
    ResourceAddress,
>
    decreases entries.len(),
{
    if entries.len() == 0 {
        None
    } else if entries[0].symbol@ == symbol {
        Some(entries[0].resource)
    } else {
        spec_resource_for(entries.drop_first(), symbol)
    }
}

/// The settlement fee recorded for a symbol: the first table row carrying
/// it.
pub open spec fn spec_settlement_fee_for(entries: Seq<SymbolFee>, symbol: Seq<char>) -> Option<
    Decimal,
>
    decreases entries.len(),
{
    if entries.len() == 0 {
        None
    } else if entries[0].symbol@ == symbol {
        Some(entries[0].amount)
    } else {
        spec_settlement_fee_for(entries.drop_first(), symbol)
    }
}

impl AnthicConfig {
    /// The resource identity a symbol stands for, if the table knows it.
    pub fn resource_for(&self, symbol: &String) -> (r: Option<ResourceAddress>)
        ensures
            r == spec_resource_for(self.symbol_to_resource@, symbol@),
    {
        let entries = &self.symbol_to_resource;
        let n = entries.len();
        let mut i: usize = 0;
        proof {
            assert(entries@.skip(0) =~= entries@);
        }
        while i < n
            invariant
                n == entries@.len(),
                i <= n,
                spec_resource_for(entries@.skip(i as int), symbol@) == spec_resource_for(
                    entries@,
                    symbol@,
                ),
            decreases n - i,
        {
            proof {
                assert(entries@.skip(i as int)[0] == entries@[i as int]);
                assert(entries@.skip(i as int).drop_first() =~= entries@.skip(i + 1 as int));
            }
            if entries[i].symbol == *symbol {
                proof {
                    assert(spec_resource_for(entries@.skip(i as int), symbol@) == Some(
                        entries@[i as int].resource,
                    ));
                }
                return Some(entries[i].resource);
            }
            i = i + 1;
        }
        None
    }

    /// The flat settlement fee for a symbol, if the table knows it.
    pub fn settlement_fee_for(&self, symbol: &String) -> (r: Option<Decimal>)
        ensures
            r == spec_settlement_fee_for(self.settlement_fee_per_resource@, symbol@),
    {
        let entries = &self.settlement_fee_per_resource;
        let n = entries.len();
        let mut i: usize = 0;
        proof {
            assert(entries@.skip(0) =~= entries@);
        }
        while i < n
            invariant
                n == entries@.len(),
                i <= n,
                spec_settlement_fee_for(entries@.skip(i as int), symbol@)
                    == spec_settlement_fee_for(entries@, symbol@),
            decreases n - i,
        {
            proof {
                assert(entries@.skip(i as int)[0] == entries@[i as int]);
                assert(entries@.skip(i as int).drop_first() =~= entries@.skip(i + 1 as int));
            }
            if entries[i].symbol == *symbol {
                proof {
                    assert(spec_settlement_fee_for(entries@.skip(i as int), symbol@) == Some(
                        entries@[i as int].amount,
                    ));
                }
                return Some(entries[i].amount);
            }
            i = i + 1;
        }
        None
    }

    /// The venue fees of an account tier, if the tier is known.
    pub fn fee_for_level(&self, level: u64) -> (r: Option<AnthicLevelFee>)
        ensures
            r == (if level < self.anthic_fee_per_level@.len() {
                Some(self.anthic_fee_per_level@[level as int])
            } else {
                None::<AnthicLevelFee>
            }),
    {
        if level < self.anthic_fee_per_level.len() as u64 {
            Some(self.anthic_fee_per_level[level as usize])
        } else {
            None
        }
    }
}

/// The credit-mint configuration.
#[derive(Clone, Copy, Debug, PartialEq, Eq, Structural)]
pub struct InstamintConfig {
    /// The resource of the customer badges that authorize minting.
    pub customer_badge_resource: ResourceAddress,
    /// The component whose mint method extends the credit.
    pub instamint_component: ComponentAddress,
}

/// An account as the venue knows it, with its badge where one is held.
#[derive(Clone, Copy, Debug, PartialEq, Eq)]
pub struct AnthicAccount {
    pub address: ComponentAddress,
    pub instamint_customer_badge_local_id: Option<NonFungibleLocalId>,
}

/// The venue's data about an account address.
#[derive(Clone, Copy, Debug, PartialEq, Eq, Structural)]
pub struct AnthicAddressInfo {
    /// The account's fee tier.
    pub level: u64,
}

/// One balance of an on-ledger account.
#[derive(Clone, Copy, Debug, PartialEq, Eq, Structural)]
pub struct ResourceBalance {
    pub resource: ResourceAddress,
    pub amount: Decimal,
}

/// An on-ledger account with its balances.
#[derive(Clone, Debug)]
pub struct OnLedgerAccount {
    pub address: ComponentAddress,
    pub balances: Vec<ResourceBalance>,
}

/// How a token is identified on some chain: as that chain's native token,
/// or by an address on it.
#[derive(Clone, Debug, PartialEq, Eq)]
pub enum TokenIdentifierOnChain {
    Native,
    Address(String),
}

/// Where a borrowed token can be paid back: the chain, the token's symbol
/// and identity there, and the address to pay to.
#[derive(Debug, PartialEq, Eq)]
pub struct InstamintTokenPaybackAddress {
    pub chain: String,
    pub symbol: String,
    pub token_identifier: TokenIdentifierOnChain,
    pub address: String,
}

impl Clone for InstamintTokenPaybackAddress {
    fn clone(&self) -> (r: Self)
        ensures
            r == *self,
    {
        InstamintTokenPaybackAddress {
            chain: self.chain.clone(),
            symbol: self.symbol.clone(),
            token_identifier: match &self.token_identifier {
                TokenIdentifierOnChain::Native => TokenIdentifierOnChain::Native,
                TokenIdentifierOnChain::Address(a) => TokenIdentifierOnChain::Address(a.clone()),
            },
            address: self.address.clone(),
        }
    }
}

/// The payback addresses known for one token symbol.
#[derive(Clone, Debug)]
pub struct SymbolRepayments {
    pub symbol: String,
    pub addresses: Vec<InstamintTokenPaybackAddress>,
}

/// The table from token symbols to their payback addresses. As with the
/// configuration tables, a symbol is expected at most once, and the
/// earliest row wins a lookup.
#[derive(Clone, Debug)]
pub struct InstamintRepaymentInfo {
    pub info: Vec<SymbolRepayments>,
}

/// The repayment rows recorded for a symbol: the first row carrying it.
pub open spec fn spec_repayments_for(rows: Seq<SymbolRepayments>, symbol: Seq<char>) -> Option<
    SymbolRepayments,
>
    decreases rows.len(),
{
    if rows.len() == 0 {
        None
    } else if rows[0].symbol@ == symbol {
        Some(rows[0])
    } else {
        spec_repayments_for(rows.drop_first(), symbol)
    }
}

/// The first payback address on the wanted chain.
pub open spec fn spec_payback_for_chain(
    addresses: Seq<InstamintTokenPaybackAddress>,
    chain: Seq<char>,
) -> Option<InstamintTokenPaybackAddress>
    decreases addresses.len(),
{
    if addresses.len() == 0 {
        None
    } else if addresses[0].chain@ == chain {
        Some(addresses[0])
    } else {
        spec_payback_for_chain(addresses.drop_first(), chain)
    }
}

impl InstamintRepaymentInfo {
    /// The payback address for a symbol on a chain: the first address on
    /// that chain among the rows recorded for the symbol.
    pub fn get_repayment_address(&self, symbol: &String, chain: &String) -> (r: Option<
        InstamintTokenPaybackAddress,
    >)
        ensures
            r == (match spec_repayments_for(self.info@, symbol@) {
                Some(row) => spec_payback_for_chain(row.addresses@, chain@),
                None => None::<InstamintTokenPaybackAddress>,
            }),
    {
        let rows = &self.info;
        let n = rows.len();
        let mut i: usize = 0;
        proof {
            assert(rows@.skip(0) =~= rows@);
        }
        while i < n
            invariant
                n == rows@.len(),
                i <= n,
                spec_repayments_for(rows@.skip(i as int), symbol@) == spec_repayments_for(
                    rows@,
                    symbol@,
                ),
            decreases n - i,
        {
            proof {
                assert(rows@.skip(i as int)[0] == rows@[i as int]);
                assert(rows@.skip(i as int).drop_first() =~= rows@.skip(i + 1 as int));
            }
            if rows[i].symbol == *symbol {
                proof {
                    assert(spec_repayments_for(rows@.skip(i as int), symbol@) == Some(
                        rows@[i as int],
                    ));
                }
                return Self::find_chain(&rows[i].addresses, chain);
            }
            i = i + 1;
        }
        None
    }

    fn find_chain(addresses: &Vec<InstamintTokenPaybackAddress>, chain: &String) -> (r: Option<
        InstamintTokenPaybackAddress,
    >)
        ensures
            r == spec_payback_for_chain(addresses@, chain@),
    {
        let n = addresses.len();
        let mut i: usize = 0;
        proof {
            assert(addresses@.skip(0) =~= addresses@);
        }
        while i < n
            invariant
                n == addresses@.len(),
                i <= n,
                spec_payback_for_chain(addresses@.skip(i as int), chain@) == spec_payback_for_chain(
                    addresses@,
                    chain@,
                ),
            decreases n - i,
        {
            proof {
                assert(addresses@.skip(i as int)[0] == addresses@[i as int]);
                assert(addresses@.skip(i as int).drop_first() =~= addresses@.skip(i + 1 as int));
            }
            if addresses[i].chain == *chain {
                proof {
                    assert(spec_payback_for_chain(addresses@.skip(i as int), chain@) == Some(
                        addresses@[i as int],
                    ));
                }
                return Some(addresses[i].clone());
            }
            i = i + 1;
        }
        None
    }
}

} // verus!
