//! The trading service's wire-level responses, as plain data. Quantities
//! arrive as decimal strings and addresses as encoded strings; the
//! conversion into the library's own types is done by the configuration
//! builders, or by the caller where an outside decoder is involved.

use vstd::prelude::*;

verus! {

/// The network's current state.
#[derive(Clone, Debug)]
pub struct NetworkStatusResponse {
    pub cur_epoch: u64,
}

/// The venue's static trading information.
#[derive(Clone, Debug)]
pub struct InfoResponse {
    /// The gating rule, as a hex-encoded predicate blob.
    pub verify_parent_access_rule_sbor_hex: String,
    pub per_token_settlement_fee: Vec<SettlementFeeItem>,
    pub per_level_anthic_fee: Vec<AnthicLevelFee>,
}

/// The two components of the settlement fee for one token.
#[derive(Clone, Debug)]
pub struct SettlementFeeItem {
    pub symbol: String,
    pub solver_amount: String,
    pub transaction_execution_amount: String,
}

/// The venue's fees for one account tier, as decimal strings.
#[derive(Clone, Debug)]
pub struct AnthicLevelFee {
    pub taker_fee: String,
    pub maker_fee: String,
}

/// The venue's data about one account address.
#[derive(Clone, Debug)]
pub struct AccountAddressInfo {
    pub level: u64,
}

/// The tokens the venue trades.
#[derive(Clone, Debug)]
pub struct TokensResponse {
    pub tokens: Vec<TokenDefinition>,
}

/// One tradable pair of token symbols.
#[derive(Clone, Debug)]
pub struct TokenPair {
    /// Token symbol of the base resource.
    pub base: String,
    /// Token symbol of the quote resource.
    pub quote: String,
}

/// The pairs the venue trades.
#[derive(Clone, Debug)]
pub struct TokenPairsResponse {
    pub token_pairs: Vec<TokenPair>,
}

/// The caller's accounts at the venue.
#[derive(Clone, Debug)]
pub struct AccountsResponse {
    pub accounts: Vec<Account>,
}

/// One account with its balances.
#[derive(Clone, Debug)]
pub struct Account {
    pub address: String,
    pub balances: Vec<TokenAmount>,
}

/// The credit-mint service's configuration, as encoded addresses.
#[derive(Clone, Debug)]
pub struct InstamintInfo {
    pub instamint_component: String,
    pub customer_badge_resource: String,
}

/// The tokens the credit-mint service offers.
#[derive(Clone, Debug)]
pub struct InstamintTokensResponse {
    pub tokens: Vec<InstamintTokenWithRepaymentInfo>,
}

/// A mintable token together with the tokens a loan of it can be repaid
/// in.
#[derive(Clone, Debug)]
pub struct InstamintTokenWithRepaymentInfo {
    pub symbol: String,
    pub address: Option<String>,
    pub chain: String,
    pub repayment_tokens: Vec<InstamintToken>,
}

/// A token accepted as repayment, identified by chain and, where it is not
/// the chain's native token, by an address on it.
#[derive(Clone, Debug)]
pub struct InstamintToken {
    pub symbol: String,
    pub address: Option<String>,
    pub chain: String,
    pub testnet: Option<String>,
}

/// The caller's credit-mint account.
#[derive(Clone, Debug)]
pub struct InstamintAccountResponse {
    pub account: InstamintAccount,
}

/// A credit-mint account: its address, its customer badges, and where it
/// pays loans back.
#[derive(Clone, Debug)]
pub struct InstamintAccount {
    pub customer_badge_non_fungible_local_ids: Vec<String>,
    pub address: String,
    pub payback_addresses: Vec<InstamintPaybackAddress>,
}

/// The caller's remaining minting allowance.
#[derive(Clone, Debug)]
pub struct InstamintAllowance {
    pub allowance: String,
}

/// The caller's outstanding loans.
#[derive(Clone, Debug)]
pub struct InstamintBalance {
    pub balances: Vec<TokenAmount>,
}

/// The payback addresses on record for the caller.
#[derive(Clone, Debug)]
pub struct InstamintPaybackAddresses {
    pub payback_addresses: Vec<InstamintPaybackAddress>,
}

/// One address loans are paid back to, on one chain.
#[derive(Clone, Debug)]
pub struct InstamintPaybackAddress {
    pub chain: String,
    pub address: String,
}

/// A quantity of a token, as a decimal string.
#[derive(Clone, Debug)]
pub struct TokenAmount {
    pub symbol: String,
    pub amount: String,
}

/// A tradable token: its symbol and its encoded resource address.
#[derive(Clone, Debug)]
pub struct TokenDefinition {
    pub resource_address: String,
    pub symbol: String,
}

} // verus!
