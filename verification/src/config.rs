//! Building the session configuration and account data out of the trading
//! service's responses: parsing the decimal strings, summing the two
//! settlement-fee components, and joining the repayment tables.
//!
//! What an outside decoder must produce first — the gating rule and the
//! resource identities behind the token symbols — is taken as input in the
//! library's own types.

use vstd::prelude::*;
use crate::types::{AccessRule, Decimal, decimal_from_text, parse_decimal};
use crate::model::{
    AnthicConfig, AnthicLevelFee, InstamintRepaymentInfo, InstamintTokenPaybackAddress, SymbolAmount,
    SymbolFee, SymbolRepayments, TokenIdentifierOnChain, TokenResource,
};
use crate::trade_api;

verus! {

/// Why a response could not be turned into a configuration.
#[derive(Clone, Copy, Debug, PartialEq, Eq, Structural)]
pub enum ConfigError {
    /// A quantity string did not parse as a non-negative decimal.
    InvalidDecimal,
    /// Two fee components summed beyond the representable range.
    AmountOverflow,
}

/// The tier fees one response row stands for, where both strings parse.
pub open spec fn spec_level_fee(item: trade_api::AnthicLevelFee) -> Option<AnthicLevelFee> {
    match (decimal_from_text(item.taker_fee@), decimal_from_text(item.maker_fee@)) {
        (Some(taker), Some(maker)) => Some(
            AnthicLevelFee {
                taker_fee: Decimal { subunits: taker },
                maker_fee: Decimal { subunits: maker },
            },
        ),
        _ => None,
    }
}

/// The tier-fee table a response stands for: the first row that fails to
/// parse rejects the whole response.
pub open spec fn spec_build_levels(items: Seq<trade_api::AnthicLevelFee>) -> Result<
    Seq<AnthicLevelFee>,
    ConfigError,
>
    decreases items.len(),
{
    if items.len() == 0 {
        Ok(Seq::empty())
    } else {
        match spec_level_fee(items[0]) {
            Some(fee) => match spec_build_levels(items.drop_first()) {
                Ok(rest) => Ok(seq![fee] + rest),
                Err(e) => Err(e),
            },
            None => Err(ConfigError::InvalidDecimal),
        }
    }
}

/// The settlement fee one response row stands for: the execution and
/// solver components, parsed and summed.
pub open spec fn spec_settlement_fee(item: trade_api::SettlementFeeItem) -> Result<
    Decimal,
    ConfigError,
> {
    match (
        decimal_from_text(item.transaction_execution_amount@),
        decimal_from_text(item.solver_amount@),
    ) {
        (Some(execution), Some(solver)) => if execution + solver <= u128::MAX {
            Ok(Decimal { subunits: (execution + solver) as u128 })
        } else {
            Err(ConfigError::AmountOverflow)
        },
        _ => Err(ConfigError::InvalidDecimal),
    }
}

/// The settlement-fee table a response stands for: the first row that
/// fails rejects the whole response.
pub open spec fn spec_build_settlement_fees(items: Seq<trade_api::SettlementFeeItem>) -> Result<
    Seq<SymbolFee>,
    ConfigError,
>
    decreases items.len(),
{
    if items.len() == 0 {
        Ok(Seq::empty())
    } else {
        match spec_settlement_fee(items[0]) {
            Ok(amount) => match spec_build_settlement_fees(items.drop_first()) {
                Ok(rest) => Ok(seq![SymbolFee { symbol: items[0].symbol, amount }] + rest),
                Err(e) => Err(e),
            },
            Err(e) => Err(e),
        }
    }
}

/// Turns the tier-fee rows of a response into the configuration's table.
pub fn build_level_fees(items: &Vec<trade_api::AnthicLevelFee>) -> (r: Result<
    Vec<AnthicLevelFee>,
    ConfigError,
>)
    ensures
        (r matches Ok(fees) ==> spec_build_levels(items@) == Ok::<_, ConfigError>(fees@)),
        (r matches Err(e) ==> spec_build_levels(items@) == Err::<Seq<AnthicLevelFee>, _>(e)),
{
    let mut fees: Vec<AnthicLevelFee> = Vec::new();
    let n = items.len();
    let mut i: usize = 0;
    proof {
        assert(items@.skip(0) =~= items@);
    }
    while i < n
        invariant
            n == items@.len(),
            i <= n,
            spec_build_levels(items@) == (match spec_build_levels(items@.skip(i as int)) {
                Ok(rest) => Ok::<Seq<AnthicLevelFee>, ConfigError>(fees@ + rest),
                Err(e) => Err::<Seq<AnthicLevelFee>, ConfigError>(e),
            }),
        decreases n - i,
    {
        proof {
            assert(items@.skip(i as int)[0] == items@[i as int]);
            assert(items@.skip(i as int).drop_first() =~= items@.skip(i + 1 as int));
        }
        let taker = match parse_decimal(&items[i].taker_fee) {
            Some(d) => d,
            None => {
                return Err(ConfigError::InvalidDecimal);
            },
        };
        let maker = match parse_decimal(&items[i].maker_fee) {
            Some(d) => d,
            None => {
                return Err(ConfigError::InvalidDecimal);
            },
        };
        let fee = AnthicLevelFee { taker_fee: taker, maker_fee: maker };
        let ghost before = fees@;
        fees.push(fee);
        proof {
            assert(spec_level_fee(items@[i as int]) == Some(fee));
            match spec_build_levels(items@.skip(i + 1 as int)) {
                Ok(rest) => {
                    assert(fees@ + rest =~= before + (seq![fee] + rest));
                },
                Err(_) => {},
            }
        }
        i = i + 1;
    }
    proof {
        assert(items@.skip(n as int).len() == 0);
        assert(fees@ + Seq::<AnthicLevelFee>::empty() =~= fees@);
    }
    Ok(fees)
}

/// Turns the settlement-fee rows of a response into the configuration's
/// table, summing each row's two components.
pub fn build_settlement_fees(items: &Vec<trade_api::SettlementFeeItem>) -> (r: Result<
    Vec<SymbolFee>,
    ConfigError,
>)
    ensures
        (r matches Ok(fees) ==> spec_build_settlement_fees(items@) == Ok::<_, ConfigError>(fees@)),
        (r matches Err(e) ==> spec_build_settlement_fees(items@) == Err::<Seq<SymbolFee>, _>(e)),
{
    let mut fees: Vec<SymbolFee> = Vec::new();
    let n = items.len();
    let mut i: usize = 0;
    proof {
        assert(items@.skip(0) =~= items@);
    }
    while i < n
        invariant
            n == items@.len(),
            i <= n,
            spec_build_settlement_fees(items@) == (match spec_build_settlement_fees(
                items@.skip(i as int),
            ) {
                Ok(rest) => Ok::<Seq<SymbolFee>, ConfigError>(fees@ + rest),
                Err(e) => Err::<Seq<SymbolFee>, ConfigError>(e),
            }),
        decreases n - i,
    {
        proof {
            assert(items@.skip(i as int)[0] == items@[i as int]);
            assert(items@.skip(i as int).drop_first() =~= items@.skip(i + 1 as int));
        }
        let execution = match parse_decimal(&items[i].transaction_execution_amount) {
            Some(d) => d,
            None => {
                return Err(ConfigError::InvalidDecimal);
            },
        };
        let solver = match parse_decimal(&items[i].solver_amount) {
            Some(d) => d,
            None => {
                return Err(ConfigError::InvalidDecimal);
            },
        };
        let amount = match execution.checked_add(solver) {
            Some(d) => d,
            None => {
                return Err(ConfigError::AmountOverflow);
            },
        };
        let row = SymbolFee { symbol: items[i].symbol.clone(), amount };
        let ghost before = fees@;
        fees.push(row);
        proof {
            assert(spec_settlement_fee(items@[i as int]) == Ok::<Decimal, ConfigError>(amount));
            assert(row == SymbolFee { symbol: items@[i as int].symbol, amount });
            match spec_build_settlement_fees(items@.skip(i + 1 as int)) {
                Ok(rest) => {
                    assert(fees@ + rest =~= before + (seq![row] + rest));
                },
                Err(_) => {},
            }
        }
        i = i + 1;
    }
    proof {
        assert(items@.skip(n as int).len() == 0);
        assert(fees@ + Seq::<SymbolFee>::empty() =~= fees@);
    }
    Ok(fees)
}

/// Assembles the session configuration out of the venue's trading
/// information: the gating rule and the symbol table arrive already
/// decoded, the fee tables are parsed and summed here. The first row that
/// fails rejects the response, tier fees before settlement fees.
pub fn build_anthic_config(
    verify_parent_access_rule: AccessRule,
    info: &trade_api::InfoResponse,
    symbol_to_resource: Vec<TokenResource>,
) -> (r: Result<AnthicConfig, ConfigError>)
    ensures
        (r matches Ok(c) ==> {
            &&& spec_build_levels(info.per_level_anthic_fee@) matches Ok(levels)
                && c.anthic_fee_per_level@ == levels
            &&& spec_build_settlement_fees(info.per_token_settlement_fee@) matches Ok(fees)
                && c.settlement_fee_per_resource@ == fees
            &&& c.verify_parent_access_rule == verify_parent_access_rule
            &&& c.symbol_to_resource == symbol_to_resource
        }),
        (r matches Err(e) ==> {
            ||| spec_build_levels(info.per_level_anthic_fee@) == Err::<Seq<AnthicLevelFee>, _>(e)
            ||| (spec_build_levels(info.per_level_anthic_fee@) is Ok
                && spec_build_settlement_fees(info.per_token_settlement_fee@) == Err::<
                Seq<SymbolFee>,
                _,
            >(e))
        }),
        r is Ok <==> (spec_build_levels(info.per_level_anthic_fee@) is Ok
            && spec_build_settlement_fees(info.per_token_settlement_fee@) is Ok),
{
    let anthic_fee_per_level = match build_level_fees(&info.per_level_anthic_fee) {
        Ok(fees) => fees,
        Err(e) => {
            return Err(e);
        },
    };
    let settlement_fee_per_resource = match build_settlement_fees(&info.per_token_settlement_fee) {
        Ok(fees) => fees,
        Err(e) => {
            return Err(e);
        },
    };
    Ok(
        AnthicConfig {
            verify_parent_access_rule,
            symbol_to_resource,
            settlement_fee_per_resource,
            anthic_fee_per_level,
        },
    )
}

/// The outstanding-loan row a balance row stands for, where its quantity
/// parses.
pub open spec fn spec_balance_row(item: trade_api::TokenAmount) -> Option<SymbolAmount> {
    match decimal_from_text(item.amount@) {
        Some(amount) => Some(
            SymbolAmount { symbol: item.symbol, amount: Decimal { subunits: amount } },
        ),
        None => None,
    }
}

/// The loan table a balance response stands for: the first row that fails
/// to parse rejects the whole response.
pub open spec fn spec_build_balances(items: Seq<trade_api::TokenAmount>) -> Result<
    Seq<SymbolAmount>,
    ConfigError,
>
    decreases items.len(),
{
    if items.len() == 0 {
        Ok(Seq::empty())
    } else {
        match spec_balance_row(items[0]) {
            Some(row) => match spec_build_balances(items.drop_first()) {
                Ok(rest) => Ok(seq![row] + rest),
                Err(e) => Err(e),
            },
            None => Err(ConfigError::InvalidDecimal),
        }
    }
}

/// Turns a balance listing into the outstanding loans per symbol.
pub fn build_instamint_balances(items: &Vec<trade_api::TokenAmount>) -> (r: Result<
    Vec<SymbolAmount>,
    ConfigError,
>)
    ensures
        (r matches Ok(rows) ==> spec_build_balances(items@) == Ok::<_, ConfigError>(rows@)),
        (r matches Err(e) ==> spec_build_balances(items@) == Err::<Seq<SymbolAmount>, _>(e)),
{
    let mut rows: Vec<SymbolAmount> = Vec::new();
    let n = items.len();
    let mut i: usize = 0;
    proof {
        assert(items@.skip(0) =~= items@);
    }
    while i < n
        invariant
            n == items@.len(),
            i <= n,
            spec_build_balances(items@) == (match spec_build_balances(items@.skip(i as int)) {
                Ok(rest) => Ok::<Seq<SymbolAmount>, ConfigError>(rows@ + rest),
                Err(e) => Err::<Seq<SymbolAmount>, ConfigError>(e),
            }),
        decreases n - i,
    {
        proof {
            assert(items@.skip(i as int)[0] == items@[i as int]);
            assert(items@.skip(i as int).drop_first() =~= items@.skip(i + 1 as int));
        }
        let amount = match parse_decimal(&items[i].amount) {
            Some(d) => d,
            None => {
                return Err(ConfigError::InvalidDecimal);
            },
        };
        let row = SymbolAmount { symbol: items[i].symbol.clone(), amount };
        let ghost before = rows@;
        rows.push(row);
        proof {
            assert(spec_balance_row(items@[i as int]) == Some(row));
            match spec_build_balances(items@.skip(i + 1 as int)) {
                Ok(rest) => {
                    assert(rows@ + rest =~= before + (seq![row] + rest));
                },
                Err(_) => {},
            }
        }
        i = i + 1;
    }
    proof {
        assert(items@.skip(n as int).len() == 0);
        assert(rows@ + Seq::<SymbolAmount>::empty() =~= rows@);
    }
    Ok(rows)
}

/// The repayment row one payback address contributes for a repayment
/// token: the token's chain, symbol and on-chain identity, and the
/// address to pay to.
pub open spec fn spec_payback_entry(
    token: trade_api::InstamintToken,
    payback: trade_api::InstamintPaybackAddress,
) -> InstamintTokenPaybackAddress {
    InstamintTokenPaybackAddress {
        chain: token.chain,
        symbol: token.symbol,
        token_identifier: match token.address {
            Some(address) => TokenIdentifierOnChain::Address(address),
            None => TokenIdentifierOnChain::Native,
        },
        address: payback.address,
    }
}

/// The repayment rows one repayment token contributes: one per payback
/// address on its chain, in listing order.
pub open spec fn spec_token_matches(
    token: trade_api::InstamintToken,
    payback: Seq<trade_api::InstamintPaybackAddress>,
) -> Seq<InstamintTokenPaybackAddress>
    decreases payback.len(),
{
    if payback.len() == 0 {
        Seq::empty()
    } else if payback[0].chain@ == token.chain@ {
        seq![spec_payback_entry(token, payback[0])] + spec_token_matches(
            token,
            payback.drop_first(),
        )
    } else {
        spec_token_matches(token, payback.drop_first())
    }
}

/// The repayment rows of one mintable token: each of its repayment tokens
/// joined with the payback addresses, in listing order.
pub open spec fn spec_row_addresses(
    repayment_tokens: Seq<trade_api::InstamintToken>,
    payback: Seq<trade_api::InstamintPaybackAddress>,
) -> Seq<InstamintTokenPaybackAddress>
    decreases repayment_tokens.len(),
{
    if repayment_tokens.len() == 0 {
        Seq::empty()
    } else {
        spec_token_matches(repayment_tokens[0], payback) + spec_row_addresses(
            repayment_tokens.drop_first(),
            payback,
        )
    }
}

/// The mintable tokens that live on the ledger's own chain, in listing
/// order.
pub open spec fn spec_radix_tokens(
    tokens: Seq<trade_api::InstamintTokenWithRepaymentInfo>,
) -> Seq<trade_api::InstamintTokenWithRepaymentInfo>
    decreases tokens.len(),
{
    if tokens.len() == 0 {
        Seq::empty()
    } else if tokens[0].chain@ == "Radix"@ {
        seq![tokens[0]] + spec_radix_tokens(tokens.drop_first())
    } else {
        spec_radix_tokens(tokens.drop_first())
    }
}

/// The repayment rows one repayment token contributes.
fn token_matches(
    token: &trade_api::InstamintToken,
    payback: &Vec<trade_api::InstamintPaybackAddress>,
) -> (r: Vec<InstamintTokenPaybackAddress>)
    ensures
        r@ == spec_token_matches(*token, payback@),
{
    let mut out: Vec<InstamintTokenPaybackAddress> = Vec::new();
    let n = payback.len();
    let mut k: usize = 0;
    proof {
        assert(payback@.skip(0) =~= payback@);
    }
    while k < n
        invariant
            n == payback@.len(),
            k <= n,
            spec_token_matches(*token, payback@) == out@ + spec_token_matches(
                *token,
                payback@.skip(k as int),
            ),
        decreases n - k,
    {
        proof {
            assert(payback@.skip(k as int)[0] == payback@[k as int]);
            assert(payback@.skip(k as int).drop_first() =~= payback@.skip(k + 1 as int));
        }
        if payback[k].chain == token.chain {
            let entry = InstamintTokenPaybackAddress {
                chain: token.chain.clone(),
                symbol: token.symbol.clone(),
                token_identifier: match &token.address {
                    Some(address) => TokenIdentifierOnChain::Address(address.clone()),
                    None => TokenIdentifierOnChain::Native,
                },
                address: payback[k].address.clone(),
            };
            let ghost before = out@;
            proof {
                assert(entry == spec_payback_entry(*token, payback@[k as int]));
            }
            out.push(entry);
            proof {
                assert(before + spec_token_matches(*token, payback@.skip(k as int)) =~= out@
                    + spec_token_matches(*token, payback@.skip(k + 1 as int)));
            }
        }
        k = k + 1;
    }
    proof {
        assert(payback@.skip(n as int).len() == 0);
        assert(out@ + Seq::<InstamintTokenPaybackAddress>::empty() =~= out@);
    }
    out
}

/// The repayment rows of one mintable token.
fn row_addresses(
    repayment_tokens: &Vec<trade_api::InstamintToken>,
    payback: &Vec<trade_api::InstamintPaybackAddress>,
) -> (r: Vec<InstamintTokenPaybackAddress>)
    ensures
        r@ == spec_row_addresses(repayment_tokens@, payback@),
{
    let mut out: Vec<InstamintTokenPaybackAddress> = Vec::new();
    let n = repayment_tokens.len();
    let mut j: usize = 0;
    proof {
        assert(repayment_tokens@.skip(0) =~= repayment_tokens@);
    }
    while j < n
        invariant
            n == repayment_tokens@.len(),
            j <= n,
            spec_row_addresses(repayment_tokens@, payback@) == out@ + spec_row_addresses(
                repayment_tokens@.skip(j as int),
                payback@,
            ),
        decreases n - j,
    {
        proof {
            assert(repayment_tokens@.skip(j as int)[0] == repayment_tokens@[j as int]);
            assert(repayment_tokens@.skip(j as int).drop_first() =~= repayment_tokens@.skip(
                j + 1 as int,
            ));
        }
        let mut matches = token_matches(&repayment_tokens[j], payback);
        let ghost before = out@;
        out.append(&mut matches);
        proof {
            assert(before + spec_row_addresses(repayment_tokens@.skip(j as int), payback@) =~= out@
                + spec_row_addresses(repayment_tokens@.skip(j + 1 as int), payback@));
        }
        j = j + 1;
    }
    proof {
        assert(repayment_tokens@.skip(n as int).len() == 0);
        assert(out@ + Seq::<InstamintTokenPaybackAddress>::empty() =~= out@);
    }
    out
}

/// Joins the mintable tokens on the ledger's own chain with the payback
/// addresses: one table row per such token, carrying every repayment
/// address whose chain matches one of the token's repayment tokens.
pub fn build_repayment_info(
    tokens: &Vec<trade_api::InstamintTokenWithRepaymentInfo>,
    payback_addresses: &Vec<trade_api::InstamintPaybackAddress>,
) -> (r: InstamintRepaymentInfo)
    ensures
        r.info@.len() == spec_radix_tokens(tokens@).len(),
        forall|i: int|
            0 <= i < r.info@.len() ==> {
                &&& (#[trigger] r.info@[i]).symbol == spec_radix_tokens(tokens@)[i].symbol
                &&& r.info@[i].addresses@ == spec_row_addresses(
                    spec_radix_tokens(tokens@)[i].repayment_tokens@,
                    payback_addresses@,
                )
            },
{
    let mut rows: Vec<SymbolRepayments> = Vec::new();
    let ghost mut seen: Seq<trade_api::InstamintTokenWithRepaymentInfo> = Seq::empty();
    let radix_chain = "Radix".to_owned();
    let n = tokens.len();
    let mut i: usize = 0;
    proof {
        assert(tokens@.skip(0) =~= tokens@);
        assert(Seq::<trade_api::InstamintTokenWithRepaymentInfo>::empty() + spec_radix_tokens(
            tokens@,
        ) =~= spec_radix_tokens(tokens@));
    }
    while i < n
        invariant
            n == tokens@.len(),
            i <= n,
            radix_chain@ == "Radix"@,
            spec_radix_tokens(tokens@) == seen + spec_radix_tokens(tokens@.skip(i as int)),
            rows@.len() == seen.len(),
            forall|j: int|
                0 <= j < rows@.len() ==> {
                    &&& (#[trigger] rows@[j]).symbol == seen[j].symbol
                    &&& rows@[j].addresses@ == spec_row_addresses(
                        seen[j].repayment_tokens@,
                        payback_addresses@,
                    )
                },
        decreases n - i,
    {
        proof {
            assert(tokens@.skip(i as int)[0] == tokens@[i as int]);
            assert(tokens@.skip(i as int).drop_first() =~= tokens@.skip(i + 1 as int));
        }
        if tokens[i].chain == radix_chain {
            let addresses = row_addresses(&tokens[i].repayment_tokens, payback_addresses);
            let row = SymbolRepayments { symbol: tokens[i].symbol.clone(), addresses };
            let ghost before = seen;
            rows.push(row);
            proof {
                seen = seen.push(tokens@[i as int]);
                assert(before + spec_radix_tokens(tokens@.skip(i as int)) =~= seen
                    + spec_radix_tokens(tokens@.skip(i + 1 as int)));
            }
        }
        i = i + 1;
    }
    proof {
        assert(tokens@.skip(n as int).len() == 0);
        assert(seen + Seq::<trade_api::InstamintTokenWithRepaymentInfo>::empty() =~= seen);
    }
    InstamintRepaymentInfo { info: rows }
}

} // verus!
