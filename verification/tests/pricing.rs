//! Checks of the configuration builders and order pricing: decimal
//! strings parsed through the real parser, fee components summed, the
//! venue fee taken as a share of the sale, and every construction error.

use anthic::config::{
    build_anthic_config, build_instamint_balances, build_repayment_info, ConfigError,
};
use anthic::model::{
    AnthicConfig, AnthicLevelFee, TokenIdentifierOnChain, TokenResource,
};
use anthic::orders::{
    compose_limit_order_manifest, create_order_manifest, LimitOrderDefinition, OrderError,
};
use anthic::subintents::TokenAmount;
use anthic::trade_api;
use anthic::types::{AccessRule, ComponentAddress, Decimal, ResourceAddress};
use anthic::validate::{anthic_validate_manifest, ResourceAmount, ValidationError};

const ONE: u128 = 1_000_000_000_000_000_000;

fn dec(subunits: u128) -> Decimal {
    Decimal { subunits }
}

fn info(levels: Vec<(&str, &str)>, fees: Vec<(&str, &str, &str)>) -> trade_api::InfoResponse {
    trade_api::InfoResponse {
        verify_parent_access_rule_sbor_hex: String::new(),
        per_token_settlement_fee: fees
            .into_iter()
            .map(|(symbol, solver, execution)| trade_api::SettlementFeeItem {
                symbol: symbol.to_string(),
                solver_amount: solver.to_string(),
                transaction_execution_amount: execution.to_string(),
            })
            .collect(),
        per_level_anthic_fee: levels
            .into_iter()
            .map(|(taker, maker)| trade_api::AnthicLevelFee {
                taker_fee: taker.to_string(),
                maker_fee: maker.to_string(),
            })
            .collect(),
    }
}

fn symbols() -> Vec<TokenResource> {
    vec![
        TokenResource { symbol: "Test-xUSDC".to_string(), resource: ResourceAddress { id: 1 } },
        TokenResource { symbol: "Test-xwBTC".to_string(), resource: ResourceAddress { id: 2 } },
    ]
}

#[test]
fn config_is_built_from_parsed_strings() {
    let config = build_anthic_config(
        AccessRule { id: 7 },
        &info(
            vec![("0.001", "0"), ("0.0005", "0")],
            vec![("Test-xUSDC", "0.05", "0.10")],
        ),
        symbols(),
    )
    .expect("well-formed strings must build");
    assert_eq!(config.verify_parent_access_rule, AccessRule { id: 7 });
    assert_eq!(config.anthic_fee_per_level.len(), 2);
    assert_eq!(config.anthic_fee_per_level[0].taker_fee, dec(ONE / 1000));
    assert_eq!(config.anthic_fee_per_level[1].taker_fee, dec(ONE / 2000));
    assert_eq!(config.settlement_fee_per_resource.len(), 1);
    assert_eq!(config.settlement_fee_per_resource[0].symbol, "Test-xUSDC");
    // 0.10 execution + 0.05 solver = 0.15
    assert_eq!(
        config.settlement_fee_per_resource[0].amount,
        dec(150_000_000_000_000_000)
    );
    assert_eq!(
        config.resource_for(&"Test-xwBTC".to_string()),
        Some(ResourceAddress { id: 2 })
    );
    assert_eq!(config.resource_for(&"missing".to_string()), None);
    assert_eq!(
        config.settlement_fee_for(&"Test-xUSDC".to_string()),
        Some(dec(150_000_000_000_000_000))
    );
}

#[test]
fn malformed_fee_string_is_an_invalid_decimal() {
    let r = build_anthic_config(
        AccessRule { id: 7 },
        &info(vec![("not-a-number", "0")], vec![]),
        symbols(),
    );
    assert_eq!(r.err(), Some(ConfigError::InvalidDecimal));
}

#[test]
fn negative_fee_string_is_an_invalid_decimal() {
    let r = build_anthic_config(
        AccessRule { id: 7 },
        &info(vec![("-0.5", "0")], vec![]),
        symbols(),
    );
    assert_eq!(r.err(), Some(ConfigError::InvalidDecimal));
}

#[test]
fn overflowing_fee_sum_is_an_amount_overflow() {
    // Each component parses on its own; their sum does not fit.
    let r = build_anthic_config(
        AccessRule { id: 7 },
        &info(
            vec![],
            vec![(
                "Test-xUSDC",
                "340282366920938463463.374607431768211455",
                "0.000000000000000001",
            )],
        ),
        symbols(),
    );
    assert_eq!(r.err(), Some(ConfigError::AmountOverflow));
}

#[test]
fn first_symbol_entry_wins_lookup() {
    let config = AnthicConfig {
        verify_parent_access_rule: AccessRule { id: 1 },
        symbol_to_resource: vec![
            TokenResource { symbol: "X".to_string(), resource: ResourceAddress { id: 10 } },
            TokenResource { symbol: "X".to_string(), resource: ResourceAddress { id: 11 } },
        ],
        settlement_fee_per_resource: vec![],
        anthic_fee_per_level: vec![],
    };
    assert_eq!(config.resource_for(&"X".to_string()), Some(ResourceAddress { id: 10 }));
}

#[test]
fn balances_parse_into_subunits() {
    let rows = build_instamint_balances(&vec![
        trade_api::TokenAmount { symbol: "Test-xUSDC".to_string(), amount: "1.5".to_string() },
        trade_api::TokenAmount { symbol: "Test-xwBTC".to_string(), amount: "0".to_string() },
    ])
    .expect("plain decimals must parse");
    assert_eq!(rows.len(), 2);
    assert_eq!(rows[0].symbol, "Test-xUSDC");
    assert_eq!(rows[0].amount, dec(1_500_000_000_000_000_000));
    assert_eq!(rows[1].amount, dec(0));
}

#[test]
fn unparsable_balance_is_an_invalid_decimal() {
    let r = build_instamint_balances(&vec![trade_api::TokenAmount {
        symbol: "Test-xUSDC".to_string(),
        amount: "1.5.5".to_string(),
    }]);
    assert_eq!(r.err(), Some(ConfigError::InvalidDecimal));
}

fn repayment_fixture() -> (
    Vec<trade_api::InstamintTokenWithRepaymentInfo>,
    Vec<trade_api::InstamintPaybackAddress>,
) {
    let tokens = vec![
        trade_api::InstamintTokenWithRepaymentInfo {
            symbol: "xUSDC".to_string(),
            address: None,
            chain: "Radix".to_string(),
            repayment_tokens: vec![
                trade_api::InstamintToken {
                    symbol: "USDC".to_string(),
                    address: Some("0xa0b8".to_string()),
                    chain: "Ethereum".to_string(),
                    testnet: None,
                },
                trade_api::InstamintToken {
                    symbol: "USDC".to_string(),
                    address: None,
                    chain: "Solana".to_string(),
                    testnet: None,
                },
            ],
        },
        trade_api::InstamintTokenWithRepaymentInfo {
            symbol: "USDC".to_string(),
            address: Some("0xa0b8".to_string()),
            chain: "Ethereum".to_string(),
            repayment_tokens: vec![],
        },
    ];
    let payback = vec![
        trade_api::InstamintPaybackAddress {
            chain: "Ethereum".to_string(),
            address: "0xdef1".to_string(),
        },
        trade_api::InstamintPaybackAddress {
            chain: "Solana".to_string(),
            address: "sol9".to_string(),
        },
    ];
    (tokens, payback)
}

#[test]
fn repayment_info_joins_tokens_with_addresses() {
    let (tokens, payback) = repayment_fixture();
    let repayment_info = build_repayment_info(&tokens, &payback);
    // Only the token on the ledger's own chain gets a row.
    assert_eq!(repayment_info.info.len(), 1);
    let row = &repayment_info.info[0];
    assert_eq!(row.symbol, "xUSDC");
    assert_eq!(row.addresses.len(), 2);
    assert_eq!(row.addresses[0].chain, "Ethereum");
    assert_eq!(row.addresses[0].symbol, "USDC");
    assert_eq!(
        row.addresses[0].token_identifier,
        TokenIdentifierOnChain::Address("0xa0b8".to_string())
    );
    assert_eq!(row.addresses[0].address, "0xdef1");
    assert_eq!(row.addresses[1].chain, "Solana");
    assert_eq!(row.addresses[1].token_identifier, TokenIdentifierOnChain::Native);
    assert_eq!(row.addresses[1].address, "sol9");
}

#[test]
fn repayment_address_lookup_finds_symbol_and_chain() {
    let (tokens, payback) = repayment_fixture();
    let repayment_info = build_repayment_info(&tokens, &payback);
    let hit = repayment_info
        .get_repayment_address(&"xUSDC".to_string(), &"Solana".to_string())
        .expect("the row exists");
    assert_eq!(hit.address, "sol9");
    assert!(repayment_info
        .get_repayment_address(&"xUSDC".to_string(), &"Bitcoin".to_string())
        .is_none());
    assert!(repayment_info
        .get_repayment_address(&"USDC".to_string(), &"Ethereum".to_string())
        .is_none());
}

fn pricing_config() -> AnthicConfig {
    AnthicConfig {
        verify_parent_access_rule: AccessRule { id: 7 },
        symbol_to_resource: symbols(),
        settlement_fee_per_resource: vec![anthic::model::SymbolFee {
            symbol: "Test-xUSDC".to_string(),
            amount: dec(ONE / 10),
        }],
        anthic_fee_per_level: vec![AnthicLevelFee {
            taker_fee: dec(ONE / 1000),
            maker_fee: dec(0),
        }],
    }
}

#[test]
fn order_is_priced_from_tier_and_settlement_fee() {
    let manifest = create_order_manifest(
        pricing_config(),
        ComponentAddress { id: 42 },
        &anthic::model::AnthicAddressInfo { level: 0 },
        TokenAmount { symbol: "Test-xUSDC".to_string(), amount: dec(95_850_000_000_000_000_000) },
        TokenAmount { symbol: "Test-xwBTC".to_string(), amount: dec(ONE / 1000) },
    )
    .expect("the scenario order must price");
    let order = anthic_validate_manifest(&manifest).expect("the priced order must validate");
    // The venue fee is 0.001 of the 95.85 sold: 0.09585.
    assert_eq!(order.fee.anthic_amount, dec(95_850_000_000_000_000));
    assert_eq!(order.fee.settlement_amount, dec(ONE / 10));
    assert_eq!(order.fee.resource, ResourceAddress { id: 1 });
}

#[test]
fn unknown_settlement_fee_symbol_fails_pricing() {
    let r = create_order_manifest(
        pricing_config(),
        ComponentAddress { id: 42 },
        &anthic::model::AnthicAddressInfo { level: 0 },
        TokenAmount { symbol: "Test-xwBTC".to_string(), amount: dec(ONE) },
        TokenAmount { symbol: "Test-xUSDC".to_string(), amount: dec(ONE) },
    );
    assert_eq!(r.err(), Some(OrderError::UnknownSettlementFee));
}

#[test]
fn unknown_fee_level_fails_pricing() {
    let r = create_order_manifest(
        pricing_config(),
        ComponentAddress { id: 42 },
        &anthic::model::AnthicAddressInfo { level: 3 },
        TokenAmount { symbol: "Test-xUSDC".to_string(), amount: dec(ONE) },
        TokenAmount { symbol: "Test-xwBTC".to_string(), amount: dec(ONE) },
    );
    assert_eq!(r.err(), Some(OrderError::UnknownFeeLevel));
}

#[test]
fn unknown_sell_token_fails_pricing() {
    let mut config = pricing_config();
    config.settlement_fee_per_resource[0].symbol = "ghost".to_string();
    let r = create_order_manifest(
        config,
        ComponentAddress { id: 42 },
        &anthic::model::AnthicAddressInfo { level: 0 },
        TokenAmount { symbol: "ghost".to_string(), amount: dec(ONE) },
        TokenAmount { symbol: "Test-xwBTC".to_string(), amount: dec(ONE) },
    );
    assert_eq!(r.err(), Some(OrderError::UnknownSellToken));
}

#[test]
fn unknown_buy_token_fails_pricing() {
    let r = create_order_manifest(
        pricing_config(),
        ComponentAddress { id: 42 },
        &anthic::model::AnthicAddressInfo { level: 0 },
        TokenAmount { symbol: "Test-xUSDC".to_string(), amount: dec(ONE) },
        TokenAmount { symbol: "ghost".to_string(), amount: dec(ONE) },
    );
    assert_eq!(r.err(), Some(OrderError::UnknownBuyToken));
}

#[test]
fn oversized_venue_fee_fails_pricing() {
    let mut config = pricing_config();
    // A taker share of 2 whole units per unit sold.
    config.anthic_fee_per_level[0].taker_fee = dec(2 * ONE);
    let r = create_order_manifest(
        config,
        ComponentAddress { id: 42 },
        &anthic::model::AnthicAddressInfo { level: 0 },
        TokenAmount { symbol: "Test-xUSDC".to_string(), amount: dec(u128::MAX) },
        TokenAmount { symbol: "Test-xwBTC".to_string(), amount: dec(ONE) },
    );
    assert_eq!(r.err(), Some(OrderError::FeeOverflow));
}

#[test]
fn oversized_withdrawal_fails_pricing() {
    let mut config = pricing_config();
    // A taker share of exactly one: the venue fee equals the sale, and
    // covering both no longer fits.
    config.anthic_fee_per_level[0].taker_fee = dec(ONE);
    let r = create_order_manifest(
        config,
        ComponentAddress { id: 42 },
        &anthic::model::AnthicAddressInfo { level: 0 },
        TokenAmount { symbol: "Test-xUSDC".to_string(), amount: dec(u128::MAX) },
        TokenAmount { symbol: "Test-xwBTC".to_string(), amount: dec(ONE) },
    );
    assert_eq!(r.err(), Some(OrderError::AmountOverflow));
}

#[test]
fn swap_manifest_has_the_plain_shape() {
    let order = LimitOrderDefinition {
        account: ComponentAddress { id: 42 },
        buy: ResourceAmount { resource: ResourceAddress { id: 2 }, amount: dec(3 * ONE / 2) },
        sell: ResourceAmount { resource: ResourceAddress { id: 1 }, amount: dec(4000 * ONE) },
        use_instamint: false,
    };
    let manifest = compose_limit_order_manifest(order);
    assert_eq!(manifest.instructions.len(), 7);
    assert!(matches!(
        manifest.instructions[1],
        anthic::manifest::Instruction::TakeFromWorktop { .. }
    ));

    let with_mint = compose_limit_order_manifest(LimitOrderDefinition { use_instamint: true, ..order });
    assert_eq!(with_mint.instructions.len(), 9);
}

#[test]
fn swap_manifest_is_not_a_venue_order() {
    // The plain swap carries no parent gate, so its sell yield arrives
    // before any gate and the venue validator rejects it.
    let order = LimitOrderDefinition {
        account: ComponentAddress { id: 42 },
        buy: ResourceAmount { resource: ResourceAddress { id: 2 }, amount: dec(ONE) },
        sell: ResourceAmount { resource: ResourceAddress { id: 1 }, amount: dec(ONE) },
        use_instamint: false,
    };
    let manifest = compose_limit_order_manifest(order);
    assert_eq!(
        anthic_validate_manifest(&manifest),
        Err(ValidationError::YieldBeforeVerifyParent)
    );
}
