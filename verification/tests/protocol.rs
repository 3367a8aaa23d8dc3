//! End-to-end checks of the limit-order protocol: building a sequence,
//! validating it back, and every way a tampered sequence is rejected.

use anthic::manifest::{
    DynamicGlobalAddress, Instruction, ManifestArg, ManifestExpression, ManifestResourceAddress,
    ManifestResourceConstraint, MethodName, ResourceConstraintEntry, SubintentManifest,
};
use anthic::model::{AnthicConfig, AnthicLevelFee, InstamintConfig, TokenResource};
use anthic::subintents::{AnthicSubintentManifestBuilder, TokenAmount};
use anthic::types::{
    AccessRule, ComponentAddress, Decimal, GlobalAddress, ManifestBucket, NonFungibleLocalId,
    ResourceAddress,
};
use anthic::validate::{
    anthic_validate_instructions, anthic_validate_manifest, SubintentValidator,
    SubintentValidatorState, ValidationError,
};

const ONE: u128 = 1_000_000_000_000_000_000;

fn dec(subunits: u128) -> Decimal {
    Decimal { subunits }
}

fn test_config() -> AnthicConfig {
    AnthicConfig {
        verify_parent_access_rule: AccessRule { id: 7 },
        symbol_to_resource: vec![
            TokenResource { symbol: "Test-xUSDC".to_string(), resource: ResourceAddress { id: 1 } },
            TokenResource { symbol: "Test-xwBTC".to_string(), resource: ResourceAddress { id: 2 } },
        ],
        settlement_fee_per_resource: vec![],
        anthic_fee_per_level: vec![AnthicLevelFee {
            taker_fee: dec(ONE / 1000),
            maker_fee: dec(0),
        }],
    }
}

/// The canonical manifest of the scenario order: sell 95.85 of resource 1
/// for at least 0.001 of resource 2, settlement fee 0.10, venue fee 0.05,
/// account 42, gating rule 7.
fn scenario_manifest() -> SubintentManifest {
    AnthicSubintentManifestBuilder::new(test_config())
        .add_anthic_limit_order(
            ComponentAddress { id: 42 },
            TokenAmount { symbol: "Test-xUSDC".to_string(), amount: dec(95_850_000_000_000_000_000) },
            TokenAmount { symbol: "Test-xwBTC".to_string(), amount: dec(ONE / 1000) },
            dec(ONE / 10),
            dec(ONE / 20),
        )
        .build()
}

#[test]
fn round_trip_recovers_scenario_order() {
    let manifest = scenario_manifest();
    assert_eq!(manifest.instructions.len(), 10);
    let order = anthic_validate_manifest(&manifest).expect("built sequence must validate");
    assert_eq!(order.meta.access_rule, AccessRule { id: 7 });
    assert_eq!(order.meta.account, ComponentAddress { id: 42 });
    assert_eq!(order.trade.sell.resource, ResourceAddress { id: 1 });
    assert_eq!(order.trade.sell.amount, dec(95_850_000_000_000_000_000));
    assert_eq!(order.trade.buy.resource, ResourceAddress { id: 2 });
    assert_eq!(order.trade.buy.amount, dec(ONE / 1000));
    assert_eq!(order.fee.resource, ResourceAddress { id: 1 });
    assert_eq!(order.fee.anthic_amount, dec(ONE / 20));
    assert_eq!(order.fee.settlement_amount, dec(ONE / 10));
}

#[test]
fn missing_final_yield_is_incomplete() {
    let mut manifest = scenario_manifest();
    manifest.instructions.pop();
    assert_eq!(
        anthic_validate_manifest(&manifest),
        Err(ValidationError::IncompleteManifest)
    );
}

#[test]
fn empty_sequence_is_incomplete() {
    assert_eq!(
        anthic_validate_instructions(&Vec::new()),
        Err(ValidationError::IncompleteManifest)
    );
}

#[test]
fn deposit_to_different_account_is_rejected() {
    let mut manifest = scenario_manifest();
    manifest.instructions[8] = Instruction::CallMethod {
        address: DynamicGlobalAddress::Static(GlobalAddress { id: 43, is_account: true }),
        method_name: MethodName::DepositBatch,
        args: vec![ManifestArg::Expression(ManifestExpression::EntireWorktop)],
    };
    assert_eq!(
        anthic_validate_manifest(&manifest),
        Err(ValidationError::ExpectedDepositBatch)
    );
}

#[test]
fn swapping_gate_and_withdrawal_is_rejected() {
    let mut manifest = scenario_manifest();
    manifest.instructions.swap(0, 1);
    assert!(anthic_validate_manifest(&manifest).is_err());
}

#[test]
fn swapping_withdrawal_and_sell_take_is_rejected() {
    let mut manifest = scenario_manifest();
    manifest.instructions.swap(1, 2);
    assert_eq!(
        anthic_validate_manifest(&manifest),
        Err(ValidationError::ExpectedAccountWithdraw)
    );
}

#[test]
fn swapping_deposit_and_final_yield_is_rejected() {
    let mut manifest = scenario_manifest();
    manifest.instructions.swap(8, 9);
    assert_eq!(
        anthic_validate_manifest(&manifest),
        Err(ValidationError::ExpectedDepositBatch)
    );
}

#[test]
fn swapping_the_fee_takes_exchanges_the_fees() {
    let mut manifest = scenario_manifest();
    manifest.instructions.swap(5, 6);
    let order = anthic_validate_manifest(&manifest).expect("the fee takes commute");
    assert_eq!(order.fee.anthic_amount, dec(ONE / 10));
    assert_eq!(order.fee.settlement_amount, dec(ONE / 20));
}

#[test]
fn substituted_sell_bucket_is_rejected() {
    let mut manifest = scenario_manifest();
    manifest.instructions[4] = Instruction::YieldToParent {
        args: vec![ManifestArg::Bucket(ManifestBucket { index: 5 })],
    };
    assert_eq!(
        anthic_validate_manifest(&manifest),
        Err(ValidationError::ExpectedSellBucketYield)
    );
}

#[test]
fn settlement_fee_in_foreign_resource_is_rejected() {
    let mut manifest = scenario_manifest();
    manifest.instructions[6] = Instruction::TakeFromWorktop {
        resource_address: ResourceAddress { id: 9 },
        amount: dec(ONE / 10),
    };
    assert_eq!(
        anthic_validate_manifest(&manifest),
        Err(ValidationError::ExpectedMatchingFeeTakeFromWorktop)
    );
}

#[test]
fn sell_take_in_foreign_resource_is_rejected() {
    let mut manifest = scenario_manifest();
    manifest.instructions[2] = Instruction::TakeFromWorktop {
        resource_address: ResourceAddress { id: 9 },
        amount: dec(95_850_000_000_000_000_000),
    };
    assert_eq!(
        anthic_validate_manifest(&manifest),
        Err(ValidationError::ExpectedSellTakeFromWorktop)
    );
}

#[test]
fn both_fee_takes_in_foreign_resource_are_rejected() {
    // Fees are owed in the resource being sold: even a sequence paying
    // both fees consistently in a third resource is rejected at the first
    // of the two extractions.
    let mut manifest = scenario_manifest();
    manifest.instructions[5] = Instruction::TakeFromWorktop {
        resource_address: ResourceAddress { id: 9 },
        amount: dec(ONE / 20),
    };
    manifest.instructions[6] = Instruction::TakeFromWorktop {
        resource_address: ResourceAddress { id: 9 },
        amount: dec(ONE / 10),
    };
    assert_eq!(
        anthic_validate_manifest(&manifest),
        Err(ValidationError::ExpectedFeeTakeFromWorktop)
    );
}

#[test]
fn venue_fee_in_foreign_resource_is_rejected() {
    let mut manifest = scenario_manifest();
    manifest.instructions[5] = Instruction::TakeFromWorktop {
        resource_address: ResourceAddress { id: 9 },
        amount: dec(ONE / 20),
    };
    assert_eq!(
        anthic_validate_manifest(&manifest),
        Err(ValidationError::ExpectedFeeTakeFromWorktop)
    );
}

#[test]
fn buying_the_sold_resource_is_rejected() {
    // A recovered order must buy a resource other than the one it sells:
    // an assertion naming the sold resource on the buy side is rejected.
    let mut manifest = scenario_manifest();
    manifest.instructions[3] = Instruction::AssertNextCallReturnsOnly {
        constraints: vec![ResourceConstraintEntry {
            resource: ResourceAddress { id: 1 },
            constraint: ManifestResourceConstraint::AtLeastAmount(dec(ONE / 1000)),
        }],
    };
    assert_eq!(
        anthic_validate_manifest(&manifest),
        Err(ValidationError::ExpectedNextCallAssertion)
    );
}

#[test]
fn sell_take_beyond_withdrawal_is_rejected() {
    let mut manifest = scenario_manifest();
    manifest.instructions[2] = Instruction::TakeFromWorktop {
        resource_address: ResourceAddress { id: 1 },
        amount: dec(u128::MAX),
    };
    assert_eq!(
        anthic_validate_manifest(&manifest),
        Err(ValidationError::ExpectedSellTakeFromWorktop)
    );
}

#[test]
fn undecodable_withdraw_arguments_are_a_decode_error() {
    let mut manifest = scenario_manifest();
    manifest.instructions[1] = Instruction::CallMethod {
        address: DynamicGlobalAddress::Static(GlobalAddress { id: 42, is_account: true }),
        method_name: MethodName::Withdraw,
        args: vec![ManifestArg::Other],
    };
    assert_eq!(
        anthic_validate_manifest(&manifest),
        Err(ValidationError::DecodeError)
    );
}

#[test]
fn named_withdraw_resource_is_rejected() {
    let mut manifest = scenario_manifest();
    manifest.instructions[1] = Instruction::CallMethod {
        address: DynamicGlobalAddress::Static(GlobalAddress { id: 42, is_account: true }),
        method_name: MethodName::Withdraw,
        args: vec![
            ManifestArg::Resource(ManifestResourceAddress::Named(0)),
            ManifestArg::Amount(dec(ONE)),
        ],
    };
    assert_eq!(
        anthic_validate_manifest(&manifest),
        Err(ValidationError::ExpectedAccountWithdraw)
    );
}

#[test]
fn replaced_next_call_assertion_is_rejected() {
    let mut manifest = scenario_manifest();
    manifest.instructions[3] = Instruction::Other;
    assert_eq!(
        anthic_validate_manifest(&manifest),
        Err(ValidationError::ExpectedNextCallAssertion)
    );
}

#[test]
fn exact_amount_constraint_is_rejected() {
    let mut manifest = scenario_manifest();
    manifest.instructions[3] = Instruction::AssertNextCallReturnsOnly {
        constraints: vec![ResourceConstraintEntry {
            resource: ResourceAddress { id: 2 },
            constraint: ManifestResourceConstraint::ExactAmount(dec(ONE / 1000)),
        }],
    };
    assert_eq!(
        anthic_validate_manifest(&manifest),
        Err(ValidationError::ExpectedNextCallAssertion)
    );
}

#[test]
fn replaced_fee_take_is_rejected() {
    let mut manifest = scenario_manifest();
    manifest.instructions[5] = Instruction::Other;
    assert_eq!(
        anthic_validate_manifest(&manifest),
        Err(ValidationError::ExpectedFeeTakeFromWorktop)
    );
}

#[test]
fn fee_yield_in_wrong_bucket_order_is_rejected() {
    let mut manifest = scenario_manifest();
    manifest.instructions[7] = Instruction::YieldToParent {
        args: vec![
            ManifestArg::Bucket(ManifestBucket { index: 2 }),
            ManifestArg::Bucket(ManifestBucket { index: 1 }),
        ],
    };
    assert_eq!(
        anthic_validate_manifest(&manifest),
        Err(ValidationError::ExpectedFeeYieldToParent)
    );
}

#[test]
fn final_yield_with_payload_is_rejected() {
    let mut manifest = scenario_manifest();
    manifest.instructions[9] = Instruction::YieldToParent {
        args: vec![ManifestArg::Bucket(ManifestBucket { index: 0 })],
    };
    assert_eq!(
        anthic_validate_manifest(&manifest),
        Err(ValidationError::ExpectedFinalYieldToParent)
    );
}

#[test]
fn yield_before_gate_is_rejected() {
    let instructions = vec![Instruction::YieldToParent { args: Vec::new() }];
    assert_eq!(
        anthic_validate_instructions(&instructions),
        Err(ValidationError::YieldBeforeVerifyParent)
    );
}

#[test]
fn yield_after_completion_is_rejected() {
    let mut manifest = scenario_manifest();
    manifest.instructions.push(Instruction::YieldToParent { args: Vec::new() });
    assert_eq!(
        anthic_validate_manifest(&manifest),
        Err(ValidationError::YieldAfterCompletion)
    );
}

#[test]
fn trailing_non_yield_instruction_is_tolerated() {
    let mut manifest = scenario_manifest();
    manifest.instructions.push(Instruction::Other);
    assert!(anthic_validate_manifest(&manifest).is_ok());
}

#[test]
fn neutral_preamble_is_tolerated() {
    let mut manifest = scenario_manifest();
    manifest.instructions.insert(0, Instruction::Other);
    let order = anthic_validate_manifest(&manifest).expect("preamble is passed over");
    assert_eq!(order.meta.account, ComponentAddress { id: 42 });
}

#[test]
fn bucket_numbering_counts_preamble_takes() {
    // A bucket-creating instruction before the parent gate shifts every later
    // bucket index by one; a sequence whose references account for that
    // still validates.
    let mut manifest = scenario_manifest();
    manifest.instructions[4] = Instruction::YieldToParent {
        args: vec![ManifestArg::Bucket(ManifestBucket { index: 1 })],
    };
    manifest.instructions[7] = Instruction::YieldToParent {
        args: vec![
            ManifestArg::Bucket(ManifestBucket { index: 2 }),
            ManifestArg::Bucket(ManifestBucket { index: 3 }),
        ],
    };
    manifest.instructions.insert(
        0,
        Instruction::TakeAllFromWorktop { resource_address: ResourceAddress { id: 5 } },
    );
    let order = anthic_validate_manifest(&manifest).expect("shifted references must validate");
    assert_eq!(order.meta.account, ComponentAddress { id: 42 });

    // Without the shift, the original references no longer match.
    let mut unshifted = scenario_manifest();
    unshifted.instructions.insert(
        0,
        Instruction::TakeAllFromWorktop { resource_address: ResourceAddress { id: 5 } },
    );
    assert_eq!(
        anthic_validate_manifest(&unshifted),
        Err(ValidationError::ExpectedSellBucketYield)
    );
}

#[test]
fn instamint_preamble_round_trips() {
    let instamint = InstamintConfig {
        customer_badge_resource: ResourceAddress { id: 30 },
        instamint_component: ComponentAddress { id: 31 },
    };
    let manifest = AnthicSubintentManifestBuilder::new(test_config())
        .instamint_into_account(
            &instamint,
            ComponentAddress { id: 42 },
            NonFungibleLocalId { id: 77 },
            TokenAmount { symbol: "Test-xUSDC".to_string(), amount: dec(ONE) },
        )
        .add_anthic_limit_order(
            ComponentAddress { id: 42 },
            TokenAmount { symbol: "Test-xUSDC".to_string(), amount: dec(ONE) },
            TokenAmount { symbol: "Test-xwBTC".to_string(), amount: dec(ONE / 2) },
            dec(ONE / 10),
            dec(ONE / 20),
        )
        .build();
    assert_eq!(manifest.instructions.len(), 13);
    let order = anthic_validate_manifest(&manifest).expect("minting first must not disturb the order");
    assert_eq!(order.trade.sell.amount, dec(ONE));
    assert_eq!(order.trade.buy.amount, dec(ONE / 2));
}

#[test]
fn process_steps_one_instruction_at_a_time() {
    let manifest = scenario_manifest();
    let mut state = SubintentValidatorState::new();
    for instruction in &manifest.instructions {
        SubintentValidator::process(&mut state, instruction).expect("canonical steps are accepted");
    }
    assert_eq!(state.bucket_id, 3);
}
