//! Composing whole order manifests: a venue order priced from the session
//! configuration and an account's fee tier, and a plain swap manifest
//! built directly from resolved resources.

use vstd::prelude::*;
use crate::types::{ComponentAddress, Decimal, GlobalAddress, ManifestBucket, DECIMAL_ONE_SUBUNITS};
use crate::manifest::{
    DynamicGlobalAddress, Instruction, ManifestArg, ManifestExpression, ManifestResourceAddress,
    ManifestResourceConstraint, MethodName, ResourceConstraintEntry, SpecInstruction,
    SubintentManifest, instructions_view,
};
use crate::model::{AnthicAddressInfo, AnthicConfig, spec_resource_for, spec_settlement_fee_for};
use crate::subintents::{AnthicSubintentManifestBuilder, TokenAmount, limit_order_instructions};
use crate::validate::ResourceAmount;

verus! {

/// Why an order could not be composed from the configuration.
#[derive(Clone, Copy, Debug, PartialEq, Eq, Structural)]
pub enum OrderError {
    /// The sell symbol has no settlement fee on record.
    UnknownSettlementFee,
    /// The account's fee tier is beyond the configured table.
    UnknownFeeLevel,
    /// The venue fee, as a share of the sale, is not representable.
    FeeOverflow,
    /// The sell symbol has no resource on record.
    UnknownSellToken,
    /// The buy symbol has no resource on record.
    UnknownBuyToken,
    /// The withdrawal covering the sale and both fees is not representable.
    AmountOverflow,
}

/// What composing a venue order yields: the canonical sequence, priced
/// with the symbol's settlement fee and the tier's venue-fee share of the
/// sale — or the first reason it cannot be priced.
pub open spec fn spec_create_order_manifest(
    config: AnthicConfig,
    account: ComponentAddress,
    address_info: AnthicAddressInfo,
    sell: TokenAmount,
    buy: TokenAmount,
) -> Result<Seq<SpecInstruction>, OrderError> {
    match spec_settlement_fee_for(config.settlement_fee_per_resource@, sell.symbol@) {
        None => Err(OrderError::UnknownSettlementFee),
        Some(solver_fee) => if address_info.level >= config.anthic_fee_per_level@.len() {
            Err(OrderError::UnknownFeeLevel)
        } else {
            let taker = config.anthic_fee_per_level@[address_info.level as int].taker_fee;
            let share = (sell.amount.subunits * taker.subunits) / (DECIMAL_ONE_SUBUNITS as int);
            if share > u128::MAX {
                Err(OrderError::FeeOverflow)
            } else {
                let anthic_fee = Decimal { subunits: share as u128 };
                match spec_resource_for(config.symbol_to_resource@, sell.symbol@) {
                    None => Err(OrderError::UnknownSellToken),
                    Some(sell_resource) => match spec_resource_for(
                        config.symbol_to_resource@,
                        buy.symbol@,
                    ) {
                        None => Err(OrderError::UnknownBuyToken),
                        Some(buy_resource) => if sell.amount.subunits + solver_fee.subunits
                            + anthic_fee.subunits > u128::MAX {
                            Err(OrderError::AmountOverflow)
                        } else {
                            Ok(
                                limit_order_instructions(
                                    config.verify_parent_access_rule,
                                    account,
                                    ResourceAmount { resource: sell_resource, amount: sell.amount },
                                    ResourceAmount { resource: buy_resource, amount: buy.amount },
                                    solver_fee,
                                    anthic_fee,
                                    0,
                                ),
                            )
                        },
                    },
                }
            }
        },
    }
}

/// Composes the manifest of one venue order: the settlement fee is looked
/// up for the sell symbol, the venue fee is the tier's taker share of the
/// sale, and the canonical sequence is built from a fresh builder.
pub fn create_order_manifest(
    config: AnthicConfig,
    account_address: ComponentAddress,
    address_info: &AnthicAddressInfo,
    sell: TokenAmount,
    buy: TokenAmount,
) -> (r: Result<SubintentManifest, OrderError>)
    ensures
        (r matches Ok(m) ==> spec_create_order_manifest(
            config,
            account_address,
            *address_info,
            sell,
            buy,
        ) matches Ok(instructions) && m@ == instructions),
        (r matches Err(e) ==> spec_create_order_manifest(
            config,
            account_address,
            *address_info,
            sell,
            buy,
        ) == Err::<Seq<SpecInstruction>, OrderError>(e)),
{
    let solver_fee_amount = match config.settlement_fee_for(&sell.symbol) {
        Some(fee) => fee,
        None => {
            return Err(OrderError::UnknownSettlementFee);
        },
    };
    let level_fee = match config.fee_for_level(address_info.level) {
        Some(fee) => fee,
        None => {
            return Err(OrderError::UnknownFeeLevel);
        },
    };
    let anthic_fee_amount = match sell.amount.checked_mul(level_fee.taker_fee) {
        Some(fee) => fee,
        None => {
            return Err(OrderError::FeeOverflow);
        },
    };
    if config.resource_for(&sell.symbol).is_none() {
        return Err(OrderError::UnknownSellToken);
    }
    if config.resource_for(&buy.symbol).is_none() {
        return Err(OrderError::UnknownBuyToken);
    }
    let covered = match sell.amount.checked_add(solver_fee_amount) {
        Some(sum) => sum,
        None => {
            return Err(OrderError::AmountOverflow);
        },
    };
    if covered.checked_add(anthic_fee_amount).is_none() {
        return Err(OrderError::AmountOverflow);
    }
    let builder = AnthicSubintentManifestBuilder::new(config);
    let manifest = builder.add_anthic_limit_order(
        account_address,
        sell,
        buy,
        solver_fee_amount,
        anthic_fee_amount,
    ).build();
    proof {
        assert(Seq::<SpecInstruction>::empty() + spec_create_order_manifest(
            config,
            account_address,
            *address_info,
            sell,
            buy,
        ).unwrap() =~= spec_create_order_manifest(
            config,
            account_address,
            *address_info,
            sell,
            buy,
        ).unwrap());
    }
    Ok(manifest)
}

/// A plain swap order: sell a fixed amount for at least the buy amount,
/// with the option of minting the sold resource into the account first.
#[derive(Clone, Copy, Debug, PartialEq, Eq, Structural)]
pub struct LimitOrderDefinition {
    pub account: ComponentAddress,
    pub buy: ResourceAmount,
    pub sell: ResourceAmount,
    pub use_instamint: bool,
}

/// The instruction sequence of a plain swap order: an optional mint and
/// deposit, then withdraw, extract and pin the sell bucket, pin the next
/// call's return, yield the sell bucket, deposit what is left, and close.
pub open spec fn swap_order_instructions(order: LimitOrderDefinition) -> Seq<SpecInstruction> {
    let core = seq![
        SpecInstruction::CallMethod {
            address: DynamicGlobalAddress::Static(GlobalAddress::spec_of_account(order.account)),
            method_name: MethodName::Withdraw,
            args: seq![
                ManifestArg::Resource(ManifestResourceAddress::Static(order.sell.resource)),
                ManifestArg::Amount(order.sell.amount),
            ],
        },
        SpecInstruction::TakeFromWorktop {
            resource_address: order.sell.resource,
            amount: order.sell.amount,
        },
        SpecInstruction::AssertBucketContents {
            bucket: ManifestBucket { index: 0 },
            constraint: ManifestResourceConstraint::ExactAmount(order.sell.amount),
        },
        SpecInstruction::AssertNextCallReturnsOnly {
            constraints: seq![
                ResourceConstraintEntry {
                    resource: order.buy.resource,
                    constraint: ManifestResourceConstraint::AtLeastAmount(order.buy.amount),
                },
            ],
        },
        SpecInstruction::YieldToParent {
            args: seq![ManifestArg::Bucket(ManifestBucket { index: 0 })],
        },
        SpecInstruction::CallMethod {
            address: DynamicGlobalAddress::Static(GlobalAddress::spec_of_account(order.account)),
            method_name: MethodName::DepositBatch,
            args: seq![ManifestArg::Expression(ManifestExpression::EntireWorktop)],
        },
        SpecInstruction::YieldToParent { args: Seq::empty() },
    ];
    if order.use_instamint {
        seq![
            SpecInstruction::CallMethod {
                address: DynamicGlobalAddress::Static(
                    GlobalAddress { id: order.sell.resource.id, is_account: false },
                ),
                method_name: MethodName::Mint,
                args: seq![ManifestArg::Amount(order.sell.amount)],
            },
            SpecInstruction::CallMethod {
                address: DynamicGlobalAddress::Static(
                    GlobalAddress::spec_of_account(order.account),
                ),
                method_name: MethodName::DepositBatch,
                args: seq![ManifestArg::Expression(ManifestExpression::EntireWorktop)],
            },
        ] + core
    } else {
        core
    }
}

/// Composes the manifest of a plain swap order.
pub fn compose_limit_order_manifest(order: LimitOrderDefinition) -> (r: SubintentManifest)
    ensures
        r@ == swap_order_instructions(order),
{
    let mut instructions: Vec<Instruction> = Vec::new();

    if order.use_instamint {
        let mut mint_args: Vec<ManifestArg> = Vec::new();
        mint_args.push(ManifestArg::Amount(order.sell.amount));
        instructions.push(Instruction::CallMethod {
            address: DynamicGlobalAddress::Static(GlobalAddress {
                id: order.sell.resource.id,
                is_account: false,
            }),
            method_name: MethodName::Mint,
            args: mint_args,
        });
        let mut deposit_args: Vec<ManifestArg> = Vec::new();
        deposit_args.push(ManifestArg::Expression(ManifestExpression::EntireWorktop));
        instructions.push(Instruction::CallMethod {
            address: DynamicGlobalAddress::Static(GlobalAddress::of_account(order.account)),
            method_name: MethodName::DepositBatch,
            args: deposit_args,
        });
    }

    let mut withdraw_args: Vec<ManifestArg> = Vec::new();
    withdraw_args.push(ManifestArg::Resource(ManifestResourceAddress::Static(
        order.sell.resource,
    )));
    withdraw_args.push(ManifestArg::Amount(order.sell.amount));
    instructions.push(Instruction::CallMethod {
        address: DynamicGlobalAddress::Static(GlobalAddress::of_account(order.account)),
        method_name: MethodName::Withdraw,
        args: withdraw_args,
    });

    instructions.push(Instruction::TakeFromWorktop {
        resource_address: order.sell.resource,
        amount: order.sell.amount,
    });

    instructions.push(Instruction::AssertBucketContents {
        bucket: ManifestBucket { index: 0 },
        constraint: ManifestResourceConstraint::ExactAmount(order.sell.amount),
    });

    let mut constraints: Vec<ResourceConstraintEntry> = Vec::new();
    constraints.push(ResourceConstraintEntry {
        resource: order.buy.resource,
        constraint: ManifestResourceConstraint::AtLeastAmount(order.buy.amount),
    });
    instructions.push(Instruction::AssertNextCallReturnsOnly { constraints });

    let mut yield_args: Vec<ManifestArg> = Vec::new();
    yield_args.push(ManifestArg::Bucket(ManifestBucket { index: 0 }));
    instructions.push(Instruction::YieldToParent { args: yield_args });

    let mut deposit_args: Vec<ManifestArg> = Vec::new();
    deposit_args.push(ManifestArg::Expression(ManifestExpression::EntireWorktop));
    instructions.push(Instruction::CallMethod {
        address: DynamicGlobalAddress::Static(GlobalAddress::of_account(order.account)),
        method_name: MethodName::DepositBatch,
        args: deposit_args,
    });

    instructions.push(Instruction::YieldToParent { args: Vec::new() });

    proof {
        assert(instructions_view(instructions@) =~~= swap_order_instructions(order));
    }
    SubintentManifest { instructions }
}

} // verus!
