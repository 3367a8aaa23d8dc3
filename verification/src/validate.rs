//! The protocol validator: a single-pass state machine that consumes an
//! ordered instruction sequence and either recovers the structured limit
//! order it encodes, or rejects the sequence with the reason.
//!
//! The machine's behaviour is given by the spec function [`process_spec`];
//! the executable [`SubintentValidator::process`] is proved to follow it
//! step for step, and [`anthic_validate_instructions`] is proved to equal
//! [`validate_spec`], the fold of the machine over the whole sequence.
//!
//! One rule is independent of the current state: every bucket-creating
//! instruction advances the bucket counter before the state is consulted,
//! because bucket numbering is positional in the execution environment and
//! must be tracked even on instructions a state does not otherwise accept.

use vstd::prelude::*;
use crate::types::{AccessRule, ComponentAddress, Decimal, ManifestBucket, ResourceAddress};
use crate::manifest::{
    DynamicGlobalAddress, Instruction, ManifestArg, ManifestExpression, ManifestResourceAddress,
    ManifestResourceConstraint, MethodName, SpecInstruction, SubintentManifest, instructions_view,
};

verus! {

/// A resource together with a quantity of it.
#[derive(Clone, Copy, Debug, PartialEq, Eq, Structural)]
pub struct ResourceAmount {
    pub resource: ResourceAddress,
    pub amount: Decimal,
}

/// The fees recovered from a sequence: the venue fee and the settlement fee,
/// both paid in `resource`.
#[derive(Clone, Copy, Debug, PartialEq, Eq, Structural)]
pub struct FeeDefinition {
    pub resource: ResourceAddress,
    pub anthic_amount: Decimal,
    pub settlement_amount: Decimal,
}

/// The gating rule and the account a sequence was built for.
#[derive(Clone, Copy, Debug, PartialEq, Eq, Structural)]
pub struct LimitOrderMeta {
    pub access_rule: AccessRule,
    pub account: ComponentAddress,
}

/// The trade itself: what is sold and the least that must come back.
#[derive(Clone, Copy, Debug, PartialEq, Eq, Structural)]
pub struct LimitOrder {
    pub sell: ResourceAmount,
    pub buy: ResourceAmount,
}

/// The structured order recovered from a conforming sequence: the sole
/// output of a successful validation.
#[derive(Clone, Copy, Debug, PartialEq, Eq, Structural)]
pub struct AnthicLimitOrderDefinition {
    pub meta: LimitOrderMeta,
    pub trade: LimitOrder,
    pub fee: FeeDefinition,
}

/// The invariants of a recovered order: the fees are paid in the resource
/// being sold, and the bought resource differs from the sold one. The
/// machine enforces both, and every validated order satisfies them. The
/// remaining order invariant — no amount is negative — holds by
/// construction: the quantity type counts unsigned subunits.
pub open spec fn recovered_order_well_formed(order: AnthicLimitOrderDefinition) -> bool {
    &&& order.fee.resource == order.trade.sell.resource
    &&& order.trade.buy.resource != order.trade.sell.resource
}

/// Why a sequence was rejected. Each variant names the instruction shape the
/// rejecting state was waiting for, or the global rule that was broken.
#[derive(Clone, Copy, Debug, PartialEq, Eq, Structural)]
pub enum ValidationError {
    /// A yield arrived before the parent gate.
    YieldBeforeVerifyParent,
    /// A withdraw call was addressed correctly but its arguments could not
    /// be read as a withdraw input.
    DecodeError,
    /// The state after the parent gate accepts only an account withdraw call.
    ExpectedAccountWithdraw,
    /// After the withdrawal, only a worktop take of the withdrawn resource,
    /// of no more than the withdrawn amount, is accepted.
    ExpectedSellTakeFromWorktop,
    /// After the sell bucket, only a next-call assertion with exactly one
    /// at-least-amount constraint, on a resource other than the one sold,
    /// is accepted.
    ExpectedNextCallAssertion,
    /// Only a yield carrying exactly the sell bucket is accepted.
    ExpectedSellBucketYield,
    /// Only a worktop take of the sell resource (the venue fee) is
    /// accepted.
    ExpectedFeeTakeFromWorktop,
    /// Only a worktop take of the venue-fee resource (the settlement fee) is
    /// accepted.
    ExpectedMatchingFeeTakeFromWorktop,
    /// Only a yield carrying the venue-fee bucket then the settlement-fee
    /// bucket is accepted.
    ExpectedFeeYieldToParent,
    /// Only a deposit-batch call on the withdrawing account, depositing the
    /// entire worktop, is accepted.
    ExpectedDepositBatch,
    /// Only a final yield with no payload is accepted.
    ExpectedFinalYieldToParent,
    /// A further yield arrived after the sequence was already complete.
    YieldAfterCompletion,
    /// The sequence ended before reaching the complete state.
    IncompleteManifest,
}

/// The arguments of an account withdraw call, as the protocol reads them.
#[derive(Clone, Copy, Debug, PartialEq, Eq, Structural)]
pub struct AccountWithdrawManifestInput {
    pub resource_address: ManifestResourceAddress,
    pub amount: Decimal,
}

/// The validator's position in the grammar, carrying what has been read so
/// far.
#[derive(Clone, Copy, Debug)]
pub enum SubintentValidatorQualifiedState {
    Initial,
    AccessRuleVerified {
        access_rule: AccessRule,
    },
    WithdrewFromAccount {
        meta: LimitOrderMeta,
        withdraw: ResourceAmount,
    },
    CreatedSellBucket {
        meta: LimitOrderMeta,
        sell: ResourceAmount,
        sell_bucket: ManifestBucket,
        leftover: Decimal,
    },
    AssertedNextCallReturns {
        meta: LimitOrderMeta,
        trade: LimitOrder,
        sell_bucket: ManifestBucket,
    },
    YieldedSellBucketToParent {
        meta: LimitOrderMeta,
        trade: LimitOrder,
    },
    CreatedAnthicFeeBucket {
        meta: LimitOrderMeta,
        trade: LimitOrder,
        anthic_fee: ResourceAmount,
        anthic_fee_bucket: ManifestBucket,
    },
    CreatedSettlementFeeBucket {
        order: AnthicLimitOrderDefinition,
        anthic_fee_bucket: ManifestBucket,
        solver_fee_bucket: ManifestBucket,
    },
    YieldedFeesToParent {
        order: AnthicLimitOrderDefinition,
    },
    DepositedWorktopToAccount {
        order: AnthicLimitOrderDefinition,
    },
    Complete {
        order: AnthicLimitOrderDefinition,
    },
}

/// The full validator state: the positional bucket counter and the position
/// in the grammar.
#[derive(Clone, Copy, Debug)]
pub struct SubintentValidatorState {
    pub bucket_id: u64,
    pub qualified_state: SubintentValidatorQualifiedState,
}

/// The state a validation run starts from.
pub open spec fn initial_state() -> SubintentValidatorState {
    SubintentValidatorState {
        bucket_id: 0,
        qualified_state: SubintentValidatorQualifiedState::Initial,
    }
}

impl SubintentValidatorState {
    pub fn new() -> (r: Self)
        ensures
            r == initial_state(),
    {
        Self {
            bucket_id: 0,
            qualified_state: SubintentValidatorQualifiedState::Initial,
        }
    }
}

/// Whether an instruction creates a bucket, and so advances the positional
/// bucket counter whatever state the validator is in.
pub open spec fn creates_bucket(instruction: SpecInstruction) -> bool {
    ||| instruction is TakeFromWorktop
    ||| instruction is TakeAllFromWorktop
    ||| instruction is TakeNonFungiblesFromWorktop
}

/// The single bucket a yield payload carries, if it carries exactly one.
pub open spec fn spec_single_bucket(args: Seq<ManifestArg>) -> Option<ManifestBucket> {
    if args.len() == 1 {
        match args[0] {
            ManifestArg::Bucket(b) => Some(b),
            _ => None,
        }
    } else {
        None
    }
}

/// The two buckets a yield payload carries, in order, if it carries exactly
/// two.
pub open spec fn spec_two_buckets(args: Seq<ManifestArg>) -> Option<(ManifestBucket, ManifestBucket)> {
    if args.len() == 2 {
        match (args[0], args[1]) {
            (ManifestArg::Bucket(b0), ManifestArg::Bucket(b1)) => Some((b0, b1)),
            _ => None,
        }
    } else {
        None
    }
}

/// The withdraw input encoded in a method call's arguments, if they have
/// that shape.
pub open spec fn spec_withdraw_input(args: Seq<ManifestArg>) -> Option<AccountWithdrawManifestInput> {
    if args.len() == 2 {
        match (args[0], args[1]) {
            (ManifestArg::Resource(r), ManifestArg::Amount(a)) => Some(
                AccountWithdrawManifestInput { resource_address: r, amount: a },
            ),
            _ => None,
        }
    } else {
        None
    }
}

/// Whether a call's arguments are the canonical deposit-everything payload:
/// a single entire-worktop expression.
pub open spec fn spec_is_entire_worktop(args: Seq<ManifestArg>) -> bool {
    args.len() == 1 && args[0] == ManifestArg::Expression(ManifestExpression::EntireWorktop)
}

/// One step of the validator: the state after consuming one instruction,
/// and whether the instruction was accepted.
pub open spec fn process_spec(
    state: SubintentValidatorState,
    instruction: SpecInstruction,
) -> (SubintentValidatorState, Result<(), ValidationError>) {
    let cur_bucket = state.bucket_id;
    let next_bucket = if creates_bucket(instruction) {
        (state.bucket_id + 1) as u64
    } else {
        state.bucket_id
    };
    let (qualified, result) = process_qualified_spec(state.qualified_state, cur_bucket, instruction);
    (SubintentValidatorState { bucket_id: next_bucket, qualified_state: qualified }, result)
}

/// The state-dependent part of a step: how the grammar position reacts to
/// one instruction, given the bucket index that instruction would be
/// assigned were it bucket-creating.
pub open spec fn process_qualified_spec(
    qualified: SubintentValidatorQualifiedState,
    cur_bucket: u64,
    instruction: SpecInstruction,
) -> (SubintentValidatorQualifiedState, Result<(), ValidationError>) {
    match qualified {
        SubintentValidatorQualifiedState::Initial => {
            match instruction {
                SpecInstruction::VerifyParent { access_rule } => (
                    SubintentValidatorQualifiedState::AccessRuleVerified { access_rule },
                    Ok(()),
                ),
                SpecInstruction::YieldToParent { .. } => (
                    qualified,
                    Err(ValidationError::YieldBeforeVerifyParent),
                ),
                _ => (qualified, Ok(())),
            }
        },
        SubintentValidatorQualifiedState::AccessRuleVerified { access_rule } => {
            if instruction matches SpecInstruction::CallMethod { address, method_name, args }
                && address matches DynamicGlobalAddress::Static(global)
                && global.is_account
                && method_name == MethodName::Withdraw
            {
                match spec_withdraw_input(instruction->CallMethod_args) {
                    Some(withdraw) => {
                        match withdraw.resource_address {
                            ManifestResourceAddress::Static(resource) => (
                                SubintentValidatorQualifiedState::WithdrewFromAccount {
                                    meta: LimitOrderMeta {
                                        access_rule,
                                        account: ComponentAddress {
                                            id: instruction->CallMethod_address->Static_0.id,
                                        },
                                    },
                                    withdraw: ResourceAmount { resource, amount: withdraw.amount },
                                },
                                Ok(()),
                            ),
                            ManifestResourceAddress::Named(_) => (
                                qualified,
                                Err(ValidationError::ExpectedAccountWithdraw),
                            ),
                        }
                    },
                    None => (qualified, Err(ValidationError::DecodeError)),
                }
            } else {
                (qualified, Err(ValidationError::ExpectedAccountWithdraw))
            }
        },
        SubintentValidatorQualifiedState::WithdrewFromAccount { meta, withdraw } => {
            if instruction matches SpecInstruction::TakeFromWorktop { resource_address, amount }
                && withdraw.amount.subunits >= amount.subunits
                && withdraw.resource == resource_address
            {
                (
                    SubintentValidatorQualifiedState::CreatedSellBucket {
                        meta,
                        sell: ResourceAmount {
                            resource: instruction->TakeFromWorktop_resource_address,
                            amount: instruction->TakeFromWorktop_amount,
                        },
                        sell_bucket: ManifestBucket { index: cur_bucket },
                        leftover: Decimal {
                            subunits: (withdraw.amount.subunits
                                - instruction->TakeFromWorktop_amount.subunits) as u128,
                        },
                    },
                    Ok(()),
                )
            } else {
                (qualified, Err(ValidationError::ExpectedSellTakeFromWorktop))
            }
        },
        SubintentValidatorQualifiedState::CreatedSellBucket { meta, sell, sell_bucket, leftover } => {
            if instruction matches SpecInstruction::AssertNextCallReturnsOnly { constraints }
                && constraints.len() == 1
                && constraints[0].resource != sell.resource
                && constraints[0].constraint matches ManifestResourceConstraint::AtLeastAmount(amount)
            {
                (
                    SubintentValidatorQualifiedState::AssertedNextCallReturns {
                        meta,
                        trade: LimitOrder {
                            sell,
                            buy: ResourceAmount {
                                resource: instruction->AssertNextCallReturnsOnly_constraints[0].resource,
                                amount: instruction
                                    ->AssertNextCallReturnsOnly_constraints[0].constraint
                                    ->AtLeastAmount_0,
                            },
                        },
                        sell_bucket,
                    },
                    Ok(()),
                )
            } else {
                (qualified, Err(ValidationError::ExpectedNextCallAssertion))
            }
        },
        SubintentValidatorQualifiedState::AssertedNextCallReturns { meta, trade, sell_bucket } => {
            if instruction matches SpecInstruction::YieldToParent { args }
                && spec_single_bucket(args) matches Some(bucket)
                && bucket == sell_bucket
            {
                (
                    SubintentValidatorQualifiedState::YieldedSellBucketToParent { meta, trade },
                    Ok(()),
                )
            } else {
                (qualified, Err(ValidationError::ExpectedSellBucketYield))
            }
        },
        SubintentValidatorQualifiedState::YieldedSellBucketToParent { meta, trade } => {
            if instruction matches SpecInstruction::TakeFromWorktop { resource_address, amount }
                && resource_address == trade.sell.resource
            {
                (
                    SubintentValidatorQualifiedState::CreatedAnthicFeeBucket {
                        meta,
                        trade,
                        anthic_fee: ResourceAmount {
                            resource: instruction->TakeFromWorktop_resource_address,
                            amount: instruction->TakeFromWorktop_amount,
                        },
                        anthic_fee_bucket: ManifestBucket { index: cur_bucket },
                    },
                    Ok(()),
                )
            } else {
                (qualified, Err(ValidationError::ExpectedFeeTakeFromWorktop))
            }
        },
        SubintentValidatorQualifiedState::CreatedAnthicFeeBucket {
            meta,
            trade,
            anthic_fee,
            anthic_fee_bucket,
        } => {
            if instruction matches SpecInstruction::TakeFromWorktop { resource_address, amount }
                && resource_address == anthic_fee.resource
            {
                (
                    SubintentValidatorQualifiedState::CreatedSettlementFeeBucket {
                        order: AnthicLimitOrderDefinition {
                            meta,
                            trade,
                            fee: FeeDefinition {
                                resource: instruction->TakeFromWorktop_resource_address,
                                anthic_amount: anthic_fee.amount,
                                settlement_amount: instruction->TakeFromWorktop_amount,
                            },
                        },
                        anthic_fee_bucket,
                        solver_fee_bucket: ManifestBucket { index: cur_bucket },
                    },
                    Ok(()),
                )
            } else {
                (qualified, Err(ValidationError::ExpectedMatchingFeeTakeFromWorktop))
            }
        },
        SubintentValidatorQualifiedState::CreatedSettlementFeeBucket {
            order,
            anthic_fee_bucket,
            solver_fee_bucket,
        } => {
            if instruction matches SpecInstruction::YieldToParent { args }
                && spec_two_buckets(args) matches Some((first, second))
                && first == anthic_fee_bucket
                && second == solver_fee_bucket
            {
                (SubintentValidatorQualifiedState::YieldedFeesToParent { order }, Ok(()))
            } else {
                (qualified, Err(ValidationError::ExpectedFeeYieldToParent))
            }
        },
        SubintentValidatorQualifiedState::YieldedFeesToParent { order } => {
            if instruction matches SpecInstruction::CallMethod { address, method_name, args }
                && address matches DynamicGlobalAddress::Static(global)
                && global.id == order.meta.account.id
                && method_name == MethodName::DepositBatch
                && spec_is_entire_worktop(args)
            {
                (SubintentValidatorQualifiedState::DepositedWorktopToAccount { order }, Ok(()))
            } else {
                (qualified, Err(ValidationError::ExpectedDepositBatch))
            }
        },
        SubintentValidatorQualifiedState::DepositedWorktopToAccount { order } => {
            if instruction matches SpecInstruction::YieldToParent { args } && args.len() == 0 {
                (SubintentValidatorQualifiedState::Complete { order }, Ok(()))
            } else {
                (qualified, Err(ValidationError::ExpectedFinalYieldToParent))
            }
        },
        SubintentValidatorQualifiedState::Complete { .. } => {
            if instruction is YieldToParent {
                (qualified, Err(ValidationError::YieldAfterCompletion))
            } else {
                (qualified, Ok(()))
            }
        },
    }
}

/// The single bucket reference a yield payload carries, if it carries
/// exactly one.
pub fn try_manifest_args_to_bucket(args: &Vec<ManifestArg>) -> (r: Option<ManifestBucket>)
    ensures
        r == spec_single_bucket(args@),
{
    if args.len() == 1 {
        match args[0] {
            ManifestArg::Bucket(b) => Some(b),
            _ => None,
        }
    } else {
        None
    }
}

/// The two bucket references a yield payload carries, in order, if it
/// carries exactly two.
pub fn try_manifest_args_to_two_buckets(
    args: &Vec<ManifestArg>,
) -> (r: Option<(ManifestBucket, ManifestBucket)>)
    ensures
        r == spec_two_buckets(args@),
{
    if args.len() == 2 {
        match (args[0], args[1]) {
            (ManifestArg::Bucket(b0), ManifestArg::Bucket(b1)) => Some((b0, b1)),
            _ => None,
        }
    } else {
        None
    }
}

/// Reads a method call's arguments as a withdraw input, where they have that
/// shape.
pub fn try_args_to_withdraw_input(args: &Vec<ManifestArg>) -> (r: Option<AccountWithdrawManifestInput>)
    ensures
        r == spec_withdraw_input(args@),
{
    if args.len() == 2 {
        match (args[0], args[1]) {
            (ManifestArg::Resource(resource), ManifestArg::Amount(amount)) => Some(
                AccountWithdrawManifestInput { resource_address: resource, amount },
            ),
            _ => None,
        }
    } else {
        None
    }
}

/// Whether a call's arguments are the canonical deposit-everything payload.
pub fn args_are_entire_worktop(args: &Vec<ManifestArg>) -> (r: bool)
    ensures
        r == spec_is_entire_worktop(args@),
{
    if args.len() == 1 {
        match args[0] {
            ManifestArg::Expression(ManifestExpression::EntireWorktop) => true,
            _ => false,
        }
    } else {
        false
    }
}

pub struct SubintentValidator;

impl SubintentValidator {
    /// Consumes one instruction: advances the bucket counter where the
    /// instruction creates a bucket, then lets the current grammar state
    /// accept or reject it.
    pub fn process(
        state: &mut SubintentValidatorState,
        instruction: &Instruction,
    ) -> (r: Result<(), ValidationError>)
        requires
            old(state).bucket_id < u64::MAX,
        ensures
            (*final(state), r) == process_spec(*old(state), instruction@),
    {
        let cur_bucket = state.bucket_id;

        match instruction {
            Instruction::TakeFromWorktop { .. } => {
                state.bucket_id = state.bucket_id + 1;
            },
            Instruction::TakeAllFromWorktop { .. } => {
                state.bucket_id = state.bucket_id + 1;
            },
            Instruction::TakeNonFungiblesFromWorktop { .. } => {
                state.bucket_id = state.bucket_id + 1;
            },
            _ => {},
        }

        let qualified = state.qualified_state;
        match qualified {
            SubintentValidatorQualifiedState::Initial => {
                match instruction {
                    Instruction::VerifyParent { access_rule } => {
                        state.qualified_state =
                            SubintentValidatorQualifiedState::AccessRuleVerified {
                                access_rule: *access_rule,
                            };
                        Ok(())
                    },
                    Instruction::YieldToParent { .. } => {
                        Err(ValidationError::YieldBeforeVerifyParent)
                    },
                    _ => Ok(()),
                }
            },
            SubintentValidatorQualifiedState::AccessRuleVerified { access_rule } => {
                if let Instruction::CallMethod { address, method_name, args } = instruction {
                    if let DynamicGlobalAddress::Static(global) = address {
                        if global.is_account && *method_name == MethodName::Withdraw {
                            let withdraw = match try_args_to_withdraw_input(args) {
                                Some(withdraw) => withdraw,
                                None => {
                                    return Err(ValidationError::DecodeError);
                                },
                            };
                            if let ManifestResourceAddress::Static(resource) =
                                withdraw.resource_address
                            {
                                state.qualified_state =
                                    SubintentValidatorQualifiedState::WithdrewFromAccount {
                                        meta: LimitOrderMeta {
                                            access_rule,
                                            account: ComponentAddress { id: global.id },
                                        },
                                        withdraw: ResourceAmount {
                                            resource,
                                            amount: withdraw.amount,
                                        },
                                    };
                                return Ok(());
                            }
                        }
                    }
                }
                Err(ValidationError::ExpectedAccountWithdraw)
            },
            SubintentValidatorQualifiedState::WithdrewFromAccount { meta, withdraw } => {
                if let Instruction::TakeFromWorktop { resource_address, amount } = instruction {
                    if withdraw.amount.subunits >= amount.subunits
                        && withdraw.resource == *resource_address
                    {
                        state.qualified_state =
                            SubintentValidatorQualifiedState::CreatedSellBucket {
                                meta,
                                sell: ResourceAmount {
                                    resource: *resource_address,
                                    amount: *amount,
                                },
                                sell_bucket: ManifestBucket { index: cur_bucket },
                                leftover: Decimal {
                                    subunits: withdraw.amount.subunits - amount.subunits,
                                },
                            };
                        return Ok(());
                    }
                }
                Err(ValidationError::ExpectedSellTakeFromWorktop)
            },
            SubintentValidatorQualifiedState::CreatedSellBucket {
                meta,
                sell,
                sell_bucket,
                leftover: _,
            } => {
                if let Instruction::AssertNextCallReturnsOnly { constraints } = instruction {
                    if constraints.len() == 1 {
                        let entry = constraints[0];
                        if let ManifestResourceConstraint::AtLeastAmount(amount) = entry.constraint {
                            if entry.resource != sell.resource {
                                state.qualified_state =
                                    SubintentValidatorQualifiedState::AssertedNextCallReturns {
                                        meta,
                                        trade: LimitOrder {
                                            sell,
                                            buy: ResourceAmount {
                                                resource: entry.resource,
                                                amount,
                                            },
                                        },
                                        sell_bucket,
                                    };
                                return Ok(());
                            }
                        }
                    }
                }
                Err(ValidationError::ExpectedNextCallAssertion)
            },
            SubintentValidatorQualifiedState::AssertedNextCallReturns { meta, trade, sell_bucket } => {
                if let Instruction::YieldToParent { args } = instruction {
                    if let Some(passed_to_parent) = try_manifest_args_to_bucket(args) {
                        if sell_bucket == passed_to_parent {
                            state.qualified_state =
                                SubintentValidatorQualifiedState::YieldedSellBucketToParent {
                                    meta,
                                    trade,
                                };
                            return Ok(());
                        }
                    }
                }
                Err(ValidationError::ExpectedSellBucketYield)
            },
            SubintentValidatorQualifiedState::YieldedSellBucketToParent { meta, trade } => {
                if let Instruction::TakeFromWorktop { resource_address, amount } = instruction {
                    if *resource_address == trade.sell.resource {
                        state.qualified_state =
                            SubintentValidatorQualifiedState::CreatedAnthicFeeBucket {
                                meta,
                                trade,
                                anthic_fee: ResourceAmount {
                                    resource: *resource_address,
                                    amount: *amount,
                                },
                                anthic_fee_bucket: ManifestBucket { index: cur_bucket },
                            };
                        return Ok(());
                    }
                }
                Err(ValidationError::ExpectedFeeTakeFromWorktop)
            },
            SubintentValidatorQualifiedState::CreatedAnthicFeeBucket {
                meta,
                trade,
                anthic_fee,
                anthic_fee_bucket,
            } => {
                if let Instruction::TakeFromWorktop { resource_address, amount } = instruction {
                    if *resource_address == anthic_fee.resource {
                        state.qualified_state =
                            SubintentValidatorQualifiedState::CreatedSettlementFeeBucket {
                                order: AnthicLimitOrderDefinition {
                                    meta,
                                    trade,
                                    fee: FeeDefinition {
                                        resource: *resource_address,
                                        anthic_amount: anthic_fee.amount,
                                        settlement_amount: *amount,
                                    },
                                },
                                anthic_fee_bucket,
                                solver_fee_bucket: ManifestBucket { index: cur_bucket },
                            };
                        return Ok(());
                    }
                }
                Err(ValidationError::ExpectedMatchingFeeTakeFromWorktop)
            },
            SubintentValidatorQualifiedState::CreatedSettlementFeeBucket {
                order,
                anthic_fee_bucket,
                solver_fee_bucket,
            } => {
                if let Instruction::YieldToParent { args } = instruction {
                    if let Some((first, second)) = try_manifest_args_to_two_buckets(args) {
                        if first == anthic_fee_bucket && second == solver_fee_bucket {
                            state.qualified_state =
                                SubintentValidatorQualifiedState::YieldedFeesToParent { order };
                            return Ok(());
                        }
                    }
                }
                Err(ValidationError::ExpectedFeeYieldToParent)
            },
            SubintentValidatorQualifiedState::YieldedFeesToParent { order } => {
                if let Instruction::CallMethod { address, method_name, args } = instruction {
                    if let DynamicGlobalAddress::Static(global) = address {
                        if global.id == order.meta.account.id
                            && *method_name == MethodName::DepositBatch
                            && args_are_entire_worktop(args)
                        {
                            state.qualified_state =
                                SubintentValidatorQualifiedState::DepositedWorktopToAccount {
                                    order,
                                };
                            return Ok(());
                        }
                    }
                }
                Err(ValidationError::ExpectedDepositBatch)
            },
            SubintentValidatorQualifiedState::DepositedWorktopToAccount { order } => {
                if let Instruction::YieldToParent { args } = instruction {
                    if args.len() == 0 {
                        state.qualified_state =
                            SubintentValidatorQualifiedState::Complete { order };
                        return Ok(());
                    }
                }
                Err(ValidationError::ExpectedFinalYieldToParent)
            },
            SubintentValidatorQualifiedState::Complete { .. } => {
                if let Instruction::YieldToParent { .. } = instruction {
                    Err(ValidationError::YieldAfterCompletion)
                } else {
                    Ok(())
                }
            },
        }
    }
}

/// The machine folded over a whole sequence: the state after the run, or the
/// first rejection.
pub open spec fn run_spec(
    state: SubintentValidatorState,
    instructions: Seq<SpecInstruction>,
) -> Result<SubintentValidatorState, ValidationError>
    decreases instructions.len(),
{
    if instructions.len() == 0 {
        Ok(state)
    } else {
        let step = process_spec(state, instructions[0]);
        match step.1 {
            Ok(()) => run_spec(step.0, instructions.drop_first()),
            Err(e) => Err(e),
        }
    }
}

/// What validating a sequence returns: the recovered order where the run
/// ends exactly in the complete state, otherwise the first rejection, or
/// incompleteness.
pub open spec fn validate_spec(
    instructions: Seq<SpecInstruction>,
) -> Result<AnthicLimitOrderDefinition, ValidationError> {
    match run_spec(initial_state(), instructions) {
        Ok(state) => match state.qualified_state {
            SubintentValidatorQualifiedState::Complete { order } => Ok(order),
            _ => Err(ValidationError::IncompleteManifest),
        },
        Err(e) => Err(e),
    }
}

/// Running over a concatenation runs the first part, then — where it was
/// accepted — the second from where the first left off.
pub proof fn lemma_run_spec_append(
    state: SubintentValidatorState,
    first: Seq<SpecInstruction>,
    second: Seq<SpecInstruction>,
)
    ensures
        run_spec(state, first + second) == (match run_spec(state, first) {
            Ok(mid) => run_spec(mid, second),
            Err(e) => Err(e),
        }),
    decreases first.len(),
{
    if first.len() == 0 {
        assert(first + second =~= second);
    } else {
        let step = process_spec(state, first[0]);
        assert((first + second)[0] == first[0]);
        assert((first + second).drop_first() =~= first.drop_first() + second);
        match step.1 {
            Ok(()) => {
                lemma_run_spec_append(step.0, first.drop_first(), second);
            },
            Err(_) => {},
        }
    }
}

/// One step changes the bucket counter by at most one, and never lowers it.
pub proof fn lemma_process_spec_bucket(state: SubintentValidatorState, instruction: SpecInstruction)
    requires
        state.bucket_id < u64::MAX,
    ensures
        state.bucket_id <= process_spec(state, instruction).0.bucket_id <= state.bucket_id + 1,
{
}

/// Validates an ordered instruction sequence: the structured order it
/// encodes, or the first reason for rejection.
pub fn anthic_validate_instructions(
    instructions: &Vec<Instruction>,
) -> (r: Result<AnthicLimitOrderDefinition, ValidationError>)
    ensures
        r == validate_spec(instructions_view(instructions@)),
{
    let ghost all = instructions_view(instructions@);
    let mut state = SubintentValidatorState::new();
    let n = instructions.len();
    let mut i: usize = 0;
    while i < n
        invariant
            n == instructions@.len(),
            i <= n,
            all == instructions_view(instructions@),
            state.bucket_id <= i,
            run_spec(initial_state(), all.take(i as int)) == Ok::<SubintentValidatorState, ValidationError>(state),
        decreases n - i,
    {
        let ghost pre = state;
        let result = SubintentValidator::process(&mut state, &instructions[i]);
        proof {
            let step = instructions@[i as int]@;
            assert(all.take(i + 1 as int) =~= all.take(i as int) + seq![step]);
            lemma_run_spec_append(initial_state(), all.take(i as int), seq![step]);
            lemma_process_spec_bucket(pre, step);
            assert(seq![step].drop_first() =~= Seq::<SpecInstruction>::empty());
            assert(run_spec(state, Seq::<SpecInstruction>::empty())
                == Ok::<SubintentValidatorState, ValidationError>(state));
            assert((state, result) == process_spec(pre, step));
        }
        match result {
            Ok(()) => {},
            Err(e) => {
                proof {
                    assert(run_spec(initial_state(), all.take(i + 1 as int))
                        == Err::<SubintentValidatorState, ValidationError>(e));
                    assert(all =~= all.take(i + 1 as int) + all.skip(i + 1 as int));
                    lemma_run_spec_append(
                        initial_state(),
                        all.take(i + 1 as int),
                        all.skip(i + 1 as int),
                    );
                }
                return Err(e);
            },
        }
        i = i + 1;
    }
    proof {
        assert(all.take(n as int) =~= all);
    }
    match state.qualified_state {
        SubintentValidatorQualifiedState::Complete { order } => Ok(order),
        _ => Err(ValidationError::IncompleteManifest),
    }
}

/// Validates a whole subintent manifest.
pub fn anthic_validate_manifest(
    manifest: &SubintentManifest,
) -> (r: Result<AnthicLimitOrderDefinition, ValidationError>)
    ensures
        r == validate_spec(manifest@),
{
    anthic_validate_instructions(&manifest.instructions)
}

} // verus!
