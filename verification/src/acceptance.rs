//! What the validator accepts, exactly: every accepted sequence is a
//! gate-free, yield-free preamble, then the canonical ten instructions of
//! the recovered order — loose only where the machine itself is loose —
//! then yield-free trailing instructions. Together with the round trip in
//! [`crate::guarantees`], validation recognizes the built shape and
//! nothing beyond it.

use vstd::prelude::*;
use crate::types::{ComponentAddress, Decimal, ManifestBucket, ResourceAddress};
use crate::manifest::{
    DynamicGlobalAddress, ManifestResourceAddress, ManifestResourceConstraint, MethodName,
    ResourceConstraintEntry, SpecInstruction,
};
use crate::guarantees::{buckets_created, is_protocol_neutral, lemma_buckets_created_le_len,
    lemma_buckets_created_snoc, order_data_well_formed};
use crate::validate::{
    AccountWithdrawManifestInput, creates_bucket, AnthicLimitOrderDefinition,
    ResourceAmount, SubintentValidatorQualifiedState, SubintentValidatorState, ValidationError,
    initial_state, process_spec, recovered_order_well_formed, run_spec, spec_is_entire_worktop,
    spec_single_bucket, spec_two_buckets, spec_withdraw_input, validate_spec,
};

verus! {

/// An account withdraw call withdrawing `amount_subunits` of `resource`
/// from `account`.
pub open spec fn withdraw_call_shape(
    instruction: SpecInstruction,
    account: ComponentAddress,
    resource: ResourceAddress,
    amount_subunits: u128,
) -> bool {
    &&& instruction matches SpecInstruction::CallMethod { address, method_name, args }
    &&& address matches DynamicGlobalAddress::Static(global)
    &&& global.is_account
    &&& global.id == account.id
    &&& method_name == MethodName::Withdraw
    &&& spec_withdraw_input(args) == Some(
        AccountWithdrawManifestInput {
            resource_address: ManifestResourceAddress::Static(resource),
            amount: Decimal { subunits: amount_subunits },
        },
    )
}

/// A next-call assertion with exactly one at-least-amount constraint: the
/// buy side.
pub open spec fn next_call_assert_shape(instruction: SpecInstruction, buy: ResourceAmount) -> bool {
    &&& instruction matches SpecInstruction::AssertNextCallReturnsOnly { constraints }
    &&& constraints.len() == 1
    &&& constraints[0] == ResourceConstraintEntry {
        resource: buy.resource,
        constraint: ManifestResourceConstraint::AtLeastAmount(buy.amount),
    }
}

/// A yield whose payload is exactly the bucket with the given index.
pub open spec fn single_bucket_yield_shape(instruction: SpecInstruction, index: int) -> bool {
    &&& instruction matches SpecInstruction::YieldToParent { args }
    &&& spec_single_bucket(args) == Some(ManifestBucket { index: index as u64 })
}

/// A yield whose payload is exactly the two buckets with the given
/// indices, in order.
pub open spec fn fee_yield_shape(instruction: SpecInstruction, first: int, second: int) -> bool {
    &&& instruction matches SpecInstruction::YieldToParent { args }
    &&& spec_two_buckets(args) == Some(
        (ManifestBucket { index: first as u64 }, ManifestBucket { index: second as u64 }),
    )
}

/// A deposit-batch call on the account, depositing the entire worktop.
pub open spec fn deposit_call_shape(instruction: SpecInstruction, account: ComponentAddress) -> bool {
    &&& instruction matches SpecInstruction::CallMethod { address, method_name, args }
    &&& address matches DynamicGlobalAddress::Static(global)
    &&& global.id == account.id
    &&& method_name == MethodName::DepositBatch
    &&& spec_is_entire_worktop(args)
}

/// A yield with no payload.
pub open spec fn final_yield_shape(instruction: SpecInstruction) -> bool {
    &&& instruction matches SpecInstruction::YieldToParent { args }
    &&& args.len() == 0
}

/// The canonical ten instructions of `order`, read off `c` starting at
/// `i`: the parent gate, a withdrawal of the sell resource covering at
/// least the sale, the sell extraction, the buy-side assertion, the sell
/// yield, the two fee extractions, the fee yield, the deposit, and the
/// closing empty yield. The bucket references are the positions the
/// extractions occupy among all bucket-creating instructions, and the
/// order itself satisfies the recovered-order invariants.
pub open spec fn canonical_core_shape(
    c: Seq<SpecInstruction>,
    i: int,
    order: AnthicLimitOrderDefinition,
) -> bool {
    let k = buckets_created(c.take(i)) as int;
    &&& c[i] == SpecInstruction::VerifyParent { access_rule: order.meta.access_rule }
    &&& exists|withdrawn: u128|
        #[trigger] withdraw_call_shape(
            c[i + 1],
            order.meta.account,
            order.trade.sell.resource,
            withdrawn,
        ) && withdrawn >= order.trade.sell.amount.subunits
    &&& c[i + 2] == SpecInstruction::TakeFromWorktop {
        resource_address: order.trade.sell.resource,
        amount: order.trade.sell.amount,
    }
    &&& next_call_assert_shape(c[i + 3], order.trade.buy)
    &&& single_bucket_yield_shape(c[i + 4], k)
    &&& c[i + 5] == SpecInstruction::TakeFromWorktop {
        resource_address: order.fee.resource,
        amount: order.fee.anthic_amount,
    }
    &&& c[i + 6] == SpecInstruction::TakeFromWorktop {
        resource_address: order.fee.resource,
        amount: order.fee.settlement_amount,
    }
    &&& fee_yield_shape(c[i + 7], k + 1, k + 2)
    &&& deposit_call_shape(c[i + 8], order.meta.account)
    &&& final_yield_shape(c[i + 9])
    &&& recovered_order_well_formed(order)
}

/// The exact shape of an accepted sequence: a gate-free, yield-free
/// preamble, the canonical core of the recovered order, and yield-free
/// trailing instructions.
pub open spec fn accepted_shape(c: Seq<SpecInstruction>, order: AnthicLimitOrderDefinition) -> bool {
    exists|i: int| {
        &&& 0 <= i
        &&& i + 10 <= c.len()
        &&& forall|p: int| 0 <= p < i ==> is_protocol_neutral(#[trigger] c[p])
        &&& #[trigger] canonical_core_shape(c, i, order)
        &&& forall|p: int| i + 10 <= p < c.len() ==> !((#[trigger] c[p]) is YieldToParent)
    }
}

/// What the consumed prefix `c` must look like for the machine to sit in
/// `state`: the history invariant behind
/// [`lemma_validate_accepts_only_canonical`]. Each grammar position pins
/// the consumed instructions up to exactly the freedom the machine
/// allows.
spec fn run_describes(state: SubintentValidatorState, c: Seq<SpecInstruction>) -> bool {
    let n = c.len() as int;
    &&& state.bucket_id == buckets_created(c)
    &&& order_data_well_formed(state)
    &&& match state.qualified_state {
        SubintentValidatorQualifiedState::Initial => forall|p: int|
            0 <= p < n ==> is_protocol_neutral(#[trigger] c[p]),
        SubintentValidatorQualifiedState::AccessRuleVerified { access_rule } => {
            &&& n >= 1
            &&& forall|p: int| 0 <= p < n - 1 ==> is_protocol_neutral(#[trigger] c[p])
            &&& c[n - 1] == SpecInstruction::VerifyParent { access_rule }
        },
        SubintentValidatorQualifiedState::WithdrewFromAccount { meta, withdraw } => {
            &&& n >= 2
            &&& forall|p: int| 0 <= p < n - 2 ==> is_protocol_neutral(#[trigger] c[p])
            &&& c[n - 2] == SpecInstruction::VerifyParent { access_rule: meta.access_rule }
            &&& withdraw_call_shape(c[n - 1], meta.account, withdraw.resource, withdraw.amount.subunits)
        },
        SubintentValidatorQualifiedState::CreatedSellBucket { meta, sell, sell_bucket, leftover } => {
            &&& n >= 3
            &&& forall|p: int| 0 <= p < n - 3 ==> is_protocol_neutral(#[trigger] c[p])
            &&& c[n - 3] == SpecInstruction::VerifyParent { access_rule: meta.access_rule }
            &&& sell.amount.subunits + leftover.subunits <= u128::MAX
            &&& withdraw_call_shape(
                c[n - 2],
                meta.account,
                sell.resource,
                (sell.amount.subunits + leftover.subunits) as u128,
            )
            &&& c[n - 1] == SpecInstruction::TakeFromWorktop {
                resource_address: sell.resource,
                amount: sell.amount,
            }
            &&& sell_bucket.index == buckets_created(c.take(n - 3))
        },
        SubintentValidatorQualifiedState::AssertedNextCallReturns { meta, trade, sell_bucket } => {
            &&& n >= 4
            &&& forall|p: int| 0 <= p < n - 4 ==> is_protocol_neutral(#[trigger] c[p])
            &&& c[n - 4] == SpecInstruction::VerifyParent { access_rule: meta.access_rule }
            &&& exists|withdrawn: u128|
                #[trigger] withdraw_call_shape(
                    c[n - 3],
                    meta.account,
                    trade.sell.resource,
                    withdrawn,
                ) && withdrawn >= trade.sell.amount.subunits
            &&& c[n - 2] == SpecInstruction::TakeFromWorktop {
                resource_address: trade.sell.resource,
                amount: trade.sell.amount,
            }
            &&& next_call_assert_shape(c[n - 1], trade.buy)
            &&& sell_bucket.index == buckets_created(c.take(n - 4))
        },
        SubintentValidatorQualifiedState::YieldedSellBucketToParent { meta, trade } => {
            &&& n >= 5
            &&& forall|p: int| 0 <= p < n - 5 ==> is_protocol_neutral(#[trigger] c[p])
            &&& c[n - 5] == SpecInstruction::VerifyParent { access_rule: meta.access_rule }
            &&& exists|withdrawn: u128|
                #[trigger] withdraw_call_shape(
                    c[n - 4],
                    meta.account,
                    trade.sell.resource,
                    withdrawn,
                ) && withdrawn >= trade.sell.amount.subunits
            &&& c[n - 3] == SpecInstruction::TakeFromWorktop {
                resource_address: trade.sell.resource,
                amount: trade.sell.amount,
            }
            &&& next_call_assert_shape(c[n - 2], trade.buy)
            &&& single_bucket_yield_shape(c[n - 1], buckets_created(c.take(n - 5)) as int)
        },
        SubintentValidatorQualifiedState::CreatedAnthicFeeBucket {
            meta,
            trade,
            anthic_fee,
            anthic_fee_bucket,
        } => {
            let k = buckets_created(c.take(n - 6)) as int;
            &&& n >= 6
            &&& forall|p: int| 0 <= p < n - 6 ==> is_protocol_neutral(#[trigger] c[p])
            &&& c[n - 6] == SpecInstruction::VerifyParent { access_rule: meta.access_rule }
            &&& exists|withdrawn: u128|
                #[trigger] withdraw_call_shape(
                    c[n - 5],
                    meta.account,
                    trade.sell.resource,
                    withdrawn,
                ) && withdrawn >= trade.sell.amount.subunits
            &&& c[n - 4] == SpecInstruction::TakeFromWorktop {
                resource_address: trade.sell.resource,
                amount: trade.sell.amount,
            }
            &&& next_call_assert_shape(c[n - 3], trade.buy)
            &&& single_bucket_yield_shape(c[n - 2], k)
            &&& c[n - 1] == SpecInstruction::TakeFromWorktop {
                resource_address: anthic_fee.resource,
                amount: anthic_fee.amount,
            }
            &&& anthic_fee_bucket.index == k + 1
        },
        SubintentValidatorQualifiedState::CreatedSettlementFeeBucket {
            order,
            anthic_fee_bucket,
            solver_fee_bucket,
        } => {
            let k = buckets_created(c.take(n - 7)) as int;
            &&& n >= 7
            &&& forall|p: int| 0 <= p < n - 7 ==> is_protocol_neutral(#[trigger] c[p])
            &&& c[n - 7] == SpecInstruction::VerifyParent { access_rule: order.meta.access_rule }
            &&& exists|withdrawn: u128|
                #[trigger] withdraw_call_shape(
                    c[n - 6],
                    order.meta.account,
                    order.trade.sell.resource,
                    withdrawn,
                ) && withdrawn >= order.trade.sell.amount.subunits
            &&& c[n - 5] == SpecInstruction::TakeFromWorktop {
                resource_address: order.trade.sell.resource,
                amount: order.trade.sell.amount,
            }
            &&& next_call_assert_shape(c[n - 4], order.trade.buy)
            &&& single_bucket_yield_shape(c[n - 3], k)
            &&& c[n - 2] == SpecInstruction::TakeFromWorktop {
                resource_address: order.fee.resource,
                amount: order.fee.anthic_amount,
            }
            &&& c[n - 1] == SpecInstruction::TakeFromWorktop {
                resource_address: order.fee.resource,
                amount: order.fee.settlement_amount,
            }
            &&& anthic_fee_bucket.index == k + 1
            &&& solver_fee_bucket.index == k + 2
        },
        SubintentValidatorQualifiedState::YieldedFeesToParent { order } => {
            let k = buckets_created(c.take(n - 8)) as int;
            &&& n >= 8
            &&& forall|p: int| 0 <= p < n - 8 ==> is_protocol_neutral(#[trigger] c[p])
            &&& canonical_core_start_shape(c, n - 8, order)
            &&& fee_yield_shape(c[n - 1], k + 1, k + 2)
        },
        SubintentValidatorQualifiedState::DepositedWorktopToAccount { order } => {
            let k = buckets_created(c.take(n - 9)) as int;
            &&& n >= 9
            &&& forall|p: int| 0 <= p < n - 9 ==> is_protocol_neutral(#[trigger] c[p])
            &&& canonical_core_start_shape(c, n - 9, order)
            &&& fee_yield_shape(c[n - 2], k + 1, k + 2)
            &&& deposit_call_shape(c[n - 1], order.meta.account)
        },
        SubintentValidatorQualifiedState::Complete { order } => accepted_shape(c, order),
    }
}

/// The first seven canonical instructions of `order`, read off `c`
/// starting at `i`: everything up to and including the settlement-fee
/// extraction.
spec fn canonical_core_start_shape(
    c: Seq<SpecInstruction>,
    i: int,
    order: AnthicLimitOrderDefinition,
) -> bool {
    let k = buckets_created(c.take(i)) as int;
    &&& c[i] == SpecInstruction::VerifyParent { access_rule: order.meta.access_rule }
    &&& exists|withdrawn: u128|
        #[trigger] withdraw_call_shape(
            c[i + 1],
            order.meta.account,
            order.trade.sell.resource,
            withdrawn,
        ) && withdrawn >= order.trade.sell.amount.subunits
    &&& c[i + 2] == SpecInstruction::TakeFromWorktop {
        resource_address: order.trade.sell.resource,
        amount: order.trade.sell.amount,
    }
    &&& next_call_assert_shape(c[i + 3], order.trade.buy)
    &&& single_bucket_yield_shape(c[i + 4], k)
    &&& c[i + 5] == SpecInstruction::TakeFromWorktop {
        resource_address: order.fee.resource,
        amount: order.fee.anthic_amount,
    }
    &&& c[i + 6] == SpecInstruction::TakeFromWorktop {
        resource_address: order.fee.resource,
        amount: order.fee.settlement_amount,
    }
}


/// One bucket-count unfolding at the end of a prefix.
proof fn lemma_buckets_take_step(c: Seq<SpecInstruction>, m: int)
    requires
        1 <= m <= c.len(),
    ensures
        buckets_created(c.take(m)) == buckets_created(c.take(m - 1)) + (if creates_bucket(c[m - 1]) {
            1nat
        } else {
            0nat
        }),
{
    assert(c.take(m - 1).push(c[m - 1]) =~= c.take(m));
    lemma_buckets_created_snoc(c.take(m - 1), c[m - 1]);
}

/// How appending one instruction relates the two sequences: indexing,
/// prefixes and bucket counts all carry over.
proof fn lemma_push_facts(c: Seq<SpecInstruction>, instruction: SpecInstruction)
    ensures
        c.push(instruction).len() == c.len() + 1,
        forall|p: int| 0 <= p < c.len() ==> #[trigger] c.push(instruction)[p] == c[p],
        c.push(instruction)[c.len() as int] == instruction,
        forall|m: int| 0 <= m <= c.len() ==> #[trigger] c.push(instruction).take(m) == c.take(m),
        c.take(c.len() as int) == c,
        buckets_created(c.push(instruction)) == buckets_created(c) + (if creates_bucket(
            instruction,
        ) {
            1nat
        } else {
            0nat
        }),
        buckets_created(c) <= c.len(),
{
    lemma_buckets_created_le_len(c);
    lemma_buckets_created_snoc(c, instruction);
    assert(c.take(c.len() as int) =~= c);
    assert forall|m: int| 0 <= m <= c.len() implies #[trigger] c.push(instruction).take(m)
        == c.take(m) by {
        assert(c.push(instruction).take(m) =~= c.take(m));
    }
}

/// An accepted step from an ungated machine.
proof fn lemma_step_from_initial(
    state: SubintentValidatorState,
    c: Seq<SpecInstruction>,
    instruction: SpecInstruction,
)
    requires
        run_describes(state, c),
        state.qualified_state is Initial,
        c.len() < u64::MAX,
        process_spec(state, instruction).1 == Ok::<(), ValidationError>(()),
    ensures
        run_describes(process_spec(state, instruction).0, c.push(instruction)),
{
    lemma_push_facts(c, instruction);
}

/// An accepted step after the parent gate.
proof fn lemma_step_from_access_rule_verified(
    state: SubintentValidatorState,
    c: Seq<SpecInstruction>,
    instruction: SpecInstruction,
)
    requires
        run_describes(state, c),
        state.qualified_state is AccessRuleVerified,
        c.len() < u64::MAX,
        process_spec(state, instruction).1 == Ok::<(), ValidationError>(()),
    ensures
        run_describes(process_spec(state, instruction).0, c.push(instruction)),
{
    lemma_push_facts(c, instruction);
}

/// An accepted step after the withdrawal: the sell extraction.
proof fn lemma_step_from_withdrew(
    state: SubintentValidatorState,
    c: Seq<SpecInstruction>,
    instruction: SpecInstruction,
)
    requires
        run_describes(state, c),
        state.qualified_state is WithdrewFromAccount,
        c.len() < u64::MAX,
        process_spec(state, instruction).1 == Ok::<(), ValidationError>(()),
    ensures
        run_describes(process_spec(state, instruction).0, c.push(instruction)),
{
    let n = c.len() as int;
    lemma_push_facts(c, instruction);
    // The parent gate and the withdraw call create no buckets, so the
    // recorded bucket index is the preamble's count.
    lemma_buckets_take_step(c, n);
    lemma_buckets_take_step(c, n - 1);
}

/// An accepted step after the sell extraction: the buy-side assertion.
proof fn lemma_step_from_created_sell_bucket(
    state: SubintentValidatorState,
    c: Seq<SpecInstruction>,
    instruction: SpecInstruction,
)
    requires
        run_describes(state, c),
        state.qualified_state is CreatedSellBucket,
        c.len() < u64::MAX,
        process_spec(state, instruction).1 == Ok::<(), ValidationError>(()),
    ensures
        run_describes(process_spec(state, instruction).0, c.push(instruction)),
{
    let n = c.len() as int;
    let c2 = c.push(instruction);
    lemma_push_facts(c, instruction);
    let meta = state.qualified_state->CreatedSellBucket_meta;
    let sell = state.qualified_state->CreatedSellBucket_sell;
    let leftover = state.qualified_state->CreatedSellBucket_leftover;
    let withdrawn = (sell.amount.subunits + leftover.subunits) as u128;
    let n2 = c2.len() as int;
    let ns = process_spec(state, instruction).0.qualified_state;
    let trade2 = ns->AssertedNextCallReturns_trade;
    assert(withdraw_call_shape(c2[n2 - 3], meta.account, trade2.sell.resource, withdrawn)
        && withdrawn >= trade2.sell.amount.subunits);
    assert(exists|w: u128|
        #[trigger] withdraw_call_shape(c2[n2 - 3], meta.account, trade2.sell.resource, w)
            && w >= trade2.sell.amount.subunits);
    // The accepted assertion is rebuilt field for field from its one
    // constraint entry, and the recorded sell bucket is the preamble's
    // bucket count.
    assert(next_call_assert_shape(c2[n2 - 1], trade2.buy));
    let new_sell_bucket = ns->AssertedNextCallReturns_sell_bucket;
    assert(new_sell_bucket.index == buckets_created(c2.take(n2 - 4)));
}

/// An accepted step after the assertion: the sell yield.
proof fn lemma_step_from_asserted(
    state: SubintentValidatorState,
    c: Seq<SpecInstruction>,
    instruction: SpecInstruction,
)
    requires
        run_describes(state, c),
        state.qualified_state is AssertedNextCallReturns,
        c.len() < u64::MAX,
        process_spec(state, instruction).1 == Ok::<(), ValidationError>(()),
    ensures
        run_describes(process_spec(state, instruction).0, c.push(instruction)),
{
    let n = c.len() as int;
    let c2 = c.push(instruction);
    lemma_push_facts(c, instruction);
    let meta = state.qualified_state->AssertedNextCallReturns_meta;
    let trade = state.qualified_state->AssertedNextCallReturns_trade;
    let withdrawn = choose|withdrawn: u128|
        #[trigger] withdraw_call_shape(c[n - 3], meta.account, trade.sell.resource, withdrawn)
            && withdrawn >= trade.sell.amount.subunits;
    let n2 = c2.len() as int;
    let ns = process_spec(state, instruction).0.qualified_state;
    let meta2 = ns->YieldedSellBucketToParent_meta;
    let trade2 = ns->YieldedSellBucketToParent_trade;
    assert(withdraw_call_shape(c2[n2 - 4], meta2.account, trade2.sell.resource, withdrawn)
        && withdrawn >= trade2.sell.amount.subunits);
    assert(exists|w: u128|
        #[trigger] withdraw_call_shape(c2[n2 - 4], meta2.account, trade2.sell.resource, w)
            && w >= trade2.sell.amount.subunits);
    lemma_buckets_created_le_len(c.take(n - 4));
}

/// An accepted step after the sell yield: the venue-fee extraction.
proof fn lemma_step_from_yielded_sell(
    state: SubintentValidatorState,
    c: Seq<SpecInstruction>,
    instruction: SpecInstruction,
)
    requires
        run_describes(state, c),
        state.qualified_state is YieldedSellBucketToParent,
        c.len() < u64::MAX,
        process_spec(state, instruction).1 == Ok::<(), ValidationError>(()),
    ensures
        run_describes(process_spec(state, instruction).0, c.push(instruction)),
{
    let n = c.len() as int;
    let c2 = c.push(instruction);
    lemma_push_facts(c, instruction);
    let meta = state.qualified_state->YieldedSellBucketToParent_meta;
    let trade = state.qualified_state->YieldedSellBucketToParent_trade;
    let withdrawn = choose|withdrawn: u128|
        #[trigger] withdraw_call_shape(c[n - 4], meta.account, trade.sell.resource, withdrawn)
            && withdrawn >= trade.sell.amount.subunits;
    let n2 = c2.len() as int;
    let ns = process_spec(state, instruction).0.qualified_state;
    let meta2 = ns->CreatedAnthicFeeBucket_meta;
    let trade2 = ns->CreatedAnthicFeeBucket_trade;
    assert(withdraw_call_shape(c2[n2 - 5], meta2.account, trade2.sell.resource, withdrawn)
        && withdrawn >= trade2.sell.amount.subunits);
    assert(exists|w: u128|
        #[trigger] withdraw_call_shape(c2[n2 - 5], meta2.account, trade2.sell.resource, w)
            && w >= trade2.sell.amount.subunits);
    // Only the sell extraction has created a bucket since the preamble,
    // so the venue-fee bucket records the preamble's count plus one.
    lemma_buckets_take_step(c, n);
    lemma_buckets_take_step(c, n - 1);
    lemma_buckets_take_step(c, n - 2);
    lemma_buckets_take_step(c, n - 3);
    lemma_buckets_take_step(c, n - 4);
}

/// An accepted step after the venue-fee extraction: the settlement-fee
/// extraction.
proof fn lemma_step_from_created_anthic_fee(
    state: SubintentValidatorState,
    c: Seq<SpecInstruction>,
    instruction: SpecInstruction,
)
    requires
        run_describes(state, c),
        state.qualified_state is CreatedAnthicFeeBucket,
        c.len() < u64::MAX,
        process_spec(state, instruction).1 == Ok::<(), ValidationError>(()),
    ensures
        run_describes(process_spec(state, instruction).0, c.push(instruction)),
{
    let n = c.len() as int;
    let c2 = c.push(instruction);
    lemma_push_facts(c, instruction);
    let meta = state.qualified_state->CreatedAnthicFeeBucket_meta;
    let trade = state.qualified_state->CreatedAnthicFeeBucket_trade;
    let withdrawn = choose|withdrawn: u128|
        #[trigger] withdraw_call_shape(c[n - 5], meta.account, trade.sell.resource, withdrawn)
            && withdrawn >= trade.sell.amount.subunits;
    let n2 = c2.len() as int;
    let ns = process_spec(state, instruction).0.qualified_state;
    let order2 = ns->CreatedSettlementFeeBucket_order;
    assert(withdraw_call_shape(
        c2[n2 - 6],
        order2.meta.account,
        order2.trade.sell.resource,
        withdrawn,
    ) && withdrawn >= order2.trade.sell.amount.subunits);
    assert(exists|w: u128|
        #[trigger] withdraw_call_shape(
            c2[n2 - 6],
            order2.meta.account,
            order2.trade.sell.resource,
            w,
        ) && w >= order2.trade.sell.amount.subunits);
    // The sell and venue-fee extractions have each created a bucket since
    // the preamble, so the settlement-fee bucket records the count plus
    // two.
    lemma_buckets_take_step(c, n);
    lemma_buckets_take_step(c, n - 1);
    lemma_buckets_take_step(c, n - 2);
    lemma_buckets_take_step(c, n - 3);
    lemma_buckets_take_step(c, n - 4);
    lemma_buckets_take_step(c, n - 5);
}

/// An accepted step after the settlement-fee extraction: the fee yield.
proof fn lemma_step_from_created_settlement_fee(
    state: SubintentValidatorState,
    c: Seq<SpecInstruction>,
    instruction: SpecInstruction,
)
    requires
        run_describes(state, c),
        state.qualified_state is CreatedSettlementFeeBucket,
        c.len() < u64::MAX,
        process_spec(state, instruction).1 == Ok::<(), ValidationError>(()),
    ensures
        run_describes(process_spec(state, instruction).0, c.push(instruction)),
{
    let n = c.len() as int;
    let c2 = c.push(instruction);
    lemma_push_facts(c, instruction);
    let order = state.qualified_state->CreatedSettlementFeeBucket_order;
    let withdrawn = choose|withdrawn: u128|
        #[trigger] withdraw_call_shape(
            c[n - 6],
            order.meta.account,
            order.trade.sell.resource,
            withdrawn,
        ) && withdrawn >= order.trade.sell.amount.subunits;
    let n2 = c2.len() as int;
    let ns = process_spec(state, instruction).0.qualified_state;
    let order2 = ns->YieldedFeesToParent_order;
    assert(withdraw_call_shape(
        c2[n2 - 8 + 1],
        order2.meta.account,
        order2.trade.sell.resource,
        withdrawn,
    ) && withdrawn >= order2.trade.sell.amount.subunits);
    assert(exists|w: u128|
        #[trigger] withdraw_call_shape(
            c2[n2 - 8 + 1],
            order2.meta.account,
            order2.trade.sell.resource,
            w,
        ) && w >= order2.trade.sell.amount.subunits);
    assert(canonical_core_start_shape(c2, n2 - 8, order2));
}

/// An accepted step after the fee yield: the deposit.
proof fn lemma_step_from_yielded_fees(
    state: SubintentValidatorState,
    c: Seq<SpecInstruction>,
    instruction: SpecInstruction,
)
    requires
        run_describes(state, c),
        state.qualified_state is YieldedFeesToParent,
        c.len() < u64::MAX,
        process_spec(state, instruction).1 == Ok::<(), ValidationError>(()),
    ensures
        run_describes(process_spec(state, instruction).0, c.push(instruction)),
{
    let n = c.len() as int;
    let c2 = c.push(instruction);
    lemma_push_facts(c, instruction);
    let order = state.qualified_state->YieldedFeesToParent_order;
    let withdrawn = choose|withdrawn: u128|
        #[trigger] withdraw_call_shape(
            c[n - 7],
            order.meta.account,
            order.trade.sell.resource,
            withdrawn,
        ) && withdrawn >= order.trade.sell.amount.subunits;
    let n2 = c2.len() as int;
    let ns = process_spec(state, instruction).0.qualified_state;
    let order2 = ns->DepositedWorktopToAccount_order;
    assert(withdraw_call_shape(
        c2[n2 - 9 + 1],
        order2.meta.account,
        order2.trade.sell.resource,
        withdrawn,
    ) && withdrawn >= order2.trade.sell.amount.subunits);
    assert(exists|w: u128|
        #[trigger] withdraw_call_shape(
            c2[n2 - 9 + 1],
            order2.meta.account,
            order2.trade.sell.resource,
            w,
        ) && w >= order2.trade.sell.amount.subunits);
    assert(canonical_core_start_shape(c2, n2 - 9, order2));
}

/// An accepted step after the deposit: the closing empty yield, which
/// completes the canonical core.
proof fn lemma_step_from_deposited(
    state: SubintentValidatorState,
    c: Seq<SpecInstruction>,
    instruction: SpecInstruction,
)
    requires
        run_describes(state, c),
        state.qualified_state is DepositedWorktopToAccount,
        c.len() < u64::MAX,
        process_spec(state, instruction).1 == Ok::<(), ValidationError>(()),
    ensures
        run_describes(process_spec(state, instruction).0, c.push(instruction)),
{
    let n = c.len() as int;
    let c2 = c.push(instruction);
    lemma_push_facts(c, instruction);
    let order = state.qualified_state->DepositedWorktopToAccount_order;
    let withdrawn = choose|withdrawn: u128|
        #[trigger] withdraw_call_shape(
            c[n - 8],
            order.meta.account,
            order.trade.sell.resource,
            withdrawn,
        ) && withdrawn >= order.trade.sell.amount.subunits;
    assert(withdraw_call_shape(
        c2[n - 8],
        order.meta.account,
        order.trade.sell.resource,
        withdrawn,
    ));
    assert(canonical_core_shape(c2, n - 9, order));
    assert(accepted_shape(c2, order));
}

/// An accepted step after completion: a tolerated trailing instruction.
proof fn lemma_step_from_complete(
    state: SubintentValidatorState,
    c: Seq<SpecInstruction>,
    instruction: SpecInstruction,
)
    requires
        run_describes(state, c),
        state.qualified_state is Complete,
        c.len() < u64::MAX,
        process_spec(state, instruction).1 == Ok::<(), ValidationError>(()),
    ensures
        run_describes(process_spec(state, instruction).0, c.push(instruction)),
{
    let n = c.len() as int;
    let c2 = c.push(instruction);
    lemma_push_facts(c, instruction);
    let order = state.qualified_state->Complete_order;
    let i = choose|i: int| {
        &&& 0 <= i
        &&& i + 10 <= c.len()
        &&& forall|p: int| 0 <= p < i ==> is_protocol_neutral(#[trigger] c[p])
        &&& #[trigger] canonical_core_shape(c, i, order)
        &&& forall|p: int| i + 10 <= p < c.len() ==> !((#[trigger] c[p]) is YieldToParent)
    };
    let withdrawn = choose|withdrawn: u128|
        #[trigger] withdraw_call_shape(
            c[i + 1],
            order.meta.account,
            order.trade.sell.resource,
            withdrawn,
        ) && withdrawn >= order.trade.sell.amount.subunits;
    assert(withdraw_call_shape(
        c2[i + 1],
        order.meta.account,
        order.trade.sell.resource,
        withdrawn,
    ));
    assert(canonical_core_shape(c2, i, order));
    assert(accepted_shape(c2, order));
}

/// One accepted step keeps the history invariant.
proof fn lemma_step_describes(
    state: SubintentValidatorState,
    c: Seq<SpecInstruction>,
    instruction: SpecInstruction,
)
    requires
        run_describes(state, c),
        c.len() < u64::MAX,
        process_spec(state, instruction).1 == Ok::<(), ValidationError>(()),
    ensures
        run_describes(process_spec(state, instruction).0, c.push(instruction)),
{
    match state.qualified_state {
        SubintentValidatorQualifiedState::Initial => lemma_step_from_initial(state, c, instruction),
        SubintentValidatorQualifiedState::AccessRuleVerified { .. } => {
            lemma_step_from_access_rule_verified(state, c, instruction)
        },
        SubintentValidatorQualifiedState::WithdrewFromAccount { .. } => {
            lemma_step_from_withdrew(state, c, instruction)
        },
        SubintentValidatorQualifiedState::CreatedSellBucket { .. } => {
            lemma_step_from_created_sell_bucket(state, c, instruction)
        },
        SubintentValidatorQualifiedState::AssertedNextCallReturns { .. } => {
            lemma_step_from_asserted(state, c, instruction)
        },
        SubintentValidatorQualifiedState::YieldedSellBucketToParent { .. } => {
            lemma_step_from_yielded_sell(state, c, instruction)
        },
        SubintentValidatorQualifiedState::CreatedAnthicFeeBucket { .. } => {
            lemma_step_from_created_anthic_fee(state, c, instruction)
        },
        SubintentValidatorQualifiedState::CreatedSettlementFeeBucket { .. } => {
            lemma_step_from_created_settlement_fee(state, c, instruction)
        },
        SubintentValidatorQualifiedState::YieldedFeesToParent { .. } => {
            lemma_step_from_yielded_fees(state, c, instruction)
        },
        SubintentValidatorQualifiedState::DepositedWorktopToAccount { .. } => {
            lemma_step_from_deposited(state, c, instruction)
        },
        SubintentValidatorQualifiedState::Complete { .. } => {
            lemma_step_from_complete(state, c, instruction)
        },
    }
}


/// Every accepted run keeps the history invariant.
proof fn lemma_run_describes_preserved(
    state: SubintentValidatorState,
    c: Seq<SpecInstruction>,
    rest: Seq<SpecInstruction>,
)
    requires
        run_describes(state, c),
        run_spec(state, rest) is Ok,
        c.len() + rest.len() <= u64::MAX,
    ensures
        run_describes(run_spec(state, rest).unwrap(), c + rest),
    decreases rest.len(),
{
    if rest.len() == 0 {
        assert(c + rest =~= c);
    } else {
        let step = process_spec(state, rest[0]);
        assert(step.1 == Ok::<(), ValidationError>(()));
        lemma_step_describes(state, c, rest[0]);
        assert(c.push(rest[0]) + rest.drop_first() =~= c + rest);
        lemma_run_describes_preserved(step.0, c.push(rest[0]), rest.drop_first());
    }
}

/// The validator accepts nothing beyond the built shape: every sequence
/// that validates to an order is a gate-free, yield-free preamble, then
/// the canonical core of exactly that order, then yield-free trailing
/// instructions. Together with the round trip, the two directions of the
/// protocol are inverse: the grammar recognizes what the builder emits
/// and no more.
pub proof fn lemma_validation_accepts_only_canonical(
    s: Seq<SpecInstruction>,
    order: AnthicLimitOrderDefinition,
)
    requires
        validate_spec(s) == Ok::<AnthicLimitOrderDefinition, ValidationError>(order),
        s.len() <= u64::MAX,
    ensures
        accepted_shape(s, order),
{
    assert(run_spec(initial_state(), s) is Ok);
    assert(run_describes(initial_state(), Seq::empty()));
    lemma_run_describes_preserved(initial_state(), Seq::empty(), s);
    assert(Seq::<SpecInstruction>::empty() + s =~= s);
}

} // verus!
