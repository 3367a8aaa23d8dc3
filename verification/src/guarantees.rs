//! The protocol's guarantees, proved over the builder's and the validator's
//! spec functions: building then validating recovers the order exactly,
//! with or without a tolerated preamble; a built sequence survives neither
//! reordering nor bucket substitution nor a fee extraction in a foreign
//! resource; every validated order pays its fees in the sold resource and
//! buys a resource other than the sold one; and bucket numbering is
//! positional and strictly increasing.

use vstd::prelude::*;
use crate::types::{AccessRule, ComponentAddress, Decimal, ManifestBucket, NonFungibleLocalId, ResourceAddress};
use crate::manifest::SpecInstruction;
use crate::model::InstamintConfig;
use crate::subintents::{instamint_instructions, limit_order_instructions};
use crate::validate::{
    AnthicLimitOrderDefinition, FeeDefinition, LimitOrder, LimitOrderMeta, ResourceAmount,
    SubintentValidatorQualifiedState, SubintentValidatorState, ValidationError, creates_bucket,
    initial_state, lemma_run_spec_append, process_spec, recovered_order_well_formed, run_spec,
    validate_spec,
};

verus! {

/// The order that validating a built sequence recovers: the same meta and
/// trade, with the fees attributed to the sell resource.
pub open spec fn recovered_order(
    access_rule: AccessRule,
    account: ComponentAddress,
    sell: ResourceAmount,
    buy: ResourceAmount,
    settlement_fee_amount: Decimal,
    anthic_fee_amount: Decimal,
) -> AnthicLimitOrderDefinition {
    AnthicLimitOrderDefinition {
        meta: LimitOrderMeta { access_rule, account },
        trade: LimitOrder { sell, buy },
        fee: FeeDefinition {
            resource: sell.resource,
            anthic_amount: anthic_fee_amount,
            settlement_amount: settlement_fee_amount,
        },
    }
}

/// The amount the canonical sequence withdraws: the sale plus both fees.
pub open spec fn canonical_withdraw_amount(
    sell: ResourceAmount,
    settlement_fee_amount: Decimal,
    anthic_fee_amount: Decimal,
) -> Decimal {
    Decimal {
        subunits: (sell.amount.subunits + settlement_fee_amount.subunits
            + anthic_fee_amount.subunits) as u128,
    }
}

/// The validator's state after consuming the first `k` instructions of the
/// canonical sequence, starting ungated with bucket counter `first_bucket`.
pub open spec fn canonical_state(
    access_rule: AccessRule,
    account: ComponentAddress,
    sell: ResourceAmount,
    buy: ResourceAmount,
    settlement_fee_amount: Decimal,
    anthic_fee_amount: Decimal,
    first_bucket: u64,
    k: int,
) -> SubintentValidatorState {
    let meta = LimitOrderMeta { access_rule, account };
    let trade = LimitOrder { sell, buy };
    let withdraw_amount = canonical_withdraw_amount(sell, settlement_fee_amount, anthic_fee_amount);
    let order = recovered_order(
        access_rule,
        account,
        sell,
        buy,
        settlement_fee_amount,
        anthic_fee_amount,
    );
    if k <= 0 {
        SubintentValidatorState {
            bucket_id: first_bucket,
            qualified_state: SubintentValidatorQualifiedState::Initial,
        }
    } else if k == 1 {
        SubintentValidatorState {
            bucket_id: first_bucket,
            qualified_state: SubintentValidatorQualifiedState::AccessRuleVerified { access_rule },
        }
    } else if k == 2 {
        SubintentValidatorState {
            bucket_id: first_bucket,
            qualified_state: SubintentValidatorQualifiedState::WithdrewFromAccount {
                meta,
                withdraw: ResourceAmount { resource: sell.resource, amount: withdraw_amount },
            },
        }
    } else if k == 3 {
        SubintentValidatorState {
            bucket_id: (first_bucket + 1) as u64,
            qualified_state: SubintentValidatorQualifiedState::CreatedSellBucket {
                meta,
                sell,
                sell_bucket: ManifestBucket { index: first_bucket },
                leftover: Decimal {
                    subunits: (withdraw_amount.subunits - sell.amount.subunits) as u128,
                },
            },
        }
    } else if k == 4 {
        SubintentValidatorState {
            bucket_id: (first_bucket + 1) as u64,
            qualified_state: SubintentValidatorQualifiedState::AssertedNextCallReturns {
                meta,
                trade,
                sell_bucket: ManifestBucket { index: first_bucket },
            },
        }
    } else if k == 5 {
        SubintentValidatorState {
            bucket_id: (first_bucket + 1) as u64,
            qualified_state: SubintentValidatorQualifiedState::YieldedSellBucketToParent {
                meta,
                trade,
            },
        }
    } else if k == 6 {
        SubintentValidatorState {
            bucket_id: (first_bucket + 2) as u64,
            qualified_state: SubintentValidatorQualifiedState::CreatedAnthicFeeBucket {
                meta,
                trade,
                anthic_fee: ResourceAmount { resource: sell.resource, amount: anthic_fee_amount },
                anthic_fee_bucket: ManifestBucket { index: (first_bucket + 1) as u64 },
            },
        }
    } else if k == 7 {
        SubintentValidatorState {
            bucket_id: (first_bucket + 3) as u64,
            qualified_state: SubintentValidatorQualifiedState::CreatedSettlementFeeBucket {
                order,
                anthic_fee_bucket: ManifestBucket { index: (first_bucket + 1) as u64 },
                solver_fee_bucket: ManifestBucket { index: (first_bucket + 2) as u64 },
            },
        }
    } else if k == 8 {
        SubintentValidatorState {
            bucket_id: (first_bucket + 3) as u64,
            qualified_state: SubintentValidatorQualifiedState::YieldedFeesToParent { order },
        }
    } else if k == 9 {
        SubintentValidatorState {
            bucket_id: (first_bucket + 3) as u64,
            qualified_state: SubintentValidatorQualifiedState::DepositedWorktopToAccount { order },
        }
    } else {
        SubintentValidatorState {
            bucket_id: (first_bucket + 3) as u64,
            qualified_state: SubintentValidatorQualifiedState::Complete { order },
        }
    }
}

/// Runs the machine through every prefix of the canonical sequence: each
/// prefix is accepted and leaves the machine in the matching
/// [`canonical_state`].
pub proof fn lemma_canonical_prefix_runs(
    access_rule: AccessRule,
    account: ComponentAddress,
    sell: ResourceAmount,
    buy: ResourceAmount,
    settlement_fee_amount: Decimal,
    anthic_fee_amount: Decimal,
    first_bucket: u64,
)
    requires
        sell.resource != buy.resource,
        sell.amount.subunits + settlement_fee_amount.subunits + anthic_fee_amount.subunits
            <= u128::MAX,
        first_bucket + 3 <= u64::MAX,
    ensures
        forall|k: int|
            0 <= k <= 10 ==> run_spec(
                canonical_state(
                    access_rule,
                    account,
                    sell,
                    buy,
                    settlement_fee_amount,
                    anthic_fee_amount,
                    first_bucket,
                    0,
                ),
                limit_order_instructions(
                    access_rule,
                    account,
                    sell,
                    buy,
                    settlement_fee_amount,
                    anthic_fee_amount,
                    first_bucket,
                ).take(k),
            ) == Ok::<SubintentValidatorState, ValidationError>(#[trigger] canonical_state(
                access_rule,
                account,
                sell,
                buy,
                settlement_fee_amount,
                anthic_fee_amount,
                first_bucket,
                k,
            )),
{
    let s = limit_order_instructions(
        access_rule,
        account,
        sell,
        buy,
        settlement_fee_amount,
        anthic_fee_amount,
        first_bucket,
    );
    let st0 = canonical_state(
        access_rule,
        account,
        sell,
        buy,
        settlement_fee_amount,
        anthic_fee_amount,
        first_bucket,
        0,
    );
    assert(s.take(0) =~= Seq::<SpecInstruction>::empty());

    assert forall|k: int| 0 <= k <= 10 implies run_spec(st0, s.take(k))
        == Ok::<SubintentValidatorState, ValidationError>(#[trigger] canonical_state(
        access_rule,
        account,
        sell,
        buy,
        settlement_fee_amount,
        anthic_fee_amount,
        first_bucket,
        k,
    )) by {
        canonical_take_step(
            access_rule,
            account,
            sell,
            buy,
            settlement_fee_amount,
            anthic_fee_amount,
            first_bucket,
            k,
        );
    }
}

/// Helper induction for [`lemma_canonical_prefix_runs`]: the run over
/// `take(k)` follows from the run over `take(k - 1)` and the `k`-th step.
proof fn canonical_take_step(
    access_rule: AccessRule,
    account: ComponentAddress,
    sell: ResourceAmount,
    buy: ResourceAmount,
    settlement_fee_amount: Decimal,
    anthic_fee_amount: Decimal,
    first_bucket: u64,
    k: int,
)
    requires
        sell.resource != buy.resource,
        sell.amount.subunits + settlement_fee_amount.subunits + anthic_fee_amount.subunits
            <= u128::MAX,
        first_bucket + 3 <= u64::MAX,
        0 <= k <= 10,
    ensures
        run_spec(
            canonical_state(
                access_rule,
                account,
                sell,
                buy,
                settlement_fee_amount,
                anthic_fee_amount,
                first_bucket,
                0,
            ),
            limit_order_instructions(
                access_rule,
                account,
                sell,
                buy,
                settlement_fee_amount,
                anthic_fee_amount,
                first_bucket,
            ).take(k),
        ) == Ok::<SubintentValidatorState, ValidationError>(canonical_state(
            access_rule,
            account,
            sell,
            buy,
            settlement_fee_amount,
            anthic_fee_amount,
            first_bucket,
            k,
        )),
    decreases k,
{
    let s = limit_order_instructions(
        access_rule,
        account,
        sell,
        buy,
        settlement_fee_amount,
        anthic_fee_amount,
        first_bucket,
    );
    let st0 = canonical_state(
        access_rule,
        account,
        sell,
        buy,
        settlement_fee_amount,
        anthic_fee_amount,
        first_bucket,
        0,
    );
    if k == 0 {
        assert(s.take(0) =~= Seq::<SpecInstruction>::empty());
    } else {
        canonical_take_step(
            access_rule,
            account,
            sell,
            buy,
            settlement_fee_amount,
            anthic_fee_amount,
            first_bucket,
            k - 1,
        );
        let prev = canonical_state(
            access_rule,
            account,
            sell,
            buy,
            settlement_fee_amount,
            anthic_fee_amount,
            first_bucket,
            k - 1,
        );
        let here = canonical_state(
            access_rule,
            account,
            sell,
            buy,
            settlement_fee_amount,
            anthic_fee_amount,
            first_bucket,
            k,
        );
        assert(process_spec(prev, s[k - 1]) == (here, Ok::<(), ValidationError>(()))) by {
            if k == 1 {
                assert(process_spec(prev, s[0]) == (here, Ok::<(), ValidationError>(())));
            } else if k == 2 {
                assert(process_spec(prev, s[1]) == (here, Ok::<(), ValidationError>(())));
            } else if k == 3 {
                assert(process_spec(prev, s[2]) == (here, Ok::<(), ValidationError>(())));
            } else if k == 4 {
                assert(process_spec(prev, s[3]) == (here, Ok::<(), ValidationError>(())));
            } else if k == 5 {
                assert(process_spec(prev, s[4]) == (here, Ok::<(), ValidationError>(())));
            } else if k == 6 {
                assert(process_spec(prev, s[5]) == (here, Ok::<(), ValidationError>(())));
            } else if k == 7 {
                assert(process_spec(prev, s[6]) == (here, Ok::<(), ValidationError>(())));
            } else if k == 8 {
                assert(process_spec(prev, s[7]) == (here, Ok::<(), ValidationError>(())));
            } else if k == 9 {
                assert(process_spec(prev, s[8]) == (here, Ok::<(), ValidationError>(())));
            } else {
                assert(process_spec(prev, s[9]) == (here, Ok::<(), ValidationError>(())));
            }
        }
        assert(s.take(k) =~= s.take(k - 1) + seq![s[k - 1]]);
        lemma_run_spec_append(st0, s.take(k - 1), seq![s[k - 1]]);
        assert(seq![s[k - 1]].drop_first() =~= Seq::<SpecInstruction>::empty());
        assert(run_spec(here, Seq::<SpecInstruction>::empty())
            == Ok::<SubintentValidatorState, ValidationError>(here));
        assert(run_spec(prev, seq![s[k - 1]]) == Ok::<SubintentValidatorState, ValidationError>(
            here,
        ));
    }
}

/// Round trip: validating the canonical sequence the builder emits for an
/// order recovers exactly that order, for every order whose withdrawal
/// amount is representable.
pub proof fn lemma_validate_build_round_trip(
    access_rule: AccessRule,
    account: ComponentAddress,
    sell: ResourceAmount,
    buy: ResourceAmount,
    settlement_fee_amount: Decimal,
    anthic_fee_amount: Decimal,
)
    requires
        sell.resource != buy.resource,
        sell.amount.subunits + settlement_fee_amount.subunits + anthic_fee_amount.subunits
            <= u128::MAX,
    ensures
        validate_spec(
            limit_order_instructions(
                access_rule,
                account,
                sell,
                buy,
                settlement_fee_amount,
                anthic_fee_amount,
                0,
            ),
        ) == Ok::<AnthicLimitOrderDefinition, ValidationError>(recovered_order(
            access_rule,
            account,
            sell,
            buy,
            settlement_fee_amount,
            anthic_fee_amount,
        )),
{
    lemma_canonical_prefix_runs(
        access_rule,
        account,
        sell,
        buy,
        settlement_fee_amount,
        anthic_fee_amount,
        0,
    );
    let s = limit_order_instructions(
        access_rule,
        account,
        sell,
        buy,
        settlement_fee_amount,
        anthic_fee_amount,
        0,
    );
    assert(s.take(10) =~= s);
    let complete = canonical_state(
        access_rule,
        account,
        sell,
        buy,
        settlement_fee_amount,
        anthic_fee_amount,
        0,
        10,
    );
    assert(run_spec(
        canonical_state(
            access_rule,
            account,
            sell,
            buy,
            settlement_fee_amount,
            anthic_fee_amount,
            0,
            0,
        ),
        s.take(10),
    ) == Ok::<SubintentValidatorState, ValidationError>(complete));
    assert(canonical_state(
        access_rule,
        account,
        sell,
        buy,
        settlement_fee_amount,
        anthic_fee_amount,
        0,
        0,
    ) == initial_state());
}

/// An instruction the ungated validator passes over as a no-op: anything
/// but the parent gate itself and a yield.
pub open spec fn is_protocol_neutral(instruction: SpecInstruction) -> bool {
    !(instruction is VerifyParent) && !(instruction is YieldToParent)
}

/// How many of the instructions create buckets.
pub open spec fn buckets_created(instructions: Seq<SpecInstruction>) -> nat
    decreases instructions.len(),
{
    if instructions.len() == 0 {
        0
    } else {
        (if creates_bucket(instructions[0]) {
            1nat
        } else {
            0nat
        }) + buckets_created(instructions.drop_first())
    }
}

pub proof fn lemma_buckets_created_le_len(instructions: Seq<SpecInstruction>)
    ensures
        buckets_created(instructions) <= instructions.len(),
    decreases instructions.len(),
{
    if instructions.len() != 0 {
        lemma_buckets_created_le_len(instructions.drop_first());
    }
}

/// Appending one instruction adds one to the bucket count exactly where
/// the instruction creates a bucket.
pub proof fn lemma_buckets_created_snoc(instructions: Seq<SpecInstruction>, last: SpecInstruction)
    ensures
        buckets_created(instructions.push(last)) == buckets_created(instructions) + (
        if creates_bucket(last) {
            1nat
        } else {
            0nat
        }),
    decreases instructions.len(),
{
    if instructions.len() == 0 {
        assert(instructions.push(last).drop_first() =~= instructions);
    } else {
        assert(instructions.push(last).drop_first() =~= instructions.drop_first().push(last));
        lemma_buckets_created_snoc(instructions.drop_first(), last);
    }
}

/// Before the parent gate, the machine passes over any sequence free of
/// gates and yields, only counting the buckets it creates.
pub proof fn lemma_initial_tolerates(state: SubintentValidatorState, prefix: Seq<SpecInstruction>)
    requires
        state.qualified_state is Initial,
        state.bucket_id + prefix.len() <= u64::MAX,
        forall|j: int| 0 <= j < prefix.len() ==> is_protocol_neutral(#[trigger] prefix[j]),
    ensures
        run_spec(state, prefix) == Ok::<SubintentValidatorState, ValidationError>(
            SubintentValidatorState {
                bucket_id: (state.bucket_id + buckets_created(prefix)) as u64,
                qualified_state: SubintentValidatorQualifiedState::Initial,
            },
        ),
    decreases prefix.len(),
{
    lemma_buckets_created_le_len(prefix);
    if prefix.len() == 0 {
        assert(state == SubintentValidatorState {
            bucket_id: (state.bucket_id + buckets_created(prefix)) as u64,
            qualified_state: SubintentValidatorQualifiedState::Initial,
        });
    } else {
        assert(is_protocol_neutral(prefix[0]));
        let step = process_spec(state, prefix[0]);
        assert(step.1 == Ok::<(), ValidationError>(()));
        assert(step.0.qualified_state is Initial);
        assert forall|j: int| 0 <= j < prefix.drop_first().len() implies is_protocol_neutral(
            #[trigger] prefix.drop_first()[j],
        ) by {
            assert(prefix.drop_first()[j] == prefix[j + 1]);
        }
        lemma_buckets_created_le_len(prefix.drop_first());
        lemma_initial_tolerates(step.0, prefix.drop_first());
    }
}

/// Round trip behind a preamble: a built sequence prefixed by any gate-free,
/// yield-free preamble — the credit-mint preamble among them — still
/// validates to exactly the built order, provided the sequence's first
/// bucket index accounts for the buckets the preamble creates.
pub proof fn lemma_round_trip_with_preamble(
    prefix: Seq<SpecInstruction>,
    access_rule: AccessRule,
    account: ComponentAddress,
    sell: ResourceAmount,
    buy: ResourceAmount,
    settlement_fee_amount: Decimal,
    anthic_fee_amount: Decimal,
)
    requires
        forall|j: int| 0 <= j < prefix.len() ==> is_protocol_neutral(#[trigger] prefix[j]),
        prefix.len() + 3 <= u64::MAX,
        sell.resource != buy.resource,
        sell.amount.subunits + settlement_fee_amount.subunits + anthic_fee_amount.subunits
            <= u128::MAX,
    ensures
        validate_spec(
            prefix + limit_order_instructions(
                access_rule,
                account,
                sell,
                buy,
                settlement_fee_amount,
                anthic_fee_amount,
                buckets_created(prefix) as u64,
            ),
        ) == Ok::<AnthicLimitOrderDefinition, ValidationError>(recovered_order(
            access_rule,
            account,
            sell,
            buy,
            settlement_fee_amount,
            anthic_fee_amount,
        )),
{
    lemma_buckets_created_le_len(prefix);
    let b = buckets_created(prefix) as u64;
    lemma_initial_tolerates(initial_state(), prefix);
    lemma_canonical_prefix_runs(
        access_rule,
        account,
        sell,
        buy,
        settlement_fee_amount,
        anthic_fee_amount,
        b,
    );
    let s = limit_order_instructions(
        access_rule,
        account,
        sell,
        buy,
        settlement_fee_amount,
        anthic_fee_amount,
        b,
    );
    assert(s.take(10) =~= s);
    let complete = canonical_state(
        access_rule,
        account,
        sell,
        buy,
        settlement_fee_amount,
        anthic_fee_amount,
        b,
        10,
    );
    assert(run_spec(
        canonical_state(
            access_rule,
            account,
            sell,
            buy,
            settlement_fee_amount,
            anthic_fee_amount,
            b,
            0,
        ),
        s.take(10),
    ) == Ok::<SubintentValidatorState, ValidationError>(complete));
    assert(canonical_state(
        access_rule,
        account,
        sell,
        buy,
        settlement_fee_amount,
        anthic_fee_amount,
        b,
        0,
    ) == SubintentValidatorState {
        bucket_id: b,
        qualified_state: SubintentValidatorQualifiedState::Initial,
    });
    lemma_run_spec_append(initial_state(), prefix, s);
}

/// Round trip behind the credit-mint preamble specifically: minting first
/// changes nothing about how the order is recovered.
pub proof fn lemma_instamint_preamble_round_trip(
    instamint_config: InstamintConfig,
    mint_account: ComponentAddress,
    local_id: NonFungibleLocalId,
    mint_resource: ResourceAddress,
    mint_amount: Decimal,
    proof_index: u64,
    access_rule: AccessRule,
    account: ComponentAddress,
    sell: ResourceAmount,
    buy: ResourceAmount,
    settlement_fee_amount: Decimal,
    anthic_fee_amount: Decimal,
)
    requires
        sell.resource != buy.resource,
        sell.amount.subunits + settlement_fee_amount.subunits + anthic_fee_amount.subunits
            <= u128::MAX,
    ensures
        validate_spec(
            instamint_instructions(
                instamint_config,
                mint_account,
                local_id,
                mint_resource,
                mint_amount,
                proof_index,
            ) + limit_order_instructions(
                access_rule,
                account,
                sell,
                buy,
                settlement_fee_amount,
                anthic_fee_amount,
                0,
            ),
        ) == Ok::<AnthicLimitOrderDefinition, ValidationError>(recovered_order(
            access_rule,
            account,
            sell,
            buy,
            settlement_fee_amount,
            anthic_fee_amount,
        )),
{
    let prefix = instamint_instructions(
        instamint_config,
        mint_account,
        local_id,
        mint_resource,
        mint_amount,
        proof_index,
    );
    assert(forall|j: int| 0 <= j < prefix.len() ==> is_protocol_neutral(#[trigger] prefix[j]));
    let p1 = prefix.drop_first();
    let p2 = p1.drop_first();
    let p3 = p2.drop_first();
    assert(p3.len() == 0);
    assert(buckets_created(p3) == 0);
    assert(!creates_bucket(p2[0]));
    assert(buckets_created(p2) == 0);
    assert(!creates_bucket(p1[0]));
    assert(buckets_created(p1) == 0);
    assert(!creates_bucket(prefix[0]));
    assert(buckets_created(prefix) == 0);
    lemma_round_trip_with_preamble(
        prefix,
        access_rule,
        account,
        sell,
        buy,
        settlement_fee_amount,
        anthic_fee_amount,
    );
}

/// The sequence with the instructions at `i` and `i + 1` exchanged.
pub open spec fn swap_adjacent(s: Seq<SpecInstruction>, i: int) -> Seq<SpecInstruction> {
    s.update(i, s[i + 1]).update(i + 1, s[i])
}

/// After an accepted prefix, an instruction the reached state rejects
/// makes the whole run fail.
proof fn lemma_err_after_prefix(
    start: SubintentValidatorState,
    s: Seq<SpecInstruction>,
    j: int,
    mid: SubintentValidatorState,
)
    requires
        0 <= j < s.len(),
        run_spec(start, s.take(j)) == Ok::<SubintentValidatorState, ValidationError>(mid),
        process_spec(mid, s[j]).1 is Err,
    ensures
        run_spec(start, s) is Err,
{
    let e = process_spec(mid, s[j]).1->Err_0;
    assert(s.take(j + 1) =~= s.take(j) + seq![s[j]]);
    lemma_run_spec_append(start, s.take(j), seq![s[j]]);
    assert(run_spec(mid, seq![s[j]]) == Err::<SubintentValidatorState, ValidationError>(e));
    assert(s =~= s.take(j + 1) + s.skip(j + 1));
    lemma_run_spec_append(start, s.take(j + 1), s.skip(j + 1));
}

/// Rejection of reordering: exchanging any two adjacent instructions of a
/// built sequence, other than the two fee extractions, makes validation
/// fail. Exchanging the two fee extractions is the one commuting pair; see
/// [`lemma_fee_take_swap_exchanges_fees`] for what it does instead.
pub proof fn lemma_adjacent_swap_rejected(
    access_rule: AccessRule,
    account: ComponentAddress,
    sell: ResourceAmount,
    buy: ResourceAmount,
    settlement_fee_amount: Decimal,
    anthic_fee_amount: Decimal,
    i: int,
)
    requires
        sell.resource != buy.resource,
        sell.amount.subunits + settlement_fee_amount.subunits + anthic_fee_amount.subunits
            <= u128::MAX,
        0 <= i < 9,
        i != 5,
    ensures
        validate_spec(
            swap_adjacent(
                limit_order_instructions(
                    access_rule,
                    account,
                    sell,
                    buy,
                    settlement_fee_amount,
                    anthic_fee_amount,
                    0,
                ),
                i,
            ),
        ) is Err,
{
    let s = limit_order_instructions(
        access_rule,
        account,
        sell,
        buy,
        settlement_fee_amount,
        anthic_fee_amount,
        0,
    );
    let sw = swap_adjacent(s, i);
    lemma_canonical_prefix_runs(
        access_rule,
        account,
        sell,
        buy,
        settlement_fee_amount,
        anthic_fee_amount,
        0,
    );
    let st0 = canonical_state(
        access_rule,
        account,
        sell,
        buy,
        settlement_fee_amount,
        anthic_fee_amount,
        0,
        0,
    );
    assert(st0 == initial_state());
    if i == 0 {
        // The withdraw call arrives before the parent gate and is passed over;
        // the parent gate then verifies; the sell extraction is rejected because
        // no withdrawal has been seen.
        let a1 = process_spec(st0, sw[0]).0;
        assert(process_spec(st0, sw[0]).1 == Ok::<(), ValidationError>(()));
        let a2 = process_spec(a1, sw[1]).0;
        assert(process_spec(a1, sw[1]).1 == Ok::<(), ValidationError>(()));
        assert(process_spec(a2, sw[2]).1 is Err);
        assert(sw.take(1) =~= Seq::<SpecInstruction>::empty() + seq![sw[0]]);
        assert(sw.take(0) =~= Seq::<SpecInstruction>::empty());
        lemma_run_spec_append(st0, sw.take(0), seq![sw[0]]);
        assert(seq![sw[0]].drop_first() =~= Seq::<SpecInstruction>::empty());
        assert(run_spec(a1, Seq::<SpecInstruction>::empty())
            == Ok::<SubintentValidatorState, ValidationError>(a1));
        assert(run_spec(st0, sw.take(1)) == Ok::<SubintentValidatorState, ValidationError>(a1));
        assert(sw.take(2) =~= sw.take(1) + seq![sw[1]]);
        lemma_run_spec_append(st0, sw.take(1), seq![sw[1]]);
        assert(seq![sw[1]].drop_first() =~= Seq::<SpecInstruction>::empty());
        assert(run_spec(a2, Seq::<SpecInstruction>::empty())
            == Ok::<SubintentValidatorState, ValidationError>(a2));
        assert(run_spec(st0, sw.take(2)) == Ok::<SubintentValidatorState, ValidationError>(a2));
        lemma_err_after_prefix(st0, sw, 2, a2);
    } else {
        // The swapped-in instruction arrives one state early and is
        // rejected at once.
        let mid = canonical_state(
            access_rule,
            account,
            sell,
            buy,
            settlement_fee_amount,
            anthic_fee_amount,
            0,
            i,
        );
        assert(sw.take(i) =~= s.take(i));
        assert(run_spec(st0, sw.take(i)) == Ok::<SubintentValidatorState, ValidationError>(mid));
        assert(sw[i] == s[i + 1]);
        assert(process_spec(mid, sw[i]).1 is Err) by {
            if i == 1 {
                assert(process_spec(mid, s[2]).1 is Err);
            } else if i == 2 {
                assert(process_spec(mid, s[3]).1 is Err);
            } else if i == 3 {
                assert(process_spec(mid, s[4]).1 is Err);
            } else if i == 4 {
                assert(process_spec(mid, s[5]).1 is Err);
            } else if i == 6 {
                assert(process_spec(mid, s[7]).1 is Err);
            } else if i == 7 {
                assert(process_spec(mid, s[8]).1 is Err);
            } else {
                assert(process_spec(mid, s[9]).1 is Err);
            }
        }
        lemma_err_after_prefix(st0, sw, i, mid);
    }
}

/// The one commuting exchange: swapping the two fee extractions still
/// validates, but the recovered order carries the two fee amounts
/// exchanged — the venue fee and the settlement fee trade places.
pub proof fn lemma_fee_take_swap_exchanges_fees(
    access_rule: AccessRule,
    account: ComponentAddress,
    sell: ResourceAmount,
    buy: ResourceAmount,
    settlement_fee_amount: Decimal,
    anthic_fee_amount: Decimal,
)
    requires
        sell.resource != buy.resource,
        sell.amount.subunits + settlement_fee_amount.subunits + anthic_fee_amount.subunits
            <= u128::MAX,
    ensures
        validate_spec(
            swap_adjacent(
                limit_order_instructions(
                    access_rule,
                    account,
                    sell,
                    buy,
                    settlement_fee_amount,
                    anthic_fee_amount,
                    0,
                ),
                5,
            ),
        ) == Ok::<AnthicLimitOrderDefinition, ValidationError>(recovered_order(
            access_rule,
            account,
            sell,
            buy,
            anthic_fee_amount,
            settlement_fee_amount,
        )),
{
    let s = limit_order_instructions(
        access_rule,
        account,
        sell,
        buy,
        settlement_fee_amount,
        anthic_fee_amount,
        0,
    );
    let sw = swap_adjacent(s, 5);
    lemma_canonical_prefix_runs(
        access_rule,
        account,
        sell,
        buy,
        settlement_fee_amount,
        anthic_fee_amount,
        0,
    );
    let st0 = canonical_state(
        access_rule,
        account,
        sell,
        buy,
        settlement_fee_amount,
        anthic_fee_amount,
        0,
        0,
    );
    assert(st0 == initial_state());
    let st5 = canonical_state(
        access_rule,
        account,
        sell,
        buy,
        settlement_fee_amount,
        anthic_fee_amount,
        0,
        5,
    );
    assert(sw.take(5) =~= s.take(5));
    assert(run_spec(st0, sw.take(5)) == Ok::<SubintentValidatorState, ValidationError>(st5));

    let b6 = process_spec(st5, sw[5]).0;
    assert(process_spec(st5, sw[5]).1 == Ok::<(), ValidationError>(()));
    let b7 = process_spec(b6, sw[6]).0;
    assert(process_spec(b6, sw[6]).1 == Ok::<(), ValidationError>(()));
    let b8 = process_spec(b7, sw[7]).0;
    assert(process_spec(b7, sw[7]).1 == Ok::<(), ValidationError>(()));
    let b9 = process_spec(b8, sw[8]).0;
    assert(process_spec(b8, sw[8]).1 == Ok::<(), ValidationError>(()));
    let b10 = process_spec(b9, sw[9]).0;
    assert(process_spec(b9, sw[9]).1 == Ok::<(), ValidationError>(()));
    assert(b10.qualified_state == SubintentValidatorQualifiedState::Complete {
        order: recovered_order(
            access_rule,
            account,
            sell,
            buy,
            anthic_fee_amount,
            settlement_fee_amount,
        ),
    });

    assert(sw.skip(5).drop_first() =~= sw.skip(6));
    assert(sw.skip(6).drop_first() =~= sw.skip(7));
    assert(sw.skip(7).drop_first() =~= sw.skip(8));
    assert(sw.skip(8).drop_first() =~= sw.skip(9));
    assert(sw.skip(9).drop_first() =~= sw.skip(10));
    assert(sw.skip(10).len() == 0);
    assert(sw.skip(5)[0] == sw[5]);
    assert(sw.skip(6)[0] == sw[6]);
    assert(sw.skip(7)[0] == sw[7]);
    assert(sw.skip(8)[0] == sw[8]);
    assert(sw.skip(9)[0] == sw[9]);

    assert(run_spec(b10, sw.skip(10)) == Ok::<SubintentValidatorState, ValidationError>(b10));
    assert(run_spec(b9, sw.skip(9)) == run_spec(b10, sw.skip(10)));
    assert(run_spec(b8, sw.skip(8)) == run_spec(b9, sw.skip(9)));
    assert(run_spec(b7, sw.skip(7)) == run_spec(b8, sw.skip(8)));
    assert(run_spec(b6, sw.skip(6)) == run_spec(b7, sw.skip(7)));
    assert(run_spec(st5, sw.skip(5)) == run_spec(b6, sw.skip(6)));

    assert(sw =~= sw.take(5) + sw.skip(5));
    lemma_run_spec_append(st0, sw.take(5), sw.skip(5));
}

/// Rejection of bucket substitution: replacing the sell-bucket reference in
/// the sell yield with any other bucket index makes validation fail.
pub proof fn lemma_sell_bucket_substitution_rejected(
    access_rule: AccessRule,
    account: ComponentAddress,
    sell: ResourceAmount,
    buy: ResourceAmount,
    settlement_fee_amount: Decimal,
    anthic_fee_amount: Decimal,
    other_index: u64,
)
    requires
        sell.resource != buy.resource,
        sell.amount.subunits + settlement_fee_amount.subunits + anthic_fee_amount.subunits
            <= u128::MAX,
        other_index != 0,
    ensures
        validate_spec(
            limit_order_instructions(
                access_rule,
                account,
                sell,
                buy,
                settlement_fee_amount,
                anthic_fee_amount,
                0,
            ).update(
                4,
                SpecInstruction::YieldToParent {
                    args: seq![
                        crate::manifest::ManifestArg::Bucket(ManifestBucket { index: other_index }),
                    ],
                },
            ),
        ) is Err,
{
    let s = limit_order_instructions(
        access_rule,
        account,
        sell,
        buy,
        settlement_fee_amount,
        anthic_fee_amount,
        0,
    );
    let t = s.update(
        4,
        SpecInstruction::YieldToParent {
            args: seq![crate::manifest::ManifestArg::Bucket(ManifestBucket { index: other_index })],
        },
    );
    lemma_canonical_prefix_runs(
        access_rule,
        account,
        sell,
        buy,
        settlement_fee_amount,
        anthic_fee_amount,
        0,
    );
    let st0 = canonical_state(
        access_rule,
        account,
        sell,
        buy,
        settlement_fee_amount,
        anthic_fee_amount,
        0,
        0,
    );
    assert(st0 == initial_state());
    let mid = canonical_state(
        access_rule,
        account,
        sell,
        buy,
        settlement_fee_amount,
        anthic_fee_amount,
        0,
        4,
    );
    assert(t.take(4) =~= s.take(4));
    assert(run_spec(st0, t.take(4)) == Ok::<SubintentValidatorState, ValidationError>(mid));
    assert(process_spec(mid, t[4]).1 is Err);
    lemma_err_after_prefix(st0, t, 4, mid);
}

/// Fee resource mismatch: a settlement-fee extraction in any resource other
/// than the venue-fee extraction's resource — in a built sequence, the sell
/// resource — makes validation fail.
pub proof fn lemma_settlement_fee_resource_mismatch_rejected(
    access_rule: AccessRule,
    account: ComponentAddress,
    sell: ResourceAmount,
    buy: ResourceAmount,
    settlement_fee_amount: Decimal,
    anthic_fee_amount: Decimal,
    other: ResourceAddress,
)
    requires
        sell.resource != buy.resource,
        sell.amount.subunits + settlement_fee_amount.subunits + anthic_fee_amount.subunits
            <= u128::MAX,
        other != sell.resource,
    ensures
        validate_spec(
            limit_order_instructions(
                access_rule,
                account,
                sell,
                buy,
                settlement_fee_amount,
                anthic_fee_amount,
                0,
            ).update(
                6,
                SpecInstruction::TakeFromWorktop {
                    resource_address: other,
                    amount: settlement_fee_amount,
                },
            ),
        ) is Err,
{
    let s = limit_order_instructions(
        access_rule,
        account,
        sell,
        buy,
        settlement_fee_amount,
        anthic_fee_amount,
        0,
    );
    let t = s.update(
        6,
        SpecInstruction::TakeFromWorktop { resource_address: other, amount: settlement_fee_amount },
    );
    lemma_canonical_prefix_runs(
        access_rule,
        account,
        sell,
        buy,
        settlement_fee_amount,
        anthic_fee_amount,
        0,
    );
    let st0 = canonical_state(
        access_rule,
        account,
        sell,
        buy,
        settlement_fee_amount,
        anthic_fee_amount,
        0,
        0,
    );
    assert(st0 == initial_state());
    let mid = canonical_state(
        access_rule,
        account,
        sell,
        buy,
        settlement_fee_amount,
        anthic_fee_amount,
        0,
        6,
    );
    assert(t.take(6) =~= s.take(6));
    assert(run_spec(st0, t.take(6)) == Ok::<SubintentValidatorState, ValidationError>(mid));
    assert(process_spec(mid, t[6]).1 is Err);
    lemma_err_after_prefix(st0, t, 6, mid);
}

/// Sell resource mismatch: a sell extraction in any resource other than
/// the withdrawn one makes validation fail.
pub proof fn lemma_sell_take_resource_mismatch_rejected(
    access_rule: AccessRule,
    account: ComponentAddress,
    sell: ResourceAmount,
    buy: ResourceAmount,
    settlement_fee_amount: Decimal,
    anthic_fee_amount: Decimal,
    other: ResourceAddress,
)
    requires
        sell.resource != buy.resource,
        sell.amount.subunits + settlement_fee_amount.subunits + anthic_fee_amount.subunits
            <= u128::MAX,
        other != sell.resource,
    ensures
        validate_spec(
            limit_order_instructions(
                access_rule,
                account,
                sell,
                buy,
                settlement_fee_amount,
                anthic_fee_amount,
                0,
            ).update(
                2,
                SpecInstruction::TakeFromWorktop { resource_address: other, amount: sell.amount },
            ),
        ) is Err,
{
    let s = limit_order_instructions(
        access_rule,
        account,
        sell,
        buy,
        settlement_fee_amount,
        anthic_fee_amount,
        0,
    );
    let t = s.update(
        2,
        SpecInstruction::TakeFromWorktop { resource_address: other, amount: sell.amount },
    );
    lemma_canonical_prefix_runs(
        access_rule,
        account,
        sell,
        buy,
        settlement_fee_amount,
        anthic_fee_amount,
        0,
    );
    let st0 = canonical_state(
        access_rule,
        account,
        sell,
        buy,
        settlement_fee_amount,
        anthic_fee_amount,
        0,
        0,
    );
    assert(st0 == initial_state());
    let mid = canonical_state(
        access_rule,
        account,
        sell,
        buy,
        settlement_fee_amount,
        anthic_fee_amount,
        0,
        2,
    );
    assert(t.take(2) =~= s.take(2));
    assert(run_spec(st0, t.take(2)) == Ok::<SubintentValidatorState, ValidationError>(mid));
    assert(process_spec(mid, t[2]).1 is Err);
    lemma_err_after_prefix(st0, t, 2, mid);
}

/// Monotonic bucket counting, first half: over any accepted sequence, the
/// bucket counter advances by exactly the number of bucket-creating
/// instructions — the counter is positional.
pub proof fn lemma_bucket_counter_counts(
    state: SubintentValidatorState,
    instructions: Seq<SpecInstruction>,
)
    requires
        state.bucket_id + instructions.len() <= u64::MAX,
    ensures
        run_spec(state, instructions) matches Ok(m) ==> m.bucket_id == state.bucket_id
            + buckets_created(instructions),
    decreases instructions.len(),
{
    lemma_buckets_created_le_len(instructions);
    if instructions.len() != 0 {
        let step = process_spec(state, instructions[0]);
        lemma_buckets_created_le_len(instructions.drop_first());
        match step.1 {
            Ok(()) => {
                lemma_bucket_counter_counts(step.0, instructions.drop_first());
            },
            Err(_) => {},
        }
    }
}

/// The bucket handles a state still holds, in increasing order of
/// extraction, each below the counter.
pub open spec fn buckets_ordered(state: SubintentValidatorState) -> bool {
    match state.qualified_state {
        SubintentValidatorQualifiedState::CreatedSellBucket { sell_bucket, .. } => sell_bucket.index
            < state.bucket_id,
        SubintentValidatorQualifiedState::AssertedNextCallReturns { sell_bucket, .. } => sell_bucket.index
            < state.bucket_id,
        SubintentValidatorQualifiedState::CreatedAnthicFeeBucket { anthic_fee_bucket, .. } => anthic_fee_bucket.index
            < state.bucket_id,
        SubintentValidatorQualifiedState::CreatedSettlementFeeBucket {
            anthic_fee_bucket,
            solver_fee_bucket,
            ..
        } => anthic_fee_bucket.index < solver_fee_bucket.index < state.bucket_id,
        _ => true,
    }
}

/// Monotonic bucket counting, second half: each extraction records the
/// counter value its instruction received, so the recorded handles
/// strictly increase and never reach the counter.
pub proof fn lemma_step_preserves_bucket_order(
    state: SubintentValidatorState,
    instruction: SpecInstruction,
)
    requires
        buckets_ordered(state),
        state.bucket_id < u64::MAX,
    ensures
        buckets_ordered(process_spec(state, instruction).0),
{
}

/// Every run from an ordered state — the initial state among them — ends
/// in an ordered state.
pub proof fn lemma_run_preserves_bucket_order(
    state: SubintentValidatorState,
    instructions: Seq<SpecInstruction>,
)
    requires
        buckets_ordered(state),
        state.bucket_id + instructions.len() <= u64::MAX,
    ensures
        run_spec(state, instructions) matches Ok(m) ==> buckets_ordered(m),
    decreases instructions.len(),
{
    if instructions.len() != 0 {
        let step = process_spec(state, instructions[0]);
        lemma_step_preserves_bucket_order(state, instructions[0]);
        match step.1 {
            Ok(()) => {
                lemma_run_preserves_bucket_order(step.0, instructions.drop_first());
            },
            Err(_) => {},
        }
    }
}

/// Each extraction the machine records is stamped with the bucket counter
/// as it stood when the extraction arrived: together with
/// [`lemma_bucket_counter_counts`], the recorded index is the extraction's
/// ordinal position among all bucket-creating instructions.
pub proof fn lemma_extraction_records_position(
    state: SubintentValidatorState,
    instruction: SpecInstruction,
)
    ensures
        state.qualified_state is WithdrewFromAccount ==> (process_spec(
            state,
            instruction,
        ).0.qualified_state matches SubintentValidatorQualifiedState::CreatedSellBucket {
            sell_bucket,
            ..
        } ==> sell_bucket.index == state.bucket_id),
        state.qualified_state is YieldedSellBucketToParent ==> (process_spec(
            state,
            instruction,
        ).0.qualified_state matches SubintentValidatorQualifiedState::CreatedAnthicFeeBucket {
            anthic_fee_bucket,
            ..
        } ==> anthic_fee_bucket.index == state.bucket_id),
        state.qualified_state is CreatedAnthicFeeBucket ==> (process_spec(
            state,
            instruction,
        ).0.qualified_state matches SubintentValidatorQualifiedState::CreatedSettlementFeeBucket {
            solver_fee_bucket,
            ..
        } ==> solver_fee_bucket.index == state.bucket_id),
{
}

/// Fee resource mismatch, venue side: a venue-fee extraction in any
/// resource other than the sell resource makes validation fail.
pub proof fn lemma_venue_fee_resource_mismatch_rejected(
    access_rule: AccessRule,
    account: ComponentAddress,
    sell: ResourceAmount,
    buy: ResourceAmount,
    settlement_fee_amount: Decimal,
    anthic_fee_amount: Decimal,
    other: ResourceAddress,
)
    requires
        sell.resource != buy.resource,
        sell.amount.subunits + settlement_fee_amount.subunits + anthic_fee_amount.subunits
            <= u128::MAX,
        other != sell.resource,
    ensures
        validate_spec(
            limit_order_instructions(
                access_rule,
                account,
                sell,
                buy,
                settlement_fee_amount,
                anthic_fee_amount,
                0,
            ).update(
                5,
                SpecInstruction::TakeFromWorktop {
                    resource_address: other,
                    amount: anthic_fee_amount,
                },
            ),
        ) is Err,
{
    let s = limit_order_instructions(
        access_rule,
        account,
        sell,
        buy,
        settlement_fee_amount,
        anthic_fee_amount,
        0,
    );
    let t = s.update(
        5,
        SpecInstruction::TakeFromWorktop { resource_address: other, amount: anthic_fee_amount },
    );
    lemma_canonical_prefix_runs(
        access_rule,
        account,
        sell,
        buy,
        settlement_fee_amount,
        anthic_fee_amount,
        0,
    );
    let st0 = canonical_state(
        access_rule,
        account,
        sell,
        buy,
        settlement_fee_amount,
        anthic_fee_amount,
        0,
        0,
    );
    assert(st0 == initial_state());
    let mid = canonical_state(
        access_rule,
        account,
        sell,
        buy,
        settlement_fee_amount,
        anthic_fee_amount,
        0,
        5,
    );
    assert(t.take(5) =~= s.take(5));
    assert(run_spec(st0, t.take(5)) == Ok::<SubintentValidatorState, ValidationError>(mid));
    assert(process_spec(mid, t[5]).1 is Err);
    lemma_err_after_prefix(st0, t, 5, mid);
}

/// The order data a state carries already satisfies the recovered-order
/// invariants, as far as the state holds any: the buy side differs from
/// the sell side, and the fee candidates are in the sell resource.
pub open spec fn order_data_well_formed(state: SubintentValidatorState) -> bool {
    match state.qualified_state {
        SubintentValidatorQualifiedState::AssertedNextCallReturns { trade, .. } => trade.buy.resource
            != trade.sell.resource,
        SubintentValidatorQualifiedState::YieldedSellBucketToParent { trade, .. } => trade.buy.resource
            != trade.sell.resource,
        SubintentValidatorQualifiedState::CreatedAnthicFeeBucket { trade, anthic_fee, .. } => {
            &&& trade.buy.resource != trade.sell.resource
            &&& anthic_fee.resource == trade.sell.resource
        },
        SubintentValidatorQualifiedState::CreatedSettlementFeeBucket { order, .. } => recovered_order_well_formed(
            order,
        ),
        SubintentValidatorQualifiedState::YieldedFeesToParent { order } => recovered_order_well_formed(
            order,
        ),
        SubintentValidatorQualifiedState::DepositedWorktopToAccount { order } => recovered_order_well_formed(
            order,
        ),
        SubintentValidatorQualifiedState::Complete { order } => recovered_order_well_formed(order),
        _ => true,
    }
}

/// One step keeps the carried order data well formed.
pub proof fn lemma_step_preserves_order_well_formed(
    state: SubintentValidatorState,
    instruction: SpecInstruction,
)
    requires
        order_data_well_formed(state),
    ensures
        order_data_well_formed(process_spec(state, instruction).0),
{
}

/// Every run from a well-formed state ends well formed.
proof fn lemma_run_preserves_order_well_formed(
    state: SubintentValidatorState,
    instructions: Seq<SpecInstruction>,
)
    requires
        order_data_well_formed(state),
    ensures
        run_spec(state, instructions) matches Ok(m) ==> order_data_well_formed(m),
    decreases instructions.len(),
{
    if instructions.len() != 0 {
        let step = process_spec(state, instructions[0]);
        lemma_step_preserves_order_well_formed(state, instructions[0]);
        match step.1 {
            Ok(()) => {
                lemma_run_preserves_order_well_formed(step.0, instructions.drop_first());
            },
            Err(_) => {},
        }
    }
}

/// Fee resource invariant of every validated order: the fees are paid in
/// the resource being sold, and the bought resource differs from the sold
/// one — the machine rejects every sequence that would say otherwise.
pub proof fn lemma_validated_order_well_formed(
    instructions: Seq<SpecInstruction>,
    order: AnthicLimitOrderDefinition,
)
    requires
        validate_spec(instructions) == Ok::<AnthicLimitOrderDefinition, ValidationError>(order),
    ensures
        recovered_order_well_formed(order),
{
    lemma_run_preserves_order_well_formed(initial_state(), instructions);
}

} // verus!
