//! The protocol builder: emits the canonical instruction sequence for a
//! limit order, and the optional credit-mint preamble composed in front of
//! it.
//!
//! [`limit_order_instructions`] and [`instamint_instructions`] state the
//! exact sequences; the builder methods are proved to append exactly those.
//! Bucket and proof handles are numbered positionally, so the builder
//! carries the next free index of each.

use vstd::prelude::*;
use crate::types::{
    AccessRule, ComponentAddress, Decimal, GlobalAddress, ManifestBucket, ManifestProof,
    NonFungibleLocalId, ResourceAddress,
};
use crate::manifest::{
    DynamicGlobalAddress, Instruction, ManifestArg, ManifestExpression, ManifestResourceAddress,
    ManifestResourceConstraint, MethodName, ResourceConstraintEntry, SpecInstruction,
    SubintentManifest, instructions_view,
};
use crate::model::{AnthicConfig, InstamintConfig, spec_resource_for};
use crate::validate::ResourceAmount;

verus! {

/// A quantity of a token named by its venue symbol.
#[derive(Clone, Debug)]
pub struct TokenAmount {
    pub symbol: String,
    pub amount: Decimal,
}

/// The canonical instruction sequence of one limit order: the parent gate,
/// the withdrawal covering the sale and both fees, the sell bucket, the
/// next-call assertion on the buy side, the sell yield, the two fee buckets
/// and their yield, the deposit of everything left, and the closing empty
/// yield. `first_bucket` is the bucket index the first extraction receives.
pub open spec fn limit_order_instructions(
    access_rule: AccessRule,
    account: ComponentAddress,
    sell: ResourceAmount,
    buy: ResourceAmount,
    settlement_fee_amount: Decimal,
    anthic_fee_amount: Decimal,
    first_bucket: u64,
) -> Seq<SpecInstruction> {
    let withdraw_amount = Decimal {
        subunits: (sell.amount.subunits + settlement_fee_amount.subunits
            + anthic_fee_amount.subunits) as u128,
    };
    seq![
        SpecInstruction::VerifyParent { access_rule },
        SpecInstruction::CallMethod {
            address: DynamicGlobalAddress::Static(GlobalAddress::spec_of_account(account)),
            method_name: MethodName::Withdraw,
            args: seq![
                ManifestArg::Resource(ManifestResourceAddress::Static(sell.resource)),
                ManifestArg::Amount(withdraw_amount),
            ],
        },
        SpecInstruction::TakeFromWorktop {
            resource_address: sell.resource,
            amount: sell.amount,
        },
        SpecInstruction::AssertNextCallReturnsOnly {
            constraints: seq![
                ResourceConstraintEntry {
                    resource: buy.resource,
                    constraint: ManifestResourceConstraint::AtLeastAmount(buy.amount),
                },
            ],
        },
        SpecInstruction::YieldToParent {
            args: seq![ManifestArg::Bucket(ManifestBucket { index: first_bucket })],
        },
        SpecInstruction::TakeFromWorktop {
            resource_address: sell.resource,
            amount: anthic_fee_amount,
        },
        SpecInstruction::TakeFromWorktop {
            resource_address: sell.resource,
            amount: settlement_fee_amount,
        },
        SpecInstruction::YieldToParent {
            args: seq![
                ManifestArg::Bucket(ManifestBucket { index: (first_bucket + 1) as u64 }),
                ManifestArg::Bucket(ManifestBucket { index: (first_bucket + 2) as u64 }),
            ],
        },
        SpecInstruction::CallMethod {
            address: DynamicGlobalAddress::Static(GlobalAddress::spec_of_account(account)),
            method_name: MethodName::DepositBatch,
            args: seq![ManifestArg::Expression(ManifestExpression::EntireWorktop)],
        },
        SpecInstruction::YieldToParent { args: Seq::empty() },
    ]
}

/// The credit-mint preamble: prove possession of the customer badge through
/// a proof-creation pair, then call the mint method with the resource, the
/// amount and the proof. `proof_index` is the index the created proof
/// receives. No instruction of the preamble creates a bucket.
pub open spec fn instamint_instructions(
    instamint_config: InstamintConfig,
    account: ComponentAddress,
    local_id: NonFungibleLocalId,
    resource: ResourceAddress,
    amount: Decimal,
    proof_index: u64,
) -> Seq<SpecInstruction> {
    seq![
        SpecInstruction::CallMethod {
            address: DynamicGlobalAddress::Static(GlobalAddress::spec_of_account(account)),
            method_name: MethodName::CreateProofOfNonFungibles,
            args: seq![
                ManifestArg::Resource(ManifestResourceAddress::Static(
                    instamint_config.customer_badge_resource,
                )),
                ManifestArg::NonFungibleId(local_id),
            ],
        },
        SpecInstruction::CreateProofFromAuthZoneOfNonFungibles {
            resource_address: instamint_config.customer_badge_resource,
            id: local_id,
        },
        SpecInstruction::CallMethod {
            address: DynamicGlobalAddress::Static(GlobalAddress {
                id: instamint_config.instamint_component.id,
                is_account: false,
            }),
            method_name: MethodName::MintToAccount,
            args: seq![
                ManifestArg::Resource(ManifestResourceAddress::Static(resource)),
                ManifestArg::Amount(amount),
                ManifestArg::Proof(ManifestProof { index: proof_index }),
            ],
        },
    ]
}

/// Builds subintent manifests against a fixed venue configuration.
#[derive(Clone, Debug)]
pub struct AnthicSubintentManifestBuilder {
    pub config: AnthicConfig,
    pub instructions: Vec<Instruction>,
    /// The bucket index the next bucket-creating instruction will receive.
    pub next_bucket: u64,
    /// The proof index the next proof-creating instruction will receive.
    pub next_proof: u64,
}

impl AnthicSubintentManifestBuilder {
    pub fn new(config: AnthicConfig) -> (r: Self)
        ensures
            r.config == config,
            r.instructions@.len() == 0,
            r.next_bucket == 0,
            r.next_proof == 0,
    {
        Self { config, instructions: Vec::new(), next_bucket: 0, next_proof: 0 }
    }

    /// Appends the credit-mint preamble for `to_mint` into `account`.
    ///
    /// The symbol of `to_mint` must be in the configuration's symbol table;
    /// a symbol without a resource is a construction error the caller must
    /// rule out beforehand.
    pub fn instamint_into_account(
        self,
        instamint_config: &InstamintConfig,
        account: ComponentAddress,
        local_id: NonFungibleLocalId,
        to_mint: TokenAmount,
    ) -> (r: Self)
        requires
            spec_resource_for(self.config.symbol_to_resource@, to_mint.symbol@) is Some,
            self.next_proof < u64::MAX,
        ensures
            r.config == self.config,
            r.next_bucket == self.next_bucket,
            r.next_proof == self.next_proof + 1,
            instructions_view(r.instructions@) == instructions_view(self.instructions@)
                + instamint_instructions(
                *instamint_config,
                account,
                local_id,
                spec_resource_for(
                    self.config.symbol_to_resource@,
                    to_mint.symbol@,
                ).unwrap(),
                to_mint.amount,
                self.next_proof,
            ),
    {
        let ghost pre = self;
        let mut this = self;
        let resource = this.config.resource_for(&to_mint.symbol).unwrap();

        let mut badge_args: Vec<ManifestArg> = Vec::new();
        badge_args.push(ManifestArg::Resource(ManifestResourceAddress::Static(
            instamint_config.customer_badge_resource,
        )));
        badge_args.push(ManifestArg::NonFungibleId(local_id));
        this.instructions.push(Instruction::CallMethod {
            address: DynamicGlobalAddress::Static(GlobalAddress::of_account(account)),
            method_name: MethodName::CreateProofOfNonFungibles,
            args: badge_args,
        });

        this.instructions.push(Instruction::CreateProofFromAuthZoneOfNonFungibles {
            resource_address: instamint_config.customer_badge_resource,
            id: local_id,
        });

        let mut mint_args: Vec<ManifestArg> = Vec::new();
        mint_args.push(ManifestArg::Resource(ManifestResourceAddress::Static(resource)));
        mint_args.push(ManifestArg::Amount(to_mint.amount));
        mint_args.push(ManifestArg::Proof(ManifestProof { index: this.next_proof }));
        this.instructions.push(Instruction::CallMethod {
            address: DynamicGlobalAddress::Static(GlobalAddress {
                id: instamint_config.instamint_component.id,
                is_account: false,
            }),
            method_name: MethodName::MintToAccount,
            args: mint_args,
        });

        this.next_proof = this.next_proof + 1;

        proof {
            assert(instructions_view(this.instructions@) =~~= instructions_view(pre.instructions@)
                + instamint_instructions(
                *instamint_config,
                account,
                local_id,
                spec_resource_for(pre.config.symbol_to_resource@, to_mint.symbol@).unwrap(),
                to_mint.amount,
                pre.next_proof,
            ));
        }
        this
    }

    /// Appends the canonical limit-order sequence: sell `sell` for at least
    /// `buy`, paying the venue fee and the settlement fee in the sell
    /// resource, all from and back to `account`.
    ///
    /// Both symbols must be in the configuration's symbol table, and the
    /// withdrawal covering the sale and both fees must be representable;
    /// either failing is a construction error the caller must rule out
    /// beforehand.
    pub fn add_anthic_limit_order(
        self,
        account: ComponentAddress,
        sell: TokenAmount,
        buy: TokenAmount,
        settlement_fee_amount: Decimal,
        anthic_fee_amount: Decimal,
    ) -> (r: Self)
        requires
            spec_resource_for(self.config.symbol_to_resource@, sell.symbol@) is Some,
            spec_resource_for(self.config.symbol_to_resource@, buy.symbol@) is Some,
            sell.amount.subunits + settlement_fee_amount.subunits + anthic_fee_amount.subunits
                <= u128::MAX,
            self.next_bucket + 3 <= u64::MAX,
        ensures
            r.config == self.config,
            r.next_bucket == self.next_bucket + 3,
            r.next_proof == self.next_proof,
            instructions_view(r.instructions@) == instructions_view(self.instructions@)
                + limit_order_instructions(
                self.config.verify_parent_access_rule,
                account,
                ResourceAmount {
                    resource: spec_resource_for(
                        self.config.symbol_to_resource@,
                        sell.symbol@,
                    ).unwrap(),
                    amount: sell.amount,
                },
                ResourceAmount {
                    resource: spec_resource_for(
                        self.config.symbol_to_resource@,
                        buy.symbol@,
                    ).unwrap(),
                    amount: buy.amount,
                },
                settlement_fee_amount,
                anthic_fee_amount,
                self.next_bucket,
            ),
    {
        let ghost pre = self;
        let mut this = self;
        let sell_resource = this.config.resource_for(&sell.symbol).unwrap();
        let buy_resource = this.config.resource_for(&buy.symbol).unwrap();
        let fee_resource = sell_resource;
        let withdraw_amount = Decimal {
            subunits: sell.amount.subunits + settlement_fee_amount.subunits
                + anthic_fee_amount.subunits,
        };

        // The parent gate: the venue must process this fragment before it
        // can commit.
        this.instructions.push(Instruction::VerifyParent {
            access_rule: this.config.verify_parent_access_rule,
        });

        // Withdraw enough to cover the swap and both fees.
        let mut withdraw_args: Vec<ManifestArg> = Vec::new();
        withdraw_args.push(ManifestArg::Resource(ManifestResourceAddress::Static(sell_resource)));
        withdraw_args.push(ManifestArg::Amount(withdraw_amount));
        this.instructions.push(Instruction::CallMethod {
            address: DynamicGlobalAddress::Static(GlobalAddress::of_account(account)),
            method_name: MethodName::Withdraw,
            args: withdraw_args,
        });

        // The swap: extract the sell amount, pin down what the next call
        // must return, and yield the sell bucket to the parent.
        this.instructions.push(Instruction::TakeFromWorktop {
            resource_address: sell_resource,
            amount: sell.amount,
        });

        let mut constraints: Vec<ResourceConstraintEntry> = Vec::new();
        constraints.push(ResourceConstraintEntry {
            resource: buy_resource,
            constraint: ManifestResourceConstraint::AtLeastAmount(buy.amount),
        });
        this.instructions.push(Instruction::AssertNextCallReturnsOnly { constraints });

        let mut sell_yield_args: Vec<ManifestArg> = Vec::new();
        sell_yield_args.push(ManifestArg::Bucket(ManifestBucket { index: this.next_bucket }));
        this.instructions.push(Instruction::YieldToParent { args: sell_yield_args });

        // The fees: venue fee first, settlement fee second; the order fixes
        // the bucket numbering the fee yield depends on.
        this.instructions.push(Instruction::TakeFromWorktop {
            resource_address: fee_resource,
            amount: anthic_fee_amount,
        });
        this.instructions.push(Instruction::TakeFromWorktop {
            resource_address: fee_resource,
            amount: settlement_fee_amount,
        });

        let mut fee_yield_args: Vec<ManifestArg> = Vec::new();
        fee_yield_args.push(ManifestArg::Bucket(ManifestBucket { index: this.next_bucket + 1 }));
        fee_yield_args.push(ManifestArg::Bucket(ManifestBucket { index: this.next_bucket + 2 }));
        this.instructions.push(Instruction::YieldToParent { args: fee_yield_args });

        // Everything is settled: deposit whatever the worktop still holds
        // back into the account, and close the sequence.
        let mut deposit_args: Vec<ManifestArg> = Vec::new();
        deposit_args.push(ManifestArg::Expression(ManifestExpression::EntireWorktop));
        this.instructions.push(Instruction::CallMethod {
            address: DynamicGlobalAddress::Static(GlobalAddress::of_account(account)),
            method_name: MethodName::DepositBatch,
            args: deposit_args,
        });

        this.instructions.push(Instruction::YieldToParent { args: Vec::new() });

        this.next_bucket = this.next_bucket + 3;

        proof {
            assert(instructions_view(this.instructions@) =~~= instructions_view(pre.instructions@)
                + limit_order_instructions(
                pre.config.verify_parent_access_rule,
                account,
                ResourceAmount {
                    resource: spec_resource_for(
                        pre.config.symbol_to_resource@,
                        sell.symbol@,
                    ).unwrap(),
                    amount: sell.amount,
                },
                ResourceAmount {
                    resource: spec_resource_for(
                        pre.config.symbol_to_resource@,
                        buy.symbol@,
                    ).unwrap(),
                    amount: buy.amount,
                },
                settlement_fee_amount,
                anthic_fee_amount,
                pre.next_bucket,
            ));
        }
        this
    }

    /// Closes the builder into the manifest it accumulated.
    pub fn build(self) -> (r: SubintentManifest)
        ensures
            r@ == instructions_view(self.instructions@),
    {
        SubintentManifest { instructions: self.instructions }
    }
}

} // verus!
