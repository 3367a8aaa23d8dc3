//! The instruction model: the typed instructions a transaction fragment is
//! made of, as far as the limit-order protocol reads them.
//!
//! Instructions the protocol never inspects are collapsed into the `Other`
//! variant; instruction payloads the protocol never reads (such as the
//! non-fungible ids of a worktop take) are left out of the model. What
//! matters is kept exactly: which instruction kinds create buckets, which
//! arguments a method call or a yield carries, and the constraints of a
//! next-call assertion.

use vstd::prelude::*;
use crate::types::{
    AccessRule, ComponentAddress, Decimal, GlobalAddress, ManifestBucket, ManifestProof,
    NonFungibleLocalId, ResourceAddress,
};

verus! {

/// The target of a method call: a concrete global address, or a named
/// address introduced earlier in the manifest.
#[derive(Clone, Copy, Debug, PartialEq, Eq, Structural)]
pub enum DynamicGlobalAddress {
    Static(GlobalAddress),
    Named(u32),
}

/// The method names the protocol distinguishes. Every other method name is
/// `Other`: the validator treats all of them alike.
#[derive(Clone, Copy, Debug, PartialEq, Eq, Structural)]
pub enum MethodName {
    /// The account withdraw method.
    Withdraw,
    /// The account deposit-batch method.
    DepositBatch,
    /// The account method that creates a proof of non-fungibles.
    CreateProofOfNonFungibles,
    /// The credit-mint method of the instamint component.
    MintToAccount,
    /// The mint method of a resource manager.
    Mint,
    Other,
}

/// A resource reference inside a method argument: concrete, or named.
#[derive(Clone, Copy, Debug, PartialEq, Eq, Structural)]
pub enum ManifestResourceAddress {
    Static(ResourceAddress),
    Named(u32),
}

/// A manifest expression argument.
#[derive(Clone, Copy, Debug, PartialEq, Eq, Structural)]
pub enum ManifestExpression {
    EntireWorktop,
}

/// One argument of a method call or a yield.
#[derive(Clone, Copy, Debug, PartialEq, Eq, Structural)]
pub enum ManifestArg {
    Bucket(ManifestBucket),
    Proof(ManifestProof),
    Resource(ManifestResourceAddress),
    Amount(Decimal),
    NonFungibleId(NonFungibleLocalId),
    Expression(ManifestExpression),
    Other,
}

/// One constraint of a next-call assertion.
#[derive(Clone, Copy, Debug, PartialEq, Eq, Structural)]
pub enum ManifestResourceConstraint {
    NonZeroAmount,
    ExactAmount(Decimal),
    AtLeastAmount(Decimal),
    Other,
}

/// A constraint of a next-call assertion together with the resource it
/// constrains.
#[derive(Clone, Copy, Debug, PartialEq, Eq, Structural)]
pub struct ResourceConstraintEntry {
    pub resource: ResourceAddress,
    pub constraint: ManifestResourceConstraint,
}

/// One instruction of a transaction fragment.
#[derive(Clone, Debug)]
pub enum Instruction {
    /// The parent gate: asserts that the enclosing transaction satisfies the
    /// given access rule before anything else may run.
    VerifyParent { access_rule: AccessRule },
    /// A method call on a global entity.
    CallMethod { address: DynamicGlobalAddress, method_name: MethodName, args: Vec<ManifestArg> },
    /// Takes the given amount of a resource from the worktop into a new
    /// bucket. Creates a bucket.
    TakeFromWorktop { resource_address: ResourceAddress, amount: Decimal },
    /// Takes everything the worktop holds of a resource. Creates a bucket.
    TakeAllFromWorktop { resource_address: ResourceAddress },
    /// Takes named non-fungibles of a resource from the worktop. Creates a
    /// bucket. The ids are not modeled: the protocol never reads them.
    TakeNonFungiblesFromWorktop { resource_address: ResourceAddress },
    /// Asserts that the next call returns only the constrained resources.
    AssertNextCallReturnsOnly { constraints: Vec<ResourceConstraintEntry> },
    /// Asserts the contents of an existing bucket.
    AssertBucketContents { bucket: ManifestBucket, constraint: ManifestResourceConstraint },
    /// Creates a proof of named non-fungibles from the auth zone. The model
    /// keeps a single id, as the protocol only ever passes one.
    CreateProofFromAuthZoneOfNonFungibles { resource_address: ResourceAddress, id: NonFungibleLocalId },
    /// Hands the given arguments to the enclosing transaction.
    YieldToParent { args: Vec<ManifestArg> },
    /// Any instruction the protocol does not inspect and which creates
    /// neither a bucket nor a proof.
    Other,
}

/// The mathematical form of an [`Instruction`]: argument lists are sequences.
#[verifier::ext_equal]
pub enum SpecInstruction {
    VerifyParent { access_rule: AccessRule },
    CallMethod { address: DynamicGlobalAddress, method_name: MethodName, args: Seq<ManifestArg> },
    TakeFromWorktop { resource_address: ResourceAddress, amount: Decimal },
    TakeAllFromWorktop { resource_address: ResourceAddress },
    TakeNonFungiblesFromWorktop { resource_address: ResourceAddress },
    AssertNextCallReturnsOnly { constraints: Seq<ResourceConstraintEntry> },
    AssertBucketContents { bucket: ManifestBucket, constraint: ManifestResourceConstraint },
    CreateProofFromAuthZoneOfNonFungibles { resource_address: ResourceAddress, id: NonFungibleLocalId },
    YieldToParent { args: Seq<ManifestArg> },
    Other,
}

impl View for Instruction {
    type V = SpecInstruction;

    open spec fn view(&self) -> SpecInstruction {
        match self {
            Instruction::VerifyParent { access_rule } => SpecInstruction::VerifyParent {
                access_rule: *access_rule,
            },
            Instruction::CallMethod { address, method_name, args } => SpecInstruction::CallMethod {
                address: *address,
                method_name: *method_name,
                args: args@,
            },
            Instruction::TakeFromWorktop { resource_address, amount } => (SpecInstruction::TakeFromWorktop {
                resource_address: *resource_address,
                amount: *amount,
            }),
            Instruction::TakeAllFromWorktop { resource_address } => (SpecInstruction::TakeAllFromWorktop {
                resource_address: *resource_address,
            }),
            Instruction::TakeNonFungiblesFromWorktop { resource_address } => (SpecInstruction::TakeNonFungiblesFromWorktop {
                resource_address: *resource_address,
            }),
            Instruction::AssertNextCallReturnsOnly { constraints } => (SpecInstruction::AssertNextCallReturnsOnly {
                constraints: constraints@,
            }),
            Instruction::AssertBucketContents { bucket, constraint } => (SpecInstruction::AssertBucketContents {
                bucket: *bucket,
                constraint: *constraint,
            }),
            Instruction::CreateProofFromAuthZoneOfNonFungibles { resource_address, id } => (SpecInstruction::CreateProofFromAuthZoneOfNonFungibles {
                resource_address: *resource_address,
                id: *id,
            }),
            Instruction::YieldToParent { args } => SpecInstruction::YieldToParent { args: args@ },
            Instruction::Other => SpecInstruction::Other,
        }
    }
}

/// The view of a whole instruction list.
pub open spec fn instructions_view(instructions: Seq<Instruction>) -> Seq<SpecInstruction> {
    instructions.map_values(|i: Instruction| i@)
}

/// A subintent manifest: the ordered instructions of one transaction
/// fragment.
#[derive(Clone, Debug)]
pub struct SubintentManifest {
    pub instructions: Vec<Instruction>,
}

impl View for SubintentManifest {
    type V = Seq<SpecInstruction>;

    open spec fn view(&self) -> Seq<SpecInstruction> {
        instructions_view(self.instructions@)
    }
}

} // verus!
