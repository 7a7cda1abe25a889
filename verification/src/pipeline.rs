//! Planning and assembly: the local half of one issuance attempt.
//!
//! `plan_issuance` runs before anything touches the network other than the
//! rent query whose answer it is handed: it validates the request, creates
//! the attempt's fresh mint identity, derives the deterministic addresses
//! and sequences the operations.  `assemble_transaction` then lowers the
//! plan into the ledger's wire form and signs it with exactly two keys.

use vstd::prelude::*;

use crate::error::TokenError;
use crate::instructions::IssuanceInstruction;
use crate::instructions::build_instructions;
use crate::instructions::is_plan_shaped;
use crate::instructions::lemma_planned_ops_plan_shaped;
use crate::instructions::plan_shaped;
use crate::instructions::planned_ops;
use crate::ledger::Address;
use crate::ledger::SignerIdentity;
use crate::ledger::address_eq;
use crate::ledger::build_create_account;
use crate::ledger::build_create_holder;
use crate::ledger::build_create_metadata;
use crate::ledger::build_initialize_mint;
use crate::ledger::build_mint_to;
use crate::ledger::build_transfer_fee_config;
use crate::ledger::derive_holder_address;
use crate::ledger::derive_metadata_address;
use crate::ledger::fee_payer_of;
use crate::ledger::generate_signer;
use crate::ledger::holder_address_of;
use crate::ledger::metadata_address_of;
use crate::ledger::sign_transaction;
use crate::ledger::signer_from_bytes;
use crate::ledger::signer_wf;
use crate::ledger::wire_of;
use crate::ledger::wire_signers;
use crate::params::CreateTokenParams;
use crate::params::valid_request;

verus! {

/// Everything one issuance attempt fixes before assembly: the attempt's
/// fresh mint identity, the addresses derived from it, and the ordered
/// operations.  A plan is never reused: a failed or abandoned attempt
/// discards its mint identity rather than recycle a possibly broadcast
/// address.
pub struct IssuancePlan {
    /// The mint identity of this attempt: a fresh key pair whose public
    /// half becomes the asset's permanent address.
    pub mint: SignerIdentity,
    pub metadata_address: Address,
    pub holder_address: Address,
    pub ops: Vec<IssuanceInstruction>,
}

/// Plan one issuance attempt.  Validation runs first and entirely locally:
/// a request outside the supported decimal range is refused before any
/// address is derived.  For an accepted request the plan holds a fresh,
/// well-formed mint identity, the metadata and holder addresses derived
/// from it, and exactly the planned operation sequence — which is always
/// plan-shaped, so the assembler owes it a signed transaction.
pub fn plan_issuance(params: CreateTokenParams, payer: Address, rent: u64) -> (r: Result<
    IssuancePlan,
    TokenError,
>)
    ensures
        !valid_request(&params) ==> (r matches Err(e) && e is Validation),
        valid_request(&params) ==> (r matches Ok(plan) && {
            &&& signer_wf(plan.mint)
            &&& plan.metadata_address@ == metadata_address_of(plan.mint.address@)
            &&& plan.holder_address@ == holder_address_of(payer@, plan.mint.address@)
            &&& plan.ops@ == planned_ops(
                &params,
                payer,
                plan.mint.address,
                plan.metadata_address,
                plan.holder_address,
                rent,
            )
            &&& plan_shaped(plan.ops@, payer@, plan.mint.address@)
        }),
{
    match crate::params::validate(&params) {
        Err(e) => Err(e),
        Ok(()) => {
            let mint = generate_signer();
            let (metadata_address, _bump) = derive_metadata_address(&mint.address);
            let holder_address = derive_holder_address(&payer, &mint.address);
            proof {
                lemma_planned_ops_plan_shaped(
                    &params,
                    payer,
                    mint.address,
                    metadata_address,
                    holder_address,
                    rent,
                );
            }
            match build_instructions(
                params,
                payer,
                mint.address,
                metadata_address,
                holder_address,
                rent,
            ) {
                Ok(ops) => Ok(IssuancePlan { mint, metadata_address, holder_address, ops }),
                Err(e) => Err(e),
            }
        },
    }
}

/// Translate one planned operation into the ledger's wire form through the
/// trusted builders, field for field; the planner has already resolved
/// every scalar the ledger needs.
pub(crate) fn lower_instruction(op: &IssuanceInstruction) -> solana_sdk::instruction::Instruction {
    match op {
        IssuanceInstruction::CreateAccount { payer, new_account, lamports, space, owner } => {
            build_create_account(payer, new_account, *lamports, *space, owner)
        },
        IssuanceInstruction::ConfigureExtensions {
            mint,
            authority,
            fee_basis_points,
            maximum_fee,
            rate_limit: _,
            max_transfer_amount: _,
        } => {
            build_transfer_fee_config(mint, authority, *fee_basis_points, *maximum_fee)
        },
        IssuanceInstruction::InitializeMint { mint, decimals, mint_authority, freeze_authority } => {
            build_initialize_mint(mint, mint_authority, freeze_authority, *decimals)
        },
        IssuanceInstruction::CreateHolderAccount { payer, owner, mint: m, holder: _ } => {
            build_create_holder(payer, owner, m)
        },
        IssuanceInstruction::MintTo { mint, holder, authority, amount } => {
            build_mint_to(mint, holder, authority, *amount)
        },
        IssuanceInstruction::CreateMetadata {
            metadata,
            mint,
            payer,
            name,
            symbol,
            uri,
            is_mutable,
        } => {
            build_create_metadata(
                metadata,
                mint,
                payer,
                String::from_str(name.as_str()),
                String::from_str(symbol.as_str()),
                String::from_str(uri.as_str()),
                *is_mutable,
            )
        },
    }
}

/// Whether a signing identity's bytes really are a key pair for its
/// address.
fn check_signer(s: &SignerIdentity) -> (r: bool)
    ensures
        r == signer_wf(*s),
{
    match signer_from_bytes(&s.key_bytes) {
        Some(checked) => address_eq(&checked.address, &s.address),
        None => false,
    }
}

/// Assemble the atomic issuance transaction in the ledger's wire form.
/// For two well-formed signing identities — the payer, who pays the fee
/// and holds the authorities, and the mint identity, whose signature
/// proves control over the address being created — and a plan-shaped
/// operation list, assembly always succeeds: the result is the serialized
/// transaction of exactly those operations under the given freshness
/// token, its fee payer is the payer and its signers are exactly the payer
/// and the mint.  Anything else — key bytes that do not match their
/// address, or operations no issuance plan produces — is refused as a
/// validation error before the SDK sees it.
pub fn assemble_transaction(
    ops: &Vec<IssuanceInstruction>,
    payer: &SignerIdentity,
    mint: &SignerIdentity,
    recent_blockhash: &[u8; 32],
) -> (r: Result<Vec<u8>, TokenError>)
    ensures
        signer_wf(*payer) && signer_wf(*mint) && plan_shaped(ops@, payer.address@, mint.address@)
            ==> (r matches Ok(wire) && {
            &&& wire@ == wire_of(ops@, payer.key_bytes@, mint.key_bytes@, recent_blockhash@)
            &&& fee_payer_of(wire@) == payer.address@
            &&& wire_signers(wire@) == set![payer.address@, mint.address@]
        }),
        !(signer_wf(*payer) && signer_wf(*mint) && plan_shaped(
            ops@,
            payer.address@,
            mint.address@,
        )) ==> (r matches Err(e) && e is Validation),
{
    if !check_signer(payer) || !check_signer(mint) {
        return Err(
            TokenError::Validation {
                reason: String::from_str("signing key does not match its address"),
            },
        );
    }
    if !is_plan_shaped(ops, &payer.address, &mint.address) {
        return Err(
            TokenError::Validation {
                reason: String::from_str("operations do not form an issuance plan"),
            },
        );
    }
    Ok(sign_transaction(ops, payer, mint, recent_blockhash))
}

} // verus!
