//! The trusted boundary to the ledger SDK.
//!
//! Everything the library takes on trust stands in this module: the opaque
//! instruction type it hands the SDK, the names given to the SDK's
//! deterministic computations, and one small wrapper per SDK call.  Each
//! wrapper's contract states no more than the wrapped function's own source
//! shows.

use vstd::prelude::*;

use crate::instructions::IssuanceInstruction;
use crate::instructions::plan_shaped;

verus! {

/// A 32-byte ledger account address (the public half of a key pair, or a
/// program-derived address).
#[derive(Debug, Clone, Copy, PartialEq, Eq)]
pub struct Address {
    pub bytes: [u8; 32],
}

impl View for Address {
    type V = Seq<u8>;

    open spec fn view(&self) -> Seq<u8> {
        self.bytes@
    }
}

/// The token program that owns every mint this library issues: the
/// `spl-token-2022` program id, written out byte for byte.  A test holds
/// this constant to the id the token program's own crate declares.
pub const TOKEN_PROGRAM_ID: [u8; 32] = [
    6, 221, 246, 225, 238, 117, 143, 222, 24, 66, 93, 188, 228, 108, 205, 218, 182, 26, 252, 77,
    131, 185, 13, 39, 254, 189, 249, 40, 216, 161, 139, 252,
];

/// The token program's id as an address value.
pub open spec fn token_program_address() -> Address {
    (Address { bytes: TOKEN_PROGRAM_ID })
}

#[verifier::external_type_specification]
#[verifier::external_body]
pub struct ExInstruction(solana_sdk::instruction::Instruction);

/// A signing identity held as plain values: a key pair in the SDK's
/// 64-byte serialization, beside the address of its public half.  The mint
/// identity of an issuance attempt is one of these, freshly drawn per
/// attempt; the payer is another.
pub struct SignerIdentity {
    pub key_bytes: [u8; 64],
    pub address: Address,
}

/// Whether 64 bytes are a key pair in the SDK's serialization, exactly as
/// `Keypair::from_bytes` accepts them: a property of the bytes alone.
pub uninterp spec fn keypair_wf(key: Seq<u8>) -> bool;

/// The public half of a serialized key pair: a function of the bytes alone.
pub uninterp spec fn pubkey_of(key: Seq<u8>) -> Seq<u8>;

/// A well-formed signing identity: the bytes are a key pair the SDK
/// accepts, and the address is that key pair's public half.
pub open spec fn signer_wf(s: SignerIdentity) -> bool {
    keypair_wf(s.key_bytes@) && s.address@ == pubkey_of(s.key_bytes@)
}

/// The metadata account address that the token-metadata program derives for
/// a mint.  `Metadata::find_pda` hashes a fixed seed prefix, the metadata
/// program id and the mint address, so the result is a function of the mint
/// address alone.
pub uninterp spec fn metadata_address_of(mint: Seq<u8>) -> Seq<u8>;

/// The bump disambiguator found alongside `metadata_address_of`.
pub uninterp spec fn metadata_bump_of(mint: Seq<u8>) -> u8;

/// The associated token account address derived for a wallet and a mint.
/// `get_associated_token_address_with_program_id` hashes the wallet address,
/// the (fixed) token program id and the mint address, so the result is a
/// function of wallet and mint alone.
pub uninterp spec fn holder_address_of(owner: Seq<u8>, mint: Seq<u8>) -> Seq<u8>;

/// The base58 rendering of a 32-byte address, as the SDK's `Pubkey` prints
/// it: a function of the bytes alone.
pub uninterp spec fn base58_of(address: Seq<u8>) -> Seq<char>;

/// The serialized signed transaction of one issuance: the operations
/// lowered in their order into the ledger's instruction encoding, compiled
/// into one atomic message with the payer's key as fee payer, stamped with
/// the freshness token, and signed by the payer's and the mint's keys.
/// Message compilation, ed25519 signing and the wire serialization are all
/// deterministic, so this is a function of its arguments alone.
pub uninterp spec fn wire_of(
    ops: Seq<IssuanceInstruction>,
    payer_key: Seq<u8>,
    mint_key: Seq<u8>,
    recent_blockhash: Seq<u8>,
) -> Seq<u8>;

/// The fee-paying account a serialized transaction names first.
pub uninterp spec fn fee_payer_of(wire: Seq<u8>) -> Seq<u8>;

/// The set of addresses whose signatures a serialized transaction carries.
pub uninterp spec fn wire_signers(wire: Seq<u8>) -> Set<Seq<u8>>;

/// Address derivation is deterministic: the metadata address, its bump and
/// the holder address are spec-level functions of their seed inputs alone,
/// so deriving twice from identical inputs yields identical outputs, and
/// later transactions may reference the same mint without a network lookup.
pub proof fn lemma_derivation_deterministic(
    mint_a: Seq<u8>,
    mint_b: Seq<u8>,
    owner_a: Seq<u8>,
    owner_b: Seq<u8>,
)
    requires
        mint_a == mint_b,
        owner_a == owner_b,
    ensures
        metadata_address_of(mint_a) == metadata_address_of(mint_b),
        metadata_bump_of(mint_a) == metadata_bump_of(mint_b),
        holder_address_of(owner_a, mint_a) == holder_address_of(owner_b, mint_b),
{
}

/// Whether two addresses hold the same bytes.
pub fn address_eq(a: &Address, b: &Address) -> (r: bool)
    ensures
        r == (a@ == b@),
{
    let mut i: usize = 0;
    while i < 32
        invariant
            i <= 32,
            forall|j: int| 0 <= j < i ==> a@[j] == b@[j],
        decreases 32 - i,
    {
        if a.bytes[i] != b.bytes[i] {
            return false;
        }
        i = i + 1;
    }
    proof {
        assert(a@ =~= b@);
    }
    true
}

/// Relies on `solana_sdk::signature::Keypair::new` to sample a fresh
/// signing key.  Nothing is assumed of the drawn value beyond
/// well-formedness: the bytes are the new key pair's serialization and the
/// address is its public half.  `plan_issuance` draws one fresh mint
/// identity per issuance attempt here and never reuses it.
#[verifier::external_body]
pub fn generate_signer() -> (r: SignerIdentity)
    ensures
        keypair_wf(r.key_bytes@),
        r.address@ == pubkey_of(r.key_bytes@),
{
    let keypair = solana_sdk::signature::Keypair::new();
    let address = Address { bytes: solana_sdk::signer::Signer::pubkey(&keypair).to_bytes() };
    SignerIdentity { key_bytes: keypair.to_bytes(), address }
}

/// Relies on `solana_sdk::signature::Keypair::from_bytes`: it accepts
/// exactly the well-formed 64-byte key-pair serializations, and the
/// identity's address is the accepted key pair's public half.
#[verifier::external_body]
pub fn signer_from_bytes(key_bytes: &[u8; 64]) -> (r: Option<SignerIdentity>)
    ensures
        r is Some <==> keypair_wf(key_bytes@),
        r matches Some(s) ==> s.key_bytes@ == key_bytes@ && s.address@ == pubkey_of(key_bytes@),
{
    match solana_sdk::signature::Keypair::from_bytes(key_bytes) {
        Ok(keypair) => {
            let address = Address {
                bytes: solana_sdk::signer::Signer::pubkey(&keypair).to_bytes(),
            };
            Some(SignerIdentity { key_bytes: *key_bytes, address })
        },
        Err(_) => None,
    }
}

/// Relies on `mpl_token_metadata::accounts::Metadata::find_pda`: the
/// deterministic derivation of the metadata account address and its bump
/// from the mint address.
#[verifier::external_body]
pub fn derive_metadata_address(mint: &Address) -> (r: (Address, u8))
    ensures
        r.0@ == metadata_address_of(mint@),
        r.1 == metadata_bump_of(mint@),
{
    let mint_key = solana_sdk::pubkey::Pubkey::new_from_array(mint.bytes);
    let (address, bump) = mpl_token_metadata::accounts::Metadata::find_pda(&mint_key);
    (Address { bytes: address.to_bytes() }, bump)
}

/// Relies on
/// `spl_associated_token_account::get_associated_token_address_with_program_id`:
/// the deterministic derivation of the holder's associated token account
/// address from the owning wallet and the mint, under the token program
/// used throughout this library.
#[verifier::external_body]
pub fn derive_holder_address(owner: &Address, mint: &Address) -> (r: Address)
    ensures
        r@ == holder_address_of(owner@, mint@),
{
    let owner_key = solana_sdk::pubkey::Pubkey::new_from_array(owner.bytes);
    let mint_key = solana_sdk::pubkey::Pubkey::new_from_array(mint.bytes);
    let address = spl_associated_token_account::get_associated_token_address_with_program_id(
        &owner_key,
        &mint_key,
        &spl_token_2022::id(),
    );
    Address { bytes: address.to_bytes() }
}

/// Relies on the `Display` rendering of `solana_sdk::pubkey::Pubkey`: the
/// base58 form of the 32 address bytes.
#[verifier::external_body]
pub fn address_to_string(address: &Address) -> (r: String)
    ensures
        r@ == base58_of(address@),
{
    format!("{}", solana_sdk::pubkey::Pubkey::new_from_array(address.bytes))
}

/// Relies on `spl_token_2022::state::Mint` packing into exactly 82 bytes
/// (`Mint::LEN` in the token program's source).
#[verifier::external_body]
pub fn mint_account_size() -> (r: u64)
    ensures
        r == 82,
{
    <spl_token_2022::state::Mint as solana_program::program_pack::Pack>::LEN as u64
}

/// Relies on `solana_program::system_instruction::create_account` to build
/// the system-program operation that creates the new account, funds it with
/// `lamports`, allocates `space` bytes and assigns it to the `owner`
/// program.  It marks both the payer and the new account as signers.
#[verifier::external_body]
pub(crate) fn build_create_account(
    payer: &Address,
    new_account: &Address,
    lamports: u64,
    space: u64,
    owner: &Address,
) -> (r: solana_sdk::instruction::Instruction)
{
    solana_program::system_instruction::create_account(
        &solana_sdk::pubkey::Pubkey::new_from_array(payer.bytes),
        &solana_sdk::pubkey::Pubkey::new_from_array(new_account.bytes),
        lamports,
        space,
        &solana_sdk::pubkey::Pubkey::new_from_array(owner.bytes),
    )
}

/// Relies on `spl_token_2022::instruction::initialize_mint`.  With the
/// token program's own id that builder only ever returns `Ok` (its single
/// error path is a mismatched program id), so the unwrap cannot fire.  It
/// marks no account as a signer.
#[verifier::external_body]
pub(crate) fn build_initialize_mint(
    mint: &Address,
    mint_authority: &Address,
    freeze_authority: &Option<Address>,
    decimals: u8,
) -> (r: solana_sdk::instruction::Instruction)
{
    let freeze_key = freeze_authority
        .as_ref()
        .map(|a| solana_sdk::pubkey::Pubkey::new_from_array(a.bytes));
    spl_token_2022::instruction::initialize_mint(
        &spl_token_2022::id(),
        &solana_sdk::pubkey::Pubkey::new_from_array(mint.bytes),
        &solana_sdk::pubkey::Pubkey::new_from_array(mint_authority.bytes),
        freeze_key.as_ref(),
        decimals,
    )
    .unwrap()
}

/// Relies on
/// `spl_token_2022::extension::transfer_fee::instruction::initialize_transfer_fee_config`.
/// With the token program's own id that builder only ever returns `Ok` (its
/// single error path is a mismatched program id), so the unwrap cannot
/// fire.  It marks no account as a signer.
#[verifier::external_body]
pub(crate) fn build_transfer_fee_config(
    mint: &Address,
    authority: &Address,
    fee_basis_points: u16,
    maximum_fee: u64,
) -> (r: solana_sdk::instruction::Instruction)
{
    let authority_key = solana_sdk::pubkey::Pubkey::new_from_array(authority.bytes);
    spl_token_2022::extension::transfer_fee::instruction::initialize_transfer_fee_config(
        &spl_token_2022::id(),
        &solana_sdk::pubkey::Pubkey::new_from_array(mint.bytes),
        Some(&authority_key),
        Some(&authority_key),
        fee_basis_points,
        maximum_fee,
    )
    .unwrap()
}

/// Relies on
/// `spl_associated_token_account::instruction::create_associated_token_account`
/// to build the operation that creates the holder's associated account under
/// the token program used throughout this library.  It marks the funding
/// payer as the only signer.
#[verifier::external_body]
pub(crate) fn build_create_holder(
    payer: &Address,
    owner: &Address,
    mint: &Address,
) -> (r: solana_sdk::instruction::Instruction)
{
    spl_associated_token_account::instruction::create_associated_token_account(
        &solana_sdk::pubkey::Pubkey::new_from_array(payer.bytes),
        &solana_sdk::pubkey::Pubkey::new_from_array(owner.bytes),
        &solana_sdk::pubkey::Pubkey::new_from_array(mint.bytes),
        &spl_token_2022::id(),
    )
}

/// Relies on `spl_token_2022::instruction::mint_to`.  With the token
/// program's own id that builder only ever returns `Ok` (its single error
/// path is a mismatched program id), so the unwrap cannot fire.  It marks
/// the mint authority as the only signer.
#[verifier::external_body]
pub(crate) fn build_mint_to(
    mint: &Address,
    holder: &Address,
    authority: &Address,
    amount: u64,
) -> (r: solana_sdk::instruction::Instruction)
{
    spl_token_2022::instruction::mint_to(
        &spl_token_2022::id(),
        &solana_sdk::pubkey::Pubkey::new_from_array(mint.bytes),
        &solana_sdk::pubkey::Pubkey::new_from_array(holder.bytes),
        &solana_sdk::pubkey::Pubkey::new_from_array(authority.bytes),
        &[],
        amount,
    )
    .unwrap()
}

/// Relies on `mpl_token_metadata::instructions::CreateMetadataAccountV3` to
/// build the operation that writes name, symbol and document URI next to the
/// mint.  The payer is mint authority, fee payer and update authority, and
/// those three roles are the operation's only signers.
#[verifier::external_body]
pub(crate) fn build_create_metadata(
    metadata: &Address,
    mint: &Address,
    payer: &Address,
    name: String,
    symbol: String,
    uri: String,
    is_mutable: bool,
) -> (r: solana_sdk::instruction::Instruction)
{
    let payer_key = solana_sdk::pubkey::Pubkey::new_from_array(payer.bytes);
    let accounts = mpl_token_metadata::instructions::CreateMetadataAccountV3 {
        metadata: solana_sdk::pubkey::Pubkey::new_from_array(metadata.bytes),
        mint: solana_sdk::pubkey::Pubkey::new_from_array(mint.bytes),
        mint_authority: payer_key, payer: payer_key, update_authority: (payer_key, true),
        system_program: solana_program::system_program::id(),
        rent: Some(solana_program::sysvar::rent::id()),
    };
    let data = mpl_token_metadata::types::DataV2 {
        name, symbol, uri, seller_fee_basis_points: 0, creators: None, collection: None, uses: None,
    };
    accounts.instruction(mpl_token_metadata::instructions::CreateMetadataAccountV3InstructionArgs {
        data, is_mutable, collection_details: None,
    })
}

/// Relies on `Transaction::new_with_payer` and `Transaction::try_sign`,
/// with `Keypair::from_bytes`, `Hash::new_from_array` and
/// `bincode::serialize` converting the arguments and the result.  The
/// preconditions rule every failure out: well-formed key bytes
/// deserialize; a plan-shaped operation list marks the payer and the mint
/// — and no one else — as signers, so `try_sign` finds every provided key
/// required and every required signature provided; and its length keeps
/// the compiled message far below the account-table bound whose overflow
/// panics.  Serializing the signed transaction into memory does not fail.
#[verifier::external_body]
pub(crate) fn sign_transaction(
    ops: &Vec<IssuanceInstruction>,
    payer: &SignerIdentity,
    mint: &SignerIdentity,
    recent_blockhash: &[u8; 32],
) -> (r: Vec<u8>)
    requires
        signer_wf(*payer),
        signer_wf(*mint),
        plan_shaped(ops@, payer.address@, mint.address@),
    ensures
        r@ == wire_of(ops@, payer.key_bytes@, mint.key_bytes@, recent_blockhash@),
        fee_payer_of(r@) == payer.address@,
        wire_signers(r@) == set![payer.address@, mint.address@],
{
    let payer_kp = solana_sdk::signature::Keypair::from_bytes(&payer.key_bytes).unwrap();
    let mint_kp = solana_sdk::signature::Keypair::from_bytes(&mint.key_bytes).unwrap();
    let instructions: Vec<solana_sdk::instruction::Instruction> =
        ops.iter().map(crate::pipeline::lower_instruction).collect();
    let payer_pubkey = solana_sdk::signer::Signer::pubkey(&payer_kp);
    let mut tx =
        solana_sdk::transaction::Transaction::new_with_payer(&instructions, Some(&payer_pubkey));
    tx.try_sign(&[&payer_kp, &mint_kp], solana_sdk::hash::Hash::new_from_array(*recent_blockhash))
        .unwrap();
    bincode::serialize(&tx).unwrap()
}

} // verus!
