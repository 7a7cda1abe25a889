//! Sequencing: from a validated request and the derived addresses to the
//! ordered list of ledger operations of one issuance.
//!
//! The order is a hard constraint of the ledger, not a style choice: the
//! mint account must exist before anything writes into it, extensions must
//! be configured before initialization locks them, and the holder account
//! must exist before the initial supply is minted into it.

use vstd::prelude::*;

use crate::error::TokenError;
use crate::ledger::Address;
use crate::ledger::TOKEN_PROGRAM_ID;
use crate::ledger::address_eq;
use crate::ledger::mint_account_size;
use crate::ledger::token_program_address;
use crate::params::CreateTokenParams;
use crate::params::has_extensions;
use crate::params::valid_request;

verus! {

/// One ledger operation of an issuance, described by the values this
/// library chooses; the trusted builders in `ledger` translate each into
/// the ledger's wire form.
#[derive(Debug, Clone)]
pub enum IssuanceInstruction {
    /// Create the mint account: funded with the rent-exempt minimum, sized
    /// for the mint record, owned by the token program.
    CreateAccount { payer: Address, new_account: Address, lamports: u64, space: u64, owner: Address },
    /// Configure the requested mint extensions; must run before the mint is
    /// initialized, because initialization locks these fields.  The ledger
    /// encodes this operation as its transfer-fee configuration, which
    /// defines exactly two scalars: `fee_basis_points` (an absent requested
    /// fee is a present zero) and `maximum_fee`, the cap on the fee one
    /// transfer can incur — the request defines no such cap, so the plan
    /// carries the unlimited value.  The per-day rate limit and the maximum
    /// single-transfer amount have no on-ledger encoding and are recorded
    /// in the plan only.
    ConfigureExtensions {
        mint: Address,
        authority: Address,
        fee_basis_points: u16,
        maximum_fee: u64,
        rate_limit: Option<u64>,
        max_transfer_amount: Option<u64>,
    },
    /// Initialize the mint: decimal precision, mint authority, and an
    /// optional freeze authority.
    InitializeMint { mint: Address, decimals: u8, mint_authority: Address, freeze_authority: Option<Address> },
    /// Create the holder's associated account at its derived address.
    CreateHolderAccount { payer: Address, owner: Address, mint: Address, holder: Address },
    /// Mint the initial supply into the holder account.
    MintTo { mint: Address, holder: Address, authority: Address, amount: u64 },
    /// Create the metadata account at its derived address, carrying name,
    /// symbol, document URI and the mutability flag.
    CreateMetadata {
        metadata: Address,
        mint: Address,
        payer: Address,
        name: String,
        symbol: String,
        uri: String,
        is_mutable: bool,
    },
}

/// The kind of one ledger operation, without its payload.
#[derive(Debug, Clone, Copy, PartialEq, Eq, Structural)]
pub enum OpKind {
    CreateAccount,
    ConfigureExtensions,
    InitializeMint,
    CreateHolderAccount,
    MintTo,
    CreateMetadata,
}

/// The kind of an operation.
pub open spec fn op_kind(ix: IssuanceInstruction) -> OpKind {
    match ix {
        IssuanceInstruction::CreateAccount { .. } => OpKind::CreateAccount,
        IssuanceInstruction::ConfigureExtensions { .. } => OpKind::ConfigureExtensions,
        IssuanceInstruction::InitializeMint { .. } => OpKind::InitializeMint,
        IssuanceInstruction::CreateHolderAccount { .. } => OpKind::CreateHolderAccount,
        IssuanceInstruction::MintTo { .. } => OpKind::MintTo,
        IssuanceInstruction::CreateMetadata { .. } => OpKind::CreateMetadata,
    }
}

impl IssuanceInstruction {
    /// The kind of this operation.
    pub fn kind(&self) -> (k: OpKind)
        ensures
            k == op_kind(*self),
    {
        match self {
            IssuanceInstruction::CreateAccount { .. } => OpKind::CreateAccount,
            IssuanceInstruction::ConfigureExtensions { .. } => OpKind::ConfigureExtensions,
            IssuanceInstruction::InitializeMint { .. } => OpKind::InitializeMint,
            IssuanceInstruction::CreateHolderAccount { .. } => OpKind::CreateHolderAccount,
            IssuanceInstruction::MintTo { .. } => OpKind::MintTo,
            IssuanceInstruction::CreateMetadata { .. } => OpKind::CreateMetadata,
        }
    }
}

/// The mandatory position of each kind in the issuance order.
pub open spec fn kind_rank(k: OpKind) -> int {
    match k {
        OpKind::CreateAccount => 0,
        OpKind::ConfigureExtensions => 1,
        OpKind::InitializeMint => 2,
        OpKind::CreateHolderAccount => 3,
        OpKind::MintTo => 4,
        OpKind::CreateMetadata => 5,
    }
}

/// The operation that creates the mint account, owned by the token
/// program.
pub open spec fn create_account_op(payer: Address, mint: Address, rent: u64) -> IssuanceInstruction {
    (IssuanceInstruction::CreateAccount {
        payer,
        new_account: mint,
        lamports: rent,
        space: 82,
        owner: token_program_address(),
    })
}

/// The operation that configures the requested extensions, with the two
/// ledger scalars resolved: the requested basis-point fee or zero, and the
/// unlimited fee cap.
pub open spec fn extensions_op(p: &CreateTokenParams, mint: Address, payer: Address) -> IssuanceInstruction {
    (IssuanceInstruction::ConfigureExtensions {
        mint,
        authority: payer,
        fee_basis_points: match p.transfer_fee {
            Some(fee) => fee,
            None => 0,
        },
        maximum_fee: u64::MAX,
        rate_limit: p.rate_limit,
        max_transfer_amount: p.max_transfer_amount,
    })
}

/// The operation that initializes the mint.  The payer is the mint
/// authority, and the freeze authority exactly when the request retains
/// one.
pub open spec fn initialize_mint_op(p: &CreateTokenParams, mint: Address, payer: Address) -> IssuanceInstruction {
    (IssuanceInstruction::InitializeMint {
        mint,
        decimals: p.decimals,
        mint_authority: payer,
        freeze_authority: if p.freeze_authority { Some(payer) } else { None },
    })
}

/// The operation that creates the payer's holder account.
pub open spec fn create_holder_op(payer: Address, mint: Address, holder: Address) -> IssuanceInstruction {
    (IssuanceInstruction::CreateHolderAccount { payer, owner: payer, mint, holder })
}

/// The operation that mints the initial supply into the holder account.
pub open spec fn mint_to_op(p: &CreateTokenParams, mint: Address, holder: Address, payer: Address) -> IssuanceInstruction {
    (IssuanceInstruction::MintTo { mint, holder, authority: payer, amount: p.initial_supply })
}

/// The operation that writes the metadata record.
pub open spec fn create_metadata_op(p: &CreateTokenParams, metadata: Address, mint: Address, payer: Address) -> IssuanceInstruction {
    (IssuanceInstruction::CreateMetadata {
        metadata,
        mint,
        payer,
        name: p.name,
        symbol: p.symbol,
        uri: p.metadata_uri,
        is_mutable: p.is_mutable,
    })
}

/// The full operation list of one issuance: create the mint account, then
/// the extension configuration if any extension is requested, then mint
/// initialization, then — only for a positive initial supply — holder
/// creation and the initial mint, and the metadata record last.
pub open spec fn planned_ops(
    p: &CreateTokenParams,
    payer: Address,
    mint: Address,
    metadata: Address,
    holder: Address,
    rent: u64,
) -> Seq<IssuanceInstruction> {
    seq![create_account_op(payer, mint, rent)]
    + (if has_extensions(p) {
        seq![extensions_op(p, mint, payer)]
    } else {
        Seq::<IssuanceInstruction>::empty()
    })
    + seq![initialize_mint_op(p, mint, payer)]
    + (if p.initial_supply > 0 {
        seq![create_holder_op(payer, mint, holder), mint_to_op(p, mint, holder, payer)]
    } else {
        Seq::<IssuanceInstruction>::empty()
    })
    + seq![create_metadata_op(p, metadata, mint, payer)]
}

/// Build the ordered operation list for a request.  A request outside the
/// supported decimal range is refused here with the validation error; every
/// other request yields exactly the planned sequence.
pub fn build_instructions(
    params: CreateTokenParams,
    payer: Address,
    mint: Address,
    metadata: Address,
    holder: Address,
    rent: u64,
) -> (r: Result<Vec<IssuanceInstruction>, TokenError>)
    ensures
        valid_request(&params) ==> (r matches Ok(ops)
            && ops@ == planned_ops(&params, payer, mint, metadata, holder, rent)),
        !valid_request(&params) ==> (r matches Err(e) && e is Validation),
{
    match crate::params::validate(&params) {
        Err(e) => Err(e),
        Ok(()) => {
            let mut ops: Vec<IssuanceInstruction> = Vec::new();
            ops.push(IssuanceInstruction::CreateAccount {
                payer,
                new_account: mint,
                lamports: rent,
                space: mint_account_size(),
                owner: Address { bytes: TOKEN_PROGRAM_ID },
            });
            if params.rate_limit.is_some() || params.transfer_fee.is_some()
                || params.max_transfer_amount.is_some() {
                ops.push(IssuanceInstruction::ConfigureExtensions {
                    mint,
                    authority: payer,
                    fee_basis_points: match params.transfer_fee {
                        Some(fee) => fee,
                        None => 0,
                    },
                    maximum_fee: u64::MAX,
                    rate_limit: params.rate_limit,
                    max_transfer_amount: params.max_transfer_amount,
                });
            }
            ops.push(IssuanceInstruction::InitializeMint {
                mint,
                decimals: params.decimals,
                mint_authority: payer,
                freeze_authority: if params.freeze_authority { Some(payer) } else { None },
            });
            if params.initial_supply > 0 {
                ops.push(IssuanceInstruction::CreateHolderAccount {
                    payer,
                    owner: payer,
                    mint,
                    holder,
                });
                ops.push(IssuanceInstruction::MintTo {
                    mint,
                    holder,
                    authority: payer,
                    amount: params.initial_supply,
                });
            }
            ops.push(IssuanceInstruction::CreateMetadata {
                metadata,
                mint,
                payer,
                name: params.name,
                symbol: params.symbol,
                uri: params.metadata_uri,
                is_mutable: params.is_mutable,
            });
            proof {
                assert(ops@ =~= planned_ops(&params, payer, mint, metadata, holder, rent));
            }
            Ok(ops)
        },
    }
}

/// Whether some operation of the given kind occurs in the list.
pub open spec fn contains_kind(ops: Seq<IssuanceInstruction>, k: OpKind) -> bool {
    exists|i: int| 0 <= i < ops.len() && op_kind(ops[i]) == k
}

/// Whether exactly one operation of the given kind occurs in the list.
pub open spec fn exactly_one_kind(ops: Seq<IssuanceInstruction>, k: OpKind) -> bool {
    exists|i: int|
        0 <= i < ops.len() && op_kind(ops[i]) == k
        && (forall|j: int| 0 <= j < ops.len() && op_kind(ops[j]) == k ==> j == i)
}

proof fn lemma_planned_shape(
    p: &CreateTokenParams,
    payer: Address,
    mint: Address,
    metadata: Address,
    holder: Address,
    rent: u64,
)
    ensures
        has_extensions(p) && p.initial_supply > 0 ==> planned_ops(p, payer, mint, metadata, holder, rent) == seq![
            create_account_op(payer, mint, rent),
            extensions_op(p, mint, payer),
            initialize_mint_op(p, mint, payer),
            create_holder_op(payer, mint, holder),
            mint_to_op(p, mint, holder, payer),
            create_metadata_op(p, metadata, mint, payer),
        ],
        has_extensions(p) && p.initial_supply == 0 ==> planned_ops(p, payer, mint, metadata, holder, rent) == seq![
            create_account_op(payer, mint, rent),
            extensions_op(p, mint, payer),
            initialize_mint_op(p, mint, payer),
            create_metadata_op(p, metadata, mint, payer),
        ],
        !has_extensions(p) && p.initial_supply > 0 ==> planned_ops(p, payer, mint, metadata, holder, rent) == seq![
            create_account_op(payer, mint, rent),
            initialize_mint_op(p, mint, payer),
            create_holder_op(payer, mint, holder),
            mint_to_op(p, mint, holder, payer),
            create_metadata_op(p, metadata, mint, payer),
        ],
        !has_extensions(p) && p.initial_supply == 0 ==> planned_ops(p, payer, mint, metadata, holder, rent) == seq![
            create_account_op(payer, mint, rent),
            initialize_mint_op(p, mint, payer),
            create_metadata_op(p, metadata, mint, payer),
        ],
{
    let ops = planned_ops(p, payer, mint, metadata, holder, rent);
    if has_extensions(p) {
        if p.initial_supply > 0 {
            assert(ops =~= seq![
                create_account_op(payer, mint, rent),
                extensions_op(p, mint, payer),
                initialize_mint_op(p, mint, payer),
                create_holder_op(payer, mint, holder),
                mint_to_op(p, mint, holder, payer),
                create_metadata_op(p, metadata, mint, payer),
            ]);
        } else {
            assert(ops =~= seq![
                create_account_op(payer, mint, rent),
                extensions_op(p, mint, payer),
                initialize_mint_op(p, mint, payer),
                create_metadata_op(p, metadata, mint, payer),
            ]);
        }
    } else {
        if p.initial_supply > 0 {
            assert(ops =~= seq![
                create_account_op(payer, mint, rent),
                initialize_mint_op(p, mint, payer),
                create_holder_op(payer, mint, holder),
                mint_to_op(p, mint, holder, payer),
                create_metadata_op(p, metadata, mint, payer),
            ]);
        } else {
            assert(ops =~= seq![
                create_account_op(payer, mint, rent),
                initialize_mint_op(p, mint, payer),
                create_metadata_op(p, metadata, mint, payer),
            ]);
        }
    }
}

/// Whatever the request asks for, the planned operations stand in strictly
/// increasing rank order: account creation before extensions, extensions
/// before mint initialization, initialization before holder creation,
/// holder creation before the initial mint, and the metadata record last.
/// In particular no kind of operation ever occurs twice.
pub proof fn lemma_instruction_order(
    p: &CreateTokenParams,
    payer: Address,
    mint: Address,
    metadata: Address,
    holder: Address,
    rent: u64,
)
    ensures
        ({
            let ops = planned_ops(p, payer, mint, metadata, holder, rent);
            forall|i: int, j: int| 0 <= i < j < ops.len()
                ==> kind_rank(op_kind(ops[i])) < kind_rank(op_kind(ops[j]))
        }),
{
    lemma_planned_shape(p, payer, mint, metadata, holder, rent);
}

/// In a list whose ranks increase strictly, the kind found at `idx`
/// occurs nowhere else.
proof fn lemma_exactly_one_at(ops: Seq<IssuanceInstruction>, idx: int)
    requires
        0 <= idx < ops.len(),
        forall|i: int, j: int| 0 <= i < j < ops.len()
            ==> kind_rank(op_kind(ops[i])) < kind_rank(op_kind(ops[j])),
    ensures
        exactly_one_kind(ops, op_kind(ops[idx])),
{
    let k = op_kind(ops[idx]);
    assert forall|j: int| 0 <= j < ops.len() && op_kind(ops[j]) == k implies j == idx by {
        if j < idx {
            assert(kind_rank(op_kind(ops[j])) < kind_rank(op_kind(ops[idx])));
        }
        if j > idx {
            assert(kind_rank(op_kind(ops[idx])) < kind_rank(op_kind(ops[j])));
        }
    }
    assert(0 <= idx < ops.len() && op_kind(ops[idx]) == k && (forall|j: int|
        0 <= j < ops.len() && op_kind(ops[j]) == k ==> j == idx));
}

/// Every issuance plan carries exactly one mint-account creation, exactly
/// one mint initialization and exactly one metadata record.
pub proof fn lemma_mandatory_ops(
    p: &CreateTokenParams,
    payer: Address,
    mint: Address,
    metadata: Address,
    holder: Address,
    rent: u64,
)
    ensures
        ({
            let ops = planned_ops(p, payer, mint, metadata, holder, rent);
            &&& exactly_one_kind(ops, OpKind::CreateAccount)
            &&& exactly_one_kind(ops, OpKind::InitializeMint)
            &&& exactly_one_kind(ops, OpKind::CreateMetadata)
        }),
{
    let ops = planned_ops(p, payer, mint, metadata, holder, rent);
    lemma_planned_shape(p, payer, mint, metadata, holder, rent);
    lemma_instruction_order(p, payer, mint, metadata, holder, rent);
    let last = ops.len() - 1;
    assert(op_kind(ops[0]) == OpKind::CreateAccount);
    assert(op_kind(ops[last]) == OpKind::CreateMetadata);
    lemma_exactly_one_at(ops, 0);
    lemma_exactly_one_at(ops, last);
    if has_extensions(p) {
        assert(op_kind(ops[2]) == OpKind::InitializeMint);
        lemma_exactly_one_at(ops, 2);
    } else {
        assert(op_kind(ops[1]) == OpKind::InitializeMint);
        lemma_exactly_one_at(ops, 1);
    }
}

/// A zero initial supply leaves both the holder-account creation and the
/// initial mint out of the plan; a positive initial supply puts exactly one
/// of each in.
pub proof fn lemma_supply_controls_holder_ops(
    p: &CreateTokenParams,
    payer: Address,
    mint: Address,
    metadata: Address,
    holder: Address,
    rent: u64,
)
    ensures
        ({
            let ops = planned_ops(p, payer, mint, metadata, holder, rent);
            &&& p.initial_supply == 0 ==> !contains_kind(ops, OpKind::CreateHolderAccount)
                && !contains_kind(ops, OpKind::MintTo)
            &&& p.initial_supply > 0 ==> exactly_one_kind(ops, OpKind::CreateHolderAccount)
                && exactly_one_kind(ops, OpKind::MintTo)
        }),
{
    let ops = planned_ops(p, payer, mint, metadata, holder, rent);
    lemma_planned_shape(p, payer, mint, metadata, holder, rent);
    lemma_instruction_order(p, payer, mint, metadata, holder, rent);
    if p.initial_supply == 0 {
        assert forall|i: int| 0 <= i < ops.len() implies op_kind(ops[i])
            != OpKind::CreateHolderAccount && op_kind(ops[i]) != OpKind::MintTo by {
            if has_extensions(p) {
                assert(i == 0 || i == 1 || i == 2 || i == 3);
            } else {
                assert(i == 0 || i == 1 || i == 2);
            }
        }
    }
    if p.initial_supply > 0 {
        if has_extensions(p) {
            assert(op_kind(ops[3]) == OpKind::CreateHolderAccount);
            assert(op_kind(ops[4]) == OpKind::MintTo);
            lemma_exactly_one_at(ops, 3);
            lemma_exactly_one_at(ops, 4);
        } else {
            assert(op_kind(ops[2]) == OpKind::CreateHolderAccount);
            assert(op_kind(ops[3]) == OpKind::MintTo);
            lemma_exactly_one_at(ops, 2);
            lemma_exactly_one_at(ops, 3);
        }
    }
}

/// If any extension is requested — a present value of zero counts — the
/// plan carries exactly one extension-configuration operation, and it
/// stands strictly between account creation and mint initialization;
/// without extensions no such operation occurs.
pub proof fn lemma_extension_placement(
    p: &CreateTokenParams,
    payer: Address,
    mint: Address,
    metadata: Address,
    holder: Address,
    rent: u64,
)
    ensures
        ({
            let ops = planned_ops(p, payer, mint, metadata, holder, rent);
            &&& has_extensions(p) ==> exactly_one_kind(ops, OpKind::ConfigureExtensions)
            &&& !has_extensions(p) ==> !contains_kind(ops, OpKind::ConfigureExtensions)
            &&& forall|i: int, j: int, k: int|
                0 <= i < ops.len() && 0 <= j < ops.len() && 0 <= k < ops.len()
                && op_kind(ops[i]) == OpKind::CreateAccount
                && op_kind(ops[j]) == OpKind::ConfigureExtensions
                && op_kind(ops[k]) == OpKind::InitializeMint
                ==> i < j < k
        }),
{
    let ops = planned_ops(p, payer, mint, metadata, holder, rent);
    lemma_planned_shape(p, payer, mint, metadata, holder, rent);
    lemma_instruction_order(p, payer, mint, metadata, holder, rent);
    if has_extensions(p) {
        assert(op_kind(ops[1]) == OpKind::ConfigureExtensions);
        lemma_exactly_one_at(ops, 1);
    }
}

/// Whether an operation creates the mint's own account.
pub open spec fn creates_mint_account(op: IssuanceInstruction, mint: Seq<u8>) -> bool {
    op matches IssuanceInstruction::CreateAccount { new_account, .. } && new_account@ == mint
}

/// Whether one operation marks only the payer or the mint as a ledger
/// signer.  The trusted builders mark as signers: the funding payer and
/// the created account (account creation), the funding payer (holder
/// creation), the mint authority (the initial mint), and the payer in its
/// three roles (the metadata record); extension configuration and mint
/// initialization mark none.
pub open spec fn op_signers_ok(op: IssuanceInstruction, payer: Seq<u8>, mint: Seq<u8>) -> bool {
    match op {
        IssuanceInstruction::CreateAccount { payer: funding, new_account, .. } => (funding@
            == payer || funding@ == mint) && (new_account@ == payer || new_account@ == mint),
        IssuanceInstruction::ConfigureExtensions { .. } => true,
        IssuanceInstruction::InitializeMint { .. } => true,
        IssuanceInstruction::CreateHolderAccount { payer: funding, .. } => funding@ == payer
            || funding@ == mint,
        IssuanceInstruction::MintTo { authority, .. } => authority@ == payer || authority@ == mint,
        IssuanceInstruction::CreateMetadata { payer: funding, .. } => funding@ == payer || funding@
            == mint,
    }
}

/// What the transaction assembler accepts: an operation list that creates
/// the mint's account, whose signers are drawn from the payer and the mint
/// alone — the two keys the assembler signs with — and whose length stays
/// far below the compiled message's account-table limit.
pub open spec fn plan_shaped(ops: Seq<IssuanceInstruction>, payer: Seq<u8>, mint: Seq<u8>) -> bool {
    &&& ops.len() <= 30
    &&& exists|i: int| 0 <= i < ops.len() && creates_mint_account(#[trigger] ops[i], mint)
    &&& forall|i: int| 0 <= i < ops.len() ==> op_signers_ok(#[trigger] ops[i], payer, mint)
}

/// Decide `plan_shaped` at run time, for callers whose operation list does
/// not come from this library's own planner.
pub fn is_plan_shaped(ops: &Vec<IssuanceInstruction>, payer: &Address, mint: &Address) -> (r: bool)
    ensures
        r == plan_shaped(ops@, payer@, mint@),
{
    if ops.len() > 30 {
        return false;
    }
    let mut creates_mint = false;
    let mut i: usize = 0;
    while i < ops.len()
        invariant
            i <= ops@.len(),
            ops@.len() <= 30,
            forall|j: int| 0 <= j < i ==> op_signers_ok(#[trigger] ops@[j], payer@, mint@),
            creates_mint == exists|j: int|
                0 <= j < i && creates_mint_account(#[trigger] ops@[j], mint@),
        decreases ops@.len() - i,
    {
        let signers_ok = match &ops[i] {
            IssuanceInstruction::CreateAccount { payer: funding, new_account, .. } => {
                if address_eq(new_account, mint) {
                    creates_mint = true;
                }
                (address_eq(funding, payer) || address_eq(funding, mint)) && (address_eq(
                    new_account,
                    payer,
                ) || address_eq(new_account, mint))
            },
            IssuanceInstruction::ConfigureExtensions { .. } => true,
            IssuanceInstruction::InitializeMint { .. } => true,
            IssuanceInstruction::CreateHolderAccount { payer: funding, .. } => {
                address_eq(funding, payer) || address_eq(funding, mint)
            },
            IssuanceInstruction::MintTo { authority, .. } => {
                address_eq(authority, payer) || address_eq(authority, mint)
            },
            IssuanceInstruction::CreateMetadata { payer: funding, .. } => {
                address_eq(funding, payer) || address_eq(funding, mint)
            },
        };
        if !signers_ok {
            return false;
        }
        i = i + 1;
    }
    creates_mint
}

/// Every planned operation list is plan-shaped: its first operation
/// creates the mint's account, only the payer and the mint are ever marked
/// as signers, and it is far shorter than the assembler's bound — so the
/// assembler owes every planned issuance a signed transaction.
pub proof fn lemma_planned_ops_plan_shaped(
    p: &CreateTokenParams,
    payer: Address,
    mint: Address,
    metadata: Address,
    holder: Address,
    rent: u64,
)
    ensures
        plan_shaped(planned_ops(p, payer, mint, metadata, holder, rent), payer@, mint@),
{
    let ops = planned_ops(p, payer, mint, metadata, holder, rent);
    lemma_planned_shape(p, payer, mint, metadata, holder, rent);
    assert(creates_mint_account(ops[0], mint@));
    assert forall|i: int| 0 <= i < ops.len() implies op_signers_ok(
        #[trigger] ops[i],
        payer@,
        mint@,
    ) by {
        if has_extensions(p) {
            if p.initial_supply > 0 {
                assert(i == 0 || i == 1 || i == 2 || i == 3 || i == 4 || i == 5);
            } else {
                assert(i == 0 || i == 1 || i == 2 || i == 3);
            }
        } else {
            if p.initial_supply > 0 {
                assert(i == 0 || i == 1 || i == 2 || i == 3 || i == 4);
            } else {
                assert(i == 0 || i == 1 || i == 2);
            }
        }
    }
}

} // verus!
