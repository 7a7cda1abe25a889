use solana_sdk::signer::Signer;
use token_issuer::instructions::{build_instructions, is_plan_shaped, IssuanceInstruction, OpKind};
use token_issuer::ledger::{
    address_eq, address_to_string, derive_holder_address, derive_metadata_address, generate_signer,
    signer_from_bytes, Address, SignerIdentity, TOKEN_PROGRAM_ID,
};
use token_issuer::network::NetworkType;
use token_issuer::params::{params_from_request, scale_to_base_units, validate, CreateTokenParams};
use token_issuer::params::CreateTokenRequest;
use token_issuer::pipeline::{assemble_transaction, plan_issuance};
use token_issuer::report::report_result;
use token_issuer::submit::SubmissionOutcome;

fn params(decimals: u8, supply: u64) -> CreateTokenParams {
    CreateTokenParams {
        name: "Test".to_string(),
        symbol: "TST".to_string(),
        description: "a test asset".to_string(),
        metadata_uri: "https://example.com/meta.json".to_string(),
        decimals,
        initial_supply: supply,
        is_mutable: true,
        freeze_authority: false,
        rate_limit: None,
        transfer_fee: None,
        max_transfer_amount: None,
        network: NetworkType::Devnet,
    }
}

fn addr(b: u8) -> Address {
    Address { bytes: [b; 32] }
}

fn kinds(ops: &[IssuanceInstruction]) -> Vec<OpKind> {
    ops.iter().map(|op| op.kind()).collect()
}

fn rank(k: &OpKind) -> usize {
    match k {
        OpKind::CreateAccount => 0,
        OpKind::ConfigureExtensions => 1,
        OpKind::InitializeMint => 2,
        OpKind::CreateHolderAccount => 3,
        OpKind::MintTo => 4,
        OpKind::CreateMetadata => 5,
    }
}

#[test]
fn sequencing_succeeds_in_order_for_every_decimal() {
    for decimals in 0u8..=9 {
        let ops = build_instructions(params(decimals, 42), addr(1), addr(2), addr(3), addr(4), 7)
            .expect("in-range decimals must sequence");
        let ks = kinds(&ops);
        for window in ks.windows(2) {
            assert!(rank(&window[0]) < rank(&window[1]));
        }
        assert_eq!(
            ks,
            vec![
                OpKind::CreateAccount,
                OpKind::InitializeMint,
                OpKind::CreateHolderAccount,
                OpKind::MintTo,
                OpKind::CreateMetadata,
            ]
        );
    }
}

#[test]
fn out_of_range_decimals_fail_validation_locally() {
    for decimals in [10u8, 11, 100, 255] {
        assert!(validate(&params(decimals, 0)).is_err());
        let r = build_instructions(params(decimals, 0), addr(1), addr(2), addr(3), addr(4), 7);
        match r {
            Err(token_issuer::error::TokenError::Validation { reason }) => {
                assert_eq!(reason, "decimals must be at most 9");
            }
            other => panic!("expected a validation error, got {:?}", other.map(|_| ())),
        }
    }
}

#[test]
fn derivation_is_deterministic() {
    let mint = addr(7);
    let first = derive_metadata_address(&mint);
    let second = derive_metadata_address(&mint);
    assert_eq!(first, second);
    assert_ne!(first.0, mint);

    let owner = addr(9);
    let h1 = derive_holder_address(&owner, &mint);
    let h2 = derive_holder_address(&owner, &mint);
    assert_eq!(h1, h2);
    assert_ne!(h1, mint);
    assert_ne!(h1, owner);
}

#[test]
fn zero_supply_omits_holder_and_mint_ops() {
    let ops = build_instructions(params(9, 0), addr(1), addr(2), addr(3), addr(4), 7).unwrap();
    assert_eq!(ops.len(), 3);
    assert_eq!(
        kinds(&ops),
        vec![OpKind::CreateAccount, OpKind::InitializeMint, OpKind::CreateMetadata]
    );
}

#[test]
fn positive_supply_adds_exactly_one_holder_and_one_mint_op() {
    let ops = build_instructions(params(9, 1), addr(1), addr(2), addr(3), addr(4), 7).unwrap();
    let ks = kinds(&ops);
    assert_eq!(ks.iter().filter(|k| **k == OpKind::CreateHolderAccount).count(), 1);
    assert_eq!(ks.iter().filter(|k| **k == OpKind::MintTo).count(), 1);
    match &ops[3] {
        IssuanceInstruction::MintTo { amount, .. } => assert_eq!(*amount, 1),
        other => panic!("expected the initial mint, got {:?}", other.kind()),
    }
}

#[test]
fn any_extension_yields_one_op_between_create_and_initialize() {
    let cases: Vec<CreateTokenParams> = vec![
        CreateTokenParams { rate_limit: Some(0), ..params(9, 5) },
        CreateTokenParams { transfer_fee: Some(0), ..params(9, 5) },
        CreateTokenParams { max_transfer_amount: Some(10), ..params(9, 0) },
        CreateTokenParams { rate_limit: Some(1), transfer_fee: Some(25), ..params(9, 5) },
    ];
    for p in cases {
        let ops = build_instructions(p, addr(1), addr(2), addr(3), addr(4), 7).unwrap();
        let ks = kinds(&ops);
        assert_eq!(ks.iter().filter(|k| **k == OpKind::ConfigureExtensions).count(), 1);
        let create = ks.iter().position(|k| *k == OpKind::CreateAccount).unwrap();
        let ext = ks.iter().position(|k| *k == OpKind::ConfigureExtensions).unwrap();
        let init = ks.iter().position(|k| *k == OpKind::InitializeMint).unwrap();
        assert!(create < ext && ext < init);
    }
}

#[test]
fn no_extension_means_no_extension_op() {
    let ops = build_instructions(params(9, 5), addr(1), addr(2), addr(3), addr(4), 7).unwrap();
    assert!(kinds(&ops).iter().all(|k| *k != OpKind::ConfigureExtensions));
}

#[test]
fn extension_op_resolves_the_ledger_scalars() {
    let p = CreateTokenParams {
        transfer_fee: Some(25),
        rate_limit: Some(1000),
        max_transfer_amount: Some(5000),
        ..params(9, 0)
    };
    let ops = build_instructions(p, addr(1), addr(2), addr(3), addr(4), 7).unwrap();
    match &ops[1] {
        IssuanceInstruction::ConfigureExtensions {
            fee_basis_points,
            maximum_fee,
            rate_limit,
            max_transfer_amount,
            ..
        } => {
            assert_eq!(*fee_basis_points, 25);
            assert_eq!(*maximum_fee, u64::MAX);
            assert_eq!(*rate_limit, Some(1000));
            assert_eq!(*max_transfer_amount, Some(5000));
        }
        other => panic!("expected the extension configuration, got {:?}", other.kind()),
    }
    let p = CreateTokenParams { rate_limit: Some(0), ..params(9, 0) };
    let ops = build_instructions(p, addr(1), addr(2), addr(3), addr(4), 7).unwrap();
    match &ops[1] {
        IssuanceInstruction::ConfigureExtensions { fee_basis_points, .. } => {
            assert_eq!(*fee_basis_points, 0);
        }
        other => panic!("expected the extension configuration, got {:?}", other.kind()),
    }
}

#[test]
fn create_account_op_carries_rent_size_and_owner_program() {
    let ops = build_instructions(params(9, 0), addr(1), addr(2), addr(3), addr(4), 12345).unwrap();
    match &ops[0] {
        IssuanceInstruction::CreateAccount { payer, new_account, lamports, space, owner } => {
            assert_eq!(*payer, addr(1));
            assert_eq!(*new_account, addr(2));
            assert_eq!(*lamports, 12345);
            assert_eq!(*space, 82);
            assert_eq!(owner.bytes, TOKEN_PROGRAM_ID);
        }
        other => panic!("expected account creation first, got {:?}", other.kind()),
    }
}

#[test]
fn token_program_constant_matches_the_token_crate() {
    assert_eq!(TOKEN_PROGRAM_ID, spl_token_2022::id().to_bytes());
}

#[test]
fn freeze_authority_flag_controls_freeze_authority() {
    let with = CreateTokenParams { freeze_authority: true, ..params(9, 0) };
    let ops = build_instructions(with, addr(1), addr(2), addr(3), addr(4), 7).unwrap();
    match &ops[1] {
        IssuanceInstruction::InitializeMint { decimals, mint_authority, freeze_authority, .. } => {
            assert_eq!(*decimals, 9);
            assert_eq!(*mint_authority, addr(1));
            assert_eq!(*freeze_authority, Some(addr(1)));
        }
        other => panic!("expected mint initialization, got {:?}", other.kind()),
    }
    let without = params(9, 0);
    let ops = build_instructions(without, addr(1), addr(2), addr(3), addr(4), 7).unwrap();
    match &ops[1] {
        IssuanceInstruction::InitializeMint { freeze_authority, .. } => {
            assert_eq!(*freeze_authority, None);
        }
        other => panic!("expected mint initialization, got {:?}", other.kind()),
    }
}

#[test]
fn end_to_end_devnet_issuance_reports_created() {
    let payer = generate_signer();
    let plan = plan_issuance(params(9, 1_000_000_000), payer.address, 2_039_280).unwrap();
    assert_eq!(plan.ops.len(), 5);
    assert_eq!(
        kinds(&plan.ops),
        vec![
            OpKind::CreateAccount,
            OpKind::InitializeMint,
            OpKind::CreateHolderAccount,
            OpKind::MintTo,
            OpKind::CreateMetadata,
        ]
    );
    assert!(is_plan_shaped(&plan.ops, &payer.address, &plan.mint.address));

    let wire = assemble_transaction(&plan.ops, &payer, &plan.mint, &[7u8; 32])
        .expect("a planned issuance must assemble");

    // The wire bytes deserialize to the transaction the contracts describe:
    // five instructions under the expected programs, the payer as fee
    // payer, and exactly two valid signatures (payer and mint).
    let tx: solana_sdk::transaction::Transaction = bincode::deserialize(&wire).unwrap();
    let message = &tx.message;
    assert_eq!(message.instructions.len(), 5);
    let program_of =
        |i: usize| message.account_keys[message.instructions[i].program_id_index as usize];
    assert_eq!(program_of(0), solana_program::system_program::id());
    assert_eq!(program_of(1), spl_token_2022::id());
    assert_eq!(program_of(3), spl_token_2022::id());
    assert_eq!(program_of(4), mpl_token_metadata::ID);
    let key = |a: &Address| solana_sdk::pubkey::Pubkey::new_from_array(a.bytes);
    assert_eq!(message.account_keys[0], key(&payer.address));
    assert!(message.account_keys.contains(&key(&plan.mint.address)));
    assert!(message.account_keys.contains(&key(&plan.metadata_address)));
    assert!(message.account_keys.contains(&key(&plan.holder_address)));
    assert_eq!(message.header.num_required_signatures, 2);
    assert_eq!(tx.signatures.len(), 2);
    assert!(tx.is_signed());
    assert!(tx.verify().is_ok());

    let result = report_result(
        SubmissionOutcome::Confirmed { signature: "5igna7ure".to_string() },
        &plan.mint.address,
        NetworkType::Devnet,
    );
    let mint_str = address_to_string(&plan.mint.address);
    assert_eq!(result.status, "Created");
    assert_eq!(result.mint, mint_str);
    assert!(result.explorer_url.contains(&mint_str));
    assert!(result.explorer_url.contains("cluster=devnet"));
    assert_eq!(result.signature, "5igna7ure");
}

#[test]
fn zero_supply_issuance_builds_three_instructions() {
    let payer = generate_signer();
    let plan = plan_issuance(params(9, 0), payer.address, 2_039_280).unwrap();
    assert_eq!(plan.ops.len(), 3);
    assert_eq!(
        kinds(&plan.ops),
        vec![OpKind::CreateAccount, OpKind::InitializeMint, OpKind::CreateMetadata]
    );
    let wire = assemble_transaction(&plan.ops, &payer, &plan.mint, &[9u8; 32]).unwrap();
    let tx: solana_sdk::transaction::Transaction = bincode::deserialize(&wire).unwrap();
    assert_eq!(tx.message.instructions.len(), 3);
}

#[test]
fn assembly_is_deterministic_in_its_inputs() {
    let payer = generate_signer();
    let plan = plan_issuance(params(9, 5), payer.address, 99).unwrap();
    let first = assemble_transaction(&plan.ops, &payer, &plan.mint, &[3u8; 32]).unwrap();
    let second = assemble_transaction(&plan.ops, &payer, &plan.mint, &[3u8; 32]).unwrap();
    assert_eq!(first, second);
    let other_token = assemble_transaction(&plan.ops, &payer, &plan.mint, &[4u8; 32]).unwrap();
    assert_ne!(first, other_token);
}

#[test]
fn assembly_refuses_a_key_that_does_not_match_its_address() {
    let payer = generate_signer();
    let plan = plan_issuance(params(9, 0), payer.address, 7).unwrap();
    let impostor = SignerIdentity { key_bytes: [0u8; 64], address: payer.address };
    match assemble_transaction(&plan.ops, &impostor, &plan.mint, &[1u8; 32]) {
        Err(token_issuer::error::TokenError::Validation { reason }) => {
            assert_eq!(reason, "signing key does not match its address");
        }
        other => panic!("expected a validation error, got {:?}", other.map(|_| ())),
    }
}

#[test]
fn assembly_refuses_operations_that_are_no_issuance_plan() {
    let payer = generate_signer();
    let plan = plan_issuance(params(9, 0), payer.address, 7).unwrap();

    // A mint identity the plan does not create an account for.
    let stranger = generate_signer();
    assert!(!is_plan_shaped(&plan.ops, &payer.address, &stranger.address));
    match assemble_transaction(&plan.ops, &payer, &stranger, &[1u8; 32]) {
        Err(token_issuer::error::TokenError::Validation { reason }) => {
            assert_eq!(reason, "operations do not form an issuance plan");
        }
        other => panic!("expected a validation error, got {:?}", other.map(|_| ())),
    }

    // An operation list over the assembler's length bound.
    let mint = generate_signer();
    let oversized: Vec<IssuanceInstruction> = (0..31)
        .map(|_| IssuanceInstruction::CreateAccount {
            payer: payer.address,
            new_account: mint.address,
            lamports: 1,
            space: 82,
            owner: Address { bytes: TOKEN_PROGRAM_ID },
        })
        .collect();
    assert!(!is_plan_shaped(&oversized, &payer.address, &mint.address));
    assert!(assemble_transaction(&oversized, &payer, &mint, &[1u8; 32]).is_err());
}

#[test]
fn signer_identity_round_trips_through_its_bytes() {
    let keypair = solana_sdk::signature::Keypair::new();
    let signer = signer_from_bytes(&keypair.to_bytes()).expect("a fresh key pair is well-formed");
    assert_eq!(signer.key_bytes, keypair.to_bytes());
    assert_eq!(signer.address.bytes, keypair.pubkey().to_bytes());

    let generated = generate_signer();
    let again = signer_from_bytes(&generated.key_bytes).unwrap();
    assert!(address_eq(&again.address, &generated.address));
    assert_ne!(generated.address, signer.address);
}

#[test]
fn planned_addresses_match_direct_derivation() {
    let payer = addr(1);
    let plan = plan_issuance(params(9, 0), payer, 7).unwrap();
    let (metadata, _bump) = derive_metadata_address(&plan.mint.address);
    assert_eq!(plan.metadata_address, metadata);
    assert_eq!(plan.holder_address, derive_holder_address(&payer, &plan.mint.address));
}

#[test]
fn fresh_mint_identity_per_attempt() {
    let a = generate_signer();
    let b = generate_signer();
    assert_ne!(a.address, b.address);
    let p1 = plan_issuance(params(9, 0), addr(1), 7).unwrap();
    let p2 = plan_issuance(params(9, 0), addr(1), 7).unwrap();
    assert_ne!(p1.mint.address, p2.mint.address);
}

#[test]
fn base58_rendering_matches_the_ledger_alphabet() {
    let zeros = Address { bytes: [0u8; 32] };
    assert_eq!(address_to_string(&zeros), "1".repeat(32));
    let mint = generate_signer();
    assert_eq!(
        address_to_string(&mint.address),
        solana_sdk::pubkey::Pubkey::new_from_array(mint.address.bytes).to_string()
    );
}

#[test]
fn network_urls_are_fixed() {
    assert_eq!(NetworkType::Devnet.rpc_url(), "https://api.devnet.solana.com");
    assert_eq!(NetworkType::Mainnet.rpc_url(), "https://api.mainnet-beta.solana.com");
    assert_eq!(
        NetworkType::Devnet.explorer_url(),
        "https://explorer.solana.com/address/{}?cluster=devnet"
    );
    assert_eq!(NetworkType::Mainnet.explorer_url(), "https://explorer.solana.com/address/{}");
}

#[test]
fn explorer_url_substitutes_the_template_placeholder() {
    assert_eq!(
        token_issuer::network::explorer_url_for(NetworkType::Devnet, "MintAddr"),
        NetworkType::Devnet.explorer_url().replace("{}", "MintAddr")
    );
    assert_eq!(
        token_issuer::network::explorer_url_for(NetworkType::Mainnet, "MintAddr"),
        "https://explorer.solana.com/address/MintAddr"
    );
}

#[test]
fn route_request_expands_to_fixed_params() {
    let p = params_from_request(CreateTokenRequest {
        metadata_uri: "https://example.com/m.json".to_string(),
    });
    assert_eq!(p.name, "TokenName");
    assert_eq!(p.symbol, "SYMBOL");
    assert_eq!(p.description, "Description");
    assert_eq!(p.metadata_uri, "https://example.com/m.json");
    assert_eq!(p.decimals, 9);
    assert_eq!(p.initial_supply, 1000);
    assert!(p.is_mutable);
    assert!(!p.freeze_authority);
    assert_eq!(p.network, NetworkType::Devnet);
}

#[test]
fn supply_scaling_is_exact_and_saturating() {
    assert_eq!(scale_to_base_units(3, 2), 300);
    assert_eq!(scale_to_base_units(1, 0), 1);
    assert_eq!(scale_to_base_units(0, 9), 0);
    assert_eq!(scale_to_base_units(5, 9), 5_000_000_000);
    assert_eq!(scale_to_base_units(u64::MAX, 1), u64::MAX);
    assert_eq!(scale_to_base_units(18_446_744_074, 9), u64::MAX);
}
