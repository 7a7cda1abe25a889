//! The caller's issuance request and its local validation.

use vstd::prelude::*;

use crate::error::TokenError;
use crate::network::NetworkType;

verus! {

/// The highest decimal precision the ledger's token program accepts here.
pub const MAX_DECIMALS: u8 = 9;

/// One validated issuance request: what the new asset is called, how it is
/// configured, and which network it goes to.  `initial_supply` is counted in
/// base units and may be zero, in which case no holder account is created.
/// The three optional fields are advisory mint extensions; a present value
/// of zero still counts as configured.
pub struct CreateTokenParams {
    pub name: String,
    pub symbol: String,
    pub description: String,
    pub metadata_uri: String,
    pub decimals: u8,
    pub initial_supply: u64,
    pub is_mutable: bool,
    pub freeze_authority: bool,
    pub rate_limit: Option<u64>,
    pub transfer_fee: Option<u16>,
    pub max_transfer_amount: Option<u64>,
    pub network: NetworkType,
}

/// Whether any of the advisory mint extensions is configured.
pub open spec fn has_extensions(p: &CreateTokenParams) -> bool {
    p.rate_limit is Some || p.transfer_fee is Some || p.max_transfer_amount is Some
}

/// Whether a request passes local validation.
pub open spec fn valid_request(p: &CreateTokenParams) -> bool {
    p.decimals <= MAX_DECIMALS
}

/// Check a request locally, before anything is derived or sent.  This is
/// the only gate in front of the sequencer: a request it accepts reaches
/// instruction building, and one it refuses never touches the network.
pub fn validate(params: &CreateTokenParams) -> (r: Result<(), TokenError>)
    ensures
        r is Ok <==> valid_request(params),
        r matches Err(e) ==> (e matches TokenError::Validation { reason } && reason@
            == "decimals must be at most 9"@),
{
    if params.decimals <= MAX_DECIMALS {
        Ok(())
    } else {
        Err(TokenError::Validation { reason: String::from_str("decimals must be at most 9") })
    }
}

/// The trimmed request body that the remote route layer accepts: only the
/// metadata document URI varies there; every other field is fixed.
pub struct CreateTokenRequest {
    pub metadata_uri: String,
}

/// Expand a route-layer request into a full issuance request, with the
/// fixed values the route layer prescribes.
pub fn params_from_request(req: CreateTokenRequest) -> (r: CreateTokenParams)
    ensures
        r.name@ == "TokenName"@,
        r.symbol@ == "SYMBOL"@,
        r.description@ == "Description"@,
        r.metadata_uri == req.metadata_uri,
        r.decimals == 9,
        r.initial_supply == 1000,
        r.is_mutable,
        !r.freeze_authority,
        r.rate_limit is None,
        r.transfer_fee is None,
        r.max_transfer_amount is None,
        r.network == NetworkType::Devnet,
{
    CreateTokenParams {
        name: String::from_str("TokenName"),
        symbol: String::from_str("SYMBOL"),
        description: String::from_str("Description"),
        metadata_uri: req.metadata_uri,
        decimals: 9,
        initial_supply: 1000,
        is_mutable: true,
        freeze_authority: false,
        rate_limit: None,
        transfer_fee: None,
        max_transfer_amount: None,
        network: NetworkType::Devnet,
    }
}

/// Ten to the `n`th power.
pub open spec fn pow10(n: nat) -> nat
    decreases n,
{
    if n == 0 {
        1
    } else {
        10 * pow10((n - 1) as nat)
    }
}

proof fn lemma_pow10_mono(m: nat, n: nat)
    requires
        m <= n,
    ensures
        pow10(m) <= pow10(n),
    decreases n,
{
    if m < n {
        lemma_pow10_mono(m, (n - 1) as nat);
    }
}

proof fn lemma_pow10_bound(n: nat)
    requires
        n <= 9,
    ensures
        pow10(n) <= 1_000_000_000,
{
    lemma_pow10_mono(n, 9);
    assert(pow10(0) == 1);
    assert(pow10(1) == 10);
    assert(pow10(2) == 100);
    assert(pow10(3) == 1000);
    assert(pow10(4) == 10_000);
    assert(pow10(5) == 100_000);
    assert(pow10(6) == 1_000_000);
    assert(pow10(7) == 10_000_000);
    assert(pow10(8) == 100_000_000);
    assert(pow10(9) == 1_000_000_000);
}

/// Scale a whole-token amount into base units at the given decimal
/// precision, saturating at the largest representable amount, as the
/// ledger's arithmetic does.
pub fn scale_to_base_units(amount: u64, decimals: u8) -> (r: u64)
    requires
        decimals <= MAX_DECIMALS,
    ensures
        amount * pow10(decimals as nat) <= u64::MAX ==> r == amount * pow10(decimals as nat),
        amount * pow10(decimals as nat) > u64::MAX ==> r == u64::MAX,
{
    let mut multiplier: u64 = 1;
    let mut i: u8 = 0;
    while i < decimals
        invariant
            i <= decimals <= MAX_DECIMALS,
            multiplier == pow10(i as nat),
        decreases decimals - i,
    {
        proof {
            lemma_pow10_bound((i + 1) as nat);
        }
        multiplier = multiplier * 10;
        i = i + 1;
    }
    match amount.checked_mul(multiplier) {
        Some(scaled) => scaled,
        None => u64::MAX,
    }
}

} // verus!
