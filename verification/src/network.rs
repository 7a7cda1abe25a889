use vstd::prelude::*;

verus! {

/// The target ledger network of one issuance attempt.
#[derive(Debug, Clone, Copy, PartialEq, Eq, Structural)]
pub enum NetworkType {
    Devnet,
    Mainnet,
}

/// The RPC endpoint bound to each network.
pub open spec fn rpc_url_text(n: NetworkType) -> Seq<char> {
    match n {
        NetworkType::Devnet => "https://api.devnet.solana.com"@,
        NetworkType::Mainnet => "https://api.mainnet-beta.solana.com"@,
    }
}

/// The explorer URL template bound to each network; `{}` stands for the
/// mint address.  The two templates differ only in the cluster query
/// parameter.
pub open spec fn explorer_template_text(n: NetworkType) -> Seq<char> {
    match n {
        NetworkType::Devnet => "https://explorer.solana.com/address/{}?cluster=devnet"@,
        NetworkType::Mainnet => "https://explorer.solana.com/address/{}"@,
    }
}

/// What precedes the mint address in a filled-in explorer URL.
pub open spec fn explorer_prefix(n: NetworkType) -> Seq<char> {
    "https://explorer.solana.com/address/"@
}

/// What follows the mint address in a filled-in explorer URL.
pub open spec fn explorer_suffix(n: NetworkType) -> Seq<char> {
    match n {
        NetworkType::Devnet => "?cluster=devnet"@,
        NetworkType::Mainnet => ""@,
    }
}

impl NetworkType {
    /// The RPC endpoint of this network.
    pub fn rpc_url(&self) -> (r: &'static str)
        ensures
            r@ == rpc_url_text(*self),
    {
        match self {
            NetworkType::Devnet => "https://api.devnet.solana.com",
            NetworkType::Mainnet => "https://api.mainnet-beta.solana.com",
        }
    }

    /// The explorer URL template of this network, with `{}` in place of the
    /// mint address.
    pub fn explorer_url(&self) -> (r: &'static str)
        ensures
            r@ == explorer_template_text(*self),
    {
        match self {
            NetworkType::Devnet => "https://explorer.solana.com/address/{}?cluster=devnet",
            NetworkType::Mainnet => "https://explorer.solana.com/address/{}",
        }
    }
}

/// Fill the network's explorer template in with a mint address.
pub fn explorer_url_for(network: NetworkType, mint: &str) -> (r: String)
    ensures
        r@ == explorer_prefix(network) + mint@ + explorer_suffix(network),
{
    let mut s = String::from_str("https://explorer.solana.com/address/");
    s.append(mint);
    match network {
        NetworkType::Devnet => s.append("?cluster=devnet"),
        NetworkType::Mainnet => s.append(""),
    }
    s
}

/// The template that `explorer_url` hands out is exactly the prefix, the
/// `{}` placeholder and the suffix that `explorer_url_for` substitutes
/// around the mint address.
pub proof fn lemma_explorer_template_structure(n: NetworkType)
    ensures
        explorer_template_text(n) == explorer_prefix(n) + "{}"@ + explorer_suffix(n),
{
    reveal_strlit("https://explorer.solana.com/address/{}?cluster=devnet");
    reveal_strlit("https://explorer.solana.com/address/{}");
    reveal_strlit("https://explorer.solana.com/address/");
    reveal_strlit("{}");
    reveal_strlit("?cluster=devnet");
    reveal_strlit("");
    match n {
        NetworkType::Devnet => {
            assert(explorer_template_text(n) =~= explorer_prefix(n) + "{}"@ + explorer_suffix(n));
        },
        NetworkType::Mainnet => {
            assert(explorer_template_text(n) =~= explorer_prefix(n) + "{}"@ + explorer_suffix(n));
        },
    }
}

} // verus!
