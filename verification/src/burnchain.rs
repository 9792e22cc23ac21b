//! Burnchain settings: the resolved section for the external proof-of-work
//! chain endpoint, its document form, the compiled-in defaults, the
//! supported operating modes, and the RPC base-URL formatter.

use vstd::prelude::*;
use vstd::string::StringExecFns;
use crate::numeric::dec_chars;
use crate::numeric::dec_string;
use crate::strutil::{opt_string_v, string_eq_lit};

verus! {

/// The wire-protocol magic identifier, two bytes.
#[derive(PartialEq, Eq, Structural, Clone, Copy, Debug)]
pub struct MagicBytes(pub u8, pub u8);

/// Default magic identifier (the ASCII pair `id`).
pub open spec fn spec_default_magic() -> MagicBytes {
    MagicBytes(105, 100)
}

/// Height of the first block this chain observes on its mainnet.
pub const FIRST_BLOCK_MAINNET: u64 = 373601;

/// The resolved burnchain section.
pub struct BurnchainConfig {
    pub chain: String,
    pub mode: String,
    pub commit_anchor_block_within: u64,
    pub burn_fee_cap: u64,
    pub peer_host: String,
    pub peer_port: u16,
    pub rpc_port: u16,
    pub rpc_ssl: bool,
    pub username: Option<String>,
    pub password: Option<String>,
    pub timeout: u32,
    pub spv_headers_path: String,
    pub first_block: u64,
    pub magic_bytes: MagicBytes,
    pub local_mining_public_key: Option<String>,
    pub burnchain_op_tx_fee: u64,
}

/// The mathematical value of the resolved burnchain section.
#[verifier::ext_equal]
pub struct BurnchainV {
    pub chain: Seq<char>,
    pub mode: Seq<char>,
    pub commit_anchor_block_within: u64,
    pub burn_fee_cap: u64,
    pub peer_host: Seq<char>,
    pub peer_port: u16,
    pub rpc_port: u16,
    pub rpc_ssl: bool,
    pub username: Option<Seq<char>>,
    pub password: Option<Seq<char>>,
    pub timeout: u32,
    pub spv_headers_path: Seq<char>,
    pub first_block: u64,
    pub magic_bytes: MagicBytes,
    pub local_mining_public_key: Option<Seq<char>>,
    pub burnchain_op_tx_fee: u64,
}

impl View for BurnchainConfig {
    type V = BurnchainV;

    open spec fn view(&self) -> BurnchainV {
        BurnchainV {
            chain: self.chain@,
            mode: self.mode@,
            commit_anchor_block_within: self.commit_anchor_block_within,
            burn_fee_cap: self.burn_fee_cap,
            peer_host: self.peer_host@,
            peer_port: self.peer_port,
            rpc_port: self.rpc_port,
            rpc_ssl: self.rpc_ssl,
            username: opt_string_v(self.username),
            password: opt_string_v(self.password),
            timeout: self.timeout,
            spv_headers_path: self.spv_headers_path@,
            first_block: self.first_block,
            magic_bytes: self.magic_bytes,
            local_mining_public_key: opt_string_v(self.local_mining_public_key),
            burnchain_op_tx_fee: self.burnchain_op_tx_fee,
        }
    }
}

/// The burnchain section as the document carries it: every field optional.
/// The block time and magic-bytes entries are carried but not consulted by
/// resolution, which keeps the compiled-in magic identifier.
pub struct BurnchainConfigFile {
    pub chain: Option<String>,
    pub burn_fee_cap: Option<u64>,
    pub mode: Option<String>,
    pub block_time: Option<u64>,
    pub commit_anchor_block_within: Option<u64>,
    pub peer_host: Option<String>,
    pub peer_port: Option<u16>,
    pub rpc_port: Option<u16>,
    pub rpc_ssl: Option<bool>,
    pub username: Option<String>,
    pub password: Option<String>,
    pub timeout: Option<u32>,
    pub spv_headers_path: Option<String>,
    pub first_block: Option<u64>,
    pub magic_bytes: Option<String>,
    pub local_mining_public_key: Option<String>,
    pub burnchain_op_tx_fee: Option<u64>,
}

/// The mathematical value of the document's burnchain section.
#[verifier::ext_equal]
pub struct BurnchainFileV {
    pub chain: Option<Seq<char>>,
    pub burn_fee_cap: Option<u64>,
    pub mode: Option<Seq<char>>,
    pub block_time: Option<u64>,
    pub commit_anchor_block_within: Option<u64>,
    pub peer_host: Option<Seq<char>>,
    pub peer_port: Option<u16>,
    pub rpc_port: Option<u16>,
    pub rpc_ssl: Option<bool>,
    pub username: Option<Seq<char>>,
    pub password: Option<Seq<char>>,
    pub timeout: Option<u32>,
    pub spv_headers_path: Option<Seq<char>>,
    pub first_block: Option<u64>,
    pub magic_bytes: Option<Seq<char>>,
    pub local_mining_public_key: Option<Seq<char>>,
    pub burnchain_op_tx_fee: Option<u64>,
}

impl View for BurnchainConfigFile {
    type V = BurnchainFileV;

    open spec fn view(&self) -> BurnchainFileV {
        BurnchainFileV {
            chain: opt_string_v(self.chain),
            burn_fee_cap: self.burn_fee_cap,
            mode: opt_string_v(self.mode),
            block_time: self.block_time,
            commit_anchor_block_within: self.commit_anchor_block_within,
            peer_host: opt_string_v(self.peer_host),
            peer_port: self.peer_port,
            rpc_port: self.rpc_port,
            rpc_ssl: self.rpc_ssl,
            username: opt_string_v(self.username),
            password: opt_string_v(self.password),
            timeout: self.timeout,
            spv_headers_path: opt_string_v(self.spv_headers_path),
            first_block: self.first_block,
            magic_bytes: opt_string_v(self.magic_bytes),
            local_mining_public_key: opt_string_v(self.local_mining_public_key),
            burnchain_op_tx_fee: self.burnchain_op_tx_fee,
        }
    }
}

/// The compiled-in burnchain defaults: a local mocknet endpoint against the
/// bitcoin chain.
pub open spec fn spec_default_burnchain() -> BurnchainV {
    BurnchainV {
        chain: "bitcoin"@,
        mode: "mocknet"@,
        commit_anchor_block_within: 5000,
        burn_fee_cap: 10000,
        peer_host: "127.0.0.1"@,
        peer_port: 8333,
        rpc_port: 8332,
        rpc_ssl: false,
        username: None,
        password: None,
        timeout: 30,
        spv_headers_path: "./spv-headers.dat"@,
        first_block: FIRST_BLOCK_MAINNET,
        magic_bytes: spec_default_magic(),
        local_mining_public_key: None,
        burnchain_op_tx_fee: 1000,
    }
}

/// Builds the burnchain defaults.
pub fn default_burnchain_config() -> (r: BurnchainConfig)
    ensures
        r@ == spec_default_burnchain(),
{
    let r = BurnchainConfig {
        chain: <String as StringExecFns>::from_str("bitcoin"),
        mode: <String as StringExecFns>::from_str("mocknet"),
        commit_anchor_block_within: 5000,
        burn_fee_cap: 10000,
        peer_host: <String as StringExecFns>::from_str("127.0.0.1"),
        peer_port: 8333,
        rpc_port: 8332,
        rpc_ssl: false,
        username: None,
        password: None,
        timeout: 30,
        spv_headers_path: <String as StringExecFns>::from_str("./spv-headers.dat"),
        first_block: FIRST_BLOCK_MAINNET,
        magic_bytes: MagicBytes(105, 100),
        local_mining_public_key: None,
        burnchain_op_tx_fee: 1000,
    };
    proof {
        assert(r@ =~= spec_default_burnchain());
    }
    r
}

/// The supported operating modes.
pub open spec fn is_supported_mode(m: Seq<char>) -> bool {
    m == "mocknet"@ || m == "helium"@ || m == "neon"@ || m == "neon-god"@
}

/// Decides whether a mode string is in the supported set.
pub fn mode_supported(m: &String) -> (r: bool)
    ensures
        r == is_supported_mode(m@),
{
    string_eq_lit(m, "mocknet") || string_eq_lit(m, "helium") || string_eq_lit(m, "neon")
        || string_eq_lit(m, "neon-god")
}

impl BurnchainConfig {
    /// The HTTP or HTTPS base URL of the burnchain RPC endpoint, per the
    /// TLS flag.
    pub fn get_rpc_url(&self) -> (r: String)
        ensures
            r@ == (if self.rpc_ssl {
                "https://"@
            } else {
                "http://"@
            }) + self.peer_host@ + ":"@ + dec_chars(self.rpc_port as nat),
    {
        let mut s = if self.rpc_ssl {
            <String as StringExecFns>::from_str("https://")
        } else {
            <String as StringExecFns>::from_str("http://")
        };
        s.append(self.peer_host.as_str());
        s.append(":");
        let p = dec_string(self.rpc_port);
        s.append(p.as_str());
        s
    }
}

} // verus!
