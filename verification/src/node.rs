//! Node identity: the resolved node section, its document form, the
//! entropy-derived default baseline (working directory and two
//! non-privileged ports computed from eight random bytes), and the
//! bootstrap-peer descriptor grammar `<hex-public-key>@<host>:<port>`.

use vstd::prelude::*;
use vstd::string::StringExecFns;
use crate::ConfigError;
use crate::numeric::{
    dec_chars, dec_string, hex_chars, hex_decode, hex_string, spec_hex_decode, spec_parse_port,
    parse_port,
};
use crate::strutil::{
    find_char, find_last_char, opt_string_v, spec_find, spec_find_last, sub_vec, to_char_vec,
};

verus! {

/// Protocol version stamped on bootstrap-peer records.
pub const PEER_VERSION: u32 = 0x15000000;

/// Network identifier stamped on bootstrap-peer records.
pub const NETWORK_ID_TESTNET: u32 = 0xff000000;

/// Block-height horizon used as the far-future expiry of a bootstrap peer.
pub const BOOTSTRAP_EXPIRE_BLOCK: u64 = 99999;

/// Addressing key of a peer: protocol stamp plus host and port.
pub struct NeighborKey {
    pub peer_version: u32,
    pub network_id: u32,
    pub host: Vec<char>,
    pub port: u16,
}

/// The mathematical value of a peer addressing key.
#[verifier::ext_equal]
pub struct NeighborKeyV {
    pub peer_version: u32,
    pub network_id: u32,
    pub host: Seq<char>,
    pub port: u16,
}

impl View for NeighborKey {
    type V = NeighborKeyV;

    open spec fn view(&self) -> NeighborKeyV {
        NeighborKeyV {
            peer_version: self.peer_version,
            network_id: self.network_id,
            host: self.host@,
            port: self.port,
        }
    }
}

/// A bootstrap peer descriptor: addressing key, public key bytes, and
/// zeroed contact, trust and degree bookkeeping with a far-future expiry.
pub struct Neighbor {
    pub addr: NeighborKey,
    pub public_key: Vec<u8>,
    pub expire_block: u64,
    pub last_contact_time: u64,
    pub whitelisted: i64,
    pub blacklisted: i64,
    pub asn: u32,
    pub org: u32,
    pub in_degree: u32,
    pub out_degree: u32,
}

/// The mathematical value of a bootstrap peer descriptor.
#[verifier::ext_equal]
pub struct NeighborV {
    pub addr: NeighborKeyV,
    pub public_key: Seq<u8>,
    pub expire_block: u64,
    pub last_contact_time: u64,
    pub whitelisted: i64,
    pub blacklisted: i64,
    pub asn: u32,
    pub org: u32,
    pub in_degree: u32,
    pub out_degree: u32,
}

impl View for Neighbor {
    type V = NeighborV;

    open spec fn view(&self) -> NeighborV {
        NeighborV {
            addr: self.addr@,
            public_key: self.public_key@,
            expire_block: self.expire_block,
            last_contact_time: self.last_contact_time,
            whitelisted: self.whitelisted,
            blacklisted: self.blacklisted,
            asn: self.asn,
            org: self.org,
            in_degree: self.in_degree,
            out_degree: self.out_degree,
        }
    }
}

/// The resolved node-identity section.
pub struct NodeConfig {
    pub name: String,
    pub seed: Vec<u8>,
    pub working_dir: String,
    pub rpc_bind: String,
    pub p2p_bind: String,
    pub bootstrap_node: Option<Neighbor>,
}

/// The mathematical value of the resolved node section.
#[verifier::ext_equal]
pub struct NodeV {
    pub name: Seq<char>,
    pub seed: Seq<u8>,
    pub working_dir: Seq<char>,
    pub rpc_bind: Seq<char>,
    pub p2p_bind: Seq<char>,
    pub bootstrap_node: Option<NeighborV>,
}

impl View for NodeConfig {
    type V = NodeV;

    open spec fn view(&self) -> NodeV {
        NodeV {
            name: self.name@,
            seed: self.seed@,
            working_dir: self.working_dir@,
            rpc_bind: self.rpc_bind@,
            p2p_bind: self.p2p_bind@,
            bootstrap_node: match self.bootstrap_node {
                Some(n) => Some(n@),
                None => None,
            },
        }
    }
}

/// The node section as the document carries it: every field optional.
pub struct NodeConfigFile {
    pub name: Option<String>,
    pub seed: Option<String>,
    pub working_dir: Option<String>,
    pub rpc_bind: Option<String>,
    pub p2p_bind: Option<String>,
    pub bootstrap_node: Option<String>,
}

/// The mathematical value of the document's node section.
#[verifier::ext_equal]
pub struct NodeFileV {
    pub name: Option<Seq<char>>,
    pub seed: Option<Seq<char>>,
    pub working_dir: Option<Seq<char>>,
    pub rpc_bind: Option<Seq<char>>,
    pub p2p_bind: Option<Seq<char>>,
    pub bootstrap_node: Option<Seq<char>>,
}

impl View for NodeConfigFile {
    type V = NodeFileV;

    open spec fn view(&self) -> NodeFileV {
        NodeFileV {
            name: opt_string_v(self.name),
            seed: opt_string_v(self.seed),
            working_dir: opt_string_v(self.working_dir),
            rpc_bind: opt_string_v(self.rpc_bind),
            p2p_bind: opt_string_v(self.p2p_bind),
            bootstrap_node: opt_string_v(self.bootstrap_node),
        }
    }
}

/// The identity baseline derived from eight entropy bytes: a fixed name, a
/// fixed all-zero seed (default runs stay reproducible), a working
/// directory suffixed with the hex of the bytes, and two loopback bind
/// addresses on ports derived from the first two byte pairs.
pub open spec fn spec_derived_node(b: Seq<u8>) -> NodeV {
    NodeV {
        name: "helium-node"@,
        seed: Seq::new(32, |i: int| 0u8),
        working_dir: "/tmp/stacks-testnet-"@ + hex_chars(b),
        rpc_bind: "127.0.0.1:"@ + dec_chars(crate::spec_derive_port(b[0], b[1]) as nat),
        p2p_bind: "127.0.0.1:"@ + dec_chars(crate::spec_derive_port(b[2], b[3]) as nat),
        bootstrap_node: None,
    }
}

/// Builds the identity baseline from the given entropy bytes.
pub fn derived_node_config(buf: &Vec<u8>) -> (r: NodeConfig)
    requires
        buf@.len() == 8,
    ensures
        r@ == spec_derived_node(buf@),
{
    let mut working_dir = <String as StringExecFns>::from_str("/tmp/stacks-testnet-");
    let hex = hex_string(buf);
    working_dir.append(hex.as_str());
    let rpc_port = crate::derive_port(buf[0], buf[1]);
    let p2p_port = crate::derive_port(buf[2], buf[3]);
    let mut rpc_bind = <String as StringExecFns>::from_str("127.0.0.1:");
    let rp = dec_string(rpc_port);
    rpc_bind.append(rp.as_str());
    let mut p2p_bind = <String as StringExecFns>::from_str("127.0.0.1:");
    let pp = dec_string(p2p_port);
    p2p_bind.append(pp.as_str());
    let mut seed: Vec<u8> = Vec::new();
    let mut i: usize = 0;
    while i < 32
        invariant
            0 <= i <= 32,
            seed@ =~= Seq::new(i as nat, |k: int| 0u8),
        decreases 32 - i,
    {
        seed.push(0u8);
        i = i + 1;
    }
    let r = NodeConfig {
        name: <String as StringExecFns>::from_str("helium-node"),
        seed,
        working_dir,
        rpc_bind,
        p2p_bind,
        bootstrap_node: None,
    };
    proof {
        assert(r@ =~= spec_derived_node(buf@));
    }
    r
}

/// Relies on `rand::random`: eight bytes drawn from the process-wide random
/// source. Nothing is promised of their values.
#[verifier::external_body]
fn random_seed_bytes() -> (r: Vec<u8>)
    ensures
        r@.len() == 8,
{
    rand::random::<[u8; 8]>().to_vec()
}

/// Draws fresh entropy and derives the default identity baseline from it.
pub fn derived_default_node() -> (r: NodeConfig)
    ensures
        exists|b: Seq<u8>| b.len() == 8 && r@ == spec_derived_node(b),
{
    let buf = random_seed_bytes();
    let r = derived_node_config(&buf);
    proof {
        let bb = buf@;
        assert(bb.len() == 8 && r@ == spec_derived_node(bb));
    }
    r
}

/// Bootstrap-peer descriptor text: a hex public key of 33 or 65 bytes, one
/// `@`, then a non-empty host and a decimal port joined by the final colon.
/// The parsed peer carries the fixed protocol stamps, zeroed bookkeeping
/// and the far-future expiry.
pub open spec fn spec_parse_bootstrap(s: Seq<char>) -> Option<NeighborV> {
    match spec_find(s, '@') {
        None => None,
        Some(a) => {
            let key_part = s.subrange(0, a);
            let addr_part = s.subrange(a + 1, s.len() as int);
            if spec_find(addr_part, '@') is Some {
                None
            } else {
                match spec_hex_decode(key_part) {
                    None => None,
                    Some(k) => {
                        if k.len() == 33 || k.len() == 65 {
                            match spec_find_last(addr_part, ':') {
                                None => None,
                                Some(ci) => {
                                    let host = addr_part.subrange(0, ci);
                                    let ptxt = addr_part.subrange(ci + 1, addr_part.len() as int);
                                    match spec_parse_port(ptxt) {
                                        None => None,
                                        Some(port) => {
                                            if host.len() > 0 {
                                                Some(
                                                    NeighborV {
                                                        addr: NeighborKeyV {
                                                            peer_version: PEER_VERSION,
                                                            network_id: NETWORK_ID_TESTNET,
                                                            host,
                                                            port,
                                                        },
                                                        public_key: k,
                                                        expire_block: BOOTSTRAP_EXPIRE_BLOCK,
                                                        last_contact_time: 0,
                                                        whitelisted: 0,
                                                        blacklisted: 0,
                                                        asn: 0,
                                                        org: 0,
                                                        in_degree: 0,
                                                        out_degree: 0,
                                                    },
                                                )
                                            } else {
                                                None
                                            }
                                        },
                                    }
                                },
                            }
                        } else {
                            None
                        }
                    },
                }
            }
        },
    }
}

impl NodeConfig {
    /// The burnchain root under this node's working directory.
    pub fn get_burnchain_path(&self) -> (r: String)
        ensures
            r@ == self.working_dir@ + "/burnchain"@,
    {
        let mut s = self.working_dir.clone();
        s.append("/burnchain");
        s
    }

    /// The default SPV-headers file path under the burnchain root.
    pub fn get_default_spv_headers_path(&self) -> (r: String)
        ensures
            r@ == self.working_dir@ + "/burnchain"@ + "/spv-headers.dat"@,
    {
        let mut s = self.get_burnchain_path();
        s.append("/spv-headers.dat");
        s
    }

    /// Parses an optional bootstrap descriptor into this node section. An
    /// absent descriptor changes nothing; a malformed one is an error and
    /// changes nothing.
    pub fn set_bootstrap_node(&mut self, bootstrap_node: Option<String>) -> (r: Result<
        (),
        ConfigError,
    >)
        ensures
            match bootstrap_node {
                None => final(self)@ == old(self)@ && r is Ok,
                Some(s) => match spec_parse_bootstrap(s@) {
                    Some(nb) => r is Ok && final(self)@ == (NodeV {
                        bootstrap_node: Some(nb),
                        ..old(self)@
                    }),
                    None => r == Err::<(), ConfigError>(ConfigError::InvalidBootstrapNode)
                        && final(self)@ == old(self)@,
                },
            },
    {
        match bootstrap_node {
            None => Ok(()),
            Some(s) => {
                let v = to_char_vec(s.as_str());
                let n = v.len();
                match find_char(&v, '@') {
                    None => Err(ConfigError::InvalidBootstrapNode),
                    Some(a) => {
                        let key_part = sub_vec(&v, 0, a);
                        let addr_part = sub_vec(&v, a + 1, n);
                        match find_char(&addr_part, '@') {
                            Some(_) => Err(ConfigError::InvalidBootstrapNode),
                            None => {
                                match hex_decode(&key_part) {
                                    None => Err(ConfigError::InvalidBootstrapNode),
                                    Some(k) => {
                                        if !(k.len() == 33 || k.len() == 65) {
                                            return Err(ConfigError::InvalidBootstrapNode);
                                        }
                                        let m = addr_part.len();
                                        match find_last_char(&addr_part, ':') {
                                            None => Err(ConfigError::InvalidBootstrapNode),
                                            Some(ci) => {
                                                let host = sub_vec(&addr_part, 0, ci);
                                                let ptxt = sub_vec(&addr_part, ci + 1, m);
                                                match parse_port(&ptxt) {
                                                    None => Err(
                                                        ConfigError::InvalidBootstrapNode,
                                                    ),
                                                    Some(port) => {
                                                        if host.len() == 0 {
                                                            return Err(
                                                                ConfigError::InvalidBootstrapNode,
                                                            );
                                                        }
                                                        self.bootstrap_node = Some(
                                                            Neighbor {
                                                                addr: NeighborKey {
                                                                    peer_version: PEER_VERSION,
                                                                    network_id: NETWORK_ID_TESTNET,
                                                                    host,
                                                                    port,
                                                                },
                                                                public_key: k,
                                                                expire_block:
                                                                    BOOTSTRAP_EXPIRE_BLOCK,
                                                                last_contact_time: 0,
                                                                whitelisted: 0,
                                                                blacklisted: 0,
                                                                asn: 0,
                                                                org: 0,
                                                                in_degree: 0,
                                                                out_degree: 0,
                                                            },
                                                        );
                                                        Ok(())
                                                    },
                                                }
                                            },
                                        }
                                    },
                                }
                            },
                        }
                    },
                }
            },
        }
    }
}

} // verus!
