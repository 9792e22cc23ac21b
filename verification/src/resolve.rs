//! The configuration resolver: consumes the parsed partial document plus
//! one environment-sourced observer override, merges against the compiled
//! defaults, derives dependent values, validates cross-field constraints,
//! and produces the one immutable resolved configuration — or fails fast.
//! The whole resolution is specified by `resolve_spec`, a function of the
//! document, the entropy-derived identity baseline and the override.

use vstd::prelude::*;
use vstd::string::StringExecFns;
use crate::ConfigError;
use crate::burnchain::{
    BurnchainConfig, BurnchainConfigFile, BurnchainFileV, BurnchainV, default_burnchain_config,
    is_supported_mode, mode_supported, spec_default_burnchain,
};
use crate::connection::{
    ConnectionOptions, ConnectionOptionsFile, default_connection_options,
    merge_connection_options, spec_default_connection_options, spec_merge_connection_options,
};
use crate::events::{
    EventKeyType, EventKeyV, EventObserverConfig, EventObserverConfigFile, ObserverFileV,
    ObserverV, spec_parse_event_key,
};
use crate::node::{
    NodeConfig, NodeConfigFile, NodeFileV, NodeV, derived_default_node, spec_derived_node,
    spec_parse_bootstrap,
};
use crate::numeric::spec_hex_decode;
use crate::principal::{PrincipalData, is_standard_principal_chars, is_standard_principal_lit};
use crate::strutil::{opt_string_v, string_eq_lit, to_char_vec};

verus! {

/// One ledger account seeded at startup, as the document carries it.
pub struct InitialBalanceFile {
    pub address: String,
    pub amount: u64,
}

/// The mathematical value of a raw balance entry.
#[verifier::ext_equal]
pub struct BalanceFileV {
    pub address: Seq<char>,
    pub amount: u64,
}

impl View for InitialBalanceFile {
    type V = BalanceFileV;

    open spec fn view(&self) -> BalanceFileV {
        BalanceFileV { address: self.address@, amount: self.amount }
    }
}

/// One resolved ledger account: a validated principal plus its balance.
pub struct InitialBalance {
    pub address: PrincipalData,
    pub amount: u64,
}

/// The mathematical value of a resolved balance entry.
#[verifier::ext_equal]
pub struct BalanceV {
    pub address: Seq<char>,
    pub amount: u64,
}

impl View for InitialBalance {
    type V = BalanceV;

    open spec fn view(&self) -> BalanceV {
        BalanceV { address: self.address@, amount: self.amount }
    }
}

/// The whole document as parsed: every section optional.
pub struct ConfigFile {
    pub burnchain: Option<BurnchainConfigFile>,
    pub node: Option<NodeConfigFile>,
    pub mstx_balance: Option<Vec<InitialBalanceFile>>,
    pub events_observer: Option<Vec<EventObserverConfigFile>>,
    pub connection_options: Option<ConnectionOptionsFile>,
}

/// The mathematical value of the whole document.
#[verifier::ext_equal]
pub struct ConfigFileV {
    pub burnchain: Option<BurnchainFileV>,
    pub node: Option<NodeFileV>,
    pub mstx_balance: Option<Seq<BalanceFileV>>,
    pub events_observer: Option<Seq<ObserverFileV>>,
    pub connection_options: Option<ConnectionOptionsFile>,
}

impl View for ConfigFile {
    type V = ConfigFileV;

    open spec fn view(&self) -> ConfigFileV {
        ConfigFileV {
            burnchain: match self.burnchain {
                Some(b) => Some(b@),
                None => None,
            },
            node: match self.node {
                Some(n) => Some(n@),
                None => None,
            },
            mstx_balance: match self.mstx_balance {
                Some(v) => Some(v@.map_values(|b: InitialBalanceFile| b@)),
                None => None,
            },
            events_observer: match self.events_observer {
                Some(v) => Some(v@.map_values(|o: EventObserverConfigFile| o@)),
                None => None,
            },
            connection_options: self.connection_options,
        }
    }
}

impl ConfigFile {
    /// The document with every section absent: resolution then yields pure
    /// defaults.
    pub fn empty() -> (r: ConfigFile)
        ensures
            r@ == spec_empty_config_file(),
    {
        ConfigFile {
            burnchain: None,
            node: None,
            mstx_balance: None,
            events_observer: None,
            connection_options: None,
        }
    }
}

/// The value of the empty document.
pub open spec fn spec_empty_config_file() -> ConfigFileV {
    ConfigFileV {
        burnchain: None,
        node: None,
        mstx_balance: None,
        events_observer: None,
        connection_options: None,
    }
}

/// The resolved configuration: the single source of truth for the node.
pub struct Config {
    pub burnchain: BurnchainConfig,
    pub node: NodeConfig,
    pub initial_balances: Vec<InitialBalance>,
    pub events_observers: Vec<EventObserverConfig>,
    pub connection_options: ConnectionOptions,
}

/// The mathematical value of the resolved configuration.
#[verifier::ext_equal]
pub struct ConfigV {
    pub burnchain: BurnchainV,
    pub node: NodeV,
    pub initial_balances: Seq<BalanceV>,
    pub events_observers: Seq<ObserverV>,
    pub connection_options: ConnectionOptions,
}

impl View for Config {
    type V = ConfigV;

    open spec fn view(&self) -> ConfigV {
        ConfigV {
            burnchain: self.burnchain@,
            node: self.node@,
            initial_balances: self.initial_balances@.map_values(|b: InitialBalance| b@),
            events_observers: self.events_observers@.map_values(|o: EventObserverConfig| o@),
            connection_options: self.connection_options,
        }
    }
}

/// An optional character sequence, or the default.
pub open spec fn pick_sv(o: Option<Seq<char>>, d: Seq<char>) -> Seq<char> {
    match o {
        Some(x) => x,
        None => d,
    }
}

/// An optional 16-bit value, or the default.
pub open spec fn pick_u16(o: Option<u16>, d: u16) -> u16 {
    match o {
        Some(x) => x,
        None => d,
    }
}

/// An optional flag, or the default.
pub open spec fn pick_bool(o: Option<bool>, d: bool) -> bool {
    match o {
        Some(x) => x,
        None => d,
    }
}

/// An optional list, or the empty one.
pub open spec fn opt_seq<T>(o: Option<Seq<T>>) -> Seq<T> {
    match o {
        Some(s) => s,
        None => Seq::empty(),
    }
}

/// The node section resolves unless its seed is not hexadecimal or its
/// bootstrap descriptor is malformed.
pub open spec fn spec_node_section_ok(nf: Option<NodeFileV>) -> bool {
    match nf {
        None => true,
        Some(n) => (match n.seed {
            Some(s) => spec_hex_decode(s) is Some,
            None => true,
        }) && (match n.bootstrap_node {
            Some(b) => spec_parse_bootstrap(b) is Some,
            None => true,
        }),
    }
}

/// Node-identity resolution: with the section absent, the baseline (and no
/// bootstrap peer); otherwise each field from the document when present,
/// else from the baseline, the seed hex-decoded and the bootstrap
/// descriptor parsed. A bad seed outranks a bad bootstrap descriptor.
pub open spec fn spec_resolve_node(nf: Option<NodeFileV>, baseline: NodeV) -> Result<
    NodeV,
    ConfigError,
> {
    match nf {
        None => Ok(NodeV { bootstrap_node: None, ..baseline }),
        Some(n) => {
            let seed = match n.seed {
                Some(sv) => spec_hex_decode(sv),
                None => Some(baseline.seed),
            };
            match seed {
                None => Err(ConfigError::InvalidSeedHex),
                Some(seed_bytes) => {
                    let boot = match n.bootstrap_node {
                        None => Some(Option::<crate::node::NeighborV>::None),
                        Some(bs) => match spec_parse_bootstrap(bs) {
                            Some(nb) => Some(Some(nb)),
                            None => None,
                        },
                    };
                    match boot {
                        None => Err(ConfigError::InvalidBootstrapNode),
                        Some(bn) => Ok(
                            NodeV {
                                name: pick_sv(n.name, baseline.name),
                                seed: seed_bytes,
                                working_dir: pick_sv(n.working_dir, baseline.working_dir),
                                rpc_bind: pick_sv(n.rpc_bind, baseline.rpc_bind),
                                p2p_bind: pick_sv(n.p2p_bind, baseline.p2p_bind),
                                bootstrap_node: bn,
                            },
                        ),
                    }
                },
            }
        },
    }
}

/// Burnchain resolution: field-wise default-or-override. With the section
/// present, the SPV-headers path defaults to a path under the already
/// resolved node working directory; with it absent, the registry default
/// stands. The magic identifier always keeps its compiled-in value.
pub open spec fn spec_resolve_burnchain(bf: Option<BurnchainFileV>, node_wd: Seq<char>) -> BurnchainV {
    let d = spec_default_burnchain();
    match bf {
        None => d,
        Some(b) => BurnchainV {
            chain: pick_sv(b.chain, d.chain),
            mode: pick_sv(b.mode, d.mode),
            commit_anchor_block_within: crate::connection::pick_u64(
                b.commit_anchor_block_within,
                d.commit_anchor_block_within,
            ),
            burn_fee_cap: crate::connection::pick_u64(b.burn_fee_cap, d.burn_fee_cap),
            peer_host: pick_sv(b.peer_host, d.peer_host),
            peer_port: pick_u16(b.peer_port, d.peer_port),
            rpc_port: pick_u16(b.rpc_port, d.rpc_port),
            rpc_ssl: pick_bool(b.rpc_ssl, d.rpc_ssl),
            username: b.username,
            password: b.password,
            timeout: crate::connection::pick_u32(b.timeout, d.timeout),
            spv_headers_path: pick_sv(
                b.spv_headers_path,
                node_wd + "/burnchain"@ + "/spv-headers.dat"@,
            ),
            first_block: crate::connection::pick_u64(b.first_block, d.first_block),
            magic_bytes: d.magic_bytes,
            local_mining_public_key: b.local_mining_public_key,
            burnchain_op_tx_fee: crate::connection::pick_u64(
                b.burnchain_op_tx_fee,
                d.burnchain_op_tx_fee,
            ),
        },
    }
}

/// The operating mode the document asks for: the burnchain section's mode
/// when given, else the default.
pub open spec fn spec_document_mode(cf: ConfigFileV) -> Seq<char> {
    match cf.burnchain {
        Some(b) => pick_sv(b.mode, spec_default_burnchain().mode),
        None => spec_default_burnchain().mode,
    }
}

/// Helium mode demands a local mining public key; every other mode is
/// content without one.
pub open spec fn spec_mining_key_ok(cf: ConfigFileV) -> bool {
    spec_document_mode(cf) == "helium"@ ==> (match cf.burnchain {
        Some(b) => b.local_mining_public_key is Some,
        None => false,
    })
}

/// Every initial-balance address obeys the standard-principal grammar.
pub open spec fn spec_balances_ok(l: Seq<BalanceFileV>) -> bool {
    forall|i: int| 0 <= i < l.len() ==> is_standard_principal_lit((#[trigger] l[i]).address)
}

/// Balance resolution: each entry in input order, or the one hard failure.
pub open spec fn spec_resolve_balances(l: Seq<BalanceFileV>) -> Result<Seq<BalanceV>, ConfigError> {
    if spec_balances_ok(l) {
        Ok(l.map_values(|b: BalanceFileV| BalanceV { address: b.address, amount: b.amount }))
    } else {
        Err(ConfigError::InvalidBalanceAddress)
    }
}

/// Every subscription key of every observer matches the event-key grammar.
pub open spec fn spec_observers_ok(l: Seq<ObserverFileV>) -> bool {
    forall|i: int, j: int|
        0 <= i < l.len() && 0 <= j < l[i].events_keys.len() ==> (#[trigger] spec_parse_event_key(
            l[i].events_keys[j],
        )) is Some
}

/// The parsed form of a subscription key; meaningful only where the key
/// matches the grammar.
pub open spec fn spec_parsed_key(k: Seq<char>) -> EventKeyV {
    match spec_parse_event_key(k) {
        Some(e) => e,
        None => EventKeyV::AnyEvent,
    }
}

/// One observer entry with its keys parsed.
pub open spec fn spec_resolved_observer(o: ObserverFileV) -> ObserverV {
    ObserverV {
        endpoint: o.endpoint,
        events_keys: o.events_keys.map_values(|k: Seq<char>| spec_parsed_key(k)),
    }
}

/// Observer resolution: each entry in document order, or the one hard
/// failure.
pub open spec fn spec_resolve_observers(l: Seq<ObserverFileV>) -> Result<Seq<ObserverV>, ConfigError> {
    if spec_observers_ok(l) {
        Ok(l.map_values(|o: ObserverFileV| spec_resolved_observer(o)))
    } else {
        Err(ConfigError::InvalidEventKey)
    }
}

/// The observer the environment override injects: subscribed to
/// everything, delivered to the override's endpoint.
pub open spec fn spec_env_observers(env: Option<Seq<char>>) -> Seq<ObserverV> {
    match env {
        Some(e) => seq![ObserverV { endpoint: e, events_keys: seq![EventKeyV::AnyEvent] }],
        None => Seq::empty(),
    }
}

/// The whole resolution as a function of the document, the identity
/// baseline and the environment override. Errors arise in a fixed order:
/// seed, bootstrap descriptor, unsupported mode, missing mining key, bad
/// balance address, bad event key.
pub open spec fn resolve_spec(cf: ConfigFileV, baseline: NodeV, env: Option<Seq<char>>) -> Result<
    ConfigV,
    ConfigError,
> {
    match spec_resolve_node(cf.node, baseline) {
        Err(e) => Err(e),
        Ok(node) => {
            let burnchain = spec_resolve_burnchain(cf.burnchain, node.working_dir);
            if !is_supported_mode(burnchain.mode) {
                Err(ConfigError::UnsupportedMode)
            } else if burnchain.mode == "helium"@ && burnchain.local_mining_public_key is None {
                Err(ConfigError::MissingMiningPublicKey)
            } else {
                match spec_resolve_balances(opt_seq(cf.mstx_balance)) {
                    Err(e) => Err(e),
                    Ok(balances) => match spec_resolve_observers(opt_seq(cf.events_observer)) {
                        Err(e) => Err(e),
                        Ok(observers) => Ok(
                            ConfigV {
                                burnchain,
                                node,
                                initial_balances: balances,
                                events_observers: observers + spec_env_observers(env),
                                connection_options: match cf.connection_options {
                                    Some(p) => spec_merge_connection_options(
                                        p,
                                        spec_default_connection_options(),
                                    ),
                                    None => spec_default_connection_options(),
                                },
                            },
                        ),
                    },
                }
            }
        },
    }
}

/// The view of a resolution result.
pub open spec fn result_v(r: Result<Config, ConfigError>) -> Result<ConfigV, ConfigError> {
    match r {
        Ok(c) => Ok(c@),
        Err(e) => Err(e),
    }
}

/// Maps the raw balance list through principal validation, in input order.
fn resolve_balances(balances: &Vec<InitialBalanceFile>) -> (r: Result<
    Vec<InitialBalance>,
    ConfigError,
>)
    ensures
        match r {
            Ok(out) => spec_resolve_balances(balances@.map_values(|b: InitialBalanceFile| b@))
                == Ok::<Seq<BalanceV>, ConfigError>(out@.map_values(|b: InitialBalance| b@)),
            Err(e) => spec_resolve_balances(balances@.map_values(|b: InitialBalanceFile| b@))
                == Err::<Seq<BalanceV>, ConfigError>(e),
        },
{
    let ghost lv = balances@.map_values(|b: InitialBalanceFile| b@);
    let mut out: Vec<InitialBalance> = Vec::new();
    let mut i: usize = 0;
    while i < balances.len()
        invariant
            0 <= i <= balances@.len(),
            lv == balances@.map_values(|b: InitialBalanceFile| b@),
            lv.len() == balances@.len(),
            out@.len() == i,
            forall|k: int| 0 <= k < i ==> is_standard_principal_lit((#[trigger] lv[k]).address),
            forall|k: int|
                0 <= k < i ==> (#[trigger] out@[k])@ == (BalanceV {
                    address: lv[k].address,
                    amount: lv[k].amount,
                }),
        decreases balances@.len() - i,
    {
        let av = to_char_vec(balances[i].address.as_str());
        if !is_standard_principal_chars(&av) {
            proof {
                assert(!is_standard_principal_lit(lv[i as int].address));
                assert(!spec_balances_ok(lv));
            }
            return Err(ConfigError::InvalidBalanceAddress);
        }
        out.push(InitialBalance { address: PrincipalData { literal: av }, amount: balances[i].amount });
        i = i + 1;
    }
    proof {
        assert(spec_balances_ok(lv));
        assert(out@.map_values(|b: InitialBalance| b@) =~= lv.map_values(
            |b: BalanceFileV| BalanceV { address: b.address, amount: b.amount },
        ));
    }
    Ok(out)
}

/// Maps the raw observer list through the event-key grammar, in document
/// order.
fn resolve_observers(obs: &Vec<EventObserverConfigFile>) -> (r: Result<
    Vec<EventObserverConfig>,
    ConfigError,
>)
    ensures
        match r {
            Ok(out) => spec_resolve_observers(
                obs@.map_values(|o: EventObserverConfigFile| o@),
            ) == Ok::<Seq<ObserverV>, ConfigError>(
                out@.map_values(|o: EventObserverConfig| o@),
            ),
            Err(e) => spec_resolve_observers(obs@.map_values(|o: EventObserverConfigFile| o@))
                == Err::<Seq<ObserverV>, ConfigError>(e),
        },
{
    let ghost ov = obs@.map_values(|o: EventObserverConfigFile| o@);
    let mut out: Vec<EventObserverConfig> = Vec::new();
    let mut i: usize = 0;
    while i < obs.len()
        invariant
            0 <= i <= obs@.len(),
            ov == obs@.map_values(|o: EventObserverConfigFile| o@),
            ov.len() == obs@.len(),
            out@.len() == i,
            forall|k: int, j: int|
                0 <= k < i && 0 <= j < ov[k].events_keys.len() ==> (
                #[trigger] spec_parse_event_key(ov[k].events_keys[j])) is Some,
            forall|k: int| 0 <= k < i ==> (#[trigger] out@[k])@ == spec_resolved_observer(ov[k]),
        decreases obs@.len() - i,
    {
        let mut keys: Vec<EventKeyType> = Vec::new();
        let mut j: usize = 0;
        while j < obs[i].events_keys.len()
            invariant
                0 <= i < obs@.len(),
                ov == obs@.map_values(|o: EventObserverConfigFile| o@),
                ov.len() == obs@.len(),
                0 <= j <= ov[i as int].events_keys.len(),
                obs@[i as int].events_keys@.len() == ov[i as int].events_keys.len(),
                keys@.len() == j,
                forall|j0: int|
                    0 <= j0 < j ==> (#[trigger] spec_parse_event_key(
                        ov[i as int].events_keys[j0],
                    )) is Some,
                forall|j0: int|
                    0 <= j0 < j ==> (#[trigger] keys@[j0])@ == spec_parsed_key(
                        ov[i as int].events_keys[j0],
                    ),
            decreases ov[i as int].events_keys.len() - j,
        {
            match EventKeyType::from_string(obs[i].events_keys[j].as_str()) {
                Some(k) => {
                    keys.push(k);
                },
                None => {
                    proof {
                        assert(spec_parse_event_key(ov[i as int].events_keys[j as int]) is None);
                        assert(!spec_observers_ok(ov));
                    }
                    return Err(ConfigError::InvalidEventKey);
                },
            }
            j = j + 1;
        }
        let entry = EventObserverConfig { endpoint: obs[i].endpoint.clone(), events_keys: keys };
        proof {
            assert(entry@.events_keys =~= spec_resolved_observer(ov[i as int]).events_keys);
            assert(entry@ =~= spec_resolved_observer(ov[i as int]));
        }
        out.push(entry);
        i = i + 1;
    }
    proof {
        assert(spec_observers_ok(ov));
        assert(out@.map_values(|o: EventObserverConfig| o@) =~= ov.map_values(
            |o: ObserverFileV| spec_resolved_observer(o),
        ));
    }
    Ok(out)
}

impl Config {
    /// Resolves the document against an explicit identity baseline. The
    /// result is a pure function of the three arguments, given by
    /// `resolve_spec`.
    pub fn resolve_with_baseline(
        config_file: ConfigFile,
        baseline: NodeConfig,
        observer_override: Option<String>,
    ) -> (r: Result<Config, ConfigError>)
        ensures
            result_v(r) == resolve_spec(config_file@, baseline@, opt_string_v(observer_override)),
    {
        let ghost cf0 = config_file@;
        let ghost b0 = baseline@;
        let ghost env0 = opt_string_v(observer_override);
        let NodeConfig {
            name: bname,
            seed: bseed,
            working_dir: bwd,
            rpc_bind: brpc,
            p2p_bind: bp2p,
            bootstrap_node: _,
        } = baseline;

        // Node identity first: later steps depend on its working directory.
        let node: NodeConfig = match config_file.node {
            None => {
                let n = NodeConfig {
                    name: bname,
                    seed: bseed,
                    working_dir: bwd,
                    rpc_bind: brpc,
                    p2p_bind: bp2p,
                    bootstrap_node: None,
                };
                proof {
                    assert(n@ =~= (NodeV { bootstrap_node: None, ..b0 }));
                }
                n
            },
            Some(nf) => {
                let seed: Vec<u8> = match nf.seed {
                    Some(s) => {
                        let sv = to_char_vec(s.as_str());
                        match crate::numeric::hex_decode(&sv) {
                            Some(b) => b,
                            None => {
                                return Err(ConfigError::InvalidSeedHex);
                            },
                        }
                    },
                    None => bseed,
                };
                let mut node = NodeConfig {
                    name: match nf.name {
                        Some(x) => x,
                        None => bname,
                    },
                    seed,
                    working_dir: match nf.working_dir {
                        Some(x) => x,
                        None => bwd,
                    },
                    rpc_bind: match nf.rpc_bind {
                        Some(x) => x,
                        None => brpc,
                    },
                    p2p_bind: match nf.p2p_bind {
                        Some(x) => x,
                        None => bp2p,
                    },
                    bootstrap_node: None,
                };
                match node.set_bootstrap_node(nf.bootstrap_node) {
                    Ok(_) => {},
                    Err(e) => {
                        return Err(e);
                    },
                }
                proof {
                    assert(Ok::<NodeV, ConfigError>(node@) =~~= spec_resolve_node(cf0.node, b0));
                }
                node
            },
        };
        proof {
            assert(spec_resolve_node(cf0.node, b0) == Ok::<NodeV, ConfigError>(node@));
        }

        // Burnchain next: its SPV-headers default derives from the node.
        let burnchain: BurnchainConfig = match config_file.burnchain {
            None => default_burnchain_config(),
            Some(bf) => {
                let d = default_burnchain_config();
                let bc = BurnchainConfig {
                    chain: match bf.chain {
                        Some(x) => x,
                        None => d.chain,
                    },
                    mode: match bf.mode {
                        Some(x) => x,
                        None => d.mode,
                    },
                    commit_anchor_block_within: match bf.commit_anchor_block_within {
                        Some(x) => x,
                        None => d.commit_anchor_block_within,
                    },
                    burn_fee_cap: match bf.burn_fee_cap {
                        Some(x) => x,
                        None => d.burn_fee_cap,
                    },
                    peer_host: match bf.peer_host {
                        Some(x) => x,
                        None => d.peer_host,
                    },
                    peer_port: match bf.peer_port {
                        Some(x) => x,
                        None => d.peer_port,
                    },
                    rpc_port: match bf.rpc_port {
                        Some(x) => x,
                        None => d.rpc_port,
                    },
                    rpc_ssl: match bf.rpc_ssl {
                        Some(x) => x,
                        None => d.rpc_ssl,
                    },
                    username: bf.username,
                    password: bf.password,
                    timeout: match bf.timeout {
                        Some(x) => x,
                        None => d.timeout,
                    },
                    spv_headers_path: match bf.spv_headers_path {
                        Some(x) => x,
                        None => node.get_default_spv_headers_path(),
                    },
                    first_block: match bf.first_block {
                        Some(x) => x,
                        None => d.first_block,
                    },
                    magic_bytes: d.magic_bytes,
                    local_mining_public_key: bf.local_mining_public_key,
                    burnchain_op_tx_fee: match bf.burnchain_op_tx_fee {
                        Some(x) => x,
                        None => d.burnchain_op_tx_fee,
                    },
                };
                proof {
                    assert(bc@ =~= spec_resolve_burnchain(cf0.burnchain, node@.working_dir));
                }
                bc
            },
        };
        proof {
            assert(burnchain@ == spec_resolve_burnchain(cf0.burnchain, node@.working_dir));
        }

        // Cross-field validation on the resolved burnchain values.
        if !mode_supported(&burnchain.mode) {
            return Err(ConfigError::UnsupportedMode);
        }
        if string_eq_lit(&burnchain.mode, "helium") && burnchain.local_mining_public_key.is_none() {
            return Err(ConfigError::MissingMiningPublicKey);
        }

        // Initial balances, in document order, every address validated.
        let initial_balances: Vec<InitialBalance> = match config_file.mstx_balance {
            None => {
                let out: Vec<InitialBalance> = Vec::new();
                proof {
                    assert(opt_seq(cf0.mstx_balance) =~= Seq::<BalanceFileV>::empty());
                    assert(spec_balances_ok(opt_seq(cf0.mstx_balance)));
                    assert(out@.map_values(|b: InitialBalance| b@) =~= opt_seq(
                        cf0.mstx_balance,
                    ).map_values(
                        |b: BalanceFileV| BalanceV { address: b.address, amount: b.amount },
                    ));
                }
                out
            },
            Some(balances) => {
                match resolve_balances(&balances) {
                    Ok(out) => out,
                    Err(e) => {
                        return Err(e);
                    },
                }
            },
        };
        proof {
            assert(spec_resolve_balances(opt_seq(cf0.mstx_balance)) == Ok::<
                Seq<BalanceV>,
                ConfigError,
            >(initial_balances@.map_values(|b: InitialBalance| b@)));
        }

        // Observers, in document order, every subscription key parsed.
        let mut events_observers: Vec<EventObserverConfig> = match config_file.events_observer {
            None => {
                let out: Vec<EventObserverConfig> = Vec::new();
                proof {
                    assert(opt_seq(cf0.events_observer) =~= Seq::<ObserverFileV>::empty());
                    assert(spec_observers_ok(opt_seq(cf0.events_observer)));
                    assert(out@.map_values(|o: EventObserverConfig| o@) =~= opt_seq(
                        cf0.events_observer,
                    ).map_values(|o: ObserverFileV| spec_resolved_observer(o)));
                }
                out
            },
            Some(obs) => {
                match resolve_observers(&obs) {
                    Ok(out) => out,
                    Err(e) => {
                        return Err(e);
                    },
                }
            },
        };
        let ghost doc_observers = events_observers@.map_values(|o: EventObserverConfig| o@);
        proof {
            assert(spec_resolve_observers(opt_seq(cf0.events_observer)) == Ok::<
                Seq<ObserverV>,
                ConfigError,
            >(doc_observers));
        }

        // The environment override appends one any-event observer, after
        // every document-declared observer.
        match observer_override {
            Some(endpoint) => {
                let ghost epv = endpoint@;
                let mut keys: Vec<EventKeyType> = Vec::new();
                keys.push(EventKeyType::AnyEvent);
                let entry = EventObserverConfig { endpoint, events_keys: keys };
                proof {
                    assert(entry@.events_keys =~= seq![EventKeyV::AnyEvent]);
                    assert(entry@ =~= (ObserverV {
                        endpoint: epv,
                        events_keys: seq![EventKeyV::AnyEvent],
                    }));
                }
                events_observers.push(entry);
            },
            None => {},
        }
        proof {
            assert(events_observers@.map_values(|o: EventObserverConfig| o@) =~= doc_observers
                + spec_env_observers(env0));
        }

        // Connection tuning merges against the registry baseline.
        let connection_options = merge_connection_options(
            config_file.connection_options,
            default_connection_options(),
        );

        let c = Config { burnchain, node, initial_balances, events_observers, connection_options };
        proof {
            assert(resolve_spec(cf0, b0, env0) matches Ok(cv) && cv =~~= c@);
        }
        Ok(c)
    }

    /// The pure-defaults configuration built around an identity baseline:
    /// default burnchain with its SPV path moved under the baseline's
    /// working directory, no balances, no observers, baseline tuning.
    pub open spec fn spec_default_config(baseline: NodeV) -> ConfigV {
        ConfigV {
            burnchain: (BurnchainV {
                spv_headers_path: baseline.working_dir + "/burnchain"@ + "/spv-headers.dat"@,
                ..spec_default_burnchain()
            }),
            node: baseline,
            initial_balances: Seq::empty(),
            events_observers: Seq::empty(),
            connection_options: spec_default_connection_options(),
        }
    }

    /// Builds the pure-defaults configuration, deriving the identity
    /// baseline from fresh entropy.
    pub fn default() -> (c: Config)
        ensures
            exists|b: Seq<u8>|
                b.len() == 8 && c@ == Self::spec_default_config(spec_derived_node(b)),
    {
        let node = derived_default_node();
        let ghost nv = node@;
        let mut burnchain = default_burnchain_config();
        burnchain.spv_headers_path = node.get_default_spv_headers_path();
        let c = Config {
            burnchain,
            node,
            initial_balances: Vec::new(),
            events_observers: Vec::new(),
            connection_options: default_connection_options(),
        };
        proof {
            let b = choose|b: Seq<u8>| b.len() == 8 && nv == spec_derived_node(b);
            assert(c@ =~~= Self::spec_default_config(spec_derived_node(b)));
        }
        c
    }

    /// The burnchain root under the resolved working directory.
    pub fn get_burnchain_path(&self) -> (r: String)
        ensures
            r@ == self.node.working_dir@ + "/burnchain/"@,
    {
        let mut s = self.node.working_dir.clone();
        s.append("/burnchain/");
        s
    }

    /// The burnchain database directory.
    pub fn get_burn_db_path(&self) -> (r: String)
        ensures
            r@ == self.node.working_dir@ + "/burnchain/db"@,
    {
        let mut s = self.node.working_dir.clone();
        s.append("/burnchain/db");
        s
    }

    /// The burnchain database file path, under the chain's regtest
    /// segment.
    pub fn get_burn_db_file_path(&self) -> (r: String)
        ensures
            r@ == self.node.working_dir@ + "/burnchain/db/"@ + self.burnchain.chain@
                + "/regtest/burn.db/"@,
    {
        let mut s = self.node.working_dir.clone();
        s.append("/burnchain/db/");
        s.append(self.burnchain.chain.as_str());
        s.append("/regtest/burn.db/");
        s
    }

    /// The chain-state directory.
    pub fn get_chainstate_path(&self) -> (r: String)
        ensures
            r@ == self.node.working_dir@ + "/chainstate/"@,
    {
        let mut s = self.node.working_dir.clone();
        s.append("/chainstate/");
        s
    }

    /// The peer database file path.
    pub fn get_peer_db_path(&self) -> (r: String)
        ensures
            r@ == self.node.working_dir@ + "/peer_db.sqlite"@,
    {
        let mut s = self.node.working_dir.clone();
        s.append("/peer_db.sqlite");
        s
    }

    /// Adds one ledger balance after resolution, validating the address
    /// exactly as bulk resolution does.
    pub fn add_initial_balance(&mut self, address: String, amount: u64) -> (r: Result<
        (),
        ConfigError,
    >)
        ensures
            match r {
                Ok(_) => is_standard_principal_lit(address@) && final(self)@ == (ConfigV {
                    initial_balances: old(self)@.initial_balances.push(
                        BalanceV { address: address@, amount },
                    ),
                    ..old(self)@
                }),
                Err(e) => !is_standard_principal_lit(address@) && e
                    == ConfigError::InvalidBalanceAddress && final(self)@ == old(self)@,
            },
    {
        let av = to_char_vec(address.as_str());
        if is_standard_principal_chars(&av) {
            self.initial_balances.push(
                InitialBalance { address: PrincipalData { literal: av }, amount },
            );
            proof {
                assert(self@ =~~= (ConfigV {
                    initial_balances: old(self)@.initial_balances.push(
                        BalanceV { address: address@, amount },
                    ),
                    ..old(self)@
                }));
            }
            Ok(())
        } else {
            Err(ConfigError::InvalidBalanceAddress)
        }
    }

    /// Resolves the document, deriving the identity baseline from fresh
    /// entropy; the baseline only shows through where the document leaves
    /// node-identity fields unset.
    pub fn from_config_file(config_file: ConfigFile, observer_override: Option<String>) -> (r:
        Result<Config, ConfigError>)
        ensures
            exists|b: Seq<u8>|
                b.len() == 8 && result_v(r) == resolve_spec(
                    config_file@,
                    spec_derived_node(b),
                    opt_string_v(observer_override),
                ),
    {
        let ghost cf0 = config_file@;
        let baseline = derived_default_node();
        let ghost bv = baseline@;
        let r = Self::resolve_with_baseline(config_file, baseline, observer_override);
        proof {
            let b = choose|b: Seq<u8>| b.len() == 8 && bv == spec_derived_node(b);
            assert(b.len() == 8 && result_v(r) == resolve_spec(
                cf0,
                spec_derived_node(b),
                opt_string_v(observer_override),
            ));
        }
        r
    }
}

/// A document whose operating mode is outside the supported set never
/// resolves, whatever its other fields, the baseline or the override.
pub proof fn lemma_unsupported_mode_always_fails(
    cf: ConfigFileV,
    baseline: NodeV,
    env: Option<Seq<char>>,
)
    requires
        !is_supported_mode(spec_document_mode(cf)),
    ensures
        resolve_spec(cf, baseline, env) is Err,
{
    match spec_resolve_node(cf.node, baseline) {
        Err(_) => {},
        Ok(node) => {
            assert(spec_resolve_burnchain(cf.burnchain, node.working_dir).mode
                == spec_document_mode(cf));
        },
    }
}

/// A document that asks for helium mode but carries no local mining public
/// key never resolves.
pub proof fn lemma_helium_needs_mining_key(
    cf: ConfigFileV,
    baseline: NodeV,
    env: Option<Seq<char>>,
)
    requires
        spec_document_mode(cf) == "helium"@,
        match cf.burnchain {
            Some(b) => b.local_mining_public_key is None,
            None => true,
        },
    ensures
        resolve_spec(cf, baseline, env) is Err,
{
    match spec_resolve_node(cf.node, baseline) {
        Err(_) => {},
        Ok(node) => {
            let bc = spec_resolve_burnchain(cf.burnchain, node.working_dir);
            assert(bc.mode == spec_document_mode(cf));
            assert(bc.local_mining_public_key is None);
        },
    }
}

/// Resolution succeeds exactly when the seed and bootstrap descriptor are
/// well-formed, the mode is supported, helium mode has its mining key, and
/// every balance address and subscription key parses. In particular, every
/// supported mode other than helium succeeds without a mining key.
pub proof fn lemma_success_characterization(
    cf: ConfigFileV,
    baseline: NodeV,
    env: Option<Seq<char>>,
)
    ensures
        resolve_spec(cf, baseline, env) is Ok <==> (spec_node_section_ok(cf.node)
            && is_supported_mode(spec_document_mode(cf)) && spec_mining_key_ok(cf)
            && spec_balances_ok(opt_seq(cf.mstx_balance)) && spec_observers_ok(
            opt_seq(cf.events_observer),
        )),
{
    reveal_strlit("mocknet");
    reveal_strlit("helium");
    assert("mocknet"@.len() == 7 && "helium"@.len() == 6);
    match spec_resolve_node(cf.node, baseline) {
        Err(_) => {
            assert(!spec_node_section_ok(cf.node));
        },
        Ok(node) => {
            assert(spec_node_section_ok(cf.node));
            let bc = spec_resolve_burnchain(cf.burnchain, node.working_dir);
            assert(bc.mode == spec_document_mode(cf));
            match cf.burnchain {
                Some(b) => {
                    assert(bc.local_mining_public_key == b.local_mining_public_key);
                },
                None => {
                    assert(bc.mode != "helium"@);
                },
            }
        },
    }
}

/// Resolving the empty document yields pure defaults: mocknet mode, the
/// bitcoin chain, and the fixed all-zero seed.
pub proof fn lemma_empty_document_defaults(b: Seq<u8>)
    ensures
        match resolve_spec(spec_empty_config_file(), spec_derived_node(b), None) {
            Ok(c) => c.burnchain.mode == "mocknet"@ && c.burnchain.chain == "bitcoin"@
                && c.node.seed == Seq::new(32, |i: int| 0u8),
            Err(_) => false,
        },
{
    reveal_strlit("mocknet");
    reveal_strlit("helium");
    assert("mocknet"@.len() == 7 && "helium"@.len() == 6);
    assert(spec_observers_ok(opt_seq(spec_empty_config_file().events_observer)));
    assert(spec_balances_ok(opt_seq(spec_empty_config_file().mstx_balance)));
}

/// With every node-identity field pinned by the document, resolution is
/// deterministic: two runs agree exactly, whatever entropy each drew for
/// its baseline.
pub proof fn lemma_resolution_deterministic(
    cf: ConfigFileV,
    b1: NodeV,
    b2: NodeV,
    env: Option<Seq<char>>,
)
    requires
        match cf.node {
            Some(n) => n.name is Some && n.seed is Some && n.working_dir is Some && n.rpc_bind
                is Some && n.p2p_bind is Some,
            None => false,
        },
    ensures
        resolve_spec(cf, b1, env) == resolve_spec(cf, b2, env),
{
    let r1 = spec_resolve_node(cf.node, b1);
    let r2 = spec_resolve_node(cf.node, b2);
    match (r1, r2) {
        (Ok(n1), Ok(n2)) => {
            assert(n1 =~= n2);
        },
        _ => {
            assert(r1 == r2);
        },
    }
}

/// With the node section absent, fresh entropy shows only through the
/// derived identity fields (working directory and bind addresses) and the
/// SPV-headers path that follows the derived working directory; the name,
/// the fixed all-zero seed and every other resolved field are identical
/// across runs, and failures are identical too.
pub proof fn lemma_entropy_confined_to_identity(
    cf: ConfigFileV,
    b1: Seq<u8>,
    b2: Seq<u8>,
    env: Option<Seq<char>>,
)
    requires
        cf.node is None,
    ensures
        match (
            resolve_spec(cf, spec_derived_node(b1), env),
            resolve_spec(cf, spec_derived_node(b2), env),
        ) {
            (Ok(c1), Ok(c2)) => c1.node.name == c2.node.name && c1.node.seed == c2.node.seed
                && c1.node.bootstrap_node == c2.node.bootstrap_node && c1.burnchain
                == (BurnchainV { spv_headers_path: c1.burnchain.spv_headers_path, ..c2.burnchain })
                && c1.initial_balances == c2.initial_balances && c1.events_observers
                == c2.events_observers && c1.connection_options == c2.connection_options,
            (Err(e1), Err(e2)) => e1 == e2,
            _ => false,
        },
{
    let n1 = spec_derived_node(b1);
    let n2 = spec_derived_node(b2);
    match (resolve_spec(cf, n1, env), resolve_spec(cf, n2, env)) {
        (Ok(c1), Ok(c2)) => {
            assert(c1.burnchain =~= (BurnchainV {
                spv_headers_path: c1.burnchain.spv_headers_path,
                ..c2.burnchain
            }));
        },
        _ => {},
    }
}

/// The environment override appends exactly one any-event observer after
/// the document's observers and changes nothing else; failures are
/// unaffected by it.
pub proof fn lemma_env_override_appends_one(
    cf: ConfigFileV,
    baseline: NodeV,
    endpoint: Seq<char>,
)
    ensures
        match (resolve_spec(cf, baseline, Some(endpoint)), resolve_spec(cf, baseline, None)) {
            (Ok(c1), Ok(c0)) => c1.events_observers == c0.events_observers + seq![
                ObserverV { endpoint: endpoint, events_keys: seq![EventKeyV::AnyEvent] },
            ] && c1.events_observers.len() == c0.events_observers.len() + 1 && c1.node == c0.node
                && c1.burnchain == c0.burnchain && c1.initial_balances == c0.initial_balances
                && c1.connection_options == c0.connection_options,
            (Err(e1), Err(e0)) => e1 == e0,
            _ => false,
        },
{
    match (resolve_spec(cf, baseline, Some(endpoint)), resolve_spec(cf, baseline, None)) {
        (Ok(c1), Ok(c0)) => {
            assert(c0.events_observers + spec_env_observers(None) =~= c0.events_observers);
        },
        _ => {},
    }
}

} // verus!
