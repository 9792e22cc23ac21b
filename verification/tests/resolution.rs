//! Tests for configuration resolution: defaults, mode validation, seed and
//! bootstrap parsing, balances, observers, the environment override, the
//! tuning merge, port derivation and the path formatters.

use node_config::{
    BurnchainConfigFile, Config, ConfigError, ConfigFile, ConnectionOptionsFile,
    EventObserverConfigFile, InitialBalanceFile, NodeConfigFile, derive_port,
};

fn empty_file() -> ConfigFile {
    ConfigFile::empty()
}

fn empty_node_file() -> NodeConfigFile {
    NodeConfigFile {
        name: None,
        seed: None,
        working_dir: None,
        rpc_bind: None,
        p2p_bind: None,
        bootstrap_node: None,
    }
}

fn empty_burnchain_file() -> BurnchainConfigFile {
    BurnchainConfigFile {
        chain: None,
        burn_fee_cap: None,
        mode: None,
        block_time: None,
        commit_anchor_block_within: None,
        peer_host: None,
        peer_port: None,
        rpc_port: None,
        rpc_ssl: None,
        username: None,
        password: None,
        timeout: None,
        spv_headers_path: None,
        first_block: None,
        magic_bytes: None,
        local_mining_public_key: None,
        burnchain_op_tx_fee: None,
    }
}

fn empty_connection_file() -> ConnectionOptionsFile {
    ConnectionOptionsFile {
        inbox_maxlen: None,
        outbox_maxlen: None,
        timeout: None,
        idle_timeout: None,
        heartbeat: None,
        private_key_lifetime: None,
        num_neighbors: None,
        num_clients: None,
        soft_num_neighbors: None,
        soft_num_clients: None,
        max_neighbors_per_host: None,
        max_clients_per_host: None,
        soft_max_neighbors_per_host: None,
        soft_max_neighbors_per_org: None,
        soft_max_clients_per_host: None,
        walk_interval: None,
        dns_timeout: None,
        max_inflight_blocks: None,
        read_only_call_limit_write_length: None,
        read_only_call_limit_read_length: None,
        read_only_call_limit_write_count: None,
        read_only_call_limit_read_count: None,
        read_only_call_limit_runtime: None,
        maximum_call_argument_size: None,
    }
}

fn with_mode(mode: &str) -> ConfigFile {
    let mut cf = empty_file();
    let mut b = empty_burnchain_file();
    b.mode = Some(mode.to_string());
    cf.burnchain = Some(b);
    cf
}

#[test]
fn empty_document_resolves_to_defaults() {
    let c = Config::from_config_file(empty_file(), None).unwrap();
    assert_eq!(c.burnchain.mode, "mocknet");
    assert_eq!(c.burnchain.chain, "bitcoin");
    assert_eq!(c.node.seed, vec![0u8; 32]);
    assert_eq!(c.burnchain.peer_host, "127.0.0.1");
    assert_eq!(c.burnchain.peer_port, 8333);
    assert_eq!(c.burnchain.rpc_port, 8332);
    assert!(!c.burnchain.rpc_ssl);
    assert_eq!(c.burnchain.first_block, 373601);
    assert_eq!(c.burnchain.burn_fee_cap, 10000);
    assert_eq!(c.burnchain.burnchain_op_tx_fee, 1000);
    assert!(c.initial_balances.is_empty());
    assert!(c.events_observers.is_empty());
    assert_eq!(c.connection_options.heartbeat, 60000);
    assert_eq!(c.connection_options.inbox_maxlen, 100);
    assert_eq!(c.connection_options.private_key_lifetime, 9223372036854775807);
    assert_eq!(c.node.name, "helium-node");
}

#[test]
fn derived_identity_has_expected_shape() {
    let c = Config::default();
    assert!(c.node.working_dir.starts_with("/tmp/stacks-testnet-"));
    assert_eq!(c.node.working_dir.len(), "/tmp/stacks-testnet-".len() + 16);
    assert!(c.node.rpc_bind.starts_with("127.0.0.1:"));
    assert!(c.node.p2p_bind.starts_with("127.0.0.1:"));
    let port: u32 = c.node.rpc_bind["127.0.0.1:".len()..].parse().unwrap();
    assert!((1024..=65535).contains(&port));
    assert!(c.burnchain.spv_headers_path.starts_with(&c.node.working_dir));
    assert!(c.burnchain.spv_headers_path.ends_with("/burnchain/spv-headers.dat"));
}

#[test]
fn supported_modes_succeed_without_mining_key() {
    for mode in ["mocknet", "neon", "neon-god"] {
        let r = Config::from_config_file(with_mode(mode), None);
        assert!(r.is_ok(), "mode {} should resolve", mode);
        assert_eq!(r.unwrap().burnchain.mode, mode);
    }
}

#[test]
fn helium_without_mining_key_fails() {
    let r = Config::from_config_file(with_mode("helium"), None);
    assert_eq!(r.err(), Some(ConfigError::MissingMiningPublicKey));
}

#[test]
fn helium_with_mining_key_succeeds() {
    let mut cf = empty_file();
    let mut b = empty_burnchain_file();
    b.mode = Some("helium".to_string());
    b.local_mining_public_key = Some("02abcd".to_string());
    cf.burnchain = Some(b);
    let c = Config::from_config_file(cf, None).unwrap();
    assert_eq!(c.burnchain.mode, "helium");
    assert_eq!(c.burnchain.local_mining_public_key, Some("02abcd".to_string()));
}

#[test]
fn unsupported_mode_fails() {
    for mode in ["mainnet", "", "Mocknet", "neon-god2"] {
        let r = Config::from_config_file(with_mode(mode), None);
        assert_eq!(r.err(), Some(ConfigError::UnsupportedMode), "mode {}", mode);
    }
}

#[test]
fn seed_is_hex_decoded() {
    let mut cf = empty_file();
    let mut n = empty_node_file();
    n.seed = Some("deadBEEF".to_string());
    cf.node = Some(n);
    let c = Config::from_config_file(cf, None).unwrap();
    assert_eq!(c.node.seed, vec![0xde, 0xad, 0xbe, 0xef]);
}

#[test]
fn bad_seed_hex_fails() {
    for seed in ["xyz", "abc", "0g"] {
        let mut cf = empty_file();
        let mut n = empty_node_file();
        n.seed = Some(seed.to_string());
        cf.node = Some(n);
        let r = Config::from_config_file(cf, None);
        assert_eq!(r.err(), Some(ConfigError::InvalidSeedHex), "seed {}", seed);
    }
}

#[test]
fn node_overrides_apply() {
    let mut cf = empty_file();
    let mut n = empty_node_file();
    n.name = Some("alpha".to_string());
    n.working_dir = Some("/var/alpha".to_string());
    n.rpc_bind = Some("0.0.0.0:1234".to_string());
    cf.node = Some(n);
    let c = Config::from_config_file(cf, None).unwrap();
    assert_eq!(c.node.name, "alpha");
    assert_eq!(c.node.working_dir, "/var/alpha");
    assert_eq!(c.node.rpc_bind, "0.0.0.0:1234");
    // the SPV headers path derives from the resolved working directory
    assert_eq!(c.burnchain.spv_headers_path, "./spv-headers.dat");
}

#[test]
fn spv_path_derives_from_working_dir_when_burnchain_present() {
    let mut cf = empty_file();
    let mut n = empty_node_file();
    n.working_dir = Some("/var/alpha".to_string());
    cf.node = Some(n);
    cf.burnchain = Some(empty_burnchain_file());
    let c = Config::from_config_file(cf, None).unwrap();
    assert_eq!(c.burnchain.spv_headers_path, "/var/alpha/burnchain/spv-headers.dat");
}

#[test]
fn bootstrap_node_parses() {
    let key = "02".to_string() + &"11".repeat(32);
    let mut cf = empty_file();
    let mut n = empty_node_file();
    n.bootstrap_node = Some(format!("{}@10.0.0.7:20444", key));
    cf.node = Some(n);
    let c = Config::from_config_file(cf, None).unwrap();
    let peer = c.node.bootstrap_node.expect("peer expected");
    assert_eq!(peer.addr.port, 20444);
    let host: String = peer.addr.host.iter().collect();
    assert_eq!(host, "10.0.0.7");
    assert_eq!(peer.public_key.len(), 33);
    assert_eq!(peer.public_key[0], 0x02);
    assert_eq!(peer.expire_block, 99999);
    assert_eq!(peer.last_contact_time, 0);
    assert_eq!(peer.in_degree, 0);
    assert_eq!(peer.out_degree, 0);
}

#[test]
fn malformed_bootstrap_fails() {
    let key = "02".to_string() + &"11".repeat(32);
    let cases = vec![
        "nodelimiter".to_string(),
        format!("{}@a@b", key),
        format!("{}@hostonly", key),
        format!("{}@:20444", key),
        format!("{}@host:notaport", key),
        format!("zz@host:20444"),
        format!("0211@host:20444"),
    ];
    for s in cases {
        let mut cf = empty_file();
        let mut n = empty_node_file();
        n.bootstrap_node = Some(s.clone());
        cf.node = Some(n);
        let r = Config::from_config_file(cf, None);
        assert_eq!(r.err(), Some(ConfigError::InvalidBootstrapNode), "case {}", s);
    }
}

#[test]
fn balances_resolve_in_order() {
    let mut cf = empty_file();
    cf.mstx_balance = Some(vec![
        InitialBalanceFile {
            address: "SP000000000000000000002Q6VF78".to_string(),
            amount: 10000,
        },
        InitialBalanceFile {
            address: "SP2J6ZY48GV1EZ5V2V5RB9MP66SW86PYKKNRV9EJ7".to_string(),
            amount: 20000,
        },
    ]);
    let c = Config::from_config_file(cf, None).unwrap();
    assert_eq!(c.initial_balances.len(), 2);
    let a0: String = c.initial_balances[0].address.literal.iter().collect();
    assert_eq!(a0, "SP000000000000000000002Q6VF78");
    assert_eq!(c.initial_balances[0].amount, 10000);
    assert_eq!(c.initial_balances[1].amount, 20000);
}

#[test]
fn bad_balance_address_fails() {
    let mut cf = empty_file();
    cf.mstx_balance = Some(vec![InitialBalanceFile {
        address: "not-an-address".to_string(),
        amount: 10000,
    }]);
    let r = Config::from_config_file(cf, None);
    assert_eq!(r.err(), Some(ConfigError::InvalidBalanceAddress));
}

#[test]
fn add_initial_balance_validates() {
    let mut c = Config::from_config_file(empty_file(), None).unwrap();
    c.add_initial_balance("SP000000000000000000002Q6VF78".to_string(), 77)
        .unwrap();
    assert_eq!(c.initial_balances.len(), 1);
    assert_eq!(c.initial_balances[0].amount, 77);
    let r = c.add_initial_balance("bogus!".to_string(), 1);
    assert_eq!(r.err(), Some(ConfigError::InvalidBalanceAddress));
    assert_eq!(c.initial_balances.len(), 1);
}

#[test]
fn observers_resolve_and_bad_key_fails() {
    let mut cf = empty_file();
    cf.events_observer = Some(vec![EventObserverConfigFile {
        endpoint: "localhost:30000".to_string(),
        events_keys: vec!["*".to_string(), "stx".to_string()],
    }]);
    let c = Config::from_config_file(cf, None).unwrap();
    assert_eq!(c.events_observers.len(), 1);
    assert_eq!(c.events_observers[0].endpoint, "localhost:30000");
    assert_eq!(c.events_observers[0].events_keys.len(), 2);

    let mut cf2 = empty_file();
    cf2.events_observer = Some(vec![EventObserverConfigFile {
        endpoint: "localhost:30000".to_string(),
        events_keys: vec!["a::b::c".to_string()],
    }]);
    let r = Config::from_config_file(cf2, None);
    assert_eq!(r.err(), Some(ConfigError::InvalidEventKey));
}

#[test]
fn env_override_appends_one_observer() {
    // with no document observers: exactly one appears
    let c = Config::from_config_file(empty_file(), Some("localhost:9999".to_string())).unwrap();
    assert_eq!(c.events_observers.len(), 1);
    assert_eq!(c.events_observers[0].endpoint, "localhost:9999");
    assert_eq!(c.events_observers[0].events_keys.len(), 1);
    assert!(matches!(
        c.events_observers[0].events_keys[0],
        node_config::EventKeyType::AnyEvent
    ));

    // with one document observer: the override lands after it
    let mut cf = empty_file();
    cf.events_observer = Some(vec![EventObserverConfigFile {
        endpoint: "first:1".to_string(),
        events_keys: vec!["*".to_string()],
    }]);
    let c2 = Config::from_config_file(cf, Some("second:2".to_string())).unwrap();
    assert_eq!(c2.events_observers.len(), 2);
    assert_eq!(c2.events_observers[0].endpoint, "first:1");
    assert_eq!(c2.events_observers[1].endpoint, "second:2");
}

#[test]
fn heartbeat_override_leaves_other_tuning_at_defaults() {
    let mut cf = empty_file();
    let mut t = empty_connection_file();
    t.heartbeat = Some(12345);
    cf.connection_options = Some(t);
    let c = Config::from_config_file(cf, None).unwrap();
    let base = Config::from_config_file(empty_file(), None).unwrap();
    let mut expected = base.connection_options;
    expected.heartbeat = 12345;
    assert_eq!(c.connection_options, expected);
}

#[test]
fn tuning_nested_limits_merge_independently() {
    let mut cf = empty_file();
    let mut t = empty_connection_file();
    t.read_only_call_limit_runtime = Some(424242);
    t.dns_timeout = Some(99);
    cf.connection_options = Some(t);
    let c = Config::from_config_file(cf, None).unwrap();
    assert_eq!(c.connection_options.read_only_call_limit.runtime, 424242);
    assert_eq!(c.connection_options.read_only_call_limit.write_length, 0);
    assert_eq!(c.connection_options.dns_timeout, 99);
    assert_eq!(c.connection_options.heartbeat, 60000);
}

#[test]
fn port_derivation_saturates() {
    assert_eq!(derive_port(0xff, 0xff), 65535);
    assert_eq!(derive_port(0, 0), 1024);
    assert_eq!(derive_port(0xfb, 0xff), 65535);
    assert_eq!(derive_port(0xfb, 0xfe), 65534);
    assert_eq!(derive_port(0x12, 0x34), 0x1234 + 1024);
}

#[test]
fn resolution_is_deterministic_with_pinned_node() {
    let build = || {
        let mut cf = empty_file();
        let mut n = empty_node_file();
        n.name = Some("n".to_string());
        n.seed = Some("00ff".to_string());
        n.working_dir = Some("/w".to_string());
        n.rpc_bind = Some("127.0.0.1:1".to_string());
        n.p2p_bind = Some("127.0.0.1:2".to_string());
        cf.node = Some(n);
        cf
    };
    let c1 = Config::from_config_file(build(), None).unwrap();
    let c2 = Config::from_config_file(build(), None).unwrap();
    assert_eq!(c1.node.name, c2.node.name);
    assert_eq!(c1.node.seed, c2.node.seed);
    assert_eq!(c1.node.working_dir, c2.node.working_dir);
    assert_eq!(c1.node.rpc_bind, c2.node.rpc_bind);
    assert_eq!(c1.node.p2p_bind, c2.node.p2p_bind);
    assert_eq!(c1.burnchain.spv_headers_path, c2.burnchain.spv_headers_path);
    assert_eq!(c1.connection_options, c2.connection_options);
}

#[test]
fn resolving_empty_twice_agrees_except_derived_identity() {
    let c1 = Config::from_config_file(empty_file(), None).unwrap();
    let c2 = Config::from_config_file(empty_file(), None).unwrap();
    assert_eq!(c1.burnchain.mode, c2.burnchain.mode);
    assert_eq!(c1.burnchain.chain, c2.burnchain.chain);
    assert_eq!(c1.node.seed, c2.node.seed);
    assert_eq!(c1.connection_options, c2.connection_options);
    assert!(c1.node.working_dir.starts_with("/tmp/stacks-testnet-"));
    assert!(c2.node.working_dir.starts_with("/tmp/stacks-testnet-"));
}

#[test]
fn resolve_with_baseline_is_pure() {
    let baseline = || node_config::NodeConfig {
        name: "helium-node".to_string(),
        seed: vec![0u8; 32],
        working_dir: "/tmp/fixed".to_string(),
        rpc_bind: "127.0.0.1:20443".to_string(),
        p2p_bind: "127.0.0.1:20444".to_string(),
        bootstrap_node: None,
    };
    let c1 = Config::resolve_with_baseline(empty_file(), baseline(), None).unwrap();
    let c2 = Config::resolve_with_baseline(empty_file(), baseline(), None).unwrap();
    assert_eq!(c1.node.working_dir, c2.node.working_dir);
    assert_eq!(c1.node.working_dir, "/tmp/fixed");
    assert_eq!(c1.node.rpc_bind, c2.node.rpc_bind);
    assert_eq!(c1.burnchain.mode, c2.burnchain.mode);
    assert_eq!(c1.connection_options, c2.connection_options);
}

#[test]
fn path_formatters() {
    let mut cf = empty_file();
    let mut n = empty_node_file();
    n.working_dir = Some("/w".to_string());
    cf.node = Some(n);
    let c = Config::from_config_file(cf, None).unwrap();
    assert_eq!(c.get_burnchain_path(), "/w/burnchain/");
    assert_eq!(c.get_burn_db_path(), "/w/burnchain/db");
    assert_eq!(c.get_burn_db_file_path(), "/w/burnchain/db/bitcoin/regtest/burn.db/");
    assert_eq!(c.get_chainstate_path(), "/w/chainstate/");
    assert_eq!(c.get_peer_db_path(), "/w/peer_db.sqlite");
    assert_eq!(c.node.get_burnchain_path(), "/w/burnchain");
    assert_eq!(c.node.get_default_spv_headers_path(), "/w/burnchain/spv-headers.dat");
}

#[test]
fn rpc_url_formats_scheme_host_port() {
    let mut c = Config::from_config_file(empty_file(), None).unwrap();
    assert_eq!(c.burnchain.get_rpc_url(), "http://127.0.0.1:8332");
    c.burnchain.rpc_ssl = true;
    c.burnchain.rpc_port = 443;
    assert_eq!(c.burnchain.get_rpc_url(), "https://127.0.0.1:443");
}

#[test]
fn hex_rendering_is_lowercase_two_digits_per_byte() {
    let v: Vec<u8> = vec![0x00, 0xde, 0xad, 0x0f];
    assert_eq!(node_config::numeric::hex_string(&v), "00dead0f");
}
