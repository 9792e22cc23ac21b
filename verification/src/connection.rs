//! Peer-connection tuning: the resolved numeric limits, the partial
//! document form, the compiled-in baseline, and the field-wise right-biased
//! merge of the two.

use vstd::prelude::*;

verus! {

/// Budget limits for read-only call execution.
#[derive(PartialEq, Eq, Structural, Clone, Copy, Debug)]
pub struct ReadOnlyCallLimit {
    pub write_length: u64,
    pub write_count: u64,
    pub read_length: u64,
    pub read_count: u64,
    pub runtime: u64,
}

/// The resolved connection-tuning record: every limit present.
#[derive(PartialEq, Eq, Structural, Clone, Copy, Debug)]
pub struct ConnectionOptions {
    pub inbox_maxlen: usize,
    pub outbox_maxlen: usize,
    pub timeout: u64,
    pub idle_timeout: u64,
    pub heartbeat: u32,
    pub private_key_lifetime: u64,
    pub num_neighbors: u64,
    pub num_clients: u64,
    pub soft_num_neighbors: u64,
    pub soft_num_clients: u64,
    pub max_neighbors_per_host: u64,
    pub max_clients_per_host: u64,
    pub soft_max_neighbors_per_host: u64,
    pub soft_max_neighbors_per_org: u64,
    pub soft_max_clients_per_host: u64,
    pub walk_interval: u64,
    pub dns_timeout: u128,
    pub max_inflight_blocks: u64,
    pub maximum_call_argument_size: u32,
    pub read_only_call_limit: ReadOnlyCallLimit,
}

/// The connection-tuning section as the document carries it: every limit
/// independently optional, the read-only call limits flattened.
pub struct ConnectionOptionsFile {
    pub inbox_maxlen: Option<usize>,
    pub outbox_maxlen: Option<usize>,
    pub timeout: Option<u64>,
    pub idle_timeout: Option<u64>,
    pub heartbeat: Option<u32>,
    pub private_key_lifetime: Option<u64>,
    pub num_neighbors: Option<u64>,
    pub num_clients: Option<u64>,
    pub soft_num_neighbors: Option<u64>,
    pub soft_num_clients: Option<u64>,
    pub max_neighbors_per_host: Option<u64>,
    pub max_clients_per_host: Option<u64>,
    pub soft_max_neighbors_per_host: Option<u64>,
    pub soft_max_neighbors_per_org: Option<u64>,
    pub soft_max_clients_per_host: Option<u64>,
    pub walk_interval: Option<u64>,
    pub dns_timeout: Option<u128>,
    pub max_inflight_blocks: Option<u64>,
    pub read_only_call_limit_write_length: Option<u64>,
    pub read_only_call_limit_read_length: Option<u64>,
    pub read_only_call_limit_write_count: Option<u64>,
    pub read_only_call_limit_read_count: Option<u64>,
    pub read_only_call_limit_runtime: Option<u64>,
    pub maximum_call_argument_size: Option<u32>,
}

/// The compiled-in baseline tuning record. Lifetime and interval ceilings
/// meant as "unbounded" use the largest signed 64-bit value, because a
/// persistence layer downstream stores them as signed 64-bit integers.
pub open spec fn spec_default_connection_options() -> ConnectionOptions {
    ConnectionOptions {
        inbox_maxlen: 100,
        outbox_maxlen: 100,
        timeout: 5000,
        idle_timeout: 15,
        heartbeat: 60000,
        private_key_lifetime: 9223372036854775807,
        num_neighbors: 4,
        num_clients: 1000,
        soft_num_neighbors: 4,
        soft_num_clients: 1000,
        max_neighbors_per_host: 10,
        max_clients_per_host: 1000,
        soft_max_neighbors_per_host: 10,
        soft_max_neighbors_per_org: 100,
        soft_max_clients_per_host: 1000,
        walk_interval: 9223372036854775807,
        dns_timeout: 15000,
        max_inflight_blocks: 6,
        maximum_call_argument_size: 0,
        read_only_call_limit: ReadOnlyCallLimit {
            write_length: 0,
            write_count: 0,
            read_length: 0,
            read_count: 0,
            runtime: 0,
        },
    }
}

/// Builds the baseline tuning record.
pub fn default_connection_options() -> (r: ConnectionOptions)
    ensures
        r == spec_default_connection_options(),
{
    ConnectionOptions {
        inbox_maxlen: 100,
        outbox_maxlen: 100,
        timeout: 5000,
        idle_timeout: 15,
        heartbeat: 60000,
        private_key_lifetime: 9223372036854775807,
        num_neighbors: 4,
        num_clients: 1000,
        soft_num_neighbors: 4,
        soft_num_clients: 1000,
        max_neighbors_per_host: 10,
        max_clients_per_host: 1000,
        soft_max_neighbors_per_host: 10,
        soft_max_neighbors_per_org: 100,
        soft_max_clients_per_host: 1000,
        walk_interval: 9223372036854775807,
        dns_timeout: 15000,
        max_inflight_blocks: 6,
        maximum_call_argument_size: 0,
        read_only_call_limit: ReadOnlyCallLimit {
            write_length: 0,
            write_count: 0,
            read_length: 0,
            read_count: 0,
            runtime: 0,
        },
    }
}

pub open spec fn pick_usize(o: Option<usize>, d: usize) -> usize {
    match o {
        Some(x) => x,
        None => d,
    }
}

pub open spec fn pick_u64(o: Option<u64>, d: u64) -> u64 {
    match o {
        Some(x) => x,
        None => d,
    }
}

pub open spec fn pick_u32(o: Option<u32>, d: u32) -> u32 {
    match o {
        Some(x) => x,
        None => d,
    }
}

pub open spec fn pick_u128(o: Option<u128>, d: u128) -> u128 {
    match o {
        Some(x) => x,
        None => d,
    }
}

/// The field-wise right-biased merge: each field takes the partial value if
/// present, else the default's; the nested read-only limits merge
/// independently, each against the default's nested record.
pub open spec fn spec_merge_connection_options(p: ConnectionOptionsFile, d: ConnectionOptions) -> ConnectionOptions {
    ConnectionOptions {
        inbox_maxlen: pick_usize(p.inbox_maxlen, d.inbox_maxlen),
        outbox_maxlen: pick_usize(p.outbox_maxlen, d.outbox_maxlen),
        timeout: pick_u64(p.timeout, d.timeout),
        idle_timeout: pick_u64(p.idle_timeout, d.idle_timeout),
        heartbeat: pick_u32(p.heartbeat, d.heartbeat),
        private_key_lifetime: pick_u64(p.private_key_lifetime, d.private_key_lifetime),
        num_neighbors: pick_u64(p.num_neighbors, d.num_neighbors),
        num_clients: pick_u64(p.num_clients, d.num_clients),
        soft_num_neighbors: pick_u64(p.soft_num_neighbors, d.soft_num_neighbors),
        soft_num_clients: pick_u64(p.soft_num_clients, d.soft_num_clients),
        max_neighbors_per_host: pick_u64(p.max_neighbors_per_host, d.max_neighbors_per_host),
        max_clients_per_host: pick_u64(p.max_clients_per_host, d.max_clients_per_host),
        soft_max_neighbors_per_host: pick_u64(
            p.soft_max_neighbors_per_host,
            d.soft_max_neighbors_per_host,
        ),
        soft_max_neighbors_per_org: pick_u64(
            p.soft_max_neighbors_per_org,
            d.soft_max_neighbors_per_org,
        ),
        soft_max_clients_per_host: pick_u64(
            p.soft_max_clients_per_host,
            d.soft_max_clients_per_host,
        ),
        walk_interval: pick_u64(p.walk_interval, d.walk_interval),
        dns_timeout: pick_u128(p.dns_timeout, d.dns_timeout),
        max_inflight_blocks: pick_u64(p.max_inflight_blocks, d.max_inflight_blocks),
        maximum_call_argument_size: pick_u32(
            p.maximum_call_argument_size,
            d.maximum_call_argument_size,
        ),
        read_only_call_limit: ReadOnlyCallLimit {
            write_length: pick_u64(
                p.read_only_call_limit_write_length,
                d.read_only_call_limit.write_length,
            ),
            write_count: pick_u64(
                p.read_only_call_limit_write_count,
                d.read_only_call_limit.write_count,
            ),
            read_length: pick_u64(
                p.read_only_call_limit_read_length,
                d.read_only_call_limit.read_length,
            ),
            read_count: pick_u64(
                p.read_only_call_limit_read_count,
                d.read_only_call_limit.read_count,
            ),
            runtime: pick_u64(p.read_only_call_limit_runtime, d.read_only_call_limit.runtime),
        },
    }
}

/// Merges the optional tuning section against the defaults: an absent
/// section yields the defaults unchanged.
pub fn merge_connection_options(p: Option<ConnectionOptionsFile>, d: ConnectionOptions) -> (r:
    ConnectionOptions)
    ensures
        r == (match p {
            Some(pf) => spec_merge_connection_options(pf, d),
            None => d,
        }),
{
    match p {
        None => d,
        Some(pf) => ConnectionOptions {
            inbox_maxlen: match pf.inbox_maxlen {
                Some(x) => x,
                None => d.inbox_maxlen,
            },
            outbox_maxlen: match pf.outbox_maxlen {
                Some(x) => x,
                None => d.outbox_maxlen,
            },
            timeout: match pf.timeout {
                Some(x) => x,
                None => d.timeout,
            },
            idle_timeout: match pf.idle_timeout {
                Some(x) => x,
                None => d.idle_timeout,
            },
            heartbeat: match pf.heartbeat {
                Some(x) => x,
                None => d.heartbeat,
            },
            private_key_lifetime: match pf.private_key_lifetime {
                Some(x) => x,
                None => d.private_key_lifetime,
            },
            num_neighbors: match pf.num_neighbors {
                Some(x) => x,
                None => d.num_neighbors,
            },
            num_clients: match pf.num_clients {
                Some(x) => x,
                None => d.num_clients,
            },
            soft_num_neighbors: match pf.soft_num_neighbors {
                Some(x) => x,
                None => d.soft_num_neighbors,
            },
            soft_num_clients: match pf.soft_num_clients {
                Some(x) => x,
                None => d.soft_num_clients,
            },
            max_neighbors_per_host: match pf.max_neighbors_per_host {
                Some(x) => x,
                None => d.max_neighbors_per_host,
            },
            max_clients_per_host: match pf.max_clients_per_host {
                Some(x) => x,
                None => d.max_clients_per_host,
            },
            soft_max_neighbors_per_host: match pf.soft_max_neighbors_per_host {
                Some(x) => x,
                None => d.soft_max_neighbors_per_host,
            },
            soft_max_neighbors_per_org: match pf.soft_max_neighbors_per_org {
                Some(x) => x,
                None => d.soft_max_neighbors_per_org,
            },
            soft_max_clients_per_host: match pf.soft_max_clients_per_host {
                Some(x) => x,
                None => d.soft_max_clients_per_host,
            },
            walk_interval: match pf.walk_interval {
                Some(x) => x,
                None => d.walk_interval,
            },
            dns_timeout: match pf.dns_timeout {
                Some(x) => x,
                None => d.dns_timeout,
            },
            max_inflight_blocks: match pf.max_inflight_blocks {
                Some(x) => x,
                None => d.max_inflight_blocks,
            },
            maximum_call_argument_size: match pf.maximum_call_argument_size {
                Some(x) => x,
                None => d.maximum_call_argument_size,
            },
            read_only_call_limit: ReadOnlyCallLimit {
                write_length: match pf.read_only_call_limit_write_length {
                    Some(x) => x,
                    None => d.read_only_call_limit.write_length,
                },
                write_count: match pf.read_only_call_limit_write_count {
                    Some(x) => x,
                    None => d.read_only_call_limit.write_count,
                },
                read_length: match pf.read_only_call_limit_read_length {
                    Some(x) => x,
                    None => d.read_only_call_limit.read_length,
                },
                read_count: match pf.read_only_call_limit_read_count {
                    Some(x) => x,
                    None => d.read_only_call_limit.read_count,
                },
                runtime: match pf.read_only_call_limit_runtime {
                    Some(x) => x,
                    None => d.read_only_call_limit.runtime,
                },
            },
        },
    }
}

/// A partial document that overrides only the heartbeat merges to a record
/// identical to the defaults in every other field.
pub proof fn lemma_merge_heartbeat_only(p: ConnectionOptionsFile, d: ConnectionOptions, hb: u32)
    requires
        p.heartbeat == Some(hb),
        p.inbox_maxlen is None,
        p.outbox_maxlen is None,
        p.timeout is None,
        p.idle_timeout is None,
        p.private_key_lifetime is None,
        p.num_neighbors is None,
        p.num_clients is None,
        p.soft_num_neighbors is None,
        p.soft_num_clients is None,
        p.max_neighbors_per_host is None,
        p.max_clients_per_host is None,
        p.soft_max_neighbors_per_host is None,
        p.soft_max_neighbors_per_org is None,
        p.soft_max_clients_per_host is None,
        p.walk_interval is None,
        p.dns_timeout is None,
        p.max_inflight_blocks is None,
        p.read_only_call_limit_write_length is None,
        p.read_only_call_limit_read_length is None,
        p.read_only_call_limit_write_count is None,
        p.read_only_call_limit_read_count is None,
        p.read_only_call_limit_runtime is None,
        p.maximum_call_argument_size is None,
    ensures
        spec_merge_connection_options(p, d) == (ConnectionOptions { heartbeat: hb, ..d }),
{
}

} // verus!
