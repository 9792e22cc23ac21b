//! Configuration resolution engine for a node runtime: merges a sparse,
//! all-optional configuration document against compiled-in defaults, derives
//! values that cannot be set directly, validates cross-field constraints and
//! parses the event-subscription key grammar, producing one fully resolved,
//! internally consistent configuration value.

pub mod burnchain;
pub mod connection;
pub mod events;
pub mod node;
pub mod numeric;
pub mod principal;
pub mod resolve;
pub mod strutil;

pub use burnchain::{BurnchainConfig, BurnchainConfigFile, MagicBytes};
pub use connection::{ConnectionOptions, ConnectionOptionsFile, ReadOnlyCallLimit};
pub use events::{EventKeyType, EventObserverConfig, EventObserverConfigFile};
pub use node::{Neighbor, NeighborKey, NodeConfig, NodeConfigFile};
pub use principal::{AssetIdentifier, PrincipalData, QualifiedContractIdentifier};
pub use resolve::{Config, ConfigFile, InitialBalance, InitialBalanceFile};

use vstd::prelude::*;

verus! {

/// Why a resolution attempt was rejected. Every variant is fatal: the
/// caller must not start the node on a document that produced one.
#[derive(Clone, Copy, PartialEq, Eq, Structural, Debug)]
pub enum ConfigError {
    /// The node seed string is not valid hexadecimal.
    InvalidSeedHex,
    /// The bootstrap-peer descriptor is malformed.
    InvalidBootstrapNode,
    /// The operating mode is outside the supported set.
    UnsupportedMode,
    /// Helium mode requires a local mining public key.
    MissingMiningPublicKey,
    /// An initial-balance address is not a standard principal.
    InvalidBalanceAddress,
    /// An event subscription key does not match the grammar.
    InvalidEventKey,
}

/// Derives a non-privileged port from two bytes read as a big-endian 16-bit
/// integer, shifted out of the privileged range with saturating arithmetic.
pub fn derive_port(hi: u8, lo: u8) -> (r: u16)
    ensures
        r == spec_derive_port(hi, lo),
        1024 <= r <= 65535,
{
    let base: u16 = (hi as u16) * 256 + (lo as u16);
    if base >= 64512 {
        65535
    } else {
        base + 1024
    }
}

/// The value of `derive_port`: big-endian pair plus 1024, saturating at the
/// largest 16-bit value.
pub open spec fn spec_derive_port(hi: u8, lo: u8) -> u16 {
    let base = hi * 256 + lo;
    if base + 1024 > 65535 {
        65535u16
    } else {
        (base + 1024) as u16
    }
}

} // verus!
