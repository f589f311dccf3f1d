//! Mining channel factory for a Stratum-V2 style pool or proxy.
//!
//! The crate owns the lifecycle of extended mining channels: pairing of
//! mining jobs with previous-block-hash events, allocation of extranonce
//! space, and validation of submitted shares against the three concentric
//! difficulty targets (downstream, upstream, bitcoin).

use vstd::prelude::*;

pub mod bytes;
pub mod extranonce;
pub mod factory;
pub mod hashing;
pub mod ids;
pub mod laws;
pub mod messages;
pub mod pool;
pub mod proxy;
pub mod u256;

verus! {

/// Errors surfaced by the channel factories.
#[derive(Clone, Copy, Debug, PartialEq, Eq, Structural)]
pub enum Error {
    /// A non-future job arrived although no previous-block hash has been seen.
    JobIsNotFutureButPrevHashNotPresent,
    /// A share names a channel this factory never opened.
    ShareDoNotMatchAnyChannel,
    /// A share arrived while no valid job or previous-block hash is held.
    ShareDoNotMatchAnyJob,
    /// No template is registered for the referenced job.
    NoTemplateForId,
    /// The coinbase rebuilt from a share does not parse as a transaction.
    InvalidCoinbase,
    /// The per-channel extranonce prefix space is used up.
    ExtranonceSpaceEnded,
}

} // verus!
