//! The kinds of failure of a session with the light strip.

use vstd::prelude::*;

verus! {

/// Why a session ended. Every failure is fatal to its session: nothing is
/// retried by the library.
#[derive(Copy, Clone, Debug, PartialEq, Eq, Structural)]
pub enum ErrorKind {
    /// No adapter is present, or a query of the adapter failed.
    AdapterError,
    /// The scan could not be started or stopped, or failed while running.
    ScanError,
    /// Connecting or disconnecting failed, or the link was lost.
    ConnectionError,
    /// The enumeration of services and characteristics failed.
    DiscoveryError,
    /// A read, write or subscription on a characteristic failed.
    TransportError,
    /// A command carries a number outside the range the protocol defines.
    EncodingAmbiguity,
}

} // verus!
