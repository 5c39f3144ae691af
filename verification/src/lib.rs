//! A contract-deployment factory over a ledger-like host.
//!
//! The factory deploys executable code as a new contract instance and invokes
//! the instance's initializer in the same atomic unit of work, so that no
//! third party can observe or tamper with an uninitialized instance.  The
//! address of the new instance is a pure function of the deploying factory's
//! identity, the owner on whose behalf it deploys, and a caller-chosen salt;
//! the host ledger rejects a second instantiation at an already-claimed
//! address.
//!
//! - [`values`] holds the plain value types: salts, code hashes, entry-point
//!   names and host values.
//! - [`addr`] holds ledger identities and the deterministic address
//!   derivation.
//! - [`host`] models the ledger-like host: uploaded code, claimed instances,
//!   authorization grants and the record of authorization requests.
//! - [`factory`] holds the factory itself: `deploy` and `calculate_address`.
//! - [`laws`] states and proves the library-wide properties that relate
//!   several operations.

pub mod addr;
pub mod factory;
pub mod host;
pub mod laws;
pub mod values;
