//! Commitment registry, payment resolver and username ownership record of the
//! Alien gateway, with the multi-chain address book that sits beside them.
//!
//! Every operation is a pure transition on an explicit state value: the
//! surrounding host loads that state, calls one operation, and persists the
//! result together with the notifications that the operation recorded.

pub mod types;
pub mod errors;
pub mod contract_core;
pub mod store;
pub mod registration;
pub mod resolver;
pub mod gateway;
pub mod laws;
pub mod chain_registry;

pub use chain_registry::{ChainAddress, ChainRegistry, ChainRegistryEvent};
pub use contract_core::CoreContract;
pub use errors::{GatewayError, ResolverError};
pub use gateway::Contract;
pub use resolver::ResolveData;
pub use types::ChainId;
