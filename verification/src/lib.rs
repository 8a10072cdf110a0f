//! A minimal deterministic ledger: account balances with an atomic,
//! overflow-checked transfer primitive, a global block counter, and
//! per-account nonces. The two state modules (balances and system) are
//! generic over a shared configuration trait that fixes the account
//! identifier and numeric types once, and a runtime root instantiates
//! both modules against a single concrete configuration.

pub mod account;
pub mod balances;
pub mod numeric;
pub mod runtime;
pub mod store;
pub mod system;

pub use runtime::Runtime;
