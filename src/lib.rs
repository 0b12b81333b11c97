//! Child indices of hierarchical deterministic key derivation paths: the
//! normal/hardened distinction, the raw 32-bit wire encoding, and the
//! textual form `n` / `n'`.
pub mod decimal;
pub mod derivation_path;

pub use derivation_path::{ChildIndex, DerivationPath, DerivationPathError, HARDENED_BIT};
