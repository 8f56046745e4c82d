//! Spectral transforms for purely real signals.
//!
//! A length-`L` real signal has a conjugate-symmetric spectrum, so only the
//! first `L/2 + 1` complex bins carry information.  This crate verifies the
//! repacking machinery that exploits that symmetry: the buffer layout
//! arithmetic, the index pairing of the fold/unfold passes, and the size
//! validation, all stated over an opaque element type so that the numeric
//! kernel a caller supplies is pinned positionally by the contracts.

pub mod error;
pub mod layout;
pub mod repack;

pub use error::FftError;
pub use repack::zip3;
