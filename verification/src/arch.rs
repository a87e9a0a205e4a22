//! Architecture Dependent Definitions
//!
//! Depending on the architecture, the linux ABI can differ greatly. This
//! module contains the architecture dependent definitions for each supported
//! architecture.
//!
//! All definitions for all architectures are always available, whatever the
//! target of the compilation is.

pub mod x86;
pub mod x86_64;
