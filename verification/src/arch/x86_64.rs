//! Architecture Definitions for x86_64
//!
//! This module provides the linux-kernel API definitions specific to x86_64.
//! They match the official API of the linux kernel.

pub mod nr;
