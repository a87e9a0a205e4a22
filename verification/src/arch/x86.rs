//! Architecture Definitions for x86
//!
//! This module provides the linux-kernel API definitions specific to x86.
//! They match the official API of the linux kernel.

pub mod nr;
