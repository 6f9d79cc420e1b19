//! Flash-programming algorithm core for a CC13x4/CC26x4 class part.
//!
//! The library holds the decision logic of the algorithm: the flash
//! geometry of the target, the translation of ROM driver status words
//! into typed results, the hardware-safety lifecycle (cache and
//! interrupt state around flash mutation), and the erase-all iteration
//! over sectors. The hardware itself — the ROM driver entry points,
//! the peripheral registers, the interrupt controller — is driven by a
//! thin unverified shell that consults this library for every decision.

pub mod device;
pub mod erase;
pub mod lifecycle;
pub mod model;
pub mod program;
pub mod status;
