//! The register-level rules of the STM32G4 ADC driver: what each setting and
//! trigger writes into the ADC registers. The writes themselves belong to the
//! firmware.

pub mod config;
pub mod injected;
pub mod regular;
pub mod trigger_edge;
