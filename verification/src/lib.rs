//! A small 2D rendering core: colours, per-frame geometry batching and the
//! frame lifecycle, with every rule stated as a contract.

pub mod graphics;
