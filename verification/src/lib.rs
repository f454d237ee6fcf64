//! Kernel-width selection for the DFlash drafter's paged-indirect attention,
//! and the rank-agreed restore decision for Marconi checkpoints.

pub mod attn_width;
pub mod decimal;
pub mod snap_agree;
