//! Bonding-curve token issuance: exact fixed-point curve arithmetic, fee
//! splitting, fair-launch escrow and the trading state machines built on them.

pub mod bucket;
pub mod curve_math;
pub mod decimal;
pub mod error;
pub mod fair_launch;
pub mod fees;
pub mod launch_parameters;
pub mod laws;
pub mod radix_meme_main;
pub mod radix_meme_token_curve;
pub mod token_curve;
pub mod token_curves;
