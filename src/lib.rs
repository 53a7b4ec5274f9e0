//! Solar phase tracking: classification of the sun's altitude into named
//! phases and the per-tick decisions of the tracking loop.
pub mod phase;
pub mod tracker;
pub mod noon;
