//! Screenshot testing for immediate-mode user interfaces: captured frames are
//! compared with stored baselines through a perceptual fingerprint.
pub mod codec;
pub mod distance;
pub mod frame;
pub mod golden;
