//! Supported devices.

pub mod pca9555;
pub mod pca9555_laws;
