//! Polling driver logic for the SPI controllers and the fixed time base of the
//! Tegra X1.
//!
//! The library decides which register accesses a transaction with an SPI controller
//! consists of, in which order, and what each written word is. It never touches
//! hardware itself: a caller performs each [`spi::transaction::Request`] against the
//! controller's register block and reports back the word that was read.

pub mod bits;
pub mod spi;
pub mod timer;
