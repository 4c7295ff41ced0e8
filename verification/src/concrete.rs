//! The two concrete pointer flavors: the single-owner flavor under
//! [`rc::RcMark`] and the shared flavor under [`arc::ArcMark`]. Both run the
//! same verified store transitions; they differ in the concurrency contract
//! the flavor stands for, which the store model does not weaken or add to.

pub mod arc;
pub mod rc;
