//! Core of a mixture-of-experts surrogate library: the registry of Gaussian
//! process variants and the reading of their persisted form, and the
//! decisions of the Gaussian mixture that partitions the input space.
pub mod mixture;
pub mod surrogates;
