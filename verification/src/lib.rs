//! The core of a resource monitor for a single host.
//!
//! A sample is a snapshot of the counters that the kernel exposes for
//! cgroups, processes and the host as a whole. This library decides what
//! goes into a sample once the host has been read, derives from one sample,
//! or from two successive ones, the model that is shown to a user, and steps
//! through a time-ordered series of samples.
//!
//! - [`rate`]: rates and percentages between two readings of a counter.
//! - [`sample`]: the sample and its parts.
//! - [`collector`]: from what was read of the host to a sample.
//! - [`model`]: from samples to the model.
//! - [`store`]: seeking in a series of samples, and the cursor over it.
//! - [`view`]: the state of the interactive view.
//! - [`outside`]: what is taken on trust from other crates.
//!
//! Reading the host, the clock, the terminal and the stores on disk is left
//! to the program that uses the library.

pub mod rate;
pub mod sample;
pub mod outside;
pub mod collector;
pub mod model;
pub mod store;
pub mod view;
