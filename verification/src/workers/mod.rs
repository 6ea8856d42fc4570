//! Locating the binaries of the PVF workers.
//!
//! A search asks its questions one at a time (does this file exist, is it executable, which
//! version does it report) and decides on the answers. [`search`] holds the searches, [`model`]
//! says what they find on a given host, and [`laws`] ties the two together.

pub mod laws;
pub mod model;
pub mod search;
