//! The core fellowship: who is tracked, who is paid, and when ranks are gained and lost.
//!
//! An account is *inducted* as a candidate of rank zero, hands in *evidence*, and is *promoted*.
//! A member who is not *approved* within the demotion period of the rank may be *bumped* down by
//! anyone; a candidate who is not promoted in time may be bumped out.
//!
//! [`params`] holds the parameters, [`types`] the rest of the data, [`model`] the rules as
//! functions on abstract states, [`pallet`] the calls, [`outcomes`] what each call comes to, and
//! [`laws`] what follows for whole histories of calls.

pub mod laws;
pub mod model;
pub mod outcomes;
pub mod pallet;
pub mod params;
pub mod types;
