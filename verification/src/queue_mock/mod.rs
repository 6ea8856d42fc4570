//! The mocked surroundings of a message queue: processors that record or count what they are
//! given, weights that tests set, and handlers that remember what they were told.

pub mod laws;
pub mod messages;
pub mod queues;
pub mod text;
pub mod weights;
