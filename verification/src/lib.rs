//! A ping-pong buffer: two elements, one reserved for the producer and one for
//! the consumer, whose roles swap when neither reading nor writing is in
//! progress.  The state of the buffer is a single byte of flags; every
//! transition of that byte is verified against an abstract model.

pub mod flags;
pub mod model;
pub mod buffer;
pub mod laws;

pub use buffer::{Buffer, Ref, RefMut};
pub use model::Slot;
