//! An unbounded multi-producer, single-consumer channel for threads.
//!
//! Any number of [`Sender`]s hand values to one [`Reciever`]. The receiver
//! blocks while the channel is open and empty, and learns that the channel is
//! finished once every sender is gone and all queued values have been taken.
//!
//! The crate is laid out in layers:
//!
//! * [`model`] is the mathematics: the shared state as a value, and the
//!   function that each operation applies to it.
//! * [`state`] is the executable shared state, [`Critical`], whose methods are
//!   proved against the model.
//! * `sync` holds what is taken on trust of the standard library: its mutex,
//!   condition variable and shared pointer, and the exchange of a queue for an
//!   empty one.
//! * [`channel`] has the two endpoints and [`unbounded`].
//! * [`history`] and [`laws`] describe whole runs of a channel and prove what
//!   holds of every run: ordered delivery, conservation of values, and the
//!   behaviour after either side is gone.
use vstd::prelude::*;

pub mod channel;
pub mod history;
pub mod laws;
pub mod model;
pub mod state;
mod sync;

pub use channel::{unbounded, Reciever, SendErr, Sender};
pub use model::Core;
pub use state::Critical;
