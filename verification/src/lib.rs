//! Verified control core of an unattended drink dispenser.
//!
//! The crate holds every decision the dispenser makes when it actuates a
//! vending slot, as plain functions and small state machines whose behaviour
//! is stated in contracts and proved:
//!
//! * [`routes::sequencer`]: the drop sequencer, one step per hardware action;
//! * [`routes::guarantees`]: what holds of every drop, whatever the hardware
//!   answers;
//! * [`routes::latch`]: the debounce worker of the shared latch, and what
//!   holds of every opening;
//! * [`scheduler`]: the scheduling class held while a motor is active;
//! * [`routes::config`]: slot descriptors and the configuration grammar;
//! * [`routes::machine`]: slot reports, motor commands and the entry point of
//!   a drop;
//! * [`routes`]: what a request for a drop is answered with;
//! * [`text`]: decimal numbers and separated lists.
//!
//! Nothing here touches a device, a file or a clock. A driver performs each
//! action a state machine asks for and hands the answer back.

pub mod routes;
pub mod scheduler;
pub mod text;
