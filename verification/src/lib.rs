//! Host-side driver core for a DesignWare-style SD/MMC controller, written
//! without any I/O of its own.
//!
//! Every procedure of the driver is a small state machine. Beginning one
//! yields the first [`bus::Access`] that the platform has to perform;
//! `resume` takes the value that the access produced and yields the next
//! access, or the procedure's result. The platform owns the registers, the
//! FIFO window and the tick counter; the driver owns every decision.

pub mod bus;
pub mod sd;
pub mod serial;
pub mod timer;
