//! Human-paced keystroke delivery.
//!
//! Given a string, the library plans the dispatch of one character at a
//! time to an input-injection backend, spacing successive characters by
//! randomized, human-plausible delays.  The timing model and the
//! sequential dispatch-and-error-policy loop are verified; the
//! application around the library performs the actual waits and
//! injections and feeds their outcomes back into the verified state
//! machine.

pub mod config;
pub mod timing;
pub mod dispatch;
